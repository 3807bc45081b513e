//! Bringing a whole collection down, shard by shard.
use vstd::prelude::*;
use vstd::string::*;

use crate::cluster::{lists_reported, reports};
use crate::text::{
    decimal, decimal_is_the_only_numeral, decimal_text, is_numeral, join_texts, joined, texts,
};

verus! {

/// Everything that is needed to bring an entire collection down: every shard
/// that the server reports ends up in a local Edge Shard.
#[derive(Debug)]
pub struct CollectionSyncRequest {
    pub server_url: String,
    pub api_key: String,
    pub collection: String,
    /// The parent directory. Each shard gets its own directory in it.
    pub target_dir: String,
}

/// What a [`CollectionSyncRequest`] holds.
pub struct RequestView {
    pub server_url: Seq<char>,
    pub api_key: Seq<char>,
    pub collection: Seq<char>,
    pub target_dir: Seq<char>,
}

impl View for CollectionSyncRequest {
    type V = RequestView;

    open spec fn view(&self) -> RequestView {
        RequestView {
            server_url: self.server_url@,
            api_key: self.api_key@,
            collection: self.collection@,
            target_dir: self.target_dir@,
        }
    }
}

impl Clone for CollectionSyncRequest {
    fn clone(&self) -> (r: Self)
        ensures
            r@ == self@,
    {
        CollectionSyncRequest {
            server_url: self.server_url.clone(),
            api_key: self.api_key.clone(),
            collection: self.collection.clone(),
            target_dir: self.target_dir.clone(),
        }
    }
}

/// What happens while a collection is brought down.
#[derive(Debug)]
pub enum SyncEvent {
    /// The server has reported its shards.
    ShardsDiscovered(Vec<u32>),
    /// A shard is begun.
    ShardStarted { shard_id: u32, index: usize, total_shards: usize },
    /// A part of a shard has arrived. `total` is missing where the server did
    /// not announce a length; the window is then to treat the bar as
    /// indeterminate, and not to claim a precise percentage.
    Progress { shard_id: u32, downloaded: u64, total: Option<u64> },
    /// A shard has arrived and is unpacked in its own directory.
    ShardCompleted { shard_id: u32, summary: String },
    /// A shard has failed; the others are still tried.
    ShardFailed { shard_id: u32, error: String },
    /// All is over. An error means that a shard failed, or that the shards
    /// could not be found out.
    Done(Result<(), String>),
}

/// What a [`SyncEvent`] says.
pub enum EventView {
    ShardsDiscovered(Seq<u32>),
    ShardStarted { shard_id: u32, index: nat, total_shards: nat },
    Progress { shard_id: u32, downloaded: u64, total: Option<u64> },
    ShardCompleted { shard_id: u32, summary: Seq<char> },
    ShardFailed { shard_id: u32, error: Seq<char> },
    Done(Result<(), Seq<char>>),
}

impl View for SyncEvent {
    type V = EventView;

    open spec fn view(&self) -> EventView {
        match *self {
            SyncEvent::ShardsDiscovered(ids) => EventView::ShardsDiscovered(ids@),
            SyncEvent::ShardStarted { shard_id, index, total_shards } => EventView::ShardStarted {
                shard_id,
                index: index as nat,
                total_shards: total_shards as nat,
            },
            SyncEvent::Progress { shard_id, downloaded, total } => EventView::Progress {
                shard_id,
                downloaded,
                total,
            },
            SyncEvent::ShardCompleted { shard_id, summary } => EventView::ShardCompleted {
                shard_id,
                summary: summary@,
            },
            SyncEvent::ShardFailed { shard_id, error } => EventView::ShardFailed {
                shard_id,
                error: error@,
            },
            SyncEvent::Done(result) => EventView::Done(verdict_text(result)),
        }
    }
}

impl Clone for SyncEvent {
    fn clone(&self) -> (r: Self)
        ensures
            r@ == self@,
    {
        match self {
            SyncEvent::ShardsDiscovered(ids) => {
                let copy = ids.clone();
                assert(copy@ =~= ids@);
                SyncEvent::ShardsDiscovered(copy)
            },
            SyncEvent::ShardStarted { shard_id, index, total_shards } => SyncEvent::ShardStarted {
                shard_id: *shard_id,
                index: *index,
                total_shards: *total_shards,
            },
            SyncEvent::Progress { shard_id, downloaded, total } => SyncEvent::Progress {
                shard_id: *shard_id,
                downloaded: *downloaded,
                total: *total,
            },
            SyncEvent::ShardCompleted { shard_id, summary } => SyncEvent::ShardCompleted {
                shard_id: *shard_id,
                summary: summary.clone(),
            },
            SyncEvent::ShardFailed { shard_id, error } => SyncEvent::ShardFailed {
                shard_id: *shard_id,
                error: error.clone(),
            },
            SyncEvent::Done(Ok(())) => SyncEvent::Done(Ok(())),
            SyncEvent::Done(Err(error)) => SyncEvent::Done(Err(error.clone())),
        }
    }
}

/// What the verdict on a whole run says.
pub open spec fn verdict_text(verdict: Result<(), String>) -> Result<(), Seq<char>> {
    match verdict {
        Ok(()) => Ok(()),
        Err(error) => Err(error@),
    }
}

/// What a list of events says.
pub open spec fn events_said(events: Seq<SyncEvent>) -> Seq<EventView> {
    Seq::new(events.len(), |i: int| events[i]@)
}

/// What a fetched list of shards says.
pub open spec fn ids_or_text(fetched: Result<Vec<u32>, String>) -> Result<Seq<u32>, Seq<char>> {
    match fetched {
        Ok(ids) => Ok(ids@),
        Err(error) => Err(error@),
    }
}

/// What the outcome of one shard says.
pub open spec fn outcome_text(outcome: Result<String, String>) -> Result<Seq<char>, Seq<char>> {
    match outcome {
        Ok(summary) => Ok(summary@),
        Err(error) => Err(error@),
    }
}

/// The state of a [`SyncRun`]: all shards, the one in work, and what is noted of
/// those that failed before it.
#[verifier::ext_equal]
pub struct RunView {
    pub shard_ids: Seq<u32>,
    pub index: nat,
    pub failures: Seq<Seq<char>>,
}

/// The note on a shard that failed.
pub open spec fn failure_note(shard_id: u32, error: Seq<char>) -> Seq<char> {
    "shard "@ + decimal(shard_id as nat) + ": "@ + error
}

/// The verdict on a run over `total` shards, of which some failed.
pub open spec fn verdict(total: nat, failures: Seq<Seq<char>>) -> Result<(), Seq<char>> {
    if failures.len() == 0 {
        Ok(())
    } else {
        Err(
            decimal(failures.len()) + " of "@ + decimal(total) + " shard(s) failed: "@ + joined(
                failures,
                "; "@,
            ),
        )
    }
}

/// What follows once the shards before `index` are dealt with: the start of
/// that shard, or the verdict where there is none left.
pub open spec fn proceed(shard_ids: Seq<u32>, index: nat, failures: Seq<Seq<char>>) -> (
    Seq<EventView>,
    Option<RunView>,
) {
    if index < shard_ids.len() {
        (
            seq![
                EventView::ShardStarted {
                    shard_id: shard_ids[index as int],
                    index,
                    total_shards: shard_ids.len(),
                },
            ],
            Some(RunView { shard_ids, index, failures }),
        )
    } else {
        (seq![EventView::Done(verdict(shard_ids.len(), failures))], None)
    }
}

/// What follows once the shards are found out, or are not.
pub open spec fn begun(fetched: Result<Seq<u32>, Seq<char>>) -> (Seq<EventView>, Option<RunView>) {
    match fetched {
        Ok(ids) => {
            let next = proceed(ids, 0, Seq::empty());
            (seq![EventView::ShardsDiscovered(ids)] + next.0, next.1)
        },
        Err(error) => (seq![EventView::Done(Err(error))], None),
    }
}

/// How a shard is reported once it is dealt with.
pub open spec fn shard_report(shard_id: u32, outcome: Result<Seq<char>, Seq<char>>) -> EventView {
    match outcome {
        Ok(summary) => EventView::ShardCompleted { shard_id, summary },
        Err(error) => EventView::ShardFailed { shard_id, error },
    }
}

/// The notes on failed shards, with that on one more shard where it failed.
pub open spec fn noted(
    failures: Seq<Seq<char>>,
    shard_id: u32,
    outcome: Result<Seq<char>, Seq<char>>,
) -> Seq<Seq<char>> {
    match outcome {
        Ok(_) => failures,
        Err(error) => failures.push(failure_note(shard_id, error)),
    }
}

/// What follows once the shard in work is dealt with.
pub open spec fn advanced(run: RunView, outcome: Result<Seq<char>, Seq<char>>) -> (
    Seq<EventView>,
    Option<RunView>,
) {
    let shard_id = run.shard_ids[run.index as int];
    let next = proceed(run.shard_ids, run.index + 1, noted(run.failures, shard_id, outcome));
    (seq![shard_report(shard_id, outcome)] + next.0, next.1)
}

/// A run over the shards of a collection that has a shard in work. What is to
/// be done about that shard is done elsewhere; its outcome decides how the run
/// goes on.
#[derive(Debug)]
pub struct SyncRun {
    shard_ids: Vec<u32>,
    index: usize,
    failures: Vec<String>,
}

/// The state of a run that may be over.
pub open spec fn run_state(run: Option<SyncRun>) -> Option<RunView> {
    match run {
        Some(run) => Some(run@),
        None => None,
    }
}

impl View for SyncRun {
    type V = RunView;

    closed spec fn view(&self) -> RunView {
        RunView {
            shard_ids: self.shard_ids@,
            index: self.index as nat,
            failures: texts(self.failures@),
        }
    }
}

impl SyncRun {
    #[verifier::type_invariant]
    spec fn has_shard_in_work(self) -> bool {
        self.index < self.shard_ids.len()
    }

    /// Starts a run once the shards are found out. The events come first; then
    /// the run has a shard in work, or there is none and all is over.
    pub fn begin(fetched: Result<Vec<u32>, String>) -> (r: (Vec<SyncEvent>, Option<SyncRun>))
        ensures
            (events_said(r.0@), run_state(r.1)) == begun(ids_or_text(fetched)),
    {
        let ghost said = begun(ids_or_text(fetched));
        let mut events: Vec<SyncEvent> = Vec::new();
        match fetched {
            Ok(ids) => {
                let copy = ids.clone();
                assert(copy@ =~= ids@);
                events.push(SyncEvent::ShardsDiscovered(copy));
                let failures: Vec<String> = Vec::new();
                assert(texts(failures@) =~= Seq::empty());
                let run = Self::go_on(ids, 0, failures, &mut events);
                assert(events_said(events@) =~= said.0);
                (events, run)
            },
            Err(error) => {
                events.push(SyncEvent::Done(Err(error)));
                assert(events_said(events@) =~= said.0);
                (events, None)
            },
        }
    }

    /// The shard in work.
    pub fn shard_id(&self) -> (r: u32)
        ensures
            r == self@.shard_ids[self@.index as int],
            self@.index < self@.shard_ids.len(),
    {
        proof {
            use_type_invariant(self);
        }
        self.shard_ids[self.index]
    }

    /// Goes on once the shard in work is dealt with, be it a failure or not. The
    /// events come first; then the next shard is in work, or all is over.
    pub fn advance(self, outcome: Result<String, String>) -> (r: (Vec<SyncEvent>, Option<SyncRun>))
        ensures
            (events_said(r.0@), run_state(r.1)) == advanced(self@, outcome_text(outcome)),
    {
        let ghost said = advanced(self@, outcome_text(outcome));
        proof {
            use_type_invariant(&self);
        }
        let mut events: Vec<SyncEvent> = Vec::new();
        let SyncRun { shard_ids, index, failures } = self;
        let mut failures = failures;
        let shard_id: u32 = shard_ids[index];
        let ghost noted_before = texts(failures@);
        match outcome {
            Ok(summary) => {
                events.push(SyncEvent::ShardCompleted { shard_id, summary });
            },
            Err(error) => {
                let note = "shard ".to_owned().concat(
                    decimal_text(shard_id as u64).as_str(),
                ).concat(": ").concat(error.as_str());
                failures.push(note);
                assert(texts(failures@) =~= noted_before.push(failure_note(shard_id, error@)));
                events.push(SyncEvent::ShardFailed { shard_id, error });
            },
        }
        assert(texts(failures@) == noted(noted_before, shard_id, outcome_text(outcome)));
        let run = Self::go_on(shard_ids, index + 1, failures, &mut events);
        assert(events_said(events@) =~= said.0);
        (events, run)
    }

    fn go_on(
        shard_ids: Vec<u32>,
        index: usize,
        failures: Vec<String>,
        events: &mut Vec<SyncEvent>,
    ) -> (r: Option<SyncRun>)
        ensures
            run_state(r) == proceed(shard_ids@, index as nat, texts(failures@)).1,
            events_said(final(events)@) == events_said(old(events)@) + proceed(
                shard_ids@,
                index as nat,
                texts(failures@),
            ).0,
    {
        let ghost said = events_said(events@) + proceed(
            shard_ids@,
            index as nat,
            texts(failures@),
        ).0;
        let total_shards: usize = shard_ids.len();
        if index < total_shards {
            let shard_id: u32 = shard_ids[index];
            events.push(SyncEvent::ShardStarted { shard_id, index, total_shards });
            assert(events_said(events@) =~= said);
            return Some(SyncRun { shard_ids, index, failures });
        }
        if failures.is_empty() {
            events.push(SyncEvent::Done(Ok(())));
        } else {
            let message = decimal_text(failures.len() as u64).concat(" of ").concat(
                decimal_text(total_shards as u64).as_str(),
            ).concat(" shard(s) failed: ").concat(join_texts(&failures, "; ").as_str());
            events.push(SyncEvent::Done(Err(message)));
        }
        assert(events_said(events@) =~= said);
        None
    }
}

/// The events from a state on, as the shards in work are dealt with one after
/// the other.
pub open spec fn later_events(
    run: Option<RunView>,
    outcomes: Seq<Result<Seq<char>, Seq<char>>>,
) -> Seq<EventView>
    decreases outcomes.len(),
{
    if run is Some && outcomes.len() > 0 {
        let next = advanced(run->0, outcomes[0]);
        next.0 + later_events(next.1, outcomes.drop_first())
    } else {
        Seq::empty()
    }
}

/// All events of a run.
pub open spec fn all_events(
    fetched: Result<Seq<u32>, Seq<char>>,
    outcomes: Seq<Result<Seq<char>, Seq<char>>>,
) -> Seq<EventView> {
    let start = begun(fetched);
    start.0 + later_events(start.1, outcomes)
}

/// Whether an event is the start of a shard.
pub open spec fn starts(event: EventView, shard_id: u32) -> bool {
    event matches EventView::ShardStarted { shard_id: id, .. } && id == shard_id
}

/// The notes on those of the first `n` shards that failed.
pub open spec fn notes_among(
    shard_ids: Seq<u32>,
    outcomes: Seq<Result<Seq<char>, Seq<char>>>,
    n: nat,
) -> Seq<Seq<char>>
    decreases n,
{
    if n == 0 {
        Seq::empty()
    } else {
        noted(
            notes_among(shard_ids, outcomes, (n - 1) as nat),
            shard_ids[n - 1],
            outcomes[n - 1],
        )
    }
}

proof fn events_from_a_shard_on(
    shard_ids: Seq<u32>,
    outcomes: Seq<Result<Seq<char>, Seq<char>>>,
    index: nat,
)
    requires
        outcomes.len() == shard_ids.len(),
        index < shard_ids.len(),
    ensures
        ({
            let total = shard_ids.len();
            let run = RunView { shard_ids, index, failures: notes_among(shard_ids, outcomes, index) };
            let events = later_events(Some(run), outcomes.skip(index as int));
            &&& events.len() == 2 * (total - index)
            &&& forall|i: int|
                #![trigger outcomes[i]]
                index <= i < total ==> events[2 * (i - index)] == shard_report(
                    shard_ids[i],
                    outcomes[i],
                )
            &&& forall|i: int|
                #![trigger shard_ids[i]]
                index < i < total ==> events[2 * (i - index) - 1] == (EventView::ShardStarted {
                    shard_id: shard_ids[i],
                    index: i as nat,
                    total_shards: total,
                })
            &&& events.last() == EventView::Done(
                verdict(total, notes_among(shard_ids, outcomes, total)),
            )
        }),
    decreases shard_ids.len() - index,
{
    let total = shard_ids.len();
    let run = RunView { shard_ids, index, failures: notes_among(shard_ids, outcomes, index) };
    let rest = outcomes.skip(index as int);
    let events = later_events(Some(run), rest);
    let next = advanced(run, rest[0]);
    assert(rest[0] == outcomes[index as int]);
    assert(noted(run.failures, shard_ids[index as int], rest[0]) == notes_among(
        shard_ids,
        outcomes,
        index + 1,
    ));
    assert(rest.drop_first() =~= outcomes.skip(index as int + 1));
    assert(events == next.0 + later_events(next.1, outcomes.skip(index as int + 1)));
    if index + 1 < total {
        events_from_a_shard_on(shard_ids, outcomes, index + 1);
        let later = later_events(next.1, outcomes.skip(index as int + 1));
        assert forall|i: int|
            #![trigger outcomes[i]]
            index <= i < total implies events[2 * (i - index)] == shard_report(
            shard_ids[i],
            outcomes[i],
        ) by {
            if i > index {
                assert(events[2 * (i - index)] == later[2 * (i - (index + 1))]);
            }
        }
        assert forall|i: int|
            #![trigger shard_ids[i]]
            index < i < total implies events[2 * (i - index) - 1] == (EventView::ShardStarted {
            shard_id: shard_ids[i],
            index: i as nat,
            total_shards: total,
        }) by {
            if i > index + 1 {
                assert(events[2 * (i - index) - 1] == later[2 * (i - (index + 1)) - 1]);
            }
        }
        assert(events.last() == later.last());
    } else {
        assert(outcomes.skip(index as int + 1) =~= Seq::empty());
        assert(later_events(next.1, outcomes.skip(index as int + 1)) =~= Seq::empty());
    }
}

/// A run announces the shards it found, tries each of them once and in order,
/// whatever became of those before, and ends in one verdict.
pub proof fn every_shard_is_tried_in_order(
    shard_ids: Seq<u32>,
    outcomes: Seq<Result<Seq<char>, Seq<char>>>,
)
    requires
        outcomes.len() == shard_ids.len(),
    ensures
        ({
            let total = shard_ids.len();
            let events = all_events(Ok(shard_ids), outcomes);
            &&& events.len() == 2 * total + 2
            &&& events[0] == EventView::ShardsDiscovered(shard_ids)
            &&& forall|i: int|
                #![trigger shard_ids[i]]
                0 <= i < total ==> events[2 * i + 1] == (EventView::ShardStarted {
                    shard_id: shard_ids[i],
                    index: i as nat,
                    total_shards: total,
                })
            &&& forall|i: int|
                #![trigger outcomes[i]]
                0 <= i < total ==> events[2 * i + 2] == shard_report(shard_ids[i], outcomes[i])
            &&& events.last() == EventView::Done(
                verdict(total, notes_among(shard_ids, outcomes, total)),
            )
        }),
{
    let total = shard_ids.len();
    let start = begun(Ok(shard_ids));
    let events = all_events(Ok(shard_ids), outcomes);
    assert(notes_among(shard_ids, outcomes, 0) == Seq::<Seq<char>>::empty());
    if total > 0 {
        events_from_a_shard_on(shard_ids, outcomes, 0);
        assert(outcomes.skip(0) =~= outcomes);
        let later = later_events(start.1, outcomes);
        assert forall|i: int|
            #![trigger shard_ids[i]]
            0 <= i < total implies events[2 * i + 1] == (EventView::ShardStarted {
            shard_id: shard_ids[i],
            index: i as nat,
            total_shards: total,
        }) by {
            if i > 0 {
                assert(events[2 * i + 1] == later[2 * i - 1]);
            }
        }
        assert forall|i: int|
            #![trigger outcomes[i]]
            0 <= i < total implies events[2 * i + 2] == shard_report(shard_ids[i], outcomes[i]) by {
            assert(events[2 * i + 2] == later[2 * (i - 0)]);
        }
        assert(events.last() == later.last());
    } else {
        assert(later_events(start.1, outcomes) =~= Seq::empty());
    }
}

/// Every shard is reported as what became of it, in the same words: as completed
/// if and only if it went well, and as failed if and only if it failed.
pub proof fn every_outcome_is_reported_as_it_is(
    shard_ids: Seq<u32>,
    outcomes: Seq<Result<Seq<char>, Seq<char>>>,
    i: int,
    text: Seq<char>,
)
    requires
        outcomes.len() == shard_ids.len(),
        0 <= i < shard_ids.len(),
    ensures
        ({
            let events = all_events(Ok(shard_ids), outcomes);
            let start = events[2 * i + 1];
            let report = events[2 * i + 2];
            &&& start == (EventView::ShardStarted {
                shard_id: shard_ids[i],
                index: i as nat,
                total_shards: shard_ids.len(),
            })
            &&& report == (EventView::ShardCompleted { shard_id: shard_ids[i], summary: text })
                <==> outcomes[i] == Ok::<Seq<char>, Seq<char>>(text)
            &&& report == (EventView::ShardFailed { shard_id: shard_ids[i], error: text })
                <==> outcomes[i] == Err::<Seq<char>, Seq<char>>(text)
            &&& report is ShardCompleted <==> outcomes[i] is Ok
            &&& report is ShardFailed <==> outcomes[i] is Err
        }),
{
    every_shard_is_tried_in_order(shard_ids, outcomes);
    let _ = shard_ids[i];
    let _ = outcomes[i];
}

/// A run begins with the shards as they were found, and with the first of them in
/// work. Where there are none, it is over at once, and well.
pub proof fn run_begins_with_the_first_shard(shard_ids: Seq<u32>, error: Seq<char>)
    ensures
        ({
            let (events, run) = begun(Ok(shard_ids));
            &&& events.len() == 2
            &&& events[0] == EventView::ShardsDiscovered(shard_ids)
            &&& if shard_ids.len() > 0 {
                &&& events[1] == (EventView::ShardStarted {
                    shard_id: shard_ids[0],
                    index: 0,
                    total_shards: shard_ids.len(),
                })
                &&& run == Some(RunView { shard_ids, index: 0, failures: Seq::empty() })
            } else {
                &&& events[1] == EventView::Done(Ok(()))
                &&& run is None
            }
        }),
        begun(Err(error)) == (seq![EventView::Done(Err(error))], None::<RunView>),
{
}

/// Once a shard is dealt with, a run reports it as what became of it and goes on
/// to the shard behind it, or ends where there is none. It never loses a shard,
/// nor a note, and notes a failure with the number of the shard and the words for
/// what went wrong.
pub proof fn run_goes_on_with_the_next_shard(
    run: RunView,
    outcome: Result<Seq<char>, Seq<char>>,
    digits: Seq<char>,
)
    requires
        run.index < run.shard_ids.len(),
        is_numeral(digits, run.shard_ids[run.index as int] as int),
    ensures
        ({
            let (events, next) = advanced(run, outcome);
            let shard_id = run.shard_ids[run.index as int];
            let failures = match outcome {
                Ok(_) => run.failures,
                Err(error) => run.failures.push("shard "@ + digits + ": "@ + error),
            };
            &&& events.len() == 2
            &&& match outcome {
                Ok(summary) => events[0] == (EventView::ShardCompleted { shard_id, summary }),
                Err(error) => events[0] == (EventView::ShardFailed { shard_id, error }),
            }
            &&& if run.index + 1 < run.shard_ids.len() {
                &&& events[1] == (EventView::ShardStarted {
                    shard_id: run.shard_ids[run.index as int + 1],
                    index: run.index + 1,
                    total_shards: run.shard_ids.len(),
                })
                &&& next == Some(
                    RunView { shard_ids: run.shard_ids, index: run.index + 1, failures },
                )
            } else {
                &&& events[1] matches EventView::Done(result)
                &&& result is Ok <==> run.failures.len() == 0 && outcome is Ok
                &&& next is None
            }
        }),
{
    decimal_is_the_only_numeral(digits, run.shard_ids[run.index as int] as nat);
}

/// The verdict on a run in which shards failed tells how many did, of how many,
/// and then for each of them, in order, its number and what went wrong.
/// `failed` are the places of the failed shards.
pub proof fn verdict_tells_of_every_failure(
    shard_ids: Seq<u32>,
    outcomes: Seq<Result<Seq<char>, Seq<char>>>,
    failed: Seq<int>,
    notes: Seq<Seq<char>>,
    digits: Seq<Seq<char>>,
    failed_digits: Seq<char>,
    total_digits: Seq<char>,
)
    requires
        outcomes.len() == shard_ids.len(),
        failed.len() > 0,
        are_the_failed(outcomes, failed, outcomes.len() as int),
        note_the_failed(shard_ids, outcomes, failed, notes, digits),
        is_numeral(failed_digits, failed.len() as int),
        is_numeral(total_digits, shard_ids.len() as int),
    ensures
        all_events(Ok(shard_ids), outcomes).last() == EventView::Done(
            Err(
                failed_digits + " of "@ + total_digits + " shard(s) failed: "@ + joined(
                    notes,
                    "; "@,
                ),
            ),
        ),
{
    every_shard_is_tried_in_order(shard_ids, outcomes);
    notes_are_those_of_the_failed(shard_ids, outcomes, failed, notes, digits, shard_ids.len());
    decimal_is_the_only_numeral(failed_digits, failed.len());
    decimal_is_the_only_numeral(total_digits, shard_ids.len());
}

/// Whether `failed` are the places, in order, of those of the first `n` shards
/// that failed.
pub open spec fn are_the_failed(
    outcomes: Seq<Result<Seq<char>, Seq<char>>>,
    failed: Seq<int>,
    n: int,
) -> bool {
    &&& forall|k: int, l: int| 0 <= k < l < failed.len() ==> failed[k] < failed[l]
    &&& forall|k: int|
        0 <= k < failed.len() ==> 0 <= #[trigger] failed[k] < n && outcomes[failed[k]] is Err
    &&& forall|i: int|
        0 <= i < n && #[trigger] outcomes[i] is Err ==> exists|k: int|
            0 <= k < failed.len() && failed[k] == i
}

/// Whether each note has the number of its failed shard and what went wrong.
pub open spec fn note_the_failed(
    shard_ids: Seq<u32>,
    outcomes: Seq<Result<Seq<char>, Seq<char>>>,
    failed: Seq<int>,
    notes: Seq<Seq<char>>,
    digits: Seq<Seq<char>>,
) -> bool {
    &&& notes.len() == failed.len()
    &&& digits.len() == failed.len()
    &&& forall|k: int|
        #![trigger failed[k]]
        #![trigger notes[k]]
        0 <= k < failed.len() ==> {
            &&& is_numeral(digits[k], shard_ids[failed[k]] as int)
            &&& notes[k] == "shard "@ + digits[k] + ": "@ + outcomes[failed[k]]->Err_0
        }
}

proof fn notes_are_those_of_the_failed(
    shard_ids: Seq<u32>,
    outcomes: Seq<Result<Seq<char>, Seq<char>>>,
    failed: Seq<int>,
    notes: Seq<Seq<char>>,
    digits: Seq<Seq<char>>,
    n: nat,
)
    requires
        n <= outcomes.len(),
        are_the_failed(outcomes, failed, n as int),
        note_the_failed(shard_ids, outcomes, failed, notes, digits),
    ensures
        notes_among(shard_ids, outcomes, n) == notes,
    decreases n,
{
    if n == 0 {
        if failed.len() > 0 {
            assert(0 <= failed[0] < n);
        }
        assert(notes =~= Seq::empty());
    } else if outcomes[n - 1] is Err {
        let k = choose|k: int| 0 <= k < failed.len() && failed[k] == n - 1;
        let last = failed.len() - 1;
        if k < last {
            assert(failed[k] < failed[last]);
        }
        let before = failed.drop_last();
        assert forall|k: int| 0 <= k < before.len() implies 0 <= #[trigger] before[k] < n - 1
            && outcomes[before[k]] is Err by {
            assert(before[k] == failed[k] && failed[k] < failed[last]);
        }
        assert forall|i: int| 0 <= i < n - 1 && #[trigger] outcomes[i] is Err implies exists|k: int|
            0 <= k < before.len() && before[k] == i by {
            let k = choose|k: int| 0 <= k < failed.len() && failed[k] == i;
            assert(before[k] == i);
        }
        assert forall|k: int|
            #![trigger before[k]]
            #![trigger notes.drop_last()[k]]
            0 <= k < before.len() implies {
            &&& is_numeral(digits.drop_last()[k], shard_ids[before[k]] as int)
            &&& notes.drop_last()[k] == "shard "@ + digits.drop_last()[k] + ": "@
                + outcomes[before[k]]->Err_0
        } by {
            assert(before[k] == failed[k]);
        }
        notes_are_those_of_the_failed(
            shard_ids,
            outcomes,
            before,
            notes.drop_last(),
            digits.drop_last(),
            (n - 1) as nat,
        );
        assert(failed[last] == n - 1);
        decimal_is_the_only_numeral(digits[last], shard_ids[n - 1] as nat);
        assert(notes =~= notes.drop_last().push(notes[last]));
    } else {
        assert forall|k: int| 0 <= k < failed.len() implies 0 <= #[trigger] failed[k] < n - 1
            && outcomes[failed[k]] is Err by {
            assert(failed[k] != n - 1);
        }
        notes_are_those_of_the_failed(
            shard_ids,
            outcomes,
            failed,
            notes,
            digits,
            (n - 1) as nat,
        );
    }
}

/// An event says what it holds.
pub proof fn event_says_what_it_holds(event: SyncEvent)
    ensures
        match event {
            SyncEvent::ShardsDiscovered(ids) => event@ == EventView::ShardsDiscovered(ids@),
            SyncEvent::ShardStarted { shard_id, index, total_shards } => event@ == (
            EventView::ShardStarted {
                shard_id,
                index: index as nat,
                total_shards: total_shards as nat,
            }),
            SyncEvent::Progress { shard_id, downloaded, total } => event@ == (EventView::Progress {
                shard_id,
                downloaded,
                total,
            }),
            SyncEvent::ShardCompleted { shard_id, summary } => event@ == (
            EventView::ShardCompleted { shard_id, summary: summary@ }),
            SyncEvent::ShardFailed { shard_id, error } => event@ == (EventView::ShardFailed {
                shard_id,
                error: error@,
            }),
            SyncEvent::Done(Ok(())) => event@ == EventView::Done(Ok(())),
            SyncEvent::Done(Err(error)) => event@ == EventView::Done(Err(error@)),
        },
{
}

/// Events say what they hold one by one, and outcomes say what they hold.
pub proof fn results_say_what_they_hold(
    events: Seq<SyncEvent>,
    run: Option<SyncRun>,
    fetched: Result<Vec<u32>, String>,
    outcome: Result<String, String>,
)
    ensures
        events_said(events).len() == events.len(),
        forall|i: int| 0 <= i < events.len() ==> #[trigger] events_said(events)[i] == events[i]@,
        run is None <==> run_state(run) is None,
        run matches Some(state) ==> run_state(run) == Some(state@),
        fetched matches Ok(ids) ==> ids_or_text(fetched) == Ok::<_, Seq<char>>(ids@),
        fetched matches Err(error) ==> ids_or_text(fetched) == Err::<Seq<u32>, _>(error@),
        outcome matches Ok(summary) ==> outcome_text(outcome) == Ok::<_, Seq<char>>(summary@),
        outcome matches Err(error) ==> outcome_text(outcome) == Err::<Seq<char>, _>(error@),
{
}

/// A request says what it holds.
pub proof fn request_says_what_it_holds(request: CollectionSyncRequest)
    ensures
        request@.server_url == request.server_url@,
        request@.api_key == request.api_key@,
        request@.collection == request.collection@,
        request@.target_dir == request.target_dir@,
{
}

/// A run without a list of shards says why, and nothing else.
pub proof fn nothing_is_tried_without_shards(
    error: Seq<char>,
    outcomes: Seq<Result<Seq<char>, Seq<char>>>,
)
    ensures
        all_events(Err(error), outcomes) == seq![EventView::Done(Err(error))],
{
}

/// The verdict is good if and only if every shard was dealt with well.
pub proof fn verdict_is_good_iff_no_shard_failed(
    shard_ids: Seq<u32>,
    outcomes: Seq<Result<Seq<char>, Seq<char>>>,
)
    requires
        outcomes.len() == shard_ids.len(),
    ensures
        all_events(Ok(shard_ids), outcomes).last() == EventView::Done(Ok(())) <==> forall|i: int|
            0 <= i < outcomes.len() ==> outcomes[i] is Ok,
{
    every_shard_is_tried_in_order(shard_ids, outcomes);
    notes_are_on_failures(shard_ids, outcomes, shard_ids.len());
}

proof fn notes_are_on_failures(
    shard_ids: Seq<u32>,
    outcomes: Seq<Result<Seq<char>, Seq<char>>>,
    n: nat,
)
    requires
        n <= outcomes.len(),
    ensures
        notes_among(shard_ids, outcomes, n).len() == 0 <==> forall|i: int|
            0 <= i < n ==> outcomes[i] is Ok,
    decreases n,
{
    if n > 0 {
        notes_are_on_failures(shard_ids, outcomes, (n - 1) as nat);
    }
}

/// Every failure is noted: there are as many notes as failed shards, and the note
/// on each of these is among them.
pub proof fn every_failure_is_noted(
    shard_ids: Seq<u32>,
    outcomes: Seq<Result<Seq<char>, Seq<char>>>,
    n: nat,
)
    requires
        n <= outcomes.len(),
    ensures
        ({
            let notes = notes_among(shard_ids, outcomes, n);
            &&& notes.len() == outcomes.take(n as int).filter(
                |outcome: Result<Seq<char>, Seq<char>>| outcome is Err,
            ).len()
            &&& forall|i: int|
                #![trigger outcomes[i]]
                0 <= i < n && outcomes[i] is Err ==> notes.contains(
                    failure_note(shard_ids[i], outcomes[i]->Err_0),
                )
        }),
    decreases n,
{
    let failed = |outcome: Result<Seq<char>, Seq<char>>| outcome is Err;
    let notes = notes_among(shard_ids, outcomes, n);
    reveal(Seq::filter);
    if n > 0 {
        let before = notes_among(shard_ids, outcomes, (n - 1) as nat);
        every_failure_is_noted(shard_ids, outcomes, (n - 1) as nat);
        assert(outcomes.take(n as int).drop_last() =~= outcomes.take(n - 1));
        assert forall|i: int|
            #![trigger outcomes[i]]
            0 <= i < n && outcomes[i] is Err implies notes.contains(
            failure_note(shard_ids[i], outcomes[i]->Err_0),
        ) by {
            let note = failure_note(shard_ids[i], outcomes[i]->Err_0);
            if i < n - 1 {
                let k = choose|k: int| 0 <= k < before.len() && before[k] == note;
                assert(notes[k] == note);
            } else {
                assert(notes[before.len() as int] == note);
            }
        }
    }
}

/// A run over the shards that a server reports starts each of them once, and no
/// other.
pub proof fn every_reported_shard_is_started_once(
    reported: Seq<Option<u64>>,
    shard_ids: Seq<u32>,
    outcomes: Seq<Result<Seq<char>, Seq<char>>>,
    shard_id: u32,
)
    requires
        lists_reported(shard_ids, reported),
        outcomes.len() == shard_ids.len(),
    ensures
        ({
            let events = all_events(Ok(shard_ids), outcomes);
            &&& reports(reported, shard_id) <==> exists|i: int|
                0 <= i < events.len() && starts(#[trigger] events[i], shard_id)
            &&& forall|i: int, j: int|
                0 <= i < events.len() && 0 <= j < events.len() && starts(
                    #[trigger] events[i],
                    shard_id,
                ) && starts(#[trigger] events[j], shard_id) ==> i == j
        }),
{
    every_shard_is_tried_in_order(shard_ids, outcomes);
    let events = all_events(Ok(shard_ids), outcomes);
    assert forall|i: int| 0 <= i < events.len() && starts(#[trigger] events[i], shard_id) implies i
        % 2 == 1 && i / 2 < shard_ids.len() && shard_ids[i / 2] == shard_id by {
        if i > 0 && i % 2 == 0 {
            let _ = outcomes[i / 2 - 1];
            assert(i == 2 * (i / 2 - 1) + 2);
        } else if i > 0 && i < events.len() - 1 {
            assert(i == 2 * (i / 2) + 1);
            let _ = shard_ids[i / 2];
        }
    }
    assert(shard_ids.contains(shard_id) <==> reports(reported, shard_id));
    if reports(reported, shard_id) {
        let at = choose|k: int| 0 <= k < shard_ids.len() && shard_ids[k] == shard_id;
        assert(starts(events[2 * at + 1], shard_id));
    }
}

} // verus!
