//! Finding out which shards of a collection a server holds.
use vstd::prelude::*;
use vstd::string::*;

use crate::http::{
    api_key_header, cluster_request, cluster_url, is_success, no_response, no_response_message,
    refusal, refusal_message, success, HttpRequest,
};
use crate::json::{json_contents, json_document, member, parse_document, JsonView};
use crate::sync::{ids_or_text, CollectionSyncRequest};
use crate::text::optional_text;

verus! {

/// The text is not a JSON document.
#[derive(Debug, Clone, Copy)]
pub struct NotJson {}

/// What a cluster report lists as the ids of the local shards, entry by entry:
/// nothing for an entry without an id that is an unsigned number. A report
/// without a list counts as one with an empty list.
pub open spec fn reported_ids(document: JsonView) -> Seq<Option<u64>> {
    match document.member("result"@).member("local_shards"@).items() {
        Some(shards) => shards.map_values(|shard: JsonView| shard.member("shard_id"@).unsigned()),
        None => Seq::empty(),
    }
}

/// The id that a reported number is; a number beyond the range of ids is none.
pub open spec fn shard_id_of(reported: u64) -> Option<u32> {
    if reported <= u32::MAX {
        Some(reported as u32)
    } else {
        None
    }
}

/// Whether the report has an entry for a shard.
pub open spec fn reports(reported: Seq<Option<u64>>, shard_id: u32) -> bool {
    exists|i: int|
        #![trigger reported[i]]
        0 <= i < reported.len() && reported[i] is Some && shard_id_of(reported[i]->0) == Some(
            shard_id,
        )
}

/// Whether each number is greater than those before it.
pub open spec fn ascending(ids: Seq<u32>) -> bool {
    forall|i: int, j: int| 0 <= i < j < ids.len() ==> ids[i] < ids[j]
}

/// Whether `ids` are the reported shards: each once, in ascending order.
pub open spec fn lists_reported(ids: Seq<u32>, reported: Seq<Option<u64>>) -> bool {
    &&& ascending(ids)
    &&& forall|id: u32| #[trigger] ids.contains(id) <==> reports(reported, id)
}

/// Whether the report has no entry with an id.
pub open spec fn reports_none(reported: Seq<Option<u64>>) -> bool {
    forall|i: int|
        0 <= i < reported.len() ==> (#[trigger] reported[i] matches Some(number) ==> shard_id_of(
            number,
        ) is None)
}

/// The words for a report without a shard.
pub open spec fn no_shards(collection: Seq<char>, url: Seq<char>) -> Seq<char> {
    "No local shards reported for collection '"@ + collection + "' at "@ + url
}

/// The words for a report that could not be read.
pub open spec fn unreadable_report(url: Seq<char>, error: Seq<char>) -> Seq<char> {
    "Could not parse cluster info from "@ + url + ": "@ + error
}

/// Reads the entries for local shards out of a cluster report.
pub fn read_report(text: &[u8]) -> (r: Result<Vec<Option<u64>>, NotJson>)
    ensures
        match json_document(text@) {
            Some(document) => r is Ok && r->Ok_0@ == reported_ids(document),
            None => r is Err,
        },
{
    let document = match parse_document(text) {
        Ok(document) => document,
        Err(_) => return Err(NotJson {  }),
    };
    let ghost contents = json_contents(document);
    let mut reported: Vec<Option<u64>> = Vec::new();
    if let Some(shards) = member(member(&document, "result"), "local_shards").as_array() {
        let ghost expected = reported_ids(contents);
        let mut i: usize = 0;
        while i < shards.len()
            invariant
                i <= shards.len(),
                expected == shards@.map_values(
                    |shard: serde_json::Value| json_contents(shard).member("shard_id"@).unsigned(),
                ),
                reported@ == expected.take(i as int),
            decreases shards.len() - i,
        {
            reported.push(member(&shards[i], "shard_id").as_u64());
            assert(reported@ =~= expected.take(i + 1));
            i = i + 1;
        }
        assert(expected.take(i as int) =~= expected);
    }
    Ok(reported)
}

/// Adds an id to an ascending list, unless it is there already.
fn insert_id(ids: &mut Vec<u32>, id: u32)
    requires
        ascending(old(ids)@),
    ensures
        ascending(final(ids)@),
        forall|other: u32| #[trigger]
            final(ids)@.contains(other) <==> old(ids)@.contains(other) || other == id,
{
    let mut at: usize = ids.len();
    while at > 0 && ids[at - 1] > id
        invariant
            at <= ids.len(),
            forall|j: int| at <= j < ids.len() ==> ids@[j] > id,
        decreases at,
    {
        at = at - 1;
    }
    if at > 0 && ids[at - 1] == id {
        assert(ids@.contains(id));
        return ;
    }
    let ghost before = ids@;
    ids.insert(at, id);
    let ghost after = ids@;
    assert forall|other: u32| #[trigger] after.contains(other) <==> before.contains(other) || other
        == id by {
        if after.contains(other) {
            let k = choose|k: int| 0 <= k < after.len() && after[k] == other;
            if k < at {
                assert(before[k] == other);
            } else if k > at {
                assert(before[k - 1] == other);
            }
        }
        if before.contains(other) {
            let k = choose|k: int| 0 <= k < before.len() && before[k] == other;
            if k < at {
                assert(after[k] == other);
            } else {
                assert(after[k + 1] == other);
            }
        }
        assert(after[at as int] == id);
    }
}

/// Takes the shard ids out of the entries of a report, each once and in
/// ascending order. A number that is no id is passed over, as is an entry
/// without a number. A report without an id is an error.
pub fn shard_ids(collection: &str, url: &str, reported: &Vec<Option<u64>>) -> (r: Result<
    Vec<u32>,
    String,
>)
    ensures
        r is Err <==> reports_none(reported@),
        match r {
            Ok(ids) => lists_reported(ids@, reported@),
            Err(message) => message@ == no_shards(collection@, url@),
        },
{
    let mut ids: Vec<u32> = Vec::new();
    let mut i: usize = 0;
    while i < reported.len()
        invariant
            i <= reported.len(),
            lists_reported(ids@, reported@.take(i as int)),
        decreases reported.len() - i,
    {
        let ghost before = reported@.take(i as int);
        let ghost after = reported@.take(i + 1);
        let ghost ids_before = ids@;
        if let Some(number) = reported[i] {
            if number <= u32::MAX as u64 {
                insert_id(&mut ids, number as u32);
            }
        }
        assert forall|id: u32| #[trigger] ids@.contains(id) <==> reports(after, id) by {
            assert(ids_before.contains(id) <==> reports(before, id));
            assert(after[i as int] == reported@[i as int]);
            if reports(before, id) {
                let k = choose|k: int|
                    #![trigger before[k]]
                    0 <= k < before.len() && before[k] is Some && shard_id_of(before[k]->0) == Some(
                        id,
                    );
                assert(after[k] == before[k]);
            }
            if reports(after, id) {
                let k = choose|k: int|
                    #![trigger after[k]]
                    0 <= k < after.len() && after[k] is Some && shard_id_of(after[k]->0) == Some(id);
                if k < i {
                    assert(before[k] == after[k]);
                }
            }
        }
        i = i + 1;
    }
    assert(reported@.take(i as int) =~= reported@);
    if ids.is_empty() {
        assert forall|k: int| 0 <= k < reported@.len() implies (
        #[trigger] reported@[k] matches Some(number) ==> shard_id_of(number) is None) by {
            if reported@[k] is Some && shard_id_of(reported@[k]->0) is Some {
                let id = shard_id_of(reported@[k]->0)->0;
                assert(reports(reported@, id));
                assert(ids@.contains(id));
            }
        }
        return Err(
            "No local shards reported for collection '".to_owned().concat(collection).concat(
                "' at ",
            ).concat(url),
        );
    }
    assert(ids@.contains(ids@[0]));
    assert(reports(reported@, ids@[0]));
    Ok(ids)
}

/// Whether `outcome` is what the entries of a report lead to.
pub open spec fn concluded(
    collection: Seq<char>,
    url: Seq<char>,
    reported: Seq<Option<u64>>,
    outcome: Result<Seq<u32>, Seq<char>>,
) -> bool {
    match outcome {
        Ok(ids) => !reports_none(reported) && lists_reported(ids, reported),
        Err(message) => reports_none(reported) && message == no_shards(collection, url),
    }
}

/// The words for a body that is no JSON document.
pub open spec fn undecodable() -> Seq<char> {
    "error decoding response body"@
}

/// Whether `outcome` is what the body of a report leads to.
pub open spec fn understood(
    collection: Seq<char>,
    url: Seq<char>,
    body: Seq<u8>,
    outcome: Result<Seq<u32>, Seq<char>>,
) -> bool {
    match json_document(body) {
        Some(document) => concluded(collection, url, reported_ids(document), outcome),
        None => outcome == Err::<Seq<u32>, _>(unreadable_report(url, undecodable())),
    }
}

/// Makes the shard ids out of the body of a report.
pub fn shard_ids_from_body(collection: &str, url: &str, body: &[u8]) -> (r: Result<
    Vec<u32>,
    String,
>)
    ensures
        understood(collection@, url@, body@, ids_or_text(r)),
{
    match read_report(body) {
        Ok(reported) => shard_ids(collection, url, &reported),
        Err(_) => Err(unreadable_message(url, "error decoding response body")),
    }
}

fn unreadable_message(url: &str, error: &str) -> (r: String)
    ensures
        r@ == unreadable_report(url@, error@),
{
    "Could not parse cluster info from ".to_owned().concat(url).concat(": ").concat(error)
}

/// What has come of the last thing that was done to find out the shards.
#[derive(Debug)]
pub enum FetchInput {
    /// There was no response to the request.
    NoResponse(String),
    /// A response has this status code.
    Responded(u16),
    /// The response with this status is refused, and has this text where it
    /// could be read.
    Refused { status: String, body: Option<String> },
    /// The body could not be read.
    BodyUnread(String),
    /// The body is read.
    BodyRead(Vec<u8>),
}

/// What is to be done next to find out the shards.
#[derive(Debug)]
pub enum FetchAction {
    /// Read the text of a refused response.
    ReadRefusal,
    /// Read the body of a response.
    ReadBody,
    /// Stop with the shard ids, or with the reason why there are none.
    Finish(Result<Vec<u32>, String>),
}

/// Finding out the shards of a collection.
#[derive(Debug)]
pub struct ClusterFetch {
    pub collection: String,
    pub url: String,
}

impl ClusterFetch {
    /// Whether `action` is the right one after `input`.
    pub open spec fn answers(self, input: FetchInput, action: FetchAction) -> bool {
        match input {
            FetchInput::NoResponse(error) => action matches FetchAction::Finish(r) && ids_or_text(r)
                == Err::<Seq<u32>, _>(no_response(self.url@, error@)),
            FetchInput::Responded(status_code) => action == if success(status_code) {
                FetchAction::ReadBody
            } else {
                FetchAction::ReadRefusal
            },
            FetchInput::Refused { status, body } => action matches FetchAction::Finish(r)
                && ids_or_text(r) == Err::<Seq<u32>, _>(
                refusal(self.url@, status@, optional_text(body)),
            ),
            FetchInput::BodyUnread(error) => action matches FetchAction::Finish(r) && ids_or_text(r)
                == Err::<Seq<u32>, _>(unreadable_report(self.url@, error@)),
            FetchInput::BodyRead(body) => action matches FetchAction::Finish(r) && understood(
                self.collection@,
                self.url@,
                body@,
                ids_or_text(r),
            ),
        }
    }

    /// Starts to find out the shards: the request is to be sent.
    pub fn start(request: &CollectionSyncRequest) -> (r: (ClusterFetch, HttpRequest))
        ensures
            r.0.collection@ == request@.collection,
            r.0.url@ == r.1.url@,
            r.1.url@ == cluster_url(request@.server_url, request@.collection),
            optional_text(r.1.api_key) == api_key_header(request@.api_key),
    {
        let asked = cluster_request(
            request.server_url.as_str(),
            request.api_key.as_str(),
            request.collection.as_str(),
        );
        (ClusterFetch { collection: request.collection.clone(), url: asked.url.clone() }, asked)
    }

    /// Decides what to do next.
    pub fn step(&self, input: FetchInput) -> (r: FetchAction)
        ensures
            self.answers(input, r),
    {
        match input {
            FetchInput::NoResponse(error) => FetchAction::Finish(
                Err(no_response_message(self.url.as_str(), error.as_str())),
            ),
            FetchInput::Responded(status_code) => if is_success(status_code) {
                FetchAction::ReadBody
            } else {
                FetchAction::ReadRefusal
            },
            FetchInput::Refused { status, body } => FetchAction::Finish(
                Err(refusal_message(self.url.as_str(), status.as_str(), &body)),
            ),
            FetchInput::BodyUnread(error) => FetchAction::Finish(
                Err(unreadable_message(self.url.as_str(), error.as_str())),
            ),
            FetchInput::BodyRead(body) => FetchAction::Finish(
                shard_ids_from_body(self.collection.as_str(), self.url.as_str(), body.as_slice()),
            ),
        }
    }
}

/// Whether `items` are what a document lists as `local_shards` of its `result`.
pub open spec fn lists_items(document: JsonView, items: Seq<JsonView>) -> bool {
    &&& document matches JsonView::Object(top)
    &&& top.contains_key("result"@)
    &&& top["result"@] matches JsonView::Object(result)
    &&& result.contains_key("local_shards"@)
    &&& result["local_shards"@] == JsonView::Array(items)
}

/// Whether an item has this number as its `shard_id`.
pub open spec fn has_number(item: JsonView, number: u64) -> bool {
    &&& item matches JsonView::Object(members)
    &&& members.contains_key("shard_id"@)
    &&& members["shard_id"@] == JsonView::Unsigned(number)
}

/// Whether one of the items has this number as its `shard_id`.
pub open spec fn one_has_number(items: Seq<JsonView>, number: u64) -> bool {
    exists|i: int| 0 <= i < items.len() && has_number(#[trigger] items[i], number)
}

/// A report has an entry for each item that the document lists, in the same order
/// and with the number that the item has, and no other entry.
pub proof fn every_item_is_read(document: JsonView, items: Seq<JsonView>)
    requires
        lists_items(document, items),
    ensures
        reported_ids(document).len() == items.len(),
        forall|i: int, number: u64|
            0 <= i < items.len() ==> (#[trigger] reported_ids(document)[i] == Some(number)
                <==> #[trigger] has_number(items[i], number)),
{
}

/// A document that lists no items makes a report without entries.
pub proof fn document_without_a_list_reports_nothing(document: JsonView)
    requires
        forall|items: Seq<JsonView>| !lists_items(document, items),
    ensures
        reported_ids(document).len() == 0,
{
    let listed = document.member("result"@).member("local_shards"@);
    if listed is Array {
        assert(lists_items(document, listed->Array_0));
    }
}

/// Only what the server reports is listed: every listed id is, number for number,
/// an entry of the report, and every entry that is an id is listed. The list is
/// in ascending order, so it has no id twice.
pub proof fn list_holds_the_reported_numbers(ids: Seq<u32>, reported: Seq<Option<u64>>)
    requires
        lists_reported(ids, reported),
    ensures
        forall|id: u32| #[trigger] ids.contains(id) <==> reported.contains(Some(id as u64)),
        forall|i: int, j: int| 0 <= i < j < ids.len() ==> ids[i] < ids[j],
{
    assert forall|id: u32| #[trigger] ids.contains(id) <==> reported.contains(Some(id as u64)) by {
        if reported.contains(Some(id as u64)) {
            let k = choose|k: int| 0 <= k < reported.len() && reported[k] == Some(id as u64);
            assert(shard_id_of(reported[k]->0) == Some(id));
            assert(reports(reported, id));
        }
    }
}

/// A report counts as one without a shard if and only if none of its numbers is
/// in the range of ids.
pub proof fn report_without_a_shard_has_no_id(reported: Seq<Option<u64>>)
    ensures
        reports_none(reported) <==> forall|id: u32| !reported.contains(Some(#[trigger] (id as u64))),
{
    if reports_none(reported) {
        assert forall|id: u32| !reported.contains(Some(#[trigger] (id as u64))) by {
            if reported.contains(Some(id as u64)) {
                let k = choose|k: int| 0 <= k < reported.len() && reported[k] == Some(id as u64);
                assert(shard_id_of(reported[k]->0) == Some(id));
            }
        }
    }
    if forall|id: u32| !reported.contains(Some(#[trigger] (id as u64))) {
        assert forall|i: int| 0 <= i < reported.len() implies (
        #[trigger] reported[i] matches Some(number) ==> shard_id_of(number) is None) by {
            if reported[i] is Some && shard_id_of(reported[i]->0) is Some {
                let id = reported[i]->0 as u32;
                assert(reported[i] == Some(id as u64));
                assert(reported.contains(Some(id as u64)));
            }
        }
    }
}

/// The body of a report leads to the ids that its items have, each of them and no
/// other, once and in ascending order. Where no item has one, that is an error.
pub proof fn every_shard_of_the_body_is_found(
    collection: Seq<char>,
    url: Seq<char>,
    body: Seq<u8>,
    items: Seq<JsonView>,
    outcome: Result<Seq<u32>, Seq<char>>,
)
    requires
        json_document(body) is Some,
        lists_items(json_document(body)->0, items),
        understood(collection, url, body, outcome),
    ensures
        match outcome {
            Ok(ids) => {
                &&& ids.len() > 0
                &&& forall|i: int, j: int| 0 <= i < j < ids.len() ==> ids[i] < ids[j]
                &&& forall|id: u32| #[trigger] ids.contains(id) <==> one_has_number(items, id as u64)
            },
            Err(message) => {
                &&& message == "No local shards reported for collection '"@ + collection + "' at "@
                    + url
                &&& forall|id: u32| !one_has_number(items, #[trigger] (id as u64))
            },
        },
{
    let document = json_document(body)->0;
    let reported = reported_ids(document);
    every_item_is_read(document, items);
    report_without_a_shard_has_no_id(reported);
    assert forall|id: u32| reported.contains(Some(#[trigger] (id as u64))) <==> one_has_number(
        items,
        id as u64,
    ) by {
        if reported.contains(Some(id as u64)) {
            let k = choose|k: int| 0 <= k < reported.len() && reported[k] == Some(id as u64);
            assert(has_number(items[k], id as u64));
        }
        if one_has_number(items, id as u64) {
            let k = choose|k: int| 0 <= k < items.len() && has_number(#[trigger] items[k], id as u64);
            assert(reported[k] == Some(id as u64));
        }
    }
    if outcome is Ok {
        let ids = outcome->Ok_0;
        list_holds_the_reported_numbers(ids, reported);
        let number = choose|id: u32| reported.contains(Some(#[trigger] (id as u64)));
        assert(ids.contains(number));
    }
}

/// A body that lists no items, and one that is no document, lead to an error that
/// says so.
pub proof fn unusable_body_is_an_error(
    collection: Seq<char>,
    url: Seq<char>,
    body: Seq<u8>,
    outcome: Result<Seq<u32>, Seq<char>>,
)
    requires
        understood(collection, url, body, outcome),
        json_document(body) matches Some(document) ==> forall|items: Seq<JsonView>|
            !lists_items(document, items),
    ensures
        outcome == Err::<Seq<u32>, Seq<char>>(
            if json_document(body) is Some {
                "No local shards reported for collection '"@ + collection + "' at "@ + url
            } else {
                "Could not parse cluster info from "@ + url + ": "@
                    + "error decoding response body"@
            },
        ),
{
    if json_document(body) is Some {
        document_without_a_list_reports_nothing(json_document(body)->0);
    }
}

/// The fetch reads the body of a response if and only if its status is success,
/// and tells in full what went wrong.
pub proof fn fetch_goes_step_by_step(fetch: ClusterFetch, input: FetchInput, action: FetchAction)
    requires
        fetch.answers(input, action),
    ensures
        match input {
            FetchInput::NoResponse(error) => action matches FetchAction::Finish(Err(message))
                && message@ == "Request to "@ + fetch.url@ + " failed: "@ + error@,
            FetchInput::Responded(status_code) => if status_code / 100 == 2 {
                action is ReadBody
            } else {
                action is ReadRefusal
            },
            FetchInput::Refused { status, body: Some(text) } => action matches FetchAction::Finish(
                Err(message),
            ) && message@ == "Server returned "@ + status@ + " for "@ + fetch.url@ + ": "@ + text@,
            FetchInput::Refused { status, body: None } => action matches FetchAction::Finish(
                Err(message),
            ) && message@ == "Server returned "@ + status@ + " for "@ + fetch.url@ + ": "@,
            FetchInput::BodyUnread(error) => action matches FetchAction::Finish(Err(message))
                && message@ == "Could not parse cluster info from "@ + fetch.url@ + ": "@ + error@,
            FetchInput::BodyRead(body) => {
                ||| action matches FetchAction::Finish(Ok(ids)) && understood(
                    fetch.collection@,
                    fetch.url@,
                    body@,
                    Ok(ids@),
                )
                ||| action matches FetchAction::Finish(Err(message)) && understood(
                    fetch.collection@,
                    fetch.url@,
                    body@,
                    Err(message@),
                )
            },
        },
{
    match input {
        FetchInput::Refused { status, body: None } => {
            let message = "Server returned "@ + status@ + " for "@ + fetch.url@ + ": "@;
            assert(message + Seq::<char>::empty() =~= message);
        },
        _ => {},
    }
}

/// The list depends only on which shards are reported, not on the order of the
/// report nor on how often it names a shard.
pub proof fn same_shards_give_the_same_list(
    first: Seq<u32>,
    first_report: Seq<Option<u64>>,
    second: Seq<u32>,
    second_report: Seq<Option<u64>>,
)
    requires
        lists_reported(first, first_report),
        lists_reported(second, second_report),
        forall|id: u32| reports(first_report, id) <==> reports(second_report, id),
    ensures
        first == second,
{
    assert forall|id: u32| #[trigger] first.contains(id) <==> second.contains(id) by {
        assert(reports(first_report, id) <==> reports(second_report, id));
    }
    ascending_lists_are_determined(first, second);
}

proof fn ascending_lists_are_determined(first: Seq<u32>, second: Seq<u32>)
    requires
        ascending(first),
        ascending(second),
        forall|id: u32| #[trigger] first.contains(id) <==> second.contains(id),
    ensures
        first == second,
    decreases first.len(),
{
    if first.len() == 0 {
        if second.len() > 0 {
            assert(second.contains(second[0]));
            assert(first.contains(second[0]));
        }
        assert(first =~= second);
    } else {
        assert(first.contains(first.last()));
        let at = choose|k: int| 0 <= k < second.len() && second[k] == first.last();
        assert(second.contains(second.last()));
        assert(first.contains(second.last()));
        let other = choose|k: int| 0 <= k < first.len() && first[k] == second.last();
        assert(first.last() == second.last());
        let first_rest = first.drop_last();
        let second_rest = second.drop_last();
        assert forall|id: u32| #[trigger] first_rest.contains(id) <==> second_rest.contains(id) by {
            if first_rest.contains(id) {
                let k = choose|k: int| 0 <= k < first_rest.len() && first_rest[k] == id;
                assert(first[k] == id);
                assert(first.contains(id));
                let j = choose|j: int| 0 <= j < second.len() && second[j] == id;
                assert(second_rest[j] == id);
            }
            if second_rest.contains(id) {
                let k = choose|k: int| 0 <= k < second_rest.len() && second_rest[k] == id;
                assert(second[k] == id);
                assert(second.contains(id));
                assert(first.contains(id));
                let j = choose|j: int| 0 <= j < first.len() && first[j] == id;
                assert(first_rest[j] == id);
            }
        }
        ascending_lists_are_determined(first_rest, second_rest);
        assert(first =~= first_rest.push(first.last()));
        assert(second =~= second_rest.push(second.last()));
    }
}

} // verus!
