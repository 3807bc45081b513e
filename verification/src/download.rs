//! Downloading the snapshot of a shard.
use vstd::prelude::*;
use vstd::string::*;

use crate::http::{
    api_key_header, is_success, no_response, no_response_message, refusal, refusal_message,
    snapshot_request, snapshot_url, success, HttpRequest,
};
use crate::sync::{CollectionSyncRequest, EventView, SyncEvent};
use crate::text::{
    decimal, decimal_has_only_digits, decimal_is_injective, decimal_is_the_only_numeral,
    decimal_text, is_numeral, optional_text,
};

verus! {

/// What has come of the last thing that was done for a download.
#[derive(Debug)]
pub enum DownloadInput {
    /// There was no response to the request.
    NoResponse(String),
    /// A response has this status code, and announces this length where it
    /// announces one.
    Responded { status_code: u16, length: Option<u64> },
    /// The response with this status is refused, and has this text where it
    /// could be read.
    Refused { status: String, body: Option<String> },
    /// The file at this path could not be created.
    FileNotCreated { path: String, error: String },
    /// The file is created.
    FileCreated,
    /// The next part of the body did not arrive.
    ChunkLost(String),
    /// A part of the body could not be written to the file.
    ChunkNotWritten(String),
    /// A part of the body, of this many bytes, is in the file.
    ChunkWritten(u64),
    /// The body has no further part.
    BodyEnded,
    /// The file could not be flushed.
    NotFlushed(String),
    /// The file is flushed.
    Flushed,
}

/// What is to be done next for a download.
#[derive(Debug)]
pub enum DownloadAction {
    /// Read the text of a refused response.
    ReadRefusal,
    /// Create a file of this name among the temporary files.
    CreateFile(String),
    /// Wait for the next part of the body and write it to the file.
    ReadChunk,
    /// Flush the file.
    Flush,
    /// Stop with the number of bytes in the file, or with the reason why it is
    /// not complete.
    Finish(Result<u64, String>),
}

/// What a [`DownloadAction`] says.
pub enum DownloadActionView {
    ReadRefusal,
    CreateFile(Seq<char>),
    ReadChunk,
    Flush,
    Finish(Result<u64, Seq<char>>),
}

impl View for DownloadAction {
    type V = DownloadActionView;

    open spec fn view(&self) -> DownloadActionView {
        match *self {
            DownloadAction::ReadRefusal => DownloadActionView::ReadRefusal,
            DownloadAction::CreateFile(name) => DownloadActionView::CreateFile(name@),
            DownloadAction::ReadChunk => DownloadActionView::ReadChunk,
            DownloadAction::Flush => DownloadActionView::Flush,
            DownloadAction::Finish(Ok(bytes)) => DownloadActionView::Finish(Ok(bytes)),
            DownloadAction::Finish(Err(error)) => DownloadActionView::Finish(Err(error@)),
        }
    }
}

/// The name of the file that takes up the snapshot of a shard.
pub open spec fn file_name(collection: Seq<char>, shard_id: u32) -> Seq<char> {
    collection + "-shard-"@ + decimal(shard_id as nat) + ".snapshot"@
}

/// The state of a [`SnapshotDownload`].
pub struct DownloadView {
    pub url: Seq<char>,
    pub collection: Seq<char>,
    pub shard_id: u32,
    pub length: Option<u64>,
    pub written: u64,
}

impl DownloadView {
    /// Whether the number of written bytes can still be counted after `input`.
    pub open spec fn can_count(self, input: DownloadInput) -> bool {
        input matches DownloadInput::ChunkWritten(bytes) ==> self.written + bytes <= u64::MAX
    }

    /// The state after `input`.
    pub open spec fn after(self, input: DownloadInput) -> DownloadView {
        match input {
            DownloadInput::Responded { status_code, length } => if success(status_code) {
                DownloadView { length, ..self }
            } else {
                self
            },
            DownloadInput::FileCreated => DownloadView { written: 0, ..self },
            DownloadInput::ChunkWritten(bytes) => DownloadView {
                written: (self.written + bytes) as u64,
                ..self
            },
            _ => self,
        }
    }

    /// What `input` makes known of the progress: where the download stands once
    /// the file is there, and after each part.
    pub open spec fn event_on(self, input: DownloadInput) -> Option<EventView> {
        match input {
            DownloadInput::FileCreated | DownloadInput::ChunkWritten(_) => Some(
                EventView::Progress {
                    shard_id: self.shard_id,
                    downloaded: self.after(input).written,
                    total: self.length,
                },
            ),
            _ => None,
        }
    }

    /// What is to be done after `input`.
    pub open spec fn action_on(self, input: DownloadInput) -> DownloadActionView {
        match input {
            DownloadInput::NoResponse(error) => DownloadActionView::Finish(
                Err(no_response(self.url, error@)),
            ),
            DownloadInput::Responded { status_code, length } => if success(status_code) {
                DownloadActionView::CreateFile(file_name(self.collection, self.shard_id))
            } else {
                DownloadActionView::ReadRefusal
            },
            DownloadInput::Refused { status, body } => DownloadActionView::Finish(
                Err(refusal(self.url, status@, optional_text(body))),
            ),
            DownloadInput::FileNotCreated { path, error } => DownloadActionView::Finish(
                Err("Could not create temp file "@ + path@ + ": "@ + error@),
            ),
            DownloadInput::FileCreated => DownloadActionView::ReadChunk,
            DownloadInput::ChunkLost(error) => DownloadActionView::Finish(
                Err("Error while downloading snapshot: "@ + error@),
            ),
            DownloadInput::ChunkNotWritten(error) => DownloadActionView::Finish(
                Err("Error while writing snapshot to disk: "@ + error@),
            ),
            DownloadInput::ChunkWritten(_) => DownloadActionView::ReadChunk,
            DownloadInput::BodyEnded => DownloadActionView::Flush,
            DownloadInput::NotFlushed(error) => DownloadActionView::Finish(Err(error@)),
            DownloadInput::Flushed => DownloadActionView::Finish(Ok(self.written)),
        }
    }
}

/// The download of the snapshot of a shard.
#[derive(Debug)]
pub struct SnapshotDownload {
    url: String,
    collection: String,
    shard_id: u32,
    length: Option<u64>,
    written: u64,
}

impl View for SnapshotDownload {
    type V = DownloadView;

    closed spec fn view(&self) -> DownloadView {
        DownloadView {
            url: self.url@,
            collection: self.collection@,
            shard_id: self.shard_id,
            length: self.length,
            written: self.written,
        }
    }
}

/// What an optional event says.
pub open spec fn event_said(event: Option<SyncEvent>) -> Option<EventView> {
    match event {
        Some(event) => Some(event@),
        None => None,
    }
}

/// The name of the file that takes up the snapshot of a shard.
pub fn snapshot_file_name(collection: &str, shard_id: u32) -> (r: String)
    ensures
        r@ == file_name(collection@, shard_id),
{
    collection.to_owned().concat("-shard-").concat(decimal_text(shard_id as u64).as_str()).concat(
        ".snapshot",
    )
}

impl SnapshotDownload {
    /// Starts a download: the request is to be sent.
    pub fn start(request: &CollectionSyncRequest, shard_id: u32) -> (r: (
        SnapshotDownload,
        HttpRequest,
    ))
        ensures
            r.0@ == (DownloadView {
                url: r.1.url@,
                collection: request@.collection,
                shard_id,
                length: None,
                written: 0,
            }),
            r.1.url@ == snapshot_url(request@.server_url, request@.collection, shard_id),
            optional_text(r.1.api_key) == api_key_header(request@.api_key),
    {
        let asked = snapshot_request(
            request.server_url.as_str(),
            request.api_key.as_str(),
            request.collection.as_str(),
            shard_id,
        );
        let download = SnapshotDownload {
            url: asked.url.clone(),
            collection: request.collection.clone(),
            shard_id,
            length: None,
            written: 0,
        };
        (download, asked)
    }

    /// The number of bytes that are in the file.
    pub fn written(&self) -> (r: u64)
        ensures
            r == self@.written,
    {
        self.written
    }

    /// Takes note of `input`, and decides what to make known and what to do
    /// next.
    pub fn step(&mut self, input: DownloadInput) -> (r: (Option<SyncEvent>, DownloadAction))
        requires
            old(self)@.can_count(input),
        ensures
            final(self)@ == old(self)@.after(input),
            event_said(r.0) == old(self)@.event_on(input),
            r.1@ == old(self)@.action_on(input),
    {
        match input {
            DownloadInput::NoResponse(error) => {
                let message = no_response_message(self.url.as_str(), error.as_str());
                (None, DownloadAction::Finish(Err(message)))
            },
            DownloadInput::Responded { status_code, length } => {
                if is_success(status_code) {
                    self.length = length;
                    let name = snapshot_file_name(self.collection.as_str(), self.shard_id);
                    (None, DownloadAction::CreateFile(name))
                } else {
                    (None, DownloadAction::ReadRefusal)
                }
            },
            DownloadInput::Refused { status, body } => {
                let message = refusal_message(self.url.as_str(), status.as_str(), &body);
                (None, DownloadAction::Finish(Err(message)))
            },
            DownloadInput::FileNotCreated { path, error } => {
                let message = "Could not create temp file ".to_owned().concat(
                    path.as_str(),
                ).concat(": ").concat(error.as_str());
                (None, DownloadAction::Finish(Err(message)))
            },
            DownloadInput::FileCreated => {
                self.written = 0;
                (Some(self.progress()), DownloadAction::ReadChunk)
            },
            DownloadInput::ChunkLost(error) => {
                let message = "Error while downloading snapshot: ".to_owned().concat(
                    error.as_str(),
                );
                (None, DownloadAction::Finish(Err(message)))
            },
            DownloadInput::ChunkNotWritten(error) => {
                let message = "Error while writing snapshot to disk: ".to_owned().concat(
                    error.as_str(),
                );
                (None, DownloadAction::Finish(Err(message)))
            },
            DownloadInput::ChunkWritten(bytes) => {
                self.written = self.written + bytes;
                (Some(self.progress()), DownloadAction::ReadChunk)
            },
            DownloadInput::BodyEnded => (None, DownloadAction::Flush),
            DownloadInput::NotFlushed(error) => (None, DownloadAction::Finish(Err(error))),
            DownloadInput::Flushed => (None, DownloadAction::Finish(Ok(self.written))),
        }
    }

    fn progress(&self) -> (r: SyncEvent)
        ensures
            r@ == (EventView::Progress {
                shard_id: self@.shard_id,
                downloaded: self@.written,
                total: self@.length,
            }),
    {
        SyncEvent::Progress {
            shard_id: self.shard_id,
            downloaded: self.written,
            total: self.length,
        }
    }
}

/// The sum of the lengths of some parts.
pub open spec fn total_length(lengths: Seq<u64>) -> nat
    decreases lengths.len(),
{
    if lengths.len() == 0 {
        0
    } else {
        total_length(lengths.drop_last()) + lengths.last() as nat
    }
}

/// The state after the file was created and parts of these lengths were
/// written.
pub open spec fn after_chunks(download: DownloadView, lengths: Seq<u64>) -> DownloadView
    decreases lengths.len(),
{
    if lengths.len() == 0 {
        download.after(DownloadInput::FileCreated)
    } else {
        after_chunks(download, lengths.drop_last()).after(
            DownloadInput::ChunkWritten(lengths.last()),
        )
    }
}

/// A download counts every byte: the last progress that is made known, and the
/// size that is told at the end, are the length of all parts taken together.
/// Before the first part nothing is counted.
pub proof fn every_byte_is_counted(download: DownloadView, lengths: Seq<u64>)
    requires
        total_length(lengths) <= u64::MAX,
    ensures
        after_chunks(download, lengths) == (DownloadView {
            written: total_length(lengths) as u64,
            ..download
        }),
        after_chunks(download, lengths).action_on(DownloadInput::Flushed)
            == DownloadActionView::Finish(Ok(total_length(lengths) as u64)),
        download.event_on(DownloadInput::FileCreated) == Some(
            EventView::Progress {
                shard_id: download.shard_id,
                downloaded: 0,
                total: download.length,
            },
        ),
        lengths.len() > 0 ==> after_chunks(download, lengths.drop_last()).event_on(
            DownloadInput::ChunkWritten(lengths.last()),
        ) == Some(
            EventView::Progress {
                shard_id: download.shard_id,
                downloaded: total_length(lengths) as u64,
                total: download.length,
            },
        ),
    decreases lengths.len(),
{
    if lengths.len() > 0 {
        every_byte_is_counted(download, lengths.drop_last());
    }
}

/// The length that goes with all progress is the one that the response announced,
/// whatever it is. A refused response changes nothing about it.
pub proof fn announced_length_is_told(
    download: DownloadView,
    status_code: u16,
    length: Option<u64>,
    lengths: Seq<u64>,
    bytes: u64,
)
    requires
        total_length(lengths) + bytes <= u64::MAX,
    ensures
        ({
            let responded = download.after(DownloadInput::Responded { status_code, length });
            let announced = if status_code / 100 == 2 {
                length
            } else {
                download.length
            };
            &&& responded == (DownloadView { length: announced, ..download })
            &&& responded.event_on(DownloadInput::FileCreated) == Some(
                EventView::Progress {
                    shard_id: download.shard_id,
                    downloaded: 0,
                    total: announced,
                },
            )
            &&& after_chunks(responded, lengths).event_on(DownloadInput::ChunkWritten(bytes))
                == Some(
                EventView::Progress {
                    shard_id: download.shard_id,
                    downloaded: (total_length(lengths) + bytes) as u64,
                    total: announced,
                },
            )
        }),
{
    let responded = download.after(DownloadInput::Responded { status_code, length });
    every_byte_is_counted(responded, lengths);
}

/// Nothing but a part that is written, or a new file, changes how much is counted;
/// nothing but a response changes the length; and what is downloaded never
/// changes.
pub proof fn download_stays_the_same_otherwise(download: DownloadView, input: DownloadInput)
    ensures
        ({
            let next = download.after(input);
            &&& next.url == download.url
            &&& next.collection == download.collection
            &&& next.shard_id == download.shard_id
            &&& next.length != download.length ==> input is Responded
            &&& next.written != download.written ==> input is ChunkWritten || input is FileCreated
            &&& download.event_on(input) is Some <==> input is ChunkWritten || input is FileCreated
        }),
{
}

/// The file of a snapshot is named after the collection and the number of the
/// shard, and is created once a response is a success.
pub proof fn file_is_named_after_the_shard(
    download: DownloadView,
    status_code: u16,
    length: Option<u64>,
    digits: Seq<char>,
)
    requires
        is_numeral(digits, download.shard_id as int),
        status_code / 100 == 2,
    ensures
        file_name(download.collection, download.shard_id) == download.collection + "-shard-"@
            + digits + ".snapshot"@,
        download.action_on(DownloadInput::Responded { status_code, length })
            == DownloadActionView::CreateFile(
            download.collection + "-shard-"@ + digits + ".snapshot"@,
        ),
{
    decimal_is_the_only_numeral(digits, download.shard_id as nat);
}

/// A download goes step by step, and tells in full what went wrong.
pub proof fn download_goes_step_by_step(download: DownloadView, input: DownloadInput)
    ensures
        ({
            let action = download.action_on(input);
            match input {
                DownloadInput::NoResponse(error) => action == DownloadActionView::Finish(
                    Err("Request to "@ + download.url + " failed: "@ + error@),
                ),
                DownloadInput::Responded { status_code, .. } => action is ReadRefusal
                    <==> status_code / 100 != 2,
                DownloadInput::Refused { status, body: Some(text) } => action
                    == DownloadActionView::Finish(
                    Err("Server returned "@ + status@ + " for "@ + download.url + ": "@ + text@),
                ),
                DownloadInput::Refused { status, body: None } => action
                    == DownloadActionView::Finish(
                    Err("Server returned "@ + status@ + " for "@ + download.url + ": "@),
                ),
                DownloadInput::FileNotCreated { path, error } => action
                    == DownloadActionView::Finish(
                    Err("Could not create temp file "@ + path@ + ": "@ + error@),
                ),
                DownloadInput::ChunkLost(error) => action == DownloadActionView::Finish(
                    Err("Error while downloading snapshot: "@ + error@),
                ),
                DownloadInput::ChunkNotWritten(error) => action == DownloadActionView::Finish(
                    Err("Error while writing snapshot to disk: "@ + error@),
                ),
                DownloadInput::NotFlushed(error) => action == DownloadActionView::Finish(
                    Err(error@),
                ),
                DownloadInput::Flushed => action == DownloadActionView::Finish(
                    Ok(download.written),
                ),
                _ => true,
            }
        }),
        download.action_on(input) is ReadChunk <==> input is FileCreated || input is ChunkWritten,
        download.action_on(input) is Flush <==> input is BodyEnded,
{
    match input {
        DownloadInput::Refused { status, body: None } => {
            let message = "Server returned "@ + status@ + " for "@ + download.url + ": "@;
            assert(message + Seq::<char>::empty() =~= message);
        },
        _ => {},
    }
}

/// An action says what it holds.
pub proof fn download_action_says_what_it_holds(action: DownloadAction, event: Option<SyncEvent>)
    ensures
        action is ReadRefusal <==> action@ is ReadRefusal,
        action is ReadChunk <==> action@ is ReadChunk,
        action is Flush <==> action@ is Flush,
        action is CreateFile <==> action@ is CreateFile,
        action matches DownloadAction::CreateFile(name) ==> action@
            == DownloadActionView::CreateFile(name@),
        action matches DownloadAction::Finish(Ok(bytes)) ==> action@ == DownloadActionView::Finish(
            Ok(bytes),
        ),
        action matches DownloadAction::Finish(Err(error)) ==> action@
            == DownloadActionView::Finish(Err(error@)),
        event is None <==> event_said(event) is None,
        event matches Some(told) ==> event_said(event) == Some(told@),
{
}

/// A file is created only for a response whose status is success, and success
/// is told only of a file that is flushed.
pub proof fn success_is_told_only_of_a_flushed_file(download: DownloadView, input: DownloadInput)
    ensures
        download.action_on(input) is CreateFile <==> (input matches DownloadInput::Responded {
            status_code,
            ..
        } && success(status_code)),
        (download.action_on(input) matches DownloadActionView::Finish(outcome) && outcome is Ok)
            <==> input is Flushed,
{
}

/// The progress that is made known never goes back, and always names the shard
/// and the announced length.
pub proof fn progress_never_goes_back(download: DownloadView, bytes: u64)
    requires
        download.can_count(DownloadInput::ChunkWritten(bytes)),
    ensures
        download.event_on(DownloadInput::ChunkWritten(bytes)) matches Some(
            EventView::Progress { shard_id, downloaded, total },
        ) && shard_id == download.shard_id && downloaded >= download.written && total
            == download.length,
{
}

/// The snapshots of different shards do not share a file, be they of one
/// collection or of two.
pub proof fn shards_do_not_share_a_file(
    collection: Seq<char>,
    shard_id: u32,
    other_collection: Seq<char>,
    other_shard_id: u32,
)
    requires
        collection != other_collection || shard_id != other_shard_id,
    ensures
        file_name(collection, shard_id) != file_name(other_collection, other_shard_id),
{
    let name = file_name(collection, shard_id);
    let other_name = file_name(other_collection, other_shard_id);
    if name == other_name {
        let digits = decimal(shard_id as nat);
        let other_digits = decimal(other_shard_id as nat);
        numbers_are_as_long(collection, shard_id, other_collection, other_shard_id);
        numbers_are_as_long(other_collection, other_shard_id, collection, shard_id);
        assert(name.len() == collection.len() + "-shard-"@.len() + digits.len()
            + ".snapshot"@.len());
        assert(other_name.len() == other_collection.len() + "-shard-"@.len() + other_digits.len()
            + ".snapshot"@.len());
        let start = (collection.len() + "-shard-"@.len()) as int;
        assert(name.subrange(start, (start + digits.len()) as int) =~= digits);
        assert(other_name.subrange(start, (start + digits.len()) as int) =~= other_digits);
        decimal_is_injective(shard_id as nat, other_shard_id as nat);
        assert(name.take(collection.len() as int) =~= collection);
        assert(other_name.take(collection.len() as int) =~= other_collection);
    }
}

proof fn numbers_are_as_long(
    collection: Seq<char>,
    shard_id: u32,
    other_collection: Seq<char>,
    other_shard_id: u32,
)
    requires
        file_name(collection, shard_id) == file_name(other_collection, other_shard_id),
    ensures
        decimal(shard_id as nat).len() >= decimal(other_shard_id as nat).len(),
{
    reveal_strlit("-shard-");
    let name = file_name(collection, shard_id);
    let digits = decimal(shard_id as nat);
    let other_digits = decimal(other_shard_id as nat);
    decimal_has_only_digits(other_shard_id as nat);
    if digits.len() < other_digits.len() {
        let before_digits = name.len() - ".snapshot"@.len() - digits.len() - 1;
        assert(name[before_digits] == '-');
        assert(file_name(other_collection, other_shard_id)[before_digits]
            == other_digits[other_digits.len() - digits.len() - 1]);
    }
}

} // verus!
