//! The state of the window, and how messages change it.
use vstd::prelude::*;
use vstd::string::*;

use crate::sync::{
    all_events, every_outcome_is_reported_as_it_is, every_shard_is_tried_in_order, notes_among,
    nothing_is_tried_without_shards, verdict, verdict_text, CollectionSyncRequest, EventView,
    RequestView, SyncEvent,
};
use crate::text::{
    blank, decimal, decimal_is_the_only_numeral, decimal_text, is_numeral, join_texts, joined,
    texts, trim,
};

verus! {

/// What the window shows: the form, the log, and how far the work has come.
#[derive(Debug)]
pub struct App {
    pub server_url: String,
    pub api_key: String,
    pub collection: String,
    pub target_dir: String,
    pub log: Vec<String>,
    pub busy: bool,
    /// All shards that were found, and where the work is among them.
    pub shards: Vec<u32>,
    pub total_shards: usize,
    pub current_shard: Option<u32>,
    pub current_shard_index: usize,
    pub downloaded_bytes: u64,
    pub total_bytes: Option<u64>,
    /// Whether the current shard is arriving without an announced length. It is
    /// not while nothing has arrived yet.
    pub length_missing: bool,
}

/// What an [`App`] holds.
#[verifier::ext_equal]
pub struct AppView {
    pub server_url: Seq<char>,
    pub api_key: Seq<char>,
    pub collection: Seq<char>,
    pub target_dir: Seq<char>,
    pub log: Seq<Seq<char>>,
    pub busy: bool,
    pub shards: Seq<u32>,
    pub total_shards: nat,
    pub current_shard: Option<u32>,
    pub current_shard_index: nat,
    pub downloaded_bytes: u64,
    pub total_bytes: Option<u64>,
    pub length_missing: bool,
}

impl View for App {
    type V = AppView;

    open spec fn view(&self) -> AppView {
        AppView {
            server_url: self.server_url@,
            api_key: self.api_key@,
            collection: self.collection@,
            target_dir: self.target_dir@,
            log: texts(self.log@),
            busy: self.busy,
            shards: self.shards@,
            total_shards: self.total_shards as nat,
            current_shard: self.current_shard,
            current_shard_index: self.current_shard_index as nat,
            downloaded_bytes: self.downloaded_bytes,
            total_bytes: self.total_bytes,
            length_missing: self.length_missing,
        }
    }
}

/// What the user did, or what has happened in the work.
#[derive(Debug)]
pub enum Message {
    ServerUrlChanged(String),
    ApiKeyChanged(String),
    CollectionChanged(String),
    TargetDirChanged(String),
    PickFolder,
    FolderPicked(Option<String>),
    Sync,
    ShardsDiscovered(Vec<u32>),
    ShardStarted { shard_id: u32, index: usize, total_shards: usize },
    ShardProgress { shard_id: u32, downloaded: u64, total: Option<u64> },
    ShardCompleted { shard_id: u32, summary: String },
    ShardFailed { shard_id: u32, error: String },
    SyncDone(Result<(), String>),
    Tick,
}

/// What a [`Message`] says.
pub enum MessageView {
    ServerUrlChanged(Seq<char>),
    ApiKeyChanged(Seq<char>),
    CollectionChanged(Seq<char>),
    TargetDirChanged(Seq<char>),
    PickFolder,
    FolderPicked(Option<Seq<char>>),
    Sync,
    ShardsDiscovered(Seq<u32>),
    ShardStarted { shard_id: u32, index: nat, total_shards: nat },
    ShardProgress { shard_id: u32, downloaded: u64, total: Option<u64> },
    ShardCompleted { shard_id: u32, summary: Seq<char> },
    ShardFailed { shard_id: u32, error: Seq<char> },
    SyncDone(Result<(), Seq<char>>),
    Tick,
}

impl View for Message {
    type V = MessageView;

    open spec fn view(&self) -> MessageView {
        match *self {
            Message::ServerUrlChanged(text) => MessageView::ServerUrlChanged(text@),
            Message::ApiKeyChanged(text) => MessageView::ApiKeyChanged(text@),
            Message::CollectionChanged(text) => MessageView::CollectionChanged(text@),
            Message::TargetDirChanged(text) => MessageView::TargetDirChanged(text@),
            Message::PickFolder => MessageView::PickFolder,
            Message::FolderPicked(Some(dir)) => MessageView::FolderPicked(Some(dir@)),
            Message::FolderPicked(None) => MessageView::FolderPicked(None),
            Message::Sync => MessageView::Sync,
            Message::ShardsDiscovered(ids) => MessageView::ShardsDiscovered(ids@),
            Message::ShardStarted { shard_id, index, total_shards } => MessageView::ShardStarted {
                shard_id,
                index: index as nat,
                total_shards: total_shards as nat,
            },
            Message::ShardProgress { shard_id, downloaded, total } => MessageView::ShardProgress {
                shard_id,
                downloaded,
                total,
            },
            Message::ShardCompleted { shard_id, summary } => MessageView::ShardCompleted {
                shard_id,
                summary: summary@,
            },
            Message::ShardFailed { shard_id, error } => MessageView::ShardFailed {
                shard_id,
                error: error@,
            },
            Message::SyncDone(result) => MessageView::SyncDone(verdict_text(result)),
            Message::Tick => MessageView::Tick,
        }
    }
}

impl Clone for Message {
    fn clone(&self) -> (r: Self)
        ensures
            r@ == self@,
    {
        match self {
            Message::ServerUrlChanged(text) => Message::ServerUrlChanged(text.clone()),
            Message::ApiKeyChanged(text) => Message::ApiKeyChanged(text.clone()),
            Message::CollectionChanged(text) => Message::CollectionChanged(text.clone()),
            Message::TargetDirChanged(text) => Message::TargetDirChanged(text.clone()),
            Message::PickFolder => Message::PickFolder,
            Message::FolderPicked(Some(dir)) => Message::FolderPicked(Some(dir.clone())),
            Message::FolderPicked(None) => Message::FolderPicked(None),
            Message::Sync => Message::Sync,
            Message::ShardsDiscovered(ids) => {
                let copy = ids.clone();
                assert(copy@ =~= ids@);
                Message::ShardsDiscovered(copy)
            },
            Message::ShardStarted { shard_id, index, total_shards } => Message::ShardStarted {
                shard_id: *shard_id,
                index: *index,
                total_shards: *total_shards,
            },
            Message::ShardProgress { shard_id, downloaded, total } => Message::ShardProgress {
                shard_id: *shard_id,
                downloaded: *downloaded,
                total: *total,
            },
            Message::ShardCompleted { shard_id, summary } => Message::ShardCompleted {
                shard_id: *shard_id,
                summary: summary.clone(),
            },
            Message::ShardFailed { shard_id, error } => Message::ShardFailed {
                shard_id: *shard_id,
                error: error.clone(),
            },
            Message::SyncDone(Ok(())) => Message::SyncDone(Ok(())),
            Message::SyncDone(Err(error)) => Message::SyncDone(Err(error.clone())),
            Message::Tick => Message::Tick,
        }
    }
}

/// The message that an event of the work becomes.
pub open spec fn message_of(event: EventView) -> MessageView {
    match event {
        EventView::ShardsDiscovered(ids) => MessageView::ShardsDiscovered(ids),
        EventView::ShardStarted { shard_id, index, total_shards } => MessageView::ShardStarted {
            shard_id,
            index,
            total_shards,
        },
        EventView::Progress { shard_id, downloaded, total } => MessageView::ShardProgress {
            shard_id,
            downloaded,
            total,
        },
        EventView::ShardCompleted { shard_id, summary } => MessageView::ShardCompleted {
            shard_id,
            summary,
        },
        EventView::ShardFailed { shard_id, error } => MessageView::ShardFailed { shard_id, error },
        EventView::Done(result) => MessageView::SyncDone(result),
    }
}

impl Message {
    /// The message that an event of the work becomes.
    pub fn from_event(event: SyncEvent) -> (r: Message)
        ensures
            r@ == message_of(event@),
    {
        match event {
            SyncEvent::ShardsDiscovered(ids) => Message::ShardsDiscovered(ids),
            SyncEvent::ShardStarted { shard_id, index, total_shards } => Message::ShardStarted {
                shard_id,
                index,
                total_shards,
            },
            SyncEvent::Progress { shard_id, downloaded, total } => Message::ShardProgress {
                shard_id,
                downloaded,
                total,
            },
            SyncEvent::ShardCompleted { shard_id, summary } => Message::ShardCompleted {
                shard_id,
                summary,
            },
            SyncEvent::ShardFailed { shard_id, error } => Message::ShardFailed { shard_id, error },
            SyncEvent::Done(result) => Message::SyncDone(result),
        }
    }
}

/// What is to be done besides once a message is dealt with.
#[derive(Debug)]
pub enum Effect {
    /// Nothing.
    Nothing,
    /// Let the user choose a directory.
    PickFolder,
    /// Set the bar to its start, and bring a collection down.
    StartSync(CollectionSyncRequest),
    /// Move the bar as far as this part of the current shard goes.
    ShowDownload { downloaded: u64, total: u64 },
    /// Move the bar a little, since nobody knows how much is to come.
    Creep,
    /// Move the bar to the end of the current shard.
    ShowShardEnd,
    /// Move the bar to its end.
    ShowEnd,
}

/// What an [`Effect`] says.
pub enum EffectView {
    Nothing,
    PickFolder,
    StartSync(RequestView),
    ShowDownload { downloaded: u64, total: u64 },
    Creep,
    ShowShardEnd,
    ShowEnd,
}

impl View for Effect {
    type V = EffectView;

    open spec fn view(&self) -> EffectView {
        match *self {
            Effect::Nothing => EffectView::Nothing,
            Effect::PickFolder => EffectView::PickFolder,
            Effect::StartSync(request) => EffectView::StartSync(request@),
            Effect::ShowDownload { downloaded, total } => EffectView::ShowDownload {
                downloaded,
                total,
            },
            Effect::Creep => EffectView::Creep,
            Effect::ShowShardEnd => EffectView::ShowShardEnd,
            Effect::ShowEnd => EffectView::ShowEnd,
        }
    }
}

/// The numbers of some shards, written in decimal.
pub open spec fn written_ids(ids: Seq<u32>) -> Seq<Seq<char>> {
    Seq::new(ids.len(), |i: int| decimal(ids[i] as nat))
}

impl AppView {
    /// The window with one more line in its log.
    pub open spec fn logged(self, line: Seq<char>) -> AppView {
        AppView { log: self.log.push(line), ..self }
    }

    /// What the form asks for.
    pub open spec fn request(self) -> RequestView {
        RequestView {
            server_url: self.server_url,
            api_key: self.api_key,
            collection: self.collection,
            target_dir: self.target_dir,
        }
    }

    /// The window when the work on a collection begins.
    pub open spec fn started(self) -> AppView {
        AppView {
            busy: true,
            shards: Seq::empty(),
            total_shards: 0,
            current_shard: None,
            current_shard_index: 0,
            downloaded_bytes: 0,
            total_bytes: None,
            length_missing: false,
            ..self
        }.logged(
            "Discovering shards for '"@ + self.collection + "' on "@ + self.server_url + "…"@,
        )
    }

    /// The window after a message, and what is to be done besides.
    pub open spec fn after(self, message: MessageView) -> (AppView, EffectView) {
        match message {
            MessageView::ServerUrlChanged(text) => (
                AppView { server_url: text, ..self },
                EffectView::Nothing,
            ),
            MessageView::ApiKeyChanged(text) => (
                AppView { api_key: text, ..self },
                EffectView::Nothing,
            ),
            MessageView::CollectionChanged(text) => (
                AppView { collection: text, ..self },
                EffectView::Nothing,
            ),
            MessageView::TargetDirChanged(text) => (
                AppView { target_dir: text, ..self },
                EffectView::Nothing,
            ),
            MessageView::PickFolder => (self, EffectView::PickFolder),
            MessageView::FolderPicked(Some(dir)) => (
                AppView { target_dir: dir, ..self },
                EffectView::Nothing,
            ),
            MessageView::FolderPicked(None) => (self, EffectView::Nothing),
            MessageView::Sync => if blank(self.collection) {
                (self.logged("⚠ Collection name is required."@), EffectView::Nothing)
            } else if blank(self.target_dir) {
                (
                    self.logged("⚠ Local Edge Shard directory is required."@),
                    EffectView::Nothing,
                )
            } else {
                (self.started(), EffectView::StartSync(self.request()))
            },
            MessageView::ShardsDiscovered(ids) => (
                AppView { shards: ids, total_shards: ids.len(), ..self }.logged(
                    "Found "@ + decimal(ids.len()) + " shard(s): "@ + joined(
                        written_ids(ids),
                        ", "@,
                    ),
                ),
                EffectView::Nothing,
            ),
            MessageView::ShardStarted { shard_id, index, total_shards } => (
                AppView {
                    current_shard: Some(shard_id),
                    current_shard_index: index,
                    total_shards,
                    downloaded_bytes: 0,
                    total_bytes: None,
                    length_missing: false,
                    ..self
                }.logged(
                    "["@ + decimal(index + 1) + "/"@ + decimal(total_shards)
                        + "] Downloading snapshot of shard "@ + decimal(shard_id as nat) + "…"@,
                ),
                EffectView::Nothing,
            ),
            MessageView::ShardProgress { shard_id, downloaded, total } => if self.current_shard
                != Some(shard_id) {
                (self, EffectView::Nothing)
            } else {
                (
                    AppView {
                        downloaded_bytes: downloaded,
                        total_bytes: total,
                        length_missing: total is None,
                        ..self
                    },
                    match total {
                        Some(total) if total > 0 => EffectView::ShowDownload { downloaded, total },
                        _ => EffectView::Creep,
                    },
                )
            },
            MessageView::ShardCompleted { shard_id, summary } => (
                self.logged("✓ Shard "@ + decimal(shard_id as nat) + ": "@ + summary),
                EffectView::ShowShardEnd,
            ),
            MessageView::ShardFailed { shard_id, error } => (
                self.logged("✗ Shard "@ + decimal(shard_id as nat) + " failed: "@ + error),
                EffectView::ShowShardEnd,
            ),
            MessageView::SyncDone(Ok(())) => (
                AppView { busy: false, current_shard: None, ..self }.logged(
                    "✓ All "@ + decimal(self.total_shards) + " shard(s) synced to "@
                        + self.target_dir,
                ),
                EffectView::ShowEnd,
            ),
            MessageView::SyncDone(Err(error)) => (
                AppView { busy: false, current_shard: None, ..self }.logged(
                    "✗ Sync finished with errors: "@ + error,
                ),
                EffectView::Nothing,
            ),
            MessageView::Tick => (self, EffectView::Nothing),
        }
    }
}

impl AppView {
    /// Whether the place of the current shard, counted from one, is a `usize`.
    pub open spec fn countable(self) -> bool {
        self.current_shard_index < usize::MAX
    }

    /// How the current shard, and how much of it is there, are named.
    pub open spec fn shard_label(self, downloaded_mb: Seq<char>, total_mb: Seq<char>) -> Seq<char> {
        match self.current_shard {
            Some(shard_id) => {
                let place = "shard "@ + decimal(shard_id as nat) + " ("@ + decimal(
                    self.current_shard_index + 1,
                ) + "/"@ + decimal(self.total_shards) + ") · "@;
                match self.total_bytes {
                    Some(total) if total > 0 => place + downloaded_mb + " MB / "@ + total_mb
                        + " MB"@,
                    _ => place + downloaded_mb + " MB downloaded"@,
                }
            },
            None => if self.busy {
                "finishing up…"@
            } else {
                Seq::empty()
            },
        }
    }

    /// The words under the bar; there are none before shards are found. While the
    /// current shard arrives without an announced length they claim no percentage.
    pub open spec fn progress_label(
        self,
        percent: Seq<char>,
        downloaded_mb: Seq<char>,
        total_mb: Seq<char>,
    ) -> Seq<char> {
        if self.total_shards == 0 {
            Seq::empty()
        } else if self.current_shard is Some && self.length_missing {
            self.shard_label(downloaded_mb, total_mb)
        } else {
            percent + "% · "@ + self.shard_label(downloaded_mb, total_mb)
        }
    }
}

impl Default for App {
    /// The window as it opens.
    fn default() -> (r: Self)
        ensures
            r@ == (AppView {
                server_url: "http://localhost:6333"@,
                api_key: Seq::empty(),
                collection: Seq::empty(),
                target_dir: "./qdrant-edge-directory"@,
                log: seq!["Ready."@],
                busy: false,
                shards: Seq::empty(),
                total_shards: 0,
                current_shard: None,
                current_shard_index: 0,
                downloaded_bytes: 0,
                total_bytes: None,
                length_missing: false,
            }),
    {
        let mut log: Vec<String> = Vec::new();
        log.push("Ready.".to_owned());
        let app = App {
            server_url: "http://localhost:6333".to_owned(),
            api_key: String::new(),
            collection: String::new(),
            target_dir: "./qdrant-edge-directory".to_owned(),
            log,
            busy: false,
            shards: Vec::new(),
            total_shards: 0,
            current_shard: None,
            current_shard_index: 0,
            downloaded_bytes: 0,
            total_bytes: None,
            length_missing: false,
        };
        assert(app@.log =~= seq!["Ready."@]);
        app
    }
}

fn write_ids(ids: &Vec<u32>) -> (r: Vec<String>)
    ensures
        texts(r@) == written_ids(ids@),
{
    let mut written: Vec<String> = Vec::new();
    let mut i: usize = 0;
    while i < ids.len()
        invariant
            i <= ids.len(),
            written.len() == i,
            forall|k: int| 0 <= k < i ==> #[trigger] written@[k]@ == decimal(ids@[k] as nat),
        decreases ids.len() - i,
    {
        written.push(decimal_text(ids[i] as u64));
        i = i + 1;
    }
    assert(texts(written@) =~= written_ids(ids@));
    written
}

impl App {
    /// Adds a line to the log.
    pub fn push_log(&mut self, line: String)
        ensures
            final(self)@ == old(self)@.logged(line@),
    {
        let ghost before = self@;
        self.log.push(line);
        assert(self@.log =~= before.log.push(line@));
    }

    /// What the form asks for.
    fn request(&self) -> (r: CollectionSyncRequest)
        ensures
            r@ == self@.request(),
    {
        CollectionSyncRequest {
            server_url: self.server_url.clone(),
            api_key: self.api_key.clone(),
            collection: self.collection.clone(),
            target_dir: self.target_dir.clone(),
        }
    }

    /// Deals with a message, and tells what is to be done besides.
    pub fn update(&mut self, message: Message) -> (r: Effect)
        requires
            message matches Message::ShardStarted { index, .. } ==> index < usize::MAX,
        ensures
            (final(self)@, r@) == old(self)@.after(message@),
    {
        match message {
            Message::ServerUrlChanged(text) => {
                self.server_url = text;
                Effect::Nothing
            },
            Message::ApiKeyChanged(text) => {
                self.api_key = text;
                Effect::Nothing
            },
            Message::CollectionChanged(text) => {
                self.collection = text;
                Effect::Nothing
            },
            Message::TargetDirChanged(text) => {
                self.target_dir = text;
                Effect::Nothing
            },
            Message::PickFolder => Effect::PickFolder,
            Message::FolderPicked(Some(dir)) => {
                self.target_dir = dir;
                Effect::Nothing
            },
            Message::FolderPicked(None) => Effect::Nothing,
            Message::Sync => {
                if trim(self.collection.as_str()).is_empty() {
                    self.push_log("⚠ Collection name is required.".to_owned());
                    return Effect::Nothing;
                }
                if trim(self.target_dir.as_str()).is_empty() {
                    self.push_log("⚠ Local Edge Shard directory is required.".to_owned());
                    return Effect::Nothing;
                }
                self.busy = true;
                self.shards.clear();
                self.total_shards = 0;
                self.current_shard = None;
                self.current_shard_index = 0;
                self.downloaded_bytes = 0;
                self.total_bytes = None;
                self.length_missing = false;
                let line = "Discovering shards for '".to_owned().concat(
                    self.collection.as_str(),
                ).concat("' on ").concat(self.server_url.as_str()).concat("…");
                self.push_log(line);
                Effect::StartSync(self.request())
            },
            Message::ShardsDiscovered(ids) => {
                self.total_shards = ids.len();
                let line = "Found ".to_owned().concat(
                    decimal_text(ids.len() as u64).as_str(),
                ).concat(" shard(s): ").concat(join_texts(&write_ids(&ids), ", ").as_str());
                self.push_log(line);
                self.shards = ids;
                Effect::Nothing
            },
            Message::ShardStarted { shard_id, index, total_shards } => {
                self.current_shard = Some(shard_id);
                self.current_shard_index = index;
                self.total_shards = total_shards;
                self.downloaded_bytes = 0;
                self.total_bytes = None;
                self.length_missing = false;
                let line = "[".to_owned().concat(decimal_text((index + 1) as u64).as_str()).concat(
                    "/",
                ).concat(decimal_text(total_shards as u64).as_str()).concat(
                    "] Downloading snapshot of shard ",
                ).concat(decimal_text(shard_id as u64).as_str()).concat("…");
                self.push_log(line);
                Effect::Nothing
            },
            Message::ShardProgress { shard_id, downloaded, total } => {
                if self.current_shard != Some(shard_id) {
                    return Effect::Nothing;
                }
                self.downloaded_bytes = downloaded;
                self.total_bytes = total;
                self.length_missing = total.is_none();
                match total {
                    Some(total) if total > 0 => Effect::ShowDownload { downloaded, total },
                    _ => Effect::Creep,
                }
            },
            Message::ShardCompleted { shard_id, summary } => {
                let line = "✓ Shard ".to_owned().concat(
                    decimal_text(shard_id as u64).as_str(),
                ).concat(": ").concat(summary.as_str());
                self.push_log(line);
                Effect::ShowShardEnd
            },
            Message::ShardFailed { shard_id, error } => {
                let line = "✗ Shard ".to_owned().concat(
                    decimal_text(shard_id as u64).as_str(),
                ).concat(" failed: ").concat(error.as_str());
                self.push_log(line);
                Effect::ShowShardEnd
            },
            Message::SyncDone(Ok(())) => {
                self.busy = false;
                self.current_shard = None;
                let line = "✓ All ".to_owned().concat(
                    decimal_text(self.total_shards as u64).as_str(),
                ).concat(" shard(s) synced to ").concat(self.target_dir.as_str());
                self.push_log(line);
                Effect::ShowEnd
            },
            Message::SyncDone(Err(error)) => {
                self.busy = false;
                self.current_shard = None;
                self.push_log("✗ Sync finished with errors: ".to_owned().concat(error.as_str()));
                Effect::Nothing
            },
            Message::Tick => Effect::Nothing,
        }
    }
}

impl App {
    /// The words on the button that starts the work, and whether it can be
    /// pressed: not while the work is going on.
    pub fn sync_button(&self) -> (r: (&'static str, bool))
        ensures
            r.1 == !self@.busy,
            r.0@ == if self@.busy {
                "Working…"@
            } else {
                "Sync all shards to Edge"@
            },
    {
        if self.busy {
            ("Working…", false)
        } else {
            ("Sync all shards to Edge", true)
        }
    }

    /// The words under the bar, which stands at `percent`. The sizes are those
    /// of what is downloaded of the current shard, and of all of it.
    pub fn progress_label(&self, percent: &str, downloaded_mb: &str, total_mb: &str) -> (r: String)
        requires
            self@.total_shards > 0 && self@.current_shard is Some ==> self@.countable(),
        ensures
            r@ == self@.progress_label(percent@, downloaded_mb@, total_mb@),
    {
        if self.total_shards == 0 {
            return String::new();
        }
        let label = self.shard_label(downloaded_mb, total_mb);
        if self.current_shard.is_some() && self.length_missing {
            return label;
        }
        percent.to_owned().concat("% · ").concat(label.as_str())
    }

    fn shard_label(&self, downloaded_mb: &str, total_mb: &str) -> (r: String)
        requires
            self@.current_shard is Some ==> self@.countable(),
        ensures
            r@ == self@.shard_label(downloaded_mb@, total_mb@),
    {
        match self.current_shard {
            Some(shard_id) => {
                let place = "shard ".to_owned().concat(
                    decimal_text(shard_id as u64).as_str(),
                ).concat(" (").concat(
                    decimal_text((self.current_shard_index + 1) as u64).as_str(),
                ).concat("/").concat(decimal_text(self.total_shards as u64).as_str()).concat(
                    ") · ",
                );
                match self.total_bytes {
                    Some(total) if total > 0 => place.concat(downloaded_mb).concat(" MB / ").concat(
                        total_mb,
                    ).concat(" MB"),
                    _ => place.concat(downloaded_mb).concat(" MB downloaded"),
                }
            },
            None => if self.busy {
                "finishing up…".to_owned()
            } else {
                String::new()
            },
        }
    }
}

/// The window after the messages of some events.
pub open spec fn after_events(app: AppView, events: Seq<EventView>) -> AppView
    decreases events.len(),
{
    if events.len() == 0 {
        app
    } else {
        after_events(app, events.drop_last()).after(message_of(events.last())).0
    }
}

/// What the user writes into a field, or chooses as the directory, is in that
/// field, and all else stays as it was. What is not chosen changes nothing.
pub proof fn editing_changes_one_field(app: AppView, text: Seq<char>)
    ensures
        app.after(MessageView::ServerUrlChanged(text)) == (
            AppView { server_url: text, ..app },
            EffectView::Nothing,
        ),
        app.after(MessageView::ApiKeyChanged(text)) == (
            AppView { api_key: text, ..app },
            EffectView::Nothing,
        ),
        app.after(MessageView::CollectionChanged(text)) == (
            AppView { collection: text, ..app },
            EffectView::Nothing,
        ),
        app.after(MessageView::TargetDirChanged(text)) == (
            AppView { target_dir: text, ..app },
            EffectView::Nothing,
        ),
        app.after(MessageView::FolderPicked(Some(text))) == (
            AppView { target_dir: text, ..app },
            EffectView::Nothing,
        ),
        app.after(MessageView::FolderPicked(None)) == (app, EffectView::Nothing),
        app.after(MessageView::PickFolder) == (app, EffectView::PickFolder),
        app.after(MessageView::Tick) == (app, EffectView::Nothing),
{
}

/// The work begins with nothing found and nothing counted, and asks for what
/// stands in the fields, each as it is.
pub proof fn work_begins_afresh(app: AppView)
    requires
        !blank(app.collection),
        !blank(app.target_dir),
    ensures
        app.after(MessageView::Sync).0 == (AppView {
            log: app.log.push(
                "Discovering shards for '"@ + app.collection + "' on "@ + app.server_url + "…"@,
            ),
            busy: true,
            shards: Seq::empty(),
            total_shards: 0,
            current_shard: None,
            current_shard_index: 0,
            downloaded_bytes: 0,
            total_bytes: None,
            length_missing: false,
            ..app
        }),
        app.after(MessageView::Sync).1 == EffectView::StartSync(
            RequestView {
                server_url: app.server_url,
                api_key: app.api_key,
                collection: app.collection,
                target_dir: app.target_dir,
            },
        ),
{
}

/// All shards that are found are kept and counted, and the log lists the number of
/// each of them, in order.
pub proof fn found_shards_are_all_listed(
    app: AppView,
    ids: Seq<u32>,
    numbers: Seq<Seq<char>>,
    count_digits: Seq<char>,
)
    requires
        numbers.len() == ids.len(),
        forall|i: int| 0 <= i < ids.len() ==> is_numeral(#[trigger] numbers[i], ids[i] as int),
        is_numeral(count_digits, ids.len() as int),
    ensures
        app.after(MessageView::ShardsDiscovered(ids)) == (
            AppView {
                log: app.log.push(
                    "Found "@ + count_digits + " shard(s): "@ + joined(numbers, ", "@),
                ),
                shards: ids,
                total_shards: ids.len(),
                ..app
            },
            EffectView::Nothing,
        ),
{
    decimal_is_the_only_numeral(count_digits, ids.len());
    assert(written_ids(ids) =~= numbers) by {
        assert forall|i: int| 0 <= i < ids.len() implies written_ids(ids)[i] == numbers[i] by {
            decimal_is_the_only_numeral(numbers[i], ids[i] as nat);
        }
    }
}

/// A shard that starts is the current one, at the place that is told for it and
/// among as many as are told, with nothing counted yet. The log tells its place,
/// counted from one.
pub proof fn started_shard_is_the_current_one(
    app: AppView,
    shard_id: u32,
    index: nat,
    total_shards: nat,
    digits: Seq<char>,
    place_digits: Seq<char>,
    total_digits: Seq<char>,
)
    requires
        is_numeral(digits, shard_id as int),
        is_numeral(place_digits, index as int + 1),
        is_numeral(total_digits, total_shards as int),
    ensures
        app.after(MessageView::ShardStarted { shard_id, index, total_shards }) == (
            AppView {
                log: app.log.push(
                    "["@ + place_digits + "/"@ + total_digits + "] Downloading snapshot of shard "@
                        + digits + "…"@,
                ),
                current_shard: Some(shard_id),
                current_shard_index: index,
                total_shards,
                downloaded_bytes: 0,
                total_bytes: None,
                length_missing: false,
                ..app
            },
            EffectView::Nothing,
        ),
{
    decimal_is_the_only_numeral(digits, shard_id as nat);
    decimal_is_the_only_numeral(place_digits, index + 1);
    decimal_is_the_only_numeral(total_digits, total_shards);
}

/// Progress of the current shard is taken over as it is told.
pub proof fn progress_is_taken_over(
    app: AppView,
    shard_id: u32,
    downloaded: u64,
    total: Option<u64>,
)
    requires
        app.current_shard == Some(shard_id),
    ensures
        app.after(MessageView::ShardProgress { shard_id, downloaded, total }).0 == (AppView {
            downloaded_bytes: downloaded,
            total_bytes: total,
            length_missing: total is None,
            ..app
        }),
{
}

/// What became of a shard is logged with its number and in the words that were
/// told, and moves the bar to the end of the shard; all else stays as it was.
pub proof fn reports_are_logged_as_they_are(
    app: AppView,
    shard_id: u32,
    text: Seq<char>,
    digits: Seq<char>,
)
    requires
        is_numeral(digits, shard_id as int),
    ensures
        app.after(MessageView::ShardCompleted { shard_id, summary: text }) == (
            AppView { log: app.log.push("✓ Shard "@ + digits + ": "@ + text), ..app },
            EffectView::ShowShardEnd,
        ),
        app.after(MessageView::ShardFailed { shard_id, error: text }) == (
            AppView { log: app.log.push("✗ Shard "@ + digits + " failed: "@ + text), ..app },
            EffectView::ShowShardEnd,
        ),
{
    decimal_is_the_only_numeral(digits, shard_id as nat);
}

/// The verdict ends the work, and is logged: a good one with the number of shards
/// and the directory, a bad one in the words that were told. Only a good one moves
/// the bar, to its end.
pub proof fn verdict_is_logged_as_it_is(app: AppView, error: Seq<char>, total_digits: Seq<char>)
    requires
        is_numeral(total_digits, app.total_shards as int),
    ensures
        app.after(MessageView::SyncDone(Ok(()))) == (
            AppView {
                log: app.log.push(
                    "✓ All "@ + total_digits + " shard(s) synced to "@ + app.target_dir,
                ),
                busy: false,
                current_shard: None,
                ..app
            },
            EffectView::ShowEnd,
        ),
        app.after(MessageView::SyncDone(Err(error))) == (
            AppView {
                log: app.log.push("✗ Sync finished with errors: "@ + error),
                busy: false,
                current_shard: None,
                ..app
            },
            EffectView::Nothing,
        ),
{
    decimal_is_the_only_numeral(total_digits, app.total_shards);
}

/// An event becomes the message that tells the same.
pub proof fn event_becomes_the_message_that_tells_the_same(
    ids: Seq<u32>,
    shard_id: u32,
    index: nat,
    total_shards: nat,
    downloaded: u64,
    total: Option<u64>,
    text: Seq<char>,
    result: Result<(), Seq<char>>,
)
    ensures
        message_of(EventView::ShardsDiscovered(ids)) == MessageView::ShardsDiscovered(ids),
        message_of(EventView::ShardStarted { shard_id, index, total_shards }) == (
        MessageView::ShardStarted { shard_id, index, total_shards }),
        message_of(EventView::Progress { shard_id, downloaded, total }) == (
        MessageView::ShardProgress { shard_id, downloaded, total }),
        message_of(EventView::ShardCompleted { shard_id, summary: text }) == (
        MessageView::ShardCompleted { shard_id, summary: text }),
        message_of(EventView::ShardFailed { shard_id, error: text }) == (
        MessageView::ShardFailed { shard_id, error: text }),
        message_of(EventView::Done(result)) == MessageView::SyncDone(result),
{
}

/// The words under the bar tell the current shard, its place among all, counted
/// from one, and how much of it is there; of how much, where that is known and not
/// zero. Between the shards they tell only that the work is not over, and without
/// shards nothing.
pub proof fn label_tells_shard_place_and_size(
    app: AppView,
    percent: Seq<char>,
    downloaded_mb: Seq<char>,
    total_mb: Seq<char>,
    digits: Seq<char>,
    place_digits: Seq<char>,
    total_digits: Seq<char>,
)
    requires
        app.current_shard matches Some(shard_id) ==> is_numeral(digits, shard_id as int),
        is_numeral(place_digits, app.current_shard_index as int + 1),
        is_numeral(total_digits, app.total_shards as int),
    ensures
        ({
            let label = app.progress_label(percent, downloaded_mb, total_mb);
            let place = "shard "@ + digits + " ("@ + place_digits + "/"@ + total_digits + ") · "@;
            let of_all = place + downloaded_mb + " MB / "@ + total_mb + " MB"@;
            let so_far = place + downloaded_mb + " MB downloaded"@;
            if app.total_shards == 0 {
                label == Seq::<char>::empty()
            } else if app.current_shard is None {
                label == percent + "% · "@ + if app.busy {
                    "finishing up…"@
                } else {
                    Seq::empty()
                }
            } else if app.total_bytes is Some && app.total_bytes->0 > 0 {
                label == if app.length_missing {
                    of_all
                } else {
                    percent + "% · "@ + of_all
                }
            } else {
                label == if app.length_missing {
                    so_far
                } else {
                    percent + "% · "@ + so_far
                }
            }
        }),
{
    if app.current_shard is Some {
        decimal_is_the_only_numeral(digits, app.current_shard->0 as nat);
    }
    decimal_is_the_only_numeral(place_digits, app.current_shard_index + 1);
    decimal_is_the_only_numeral(total_digits, app.total_shards);
}

/// In a run, each shard is the current one from its start up to the start of the
/// next: with `told` events told, and progress told meanwhile however often, the
/// window shows the shard that was started last, at its place among all.
pub proof fn current_shard_is_the_one_started_last(
    app: AppView,
    shard_ids: Seq<u32>,
    outcomes: Seq<Result<Seq<char>, Seq<char>>>,
    events: Seq<EventView>,
    told: int,
)
    requires
        outcomes.len() == shard_ids.len(),
        2 <= told <= 2 * shard_ids.len() + 1,
        events.filter(|event: EventView| is_milestone(event)) == all_events(
            Ok(shard_ids),
            outcomes,
        ).take(told),
    ensures
        ({
            let window = after_events(app, events);
            &&& window.current_shard == Some(shard_ids[(told - 2) / 2])
            &&& window.current_shard_index == (told - 2) / 2
            &&& window.total_shards == shard_ids.len()
            &&& window.shards == shard_ids
        }),
{
    let milestones = all_events(Ok(shard_ids), outcomes).take(told);
    every_shard_is_tried_in_order(shard_ids, outcomes);
    progress_changes_only_the_byte_counts(app, events);
    window_during_a_run(app, shard_ids, outcomes, told as nat);
    place_during_a_run(app, shard_ids, outcomes, told);
    let window = after_events(app, events);
    let plain = after_events(app, milestones);
    assert(without_byte_counts(window).current_shard == without_byte_counts(plain).current_shard);
    assert(without_byte_counts(window).current_shard_index == without_byte_counts(
        plain,
    ).current_shard_index);
    assert(without_byte_counts(window).total_shards == without_byte_counts(plain).total_shards);
    assert(without_byte_counts(window).shards == without_byte_counts(plain).shards);
}

/// The place that the window shows never goes back in a run.
pub proof fn place_never_goes_back(
    app: AppView,
    shard_ids: Seq<u32>,
    outcomes: Seq<Result<Seq<char>, Seq<char>>>,
    told: int,
    later: int,
)
    requires
        outcomes.len() == shard_ids.len(),
        2 <= told <= later <= 2 * shard_ids.len() + 1,
    ensures
        ({
            let events = all_events(Ok(shard_ids), outcomes);
            after_events(app, events.take(told)).current_shard_index <= after_events(
                app,
                events.take(later),
            ).current_shard_index
        }),
{
    place_during_a_run(app, shard_ids, outcomes, told);
    place_during_a_run(app, shard_ids, outcomes, later);
}

proof fn place_during_a_run(
    app: AppView,
    shard_ids: Seq<u32>,
    outcomes: Seq<Result<Seq<char>, Seq<char>>>,
    told: int,
)
    requires
        outcomes.len() == shard_ids.len(),
        2 <= told <= 2 * shard_ids.len() + 1,
    ensures
        ({
            let window = after_events(app, all_events(Ok(shard_ids), outcomes).take(told));
            &&& window.current_shard == Some(shard_ids[(told - 2) / 2])
            &&& window.current_shard_index == (told - 2) / 2
        }),
    decreases told,
{
    let events = all_events(Ok(shard_ids), outcomes);
    every_shard_is_tried_in_order(shard_ids, outcomes);
    let so_far = events.take(told);
    assert(so_far.drop_last() =~= events.take(told - 1));
    assert(so_far.last() == events[told - 1]);
    let i = (told - 2) / 2;
    if told % 2 == 0 {
        assert(told - 1 == 2 * i + 1);
        assert(events[told - 1] == (EventView::ShardStarted {
            shard_id: shard_ids[i],
            index: i as nat,
            total_shards: shard_ids.len(),
        }));
    } else {
        place_during_a_run(app, shard_ids, outcomes, told - 1);
        every_outcome_is_reported_as_it_is(shard_ids, outcomes, i, Seq::empty());
        assert(told - 1 == 2 * i + 2);
        assert(events[told - 1] is ShardCompleted || events[told - 1] is ShardFailed);
    }
}

/// A message says what it holds.
pub proof fn message_says_what_it_holds(message: Message)
    ensures
        match message {
            Message::ServerUrlChanged(text) => message@ == MessageView::ServerUrlChanged(text@),
            Message::ApiKeyChanged(text) => message@ == MessageView::ApiKeyChanged(text@),
            Message::CollectionChanged(text) => message@ == MessageView::CollectionChanged(text@),
            Message::TargetDirChanged(text) => message@ == MessageView::TargetDirChanged(text@),
            Message::PickFolder => message@ is PickFolder,
            Message::FolderPicked(Some(dir)) => message@ == MessageView::FolderPicked(Some(dir@)),
            Message::FolderPicked(None) => message@ == MessageView::FolderPicked(None),
            Message::Sync => message@ is Sync,
            Message::ShardsDiscovered(ids) => message@ == MessageView::ShardsDiscovered(ids@),
            Message::ShardStarted { shard_id, index, total_shards } => message@ == (
            MessageView::ShardStarted {
                shard_id,
                index: index as nat,
                total_shards: total_shards as nat,
            }),
            Message::ShardProgress { shard_id, downloaded, total } => message@ == (
            MessageView::ShardProgress { shard_id, downloaded, total }),
            Message::ShardCompleted { shard_id, summary } => message@ == (
            MessageView::ShardCompleted { shard_id, summary: summary@ }),
            Message::ShardFailed { shard_id, error } => message@ == (MessageView::ShardFailed {
                shard_id,
                error: error@,
            }),
            Message::SyncDone(Ok(())) => message@ == MessageView::SyncDone(Ok(())),
            Message::SyncDone(Err(error)) => message@ == MessageView::SyncDone(Err(error@)),
            Message::Tick => message@ is Tick,
        },
{
}

/// The window shows what it holds, and an effect says what it holds.
pub proof fn window_shows_what_it_holds(app: App, effect: Effect)
    ensures
        app@.server_url == app.server_url@,
        app@.api_key == app.api_key@,
        app@.collection == app.collection@,
        app@.target_dir == app.target_dir@,
        app@.log.len() == app.log@.len(),
        forall|i: int| 0 <= i < app.log@.len() ==> #[trigger] app@.log[i] == app.log@[i]@,
        app@.busy == app.busy,
        app@.shards == app.shards@,
        app@.total_shards == app.total_shards,
        app@.current_shard == app.current_shard,
        app@.current_shard_index == app.current_shard_index,
        app@.downloaded_bytes == app.downloaded_bytes,
        app@.total_bytes == app.total_bytes,
        app@.length_missing == app.length_missing,
        match effect {
            Effect::Nothing => effect@ is Nothing,
            Effect::PickFolder => effect@ is PickFolder,
            Effect::StartSync(request) => effect@ == EffectView::StartSync(
                RequestView {
                    server_url: request.server_url@,
                    api_key: request.api_key@,
                    collection: request.collection@,
                    target_dir: request.target_dir@,
                },
            ),
            Effect::ShowDownload { downloaded, total } => effect@ == (EffectView::ShowDownload {
                downloaded,
                total,
            }),
            Effect::Creep => effect@ is Creep,
            Effect::ShowShardEnd => effect@ is ShowShardEnd,
            Effect::ShowEnd => effect@ is ShowEnd,
        },
{
}

/// The log only grows: a message adds a line at its end, or none.
pub proof fn log_only_grows(app: AppView, message: MessageView)
    ensures
        ({
            let log = app.after(message).0.log;
            ||| log == app.log
            ||| exists|line: Seq<char>| log == app.log.push(line)
        }),
{
    let log = app.after(message).0.log;
    if log.len() > app.log.len() {
        assert(log == app.log.push(log.last()));
    }
}

/// The place of the current shard can be counted after every message for which
/// it is told so.
pub proof fn messages_keep_the_place_countable(app: AppView, message: MessageView)
    requires
        app.countable(),
        message matches MessageView::ShardStarted { index, .. } ==> index < usize::MAX,
    ensures
        app.after(message).0.countable(),
{
}

/// A form without a collection or without a directory starts nothing: the log
/// says what is missing, and all else stays as it was.
pub proof fn incomplete_form_starts_nothing(app: AppView)
    requires
        blank(app.collection) || blank(app.target_dir),
    ensures
        app.after(MessageView::Sync).1 == EffectView::Nothing,
        app.after(MessageView::Sync).0 == app.logged(
            if blank(app.collection) {
                "⚠ Collection name is required."@
            } else {
                "⚠ Local Edge Shard directory is required."@
            },
        ),
{
}

/// A complete form starts the work, on what the form says.
pub proof fn complete_form_starts_the_work(app: AppView)
    requires
        !blank(app.collection),
        !blank(app.target_dir),
    ensures
        app.after(MessageView::Sync).1 == EffectView::StartSync(app.request()),
        app.after(MessageView::Sync).0.busy,
        app.after(MessageView::Sync).0.request() == app.request(),
{
}

/// What happens in the work never changes the form.
pub proof fn work_keeps_the_form(app: AppView, events: Seq<EventView>)
    ensures
        after_events(app, events).request() == app.request(),
    decreases events.len(),
{
    if events.len() > 0 {
        work_keeps_the_form(app, events.drop_last());
    }
}

/// Progress of a shard that is not the current one changes nothing.
pub proof fn progress_of_another_shard_is_ignored(
    app: AppView,
    shard_id: u32,
    downloaded: u64,
    total: Option<u64>,
)
    requires
        app.current_shard != Some(shard_id),
    ensures
        app.after(MessageView::ShardProgress { shard_id, downloaded, total }) == (
            app,
            EffectView::Nothing,
        ),
{
}

/// The bar goes by a share of the current shard only where its length is known
/// and is not zero; elsewhere it creeps.
pub proof fn share_is_shown_only_of_a_known_length(
    app: AppView,
    shard_id: u32,
    downloaded: u64,
    total: Option<u64>,
)
    requires
        app.current_shard == Some(shard_id),
    ensures
        ({
            let effect = app.after(MessageView::ShardProgress { shard_id, downloaded, total }).1;
            if total is Some && total->0 > 0 {
                effect == EffectView::ShowDownload { downloaded, total: total->0 }
            } else {
                effect == EffectView::Creep
            }
        }),
{
}

/// Once a shard arrives without an announced length, the words under the bar
/// claim no percentage: they are the same wherever the bar stands.
pub proof fn no_percentage_is_claimed_without_a_known_length(
    app: AppView,
    shard_id: u32,
    downloaded: u64,
    percent: Seq<char>,
    other_percent: Seq<char>,
    downloaded_mb: Seq<char>,
    total_mb: Seq<char>,
)
    requires
        app.current_shard == Some(shard_id),
    ensures
        ({
            let window = app.after(
                MessageView::ShardProgress { shard_id, downloaded, total: None },
            ).0;
            let label = window.progress_label(percent, downloaded_mb, total_mb);
            &&& label == window.progress_label(other_percent, downloaded_mb, total_mb)
            &&& window.total_shards > 0 ==> label == window.shard_label(downloaded_mb, total_mb)
        }),
{
}

/// The words under the bar tell where it stands from the start of a shard on, and
/// go on to do so when its length turns out to be announced.
pub proof fn percentage_is_told_unless_the_length_is_missing(
    app: AppView,
    shard_id: u32,
    index: nat,
    total_shards: nat,
    downloaded: u64,
    total: u64,
    percent: Seq<char>,
    downloaded_mb: Seq<char>,
    total_mb: Seq<char>,
)
    requires
        total_shards > 0,
    ensures
        ({
            let begun = app.after(MessageView::ShardStarted { shard_id, index, total_shards }).0;
            let arriving = begun.after(
                MessageView::ShardProgress { shard_id, downloaded, total: Some(total) },
            ).0;
            &&& begun.progress_label(percent, downloaded_mb, total_mb) == percent + "% · "@
                + begun.shard_label(downloaded_mb, total_mb)
            &&& arriving.progress_label(percent, downloaded_mb, total_mb) == percent + "% · "@
                + arriving.shard_label(downloaded_mb, total_mb)
        }),
{
}

/// A length that is missing is not known either, after every message.
pub proof fn missing_length_is_not_known(app: AppView, message: MessageView)
    requires
        app.length_missing ==> app.total_bytes is None,
    ensures
        ({
            let window = app.after(message).0;
            window.length_missing ==> window.total_bytes is None
        }),
{
}

/// Whether an event tells of something else than progress.
pub open spec fn is_milestone(event: EventView) -> bool {
    !(event is Progress)
}

/// The window without the byte counts, and without whether one of them is missing.
pub open spec fn without_byte_counts(app: AppView) -> AppView {
    AppView { downloaded_bytes: 0, total_bytes: None, length_missing: false, ..app }
}

/// Progress, however often it is told, changes nothing but the byte counts and
/// whether one of them is missing.
pub proof fn progress_changes_only_the_byte_counts(app: AppView, events: Seq<EventView>)
    ensures
        without_byte_counts(after_events(app, events)) == without_byte_counts(
            after_events(app, events.filter(|event: EventView| is_milestone(event))),
        ),
    decreases events.len(),
{
    let milestone = |event: EventView| is_milestone(event);
    reveal(Seq::filter);
    if events.len() > 0 {
        let shorter = events.drop_last();
        progress_changes_only_the_byte_counts(app, shorter);
        if is_milestone(events.last()) {
            let kept = shorter.filter(milestone);
            assert(events.filter(milestone) == kept.push(events.last()));
            assert(kept.push(events.last()).drop_last() =~= kept);
        } else {
            assert(events.filter(milestone) == shorter.filter(milestone));
        }
    }
}

/// Whether an event tells of one of `total` shards.
spec fn tells_of_a_shard(event: EventView, total: nat) -> bool {
    match event {
        EventView::ShardStarted { total_shards, .. } => total_shards == total,
        EventView::ShardCompleted { .. } | EventView::ShardFailed { .. } => true,
        _ => false,
    }
}

proof fn events_between_tell_of_shards(
    shard_ids: Seq<u32>,
    outcomes: Seq<Result<Seq<char>, Seq<char>>>,
    at: int,
)
    requires
        outcomes.len() == shard_ids.len(),
        0 < at < all_events(Ok(shard_ids), outcomes).len() - 1,
    ensures
        tells_of_a_shard(all_events(Ok(shard_ids), outcomes)[at], shard_ids.len()),
{
    every_shard_is_tried_in_order(shard_ids, outcomes);
    if at % 2 == 1 {
        let i = (at - 1) / 2;
        assert(at == 2 * i + 1);
        let _ = shard_ids[i];
    } else {
        let i = (at - 2) / 2;
        assert(at == 2 * i + 2);
        let _ = outcomes[i];
    }
}

proof fn news_of_a_shard_keeps_the_list(app: AppView, event: EventView)
    requires
        tells_of_a_shard(event, app.total_shards),
    ensures
        ({
            let window = app.after(message_of(event)).0;
            &&& window.shards == app.shards
            &&& window.total_shards == app.total_shards
            &&& window.busy == app.busy
        }),
{
}

proof fn window_during_a_run(
    app: AppView,
    shard_ids: Seq<u32>,
    outcomes: Seq<Result<Seq<char>, Seq<char>>>,
    told: nat,
)
    requires
        outcomes.len() == shard_ids.len(),
        0 < told < all_events(Ok(shard_ids), outcomes).len(),
    ensures
        ({
            let window = after_events(app, all_events(Ok(shard_ids), outcomes).take(told as int));
            &&& window.shards == shard_ids
            &&& window.total_shards == shard_ids.len()
            &&& window.busy == app.busy
        }),
    decreases told,
{
    let events = all_events(Ok(shard_ids), outcomes);
    let so_far = events.take(told as int);
    assert(so_far.drop_last() =~= events.take(told - 1));
    assert(so_far.last() == events[told - 1]);
    if told == 1 {
        assert(events[0] == EventView::ShardsDiscovered(shard_ids));
        assert(after_events(app, so_far.drop_last()) == app);
    } else {
        window_during_a_run(app, shard_ids, outcomes, (told - 1) as nat);
        events_between_tell_of_shards(shard_ids, outcomes, told - 1);
        news_of_a_shard_keeps_the_list(after_events(app, so_far.drop_last()), so_far.last());
    }
}

/// Once the work is over, whatever progress was told meanwhile, the window is
/// ready for more: it lists the shards that were found, none is current, and
/// the last line of the log tells the verdict.
pub proof fn window_is_ready_after_a_run(
    app: AppView,
    shard_ids: Seq<u32>,
    outcomes: Seq<Result<Seq<char>, Seq<char>>>,
    events: Seq<EventView>,
)
    requires
        outcomes.len() == shard_ids.len(),
        events.filter(|event: EventView| is_milestone(event)) == all_events(
            Ok(shard_ids),
            outcomes,
        ),
    ensures
        ({
            let window = after_events(app, events);
            &&& !window.busy
            &&& window.current_shard is None
            &&& window.shards == shard_ids
            &&& window.total_shards == shard_ids.len()
            &&& window.log.last() == match verdict(
                shard_ids.len(),
                notes_among(shard_ids, outcomes, shard_ids.len()),
            ) {
                Ok(()) => "✓ All "@ + decimal(shard_ids.len()) + " shard(s) synced to "@
                    + app.target_dir,
                Err(error) => "✗ Sync finished with errors: "@ + error,
            }
        }),
{
    let told = all_events(Ok(shard_ids), outcomes);
    every_shard_is_tried_in_order(shard_ids, outcomes);
    progress_changes_only_the_byte_counts(app, events);
    window_during_a_run(app, shard_ids, outcomes, (told.len() - 1) as nat);
    assert(told.drop_last() =~= told.take(told.len() - 1));
    work_keeps_the_form(app, told.drop_last());
    let window = after_events(app, events);
    let plain = after_events(app, told);
    assert(without_byte_counts(window).log == without_byte_counts(plain).log);
    assert(without_byte_counts(window).shards == without_byte_counts(plain).shards);
}

/// Where the shards could not be found out, the window is ready for more as well,
/// and the last line of the log says why.
pub proof fn window_is_ready_after_a_failed_fetch(
    app: AppView,
    error: Seq<char>,
    outcomes: Seq<Result<Seq<char>, Seq<char>>>,
)
    ensures
        after_events(app, all_events(Err(error), outcomes)) == (AppView {
            busy: false,
            current_shard: None,
            ..app
        }.logged("✗ Sync finished with errors: "@ + error)),
{
    nothing_is_tried_without_shards(error, outcomes);
    let events = all_events(Err(error), outcomes);
    assert(after_events(app, events.drop_last()) == app);
}

/// The work begins only when the user asks for it with a complete form, and only
/// a verdict ends it.
pub proof fn only_a_verdict_ends_the_work(app: AppView, message: MessageView)
    ensures
        !app.busy && app.after(message).0.busy ==> message is Sync && !blank(app.collection)
            && !blank(app.target_dir),
        app.busy && !app.after(message).0.busy ==> message is SyncDone,
{
}

/// A line that starts with a check mark is logged for success, of a shard or of
/// the whole, and for nothing else.
pub proof fn check_mark_means_success(app: AppView, message: MessageView)
    ensures
        ({
            let log = app.after(message).0.log;
            (log.len() > app.log.len() && log.last().len() > 0 && log.last()[0] == '✓') <==> (
            message is ShardCompleted || (message matches MessageView::SyncDone(result)
                && result is Ok))
        }),
{
    reveal_strlit("⚠ Collection name is required.");
    reveal_strlit("⚠ Local Edge Shard directory is required.");
    reveal_strlit("Discovering shards for '");
    reveal_strlit("Found ");
    reveal_strlit("[");
    reveal_strlit("✓ Shard ");
    reveal_strlit("✗ Shard ");
    reveal_strlit("✓ All ");
    reveal_strlit("✗ Sync finished with errors: ");
    let line = app.after(message).0.log.last();
    match message {
        MessageView::Sync => {
            if blank(app.collection) || blank(app.target_dir) {
                assert(line[0] == '⚠');
            } else {
                assert(line[0] == 'D');
            }
        },
        MessageView::ShardsDiscovered(_) => {
            assert(line[0] == 'F');
        },
        MessageView::ShardStarted { .. } => {
            assert(line[0] == '[');
        },
        MessageView::ShardCompleted { .. } => {
            assert(line[0] == '✓');
        },
        MessageView::ShardFailed { .. } => {
            assert(line[0] == '✗');
        },
        MessageView::SyncDone(Ok(())) => {
            assert(line[0] == '✓');
        },
        MessageView::SyncDone(Err(_)) => {
            assert(line[0] == '✗');
        },
        _ => {
            assert(app.after(message).0.log == app.log);
        },
    }
}

} // verus!
