use qdrant_edge_sync::sync::{SyncEvent, SyncRun};
use qdrant_edge_sync::ui::{App, Effect, Message};

fn ready() -> App {
    let mut app = App::default();
    app.update(Message::CollectionChanged(String::from("books")));
    app
}

fn last_line(app: &App) -> &str {
    app.log.last().unwrap().as_str()
}

#[test]
fn window_opens_with_defaults() {
    let app = App::default();
    assert_eq!(app.server_url, "http://localhost:6333");
    assert_eq!(app.api_key, "");
    assert_eq!(app.collection, "");
    assert_eq!(app.target_dir, "./qdrant-edge-directory");
    assert_eq!(app.log, vec![String::from("Ready.")]);
    assert!(!app.busy);
    assert_eq!(app.shards, Vec::<u32>::new());
    assert_eq!((app.total_shards, app.current_shard_index), (0, 0));
    assert_eq!((app.current_shard, app.total_bytes), (None, None));
    assert_eq!(app.downloaded_bytes, 0);
    assert!(!app.length_missing);
}

#[test]
fn form_is_filled_in() {
    let mut app = App::default();
    app.update(Message::ServerUrlChanged(String::from("u")));
    app.update(Message::ApiKeyChanged(String::from("k")));
    app.update(Message::CollectionChanged(String::from("c")));
    app.update(Message::TargetDirChanged(String::from("d")));
    assert!(matches!(app.update(Message::PickFolder), Effect::PickFolder));
    app.update(Message::FolderPicked(None));
    assert_eq!(app.target_dir, "d");
    app.update(Message::FolderPicked(Some(String::from("e"))));
    assert_eq!(app.target_dir, "e");
    assert_eq!((app.server_url.as_str(), app.api_key.as_str()), ("u", "k"));
    assert_eq!(app.collection, "c");
    assert_eq!(app.log.len(), 1);
}

#[test]
fn incomplete_form_is_refused() {
    let mut app = App::default();
    app.update(Message::CollectionChanged(String::from(" \t")));
    assert!(matches!(app.update(Message::Sync), Effect::Nothing));
    assert_eq!(last_line(&app), "⚠ Collection name is required.");
    assert!(!app.busy);

    let mut app = ready();
    app.update(Message::TargetDirChanged(String::from("  ")));
    assert!(matches!(app.update(Message::Sync), Effect::Nothing));
    assert_eq!(last_line(&app), "⚠ Local Edge Shard directory is required.");
    assert!(!app.busy);
}

#[test]
fn complete_form_starts_the_work() {
    let mut app = ready();
    app.update(Message::ApiKeyChanged(String::from("k")));
    match app.update(Message::Sync) {
        Effect::StartSync(request) => {
            assert_eq!(request.server_url, "http://localhost:6333");
            assert_eq!(request.api_key, "k");
            assert_eq!(request.collection, "books");
            assert_eq!(request.target_dir, "./qdrant-edge-directory");
        }
        other => panic!("{:?}", other),
    }
    assert!(app.busy);
    assert_eq!(last_line(&app), "Discovering shards for 'books' on http://localhost:6333…");
    assert_eq!(app.sync_button(), ("Working…", false));
}

#[test]
fn found_shards_are_listed() {
    let mut app = ready();
    app.update(Message::ShardsDiscovered(vec![0, 2, 11]));
    assert_eq!(last_line(&app), "Found 3 shard(s): 0, 2, 11");
    assert_eq!(app.shards, vec![0, 2, 11]);
    assert_eq!(app.total_shards, 3);
}

#[test]
fn progress_is_shown_of_the_current_shard_only() {
    let mut app = ready();
    app.update(Message::ShardStarted { shard_id: 5, index: 1, total_shards: 3 });
    assert_eq!(last_line(&app), "[2/3] Downloading snapshot of shard 5…");

    let stale = Message::ShardProgress { shard_id: 4, downloaded: 7, total: Some(9) };
    assert!(matches!(app.update(stale), Effect::Nothing));
    assert_eq!((app.downloaded_bytes, app.total_bytes), (0, None));

    let known = Message::ShardProgress { shard_id: 5, downloaded: 7, total: Some(9) };
    assert!(matches!(app.update(known), Effect::ShowDownload { downloaded: 7, total: 9 }));
    assert_eq!((app.downloaded_bytes, app.total_bytes), (7, Some(9)));

    let unknown = Message::ShardProgress { shard_id: 5, downloaded: 8, total: None };
    assert!(matches!(app.update(unknown), Effect::Creep));
    let empty = Message::ShardProgress { shard_id: 5, downloaded: 8, total: Some(0) };
    assert!(matches!(app.update(empty), Effect::Creep));
    assert_eq!(app.log.len(), 2);
}

#[test]
fn ends_are_logged() {
    let mut app = ready();
    let completed = Message::ShardCompleted { shard_id: 5, summary: String::from("fine") };
    assert!(matches!(app.update(completed), Effect::ShowShardEnd));
    assert_eq!(last_line(&app), "✓ Shard 5: fine");
    let failed = Message::ShardFailed { shard_id: 6, error: String::from("bad") };
    assert!(matches!(app.update(failed), Effect::ShowShardEnd));
    assert_eq!(last_line(&app), "✗ Shard 6 failed: bad");
    assert!(matches!(app.update(Message::SyncDone(Err(String::from("e")))), Effect::Nothing));
    assert_eq!(last_line(&app), "✗ Sync finished with errors: e");
    assert!(matches!(app.update(Message::Tick), Effect::Nothing));
    app.push_log(String::from("more"));
    assert_eq!(last_line(&app), "more");
}

#[test]
fn window_is_ready_once_the_work_is_over() {
    let mut app = ready();
    app.update(Message::Sync);
    let (events, run) = SyncRun::begin(Ok(vec![0, 1]));
    let (more, run) = run.unwrap().advance(Ok(String::from("a")));
    let (rest, run) = run.unwrap().advance(Ok(String::from("b")));
    assert!(run.is_none());
    for event in events.into_iter().chain(more) {
        app.update(Message::from_event(event));
    }
    assert_eq!(app.current_shard, Some(1));
    let progress = SyncEvent::Progress { shard_id: 1, downloaded: 4, total: Some(8) };
    app.update(Message::from_event(progress));
    assert!(app.busy);
    for event in rest {
        app.update(Message::from_event(event));
    }
    assert!(!app.busy);
    assert_eq!(app.current_shard, None);
    assert_eq!(app.shards, vec![0, 1]);
    assert_eq!(last_line(&app), "✓ All 2 shard(s) synced to ./qdrant-edge-directory");
    assert_eq!(app.sync_button(), ("Sync all shards to Edge", true));
}

#[test]
fn window_is_ready_once_the_fetch_failed() {
    let mut app = ready();
    app.update(Message::Sync);
    assert!(app.busy);
    let (events, _) = SyncRun::begin(Err(String::from("no server")));
    for event in events {
        app.update(Message::from_event(event));
    }
    assert!(!app.busy);
    assert_eq!(app.current_shard, None);
    assert_eq!(last_line(&app), "✗ Sync finished with errors: no server");
}

#[test]
fn label_counts_only_a_current_shard() {
    let mut app = ready();
    app.current_shard_index = usize::MAX;
    assert_eq!(app.progress_label("0", "0.0", "0.0"), "");
    app.total_shards = 1;
    assert_eq!(app.progress_label("0", "0.0", "0.0"), "0% · ");
}

#[test]
fn label_names_the_current_shard() {
    let mut app = ready();
    assert_eq!(app.progress_label("0", "0.0", "0.0"), "");
    app.update(Message::Sync);
    app.update(Message::ShardsDiscovered(vec![5]));
    assert_eq!(app.progress_label("0", "0.0", "0.0"), "0% · finishing up…");
    app.update(Message::ShardStarted { shard_id: 5, index: 0, total_shards: 1 });
    assert_eq!(app.progress_label("0", "0.0", "0.0"), "0% · shard 5 (1/1) · 0.0 MB downloaded");
    assert!(!app.length_missing);
    app.update(Message::ShardProgress { shard_id: 5, downloaded: 1, total: None });
    assert!(app.length_missing);
    assert_eq!(app.progress_label("2", "0.5", "0.0"), "shard 5 (1/1) · 0.5 MB downloaded");
    assert_eq!(app.progress_label("47", "0.5", "0.0"), "shard 5 (1/1) · 0.5 MB downloaded");
    app.update(Message::ShardProgress { shard_id: 4, downloaded: 1, total: Some(2) });
    assert!(app.length_missing);
    app.update(Message::ShardProgress { shard_id: 5, downloaded: 1, total: Some(0) });
    assert_eq!(app.progress_label("2", "0.0", "0.0"), "2% · shard 5 (1/1) · 0.0 MB downloaded");
    app.update(Message::ShardProgress { shard_id: 5, downloaded: 1, total: Some(2) });
    assert_eq!(
        app.progress_label("45", "1.0", "2.0"),
        "45% · shard 5 (1/1) · 1.0 MB / 2.0 MB"
    );
    app.update(Message::SyncDone(Ok(())));
    assert_eq!(app.progress_label("100", "1.0", "2.0"), "100% · ");
}

#[test]
fn missing_length_is_forgotten_with_its_shard() {
    let mut app = ready();
    app.update(Message::ShardStarted { shard_id: 5, index: 0, total_shards: 2 });
    app.update(Message::ShardProgress { shard_id: 5, downloaded: 1, total: None });
    app.update(Message::ShardStarted { shard_id: 6, index: 1, total_shards: 2 });
    assert!(!app.length_missing);
    assert_eq!(app.progress_label("50", "0.0", "0.0"), "50% · shard 6 (2/2) · 0.0 MB downloaded");
    app.update(Message::ShardProgress { shard_id: 6, downloaded: 1, total: None });
    app.update(Message::Sync);
    assert!(!app.length_missing);
}

#[test]
fn copied_messages_say_the_same() {
    let messages = vec![
        Message::ServerUrlChanged(String::from("a")),
        Message::ApiKeyChanged(String::from("b")),
        Message::CollectionChanged(String::from("c")),
        Message::TargetDirChanged(String::from("d")),
        Message::PickFolder,
        Message::FolderPicked(Some(String::from("e"))),
        Message::FolderPicked(None),
        Message::Sync,
        Message::ShardsDiscovered(vec![1, 2]),
        Message::ShardStarted { shard_id: 1, index: 2, total_shards: 3 },
        Message::ShardProgress { shard_id: 1, downloaded: 2, total: Some(3) },
        Message::ShardCompleted { shard_id: 1, summary: String::from("f") },
        Message::ShardFailed { shard_id: 1, error: String::from("g") },
        Message::SyncDone(Ok(())),
        Message::SyncDone(Err(String::from("h"))),
        Message::Tick,
    ];
    assert_eq!(format!("{:?}", messages.clone()), format!("{:?}", messages));
}
