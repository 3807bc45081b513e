use qdrant_edge_sync::download::{
    snapshot_file_name, DownloadAction, DownloadInput, SnapshotDownload,
};
use qdrant_edge_sync::sync::{CollectionSyncRequest, SyncEvent};

const URL: &str = "http://h/collections/books/shards/4/snapshot";

fn started() -> SnapshotDownload {
    let request = CollectionSyncRequest {
        server_url: String::from("http://h"),
        api_key: String::new(),
        collection: String::from("books"),
        target_dir: String::from("./out"),
    };
    let (download, asked) = SnapshotDownload::start(&request, 4);
    assert_eq!(asked.url, URL);
    assert_eq!(asked.api_key, None);
    download
}

fn progress(event: Option<SyncEvent>) -> (u32, u64, Option<u64>) {
    match event {
        Some(SyncEvent::Progress { shard_id, downloaded, total }) => (shard_id, downloaded, total),
        other => panic!("{:?}", other),
    }
}

fn failure(input: DownloadInput) -> String {
    let (event, action) = started().step(input);
    assert!(event.is_none());
    match action {
        DownloadAction::Finish(Err(message)) => message,
        other => panic!("{:?}", other),
    }
}

#[test]
fn file_is_named_after_collection_and_shard() {
    assert_eq!(snapshot_file_name("books", 4), "books-shard-4.snapshot");
    assert_ne!(snapshot_file_name("books", 1), snapshot_file_name("books", 11));
    assert_ne!(snapshot_file_name("books", 1), snapshot_file_name("books-shard-1", 1));
    assert_ne!(snapshot_file_name("books-shard-1", 2), snapshot_file_name("books", 12));
}

#[test]
fn download_counts_every_byte() {
    let mut download = started();
    let (event, action) =
        download.step(DownloadInput::Responded { status_code: 200, length: Some(30) });
    assert!(event.is_none());
    match action {
        DownloadAction::CreateFile(name) => assert_eq!(name, "books-shard-4.snapshot"),
        other => panic!("{:?}", other),
    }
    let (event, action) = download.step(DownloadInput::FileCreated);
    assert_eq!(progress(event), (4, 0, Some(30)));
    assert!(matches!(action, DownloadAction::ReadChunk));
    let (event, _) = download.step(DownloadInput::ChunkWritten(10));
    assert_eq!(progress(event), (4, 10, Some(30)));
    let (event, action) = download.step(DownloadInput::ChunkWritten(20));
    assert_eq!(progress(event), (4, 30, Some(30)));
    assert!(matches!(action, DownloadAction::ReadChunk));
    assert_eq!(download.written(), 30);
    let (event, action) = download.step(DownloadInput::BodyEnded);
    assert!(event.is_none());
    assert!(matches!(action, DownloadAction::Flush));
    let (_, action) = download.step(DownloadInput::Flushed);
    assert!(matches!(action, DownloadAction::Finish(Ok(30))));
}

#[test]
fn length_may_be_unknown() {
    let mut download = started();
    download.step(DownloadInput::Responded { status_code: 206, length: None });
    let (event, _) = download.step(DownloadInput::FileCreated);
    assert_eq!(progress(event), (4, 0, None));
}

#[test]
fn refused_response_is_read_out() {
    let mut download = started();
    let (event, action) =
        download.step(DownloadInput::Responded { status_code: 404, length: Some(9) });
    assert!(event.is_none());
    assert!(matches!(action, DownloadAction::ReadRefusal));
}

#[test]
fn failed_downloads_are_worded() {
    assert_eq!(
        failure(DownloadInput::NoResponse(String::from("gone"))),
        format!("Request to {} failed: gone", URL)
    );
    let refused = DownloadInput::Refused { status: String::from("404 Not Found"), body: None };
    assert_eq!(failure(refused), format!("Server returned 404 Not Found for {}: ", URL));
    let no_file = DownloadInput::FileNotCreated {
        path: String::from("/tmp/x"),
        error: String::from("denied"),
    };
    assert_eq!(failure(no_file), "Could not create temp file /tmp/x: denied");
    assert_eq!(
        failure(DownloadInput::ChunkLost(String::from("cut"))),
        "Error while downloading snapshot: cut"
    );
    assert_eq!(
        failure(DownloadInput::ChunkNotWritten(String::from("full"))),
        "Error while writing snapshot to disk: full"
    );
    assert_eq!(failure(DownloadInput::NotFlushed(String::from("full"))), "full");
}
