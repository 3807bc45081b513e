use qdrant_edge_sync::cluster::{
    read_report, shard_ids, shard_ids_from_body, ClusterFetch, FetchAction, FetchInput,
};
use qdrant_edge_sync::sync::CollectionSyncRequest;

fn request() -> CollectionSyncRequest {
    CollectionSyncRequest {
        server_url: String::from("http://h/"),
        api_key: String::from(" k "),
        collection: String::from("books"),
        target_dir: String::from("./out"),
    }
}

fn failed(action: FetchAction) -> String {
    match action {
        FetchAction::Finish(Err(message)) => message,
        other => panic!("{:?}", other),
    }
}

const REPORT: &[u8] = br#"{"result": {"local_shards": [
    {"shard_id": 2, "state": "Active"}, {"shard_id": 0}, {"shard_id": 2},
    {"shard_id": -1}, {"shard_id": "7"}, {"shard_id": 1.5}, {}, 9, null,
    {"shard_id": 4294967297}]}, "status": "ok"}"#;

#[test]
fn report_is_read_entry_by_entry() {
    let reported = read_report(REPORT).unwrap();
    assert_eq!(
        reported,
        vec![Some(2), Some(0), Some(2), None, None, None, None, None, None, Some(4294967297)]
    );
}

#[test]
fn report_without_a_list_is_empty() {
    assert_eq!(read_report(b"{}").unwrap(), Vec::new());
    assert_eq!(read_report(b"[1]").unwrap(), Vec::new());
    assert_eq!(read_report(br#"{"result": {"local_shards": 3}}"#).unwrap(), Vec::new());
    assert_eq!(read_report(br#"{"result": {"local_shards": []}}"#).unwrap(), Vec::new());
}

#[test]
fn text_that_is_no_document_is_refused() {
    assert!(read_report(b"not json").is_err());
    assert!(read_report(b"").is_err());
    assert!(read_report(b"{} trailing").is_err());
}

#[test]
fn shard_ids_are_ascending_and_named_once() {
    let reported = vec![Some(2), None, Some(0), Some(2), Some(4294967297)];
    assert_eq!(shard_ids("c", "u", &reported), Ok(vec![0, 2]));
    let shuffled = vec![Some(1), Some(2), Some(0), Some(1)];
    assert_eq!(shard_ids("c", "u", &shuffled), Ok(vec![0, 1, 2]));
    assert_eq!(shard_ids("c", "u", &vec![Some(4294967295)]), Ok(vec![4294967295]));
}

#[test]
fn report_without_an_id_is_an_error() {
    let message = String::from("No local shards reported for collection 'c' at u");
    assert_eq!(shard_ids("c", "u", &Vec::new()), Err(message.clone()));
    assert_eq!(shard_ids("c", "u", &vec![None, None]), Err(message.clone()));
    assert_eq!(shard_ids("c", "u", &vec![Some(4294967296)]), Err(message));
}

#[test]
fn number_beyond_the_range_of_ids_names_no_shard() {
    let body = br#"{"result": {"local_shards": [{"shard_id": 4294967296}]}}"#;
    assert_eq!(
        shard_ids_from_body("c", "u", body),
        Err(String::from("No local shards reported for collection 'c' at u"))
    );
    let reported = vec![Some(18446744073709551615), Some(4294967295), Some(4294967296)];
    assert_eq!(shard_ids("c", "u", &reported), Ok(vec![4294967295]));
}

#[test]
fn shard_ids_come_out_of_a_body() {
    assert_eq!(shard_ids_from_body("c", "u", REPORT), Ok(vec![0, 2]));
    assert_eq!(
        shard_ids_from_body("c", "u", b"{"),
        Err(String::from("Could not parse cluster info from u: error decoding response body"))
    );
    assert_eq!(
        shard_ids_from_body("c", "u", b"{}"),
        Err(String::from("No local shards reported for collection 'c' at u"))
    );
}

#[test]
fn fetch_asks_for_the_cluster() {
    let (fetch, asked) = ClusterFetch::start(&request());
    assert_eq!(asked.url, "http://h/collections/books/cluster");
    assert_eq!(asked.api_key, Some(String::from("k")));
    assert_eq!(fetch.url, asked.url);
}

#[test]
fn fetch_decides_step_by_step() {
    let (fetch, _) = ClusterFetch::start(&request());
    assert!(matches!(fetch.step(FetchInput::Responded(200)), FetchAction::ReadBody));
    assert!(matches!(fetch.step(FetchInput::Responded(403)), FetchAction::ReadRefusal));
    assert_eq!(
        failed(fetch.step(FetchInput::NoResponse(String::from("gone")))),
        "Request to http://h/collections/books/cluster failed: gone"
    );
    let refused = FetchInput::Refused {
        status: String::from("403 Forbidden"),
        body: Some(String::from("no")),
    };
    assert_eq!(
        failed(fetch.step(refused)),
        "Server returned 403 Forbidden for http://h/collections/books/cluster: no"
    );
    assert_eq!(
        failed(fetch.step(FetchInput::BodyUnread(String::from("cut")))),
        "Could not parse cluster info from http://h/collections/books/cluster: cut"
    );
    match fetch.step(FetchInput::BodyRead(REPORT.to_vec())) {
        FetchAction::Finish(Ok(ids)) => assert_eq!(ids, vec![0, 2]),
        other => panic!("{:?}", other),
    }
    assert_eq!(
        failed(fetch.step(FetchInput::BodyRead(b"{}".to_vec()))),
        "No local shards reported for collection 'books' at http://h/collections/books/cluster"
    );
}
