use qdrant_edge_sync::sync::{CollectionSyncRequest, SyncEvent, SyncRun};

fn run(shards: Vec<u32>, outcomes: Vec<Result<String, String>>) -> Vec<SyncEvent> {
    let (mut events, mut state) = SyncRun::begin(Ok(shards));
    for outcome in outcomes {
        let (more, next) = state.expect("a shard is in work").advance(outcome);
        events.extend(more);
        state = next;
    }
    assert!(state.is_none());
    events
}

fn said(events: &Vec<SyncEvent>) -> Vec<String> {
    events.iter().map(|event| format!("{:?}", event)).collect()
}

#[test]
fn every_shard_is_tried_whatever_became_of_the_others() {
    let events = run(
        vec![3, 5, 8],
        vec![Ok(String::from("a")), Err(String::from("b")), Ok(String::from("c"))],
    );
    assert_eq!(
        said(&events),
        vec![
            "ShardsDiscovered([3, 5, 8])",
            "ShardStarted { shard_id: 3, index: 0, total_shards: 3 }",
            "ShardCompleted { shard_id: 3, summary: \"a\" }",
            "ShardStarted { shard_id: 5, index: 1, total_shards: 3 }",
            "ShardFailed { shard_id: 5, error: \"b\" }",
            "ShardStarted { shard_id: 8, index: 2, total_shards: 3 }",
            "ShardCompleted { shard_id: 8, summary: \"c\" }",
            "Done(Err(\"1 of 3 shard(s) failed: shard 5: b\"))",
        ]
    );
}

#[test]
fn all_failures_are_noted() {
    let events = run(vec![0, 1], vec![Err(String::from("x")), Err(String::from("y"))]);
    match events.last() {
        Some(SyncEvent::Done(Err(message))) => {
            assert_eq!(message, "2 of 2 shard(s) failed: shard 0: x; shard 1: y")
        }
        other => panic!("{:?}", other),
    }
}

#[test]
fn run_without_failure_is_good() {
    let events = run(vec![7], vec![Ok(String::from("ready"))]);
    assert_eq!(events.len(), 4);
    assert!(matches!(events[3], SyncEvent::Done(Ok(()))));
}

#[test]
fn run_over_no_shards_is_good() {
    let events = run(Vec::new(), Vec::new());
    assert_eq!(said(&events), vec!["ShardsDiscovered([])", "Done(Ok(()))"]);
}

#[test]
fn run_without_a_list_says_why() {
    let (events, state) = SyncRun::begin(Err(String::from("no server")));
    assert!(state.is_none());
    assert_eq!(said(&events), vec!["Done(Err(\"no server\"))"]);
}

#[test]
fn shard_in_work_is_the_one_that_was_started() {
    let (_, state) = SyncRun::begin(Ok(vec![4, 6]));
    let state = state.unwrap();
    assert_eq!(state.shard_id(), 4);
    let (_, state) = state.advance(Ok(String::new()));
    assert_eq!(state.unwrap().shard_id(), 6);
}

#[test]
fn copies_say_the_same() {
    let events = run(vec![1, 2], vec![Ok(String::from("a")), Err(String::from("b"))]);
    assert_eq!(said(&events.clone()), said(&events));
    let progress = SyncEvent::Progress { shard_id: 1, downloaded: 2, total: Some(3) };
    assert_eq!(format!("{:?}", progress.clone()), format!("{:?}", progress));
    let request = CollectionSyncRequest {
        server_url: String::from("a"),
        api_key: String::from("b"),
        collection: String::from("c"),
        target_dir: String::from("d"),
    };
    assert_eq!(format!("{:?}", request.clone()), format!("{:?}", request));
}
