use qdrant_edge_sync::shard::{
    shard_step, shard_target_dir, unpack_step, ShardAction, ShardInput, UnpackAction, UnpackInput,
};

#[test]
fn shard_directories_are_named_after_the_shard() {
    assert_eq!(shard_target_dir("./qdrant-edge-directory", 0), "./qdrant-edge-directory/shard-0");
    assert_eq!(shard_target_dir("/data/", 12), "/data/shard-12");
    assert_eq!(shard_target_dir("", 4294967295), "shard-4294967295");
    assert_ne!(shard_target_dir("d", 1), shard_target_dir("d", 10));
}

#[test]
fn downloaded_shard_is_unpacked_into_its_directory() {
    match shard_step("out", 3, ShardInput::Downloaded(Ok(()))) {
        ShardAction::Unpack(dir) => assert_eq!(dir, "out/shard-3"),
        other => panic!("{:?}", other),
    }
}

#[test]
fn outcome_of_a_shard_is_told() {
    match shard_step("out", 3, ShardInput::Downloaded(Err(String::from("gone")))) {
        ShardAction::Finish(outcome) => assert_eq!(outcome, Err(String::from("gone"))),
        other => panic!("{:?}", other),
    }
    let unpacked = ShardInput::Unpacked {
        result: Ok(String::from("ready")),
        downloaded_mb: String::from("1.25"),
    };
    match shard_step("out", 3, unpacked) {
        ShardAction::Finish(outcome) => {
            assert_eq!(outcome, Ok(String::from("ready (1.25 MB downloaded)")))
        }
        other => panic!("{:?}", other),
    }
    let broken = ShardInput::Unpacked {
        result: Err(String::from("broken")),
        downloaded_mb: String::from("1.25"),
    };
    match shard_step("out", 3, broken) {
        ShardAction::Finish(outcome) => assert_eq!(outcome, Err(String::from("broken"))),
        other => panic!("{:?}", other),
    }
}

fn unpack(input: UnpackInput) -> UnpackAction {
    unpack_step("/tmp/s.snapshot", "out/shard-3", input)
}

fn unpack_outcome(input: UnpackInput) -> Result<String, String> {
    match unpack(input) {
        UnpackAction::Finish(outcome) => outcome,
        other => panic!("{:?}", other),
    }
}

#[test]
fn directory_is_new_before_unpacking() {
    assert!(matches!(
        unpack(UnpackInput::DirectoryChecked { exists: true }),
        UnpackAction::Clear
    ));
    assert!(matches!(
        unpack(UnpackInput::DirectoryChecked { exists: false }),
        UnpackAction::Create
    ));
    assert!(matches!(unpack(UnpackInput::Cleared), UnpackAction::Create));
    assert!(matches!(unpack(UnpackInput::Created), UnpackAction::Unpack));
    assert!(matches!(unpack(UnpackInput::Unpacked), UnpackAction::Load));
    assert_eq!(
        unpack_outcome(UnpackInput::Loaded),
        Ok(String::from("Edge Shard ready at out/shard-3 (from /tmp/s.snapshot)"))
    );
}

#[test]
fn failed_unpacking_is_worded() {
    let e = || String::from("e");
    assert_eq!(
        unpack_outcome(UnpackInput::NotCleared(e())),
        Err(String::from("Could not clear existing directory out/shard-3: e"))
    );
    assert_eq!(
        unpack_outcome(UnpackInput::NotCreated(e())),
        Err(String::from("Could not create directory out/shard-3: e"))
    );
    assert_eq!(
        unpack_outcome(UnpackInput::NotUnpacked(e())),
        Err(String::from("unpack_snapshot failed: e"))
    );
    assert_eq!(
        unpack_outcome(UnpackInput::NotLoaded(e())),
        Err(String::from("Snapshot unpacked, but EdgeShard::load failed: e"))
    );
    assert_eq!(
        unpack_outcome(UnpackInput::Panicked(e())),
        Err(String::from("Unpack task panicked: e"))
    );
}
