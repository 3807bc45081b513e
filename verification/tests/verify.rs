use qdrant_edge_sync::verify::VerifyPlan;

fn plan(args: &[&str]) -> VerifyPlan {
    VerifyPlan::from_args(&args.iter().map(|arg| String::from(*arg)).collect())
}

#[test]
fn missing_arguments_have_defaults() {
    let none = plan(&[]);
    assert_eq!(none.dir, "./edge-shard");
    assert_eq!(none.vector_name, "my-vector");
    assert_eq!(none.components, vec!["0.1", "0.2", "0.3", "0.4"]);
    let two = plan(&["d", "v"]);
    assert_eq!((two.dir.as_str(), two.vector_name.as_str()), ("d", "v"));
    assert_eq!(two.components, vec!["0.1", "0.2", "0.3", "0.4"]);
}

#[test]
fn given_arguments_are_taken() {
    let all = plan(&["d", "v", "1", "2.5"]);
    assert_eq!((all.dir.as_str(), all.vector_name.as_str()), ("d", "v"));
    assert_eq!(all.components, vec!["1", "2.5"]);
}

#[test]
fn missing_directory_is_worded() {
    assert_eq!(
        plan(&["d"]).missing_directory_message(),
        "'d' doesn't exist yet — run the GUI sync first (or check you're pointing at the same \
         directory it wrote to)."
    );
}
