use qdrant_edge_sync::http::{
    cluster_request, is_success, no_response_message, refusal_message, snapshot_request,
};

#[test]
fn cluster_request_names_the_collection() {
    let request = cluster_request("http://localhost:6333/", "", "books");
    assert_eq!(request.url, "http://localhost:6333/collections/books/cluster");
    assert_eq!(request.api_key, None);
}

#[test]
fn snapshot_request_names_the_shard() {
    let request = snapshot_request("http://localhost:6333", "  key\n", "books", 3);
    assert_eq!(request.url, "http://localhost:6333/collections/books/shards/3/snapshot");
    assert_eq!(request.api_key, Some(String::from("key")));
}

#[test]
fn blank_key_is_not_sent() {
    assert_eq!(cluster_request("h", " \t ", "c").api_key, None);
    assert_eq!(snapshot_request("h", "\u{3000}", "c", 0).api_key, None);
}

#[test]
fn trailing_slash_of_the_server_is_irrelevant() {
    assert_eq!(cluster_request("h/", "", "c").url, cluster_request("h", "", "c").url);
    assert_eq!(cluster_request("h///", "", "c").url, cluster_request("h/", "", "c").url);
    assert_eq!(snapshot_request("h//", "", "c", 1).url, snapshot_request("h", "", "c", 1).url);
}

#[test]
fn success_is_two_hundred_and_something() {
    assert!(is_success(200));
    assert!(is_success(299));
    assert!(!is_success(199));
    assert!(!is_success(300));
    assert!(!is_success(404));
}

#[test]
fn failures_are_worded() {
    assert_eq!(no_response_message("u", "refused"), "Request to u failed: refused");
    assert_eq!(
        refusal_message("u", "404 Not Found", &Some(String::from("no such thing"))),
        "Server returned 404 Not Found for u: no such thing"
    );
    assert_eq!(refusal_message("u", "500 Internal Server Error", &None),
        "Server returned 500 Internal Server Error for u: ");
}
