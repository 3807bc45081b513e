//! The requests that are sent to a Qdrant server, and the words for those that
//! fail.
use vstd::prelude::*;
use vstd::string::*;

use crate::text::{
    blank, blank_means_only_white_space, decimal, decimal_is_injective,
    decimal_is_the_only_numeral, decimal_text, is_numeral, more_slashes_leave_the_same,
    no_outer_white_space, only_white_space, optional_text, slash_removal_leaves_what_is_before,
    trim, trimmed, trimmed_has_no_outer_white_space, trimming_leaves_what_is_between, unslashed,
    white_space, without_trailing_slashes,
};

verus! {

/// A GET request: its URL, and the value of its `api-key` header where it has
/// one.
#[derive(Debug)]
pub struct HttpRequest {
    pub url: String,
    pub api_key: Option<String>,
}

/// The URL under which a server reports the shards of a collection.
pub open spec fn cluster_url(server_url: Seq<char>, collection: Seq<char>) -> Seq<char> {
    unslashed(server_url) + "/collections/"@ + collection + "/cluster"@
}

/// The URL under which a server hands out the snapshot of a shard.
pub open spec fn snapshot_url(server_url: Seq<char>, collection: Seq<char>, shard_id: u32) -> Seq<
    char,
> {
    unslashed(server_url) + "/collections/"@ + collection + "/shards/"@ + decimal(shard_id as nat)
        + "/snapshot"@
}

/// The value of the `api-key` header: the key without the white space around
/// it. A blank key means that there is no such header.
pub open spec fn api_key_header(api_key: Seq<char>) -> Option<Seq<char>> {
    if blank(api_key) {
        None
    } else {
        Some(trimmed(api_key))
    }
}

/// Whether an HTTP status code stands for success.
pub open spec fn success(status_code: u16) -> bool {
    200 <= status_code < 300
}

/// The words for a request that got no response.
pub open spec fn no_response(url: Seq<char>, error: Seq<char>) -> Seq<char> {
    "Request to "@ + url + " failed: "@ + error
}

/// The words for a response whose status is not success. A body that could not
/// be read counts as empty.
pub open spec fn refusal(url: Seq<char>, status: Seq<char>, body: Option<Seq<char>>) -> Seq<char> {
    "Server returned "@ + status + " for "@ + url + ": "@ + match body {
        Some(text) => text,
        None => Seq::empty(),
    }
}

fn api_key_value(api_key: &str) -> (r: Option<String>)
    ensures
        optional_text(r) == api_key_header(api_key@),
{
    let key = trim(api_key);
    if key.is_empty() {
        None
    } else {
        Some(key.to_owned())
    }
}

/// The request that asks which shards of a collection the server holds.
pub fn cluster_request(server_url: &str, api_key: &str, collection: &str) -> (r: HttpRequest)
    ensures
        r.url@ == cluster_url(server_url@, collection@),
        optional_text(r.api_key) == api_key_header(api_key@),
{
    let url = without_trailing_slashes(server_url).to_owned().concat("/collections/").concat(
        collection,
    ).concat("/cluster");
    HttpRequest { url, api_key: api_key_value(api_key) }
}

/// The request for the snapshot of a shard.
pub fn snapshot_request(server_url: &str, api_key: &str, collection: &str, shard_id: u32) -> (r:
    HttpRequest)
    ensures
        r.url@ == snapshot_url(server_url@, collection@, shard_id),
        optional_text(r.api_key) == api_key_header(api_key@),
{
    let url = without_trailing_slashes(server_url).to_owned().concat("/collections/").concat(
        collection,
    ).concat("/shards/").concat(decimal_text(shard_id as u64).as_str()).concat("/snapshot");
    HttpRequest { url, api_key: api_key_value(api_key) }
}

/// Tells whether an HTTP status code stands for success.
pub fn is_success(status_code: u16) -> (r: bool)
    ensures
        r == success(status_code),
{
    200 <= status_code && status_code < 300
}

/// Words a request that got no response.
pub fn no_response_message(url: &str, error: &str) -> (r: String)
    ensures
        r@ == no_response(url@, error@),
{
    "Request to ".to_owned().concat(url).concat(" failed: ").concat(error)
}

/// Words a response whose status is not success.
pub fn refusal_message(url: &str, status: &str, body: &Option<String>) -> (r: String)
    ensures
        r@ == refusal(url@, status@, optional_text(*body)),
{
    let message = "Server returned ".to_owned().concat(status).concat(" for ").concat(url).concat(
        ": ",
    );
    match body {
        Some(text) => message.concat(text.as_str()),
        None => {
            assert(message@ + Seq::<char>::empty() =~= message@);
            message
        },
    }
}

/// A request goes to the server, without the slashes behind its URL, and names
/// the collection as it is. The one for a snapshot has the number of the shard,
/// and nothing else, between `/shards/` and `/snapshot`.
pub proof fn requests_name_the_collection_and_the_shard(
    base: Seq<char>,
    slashes: Seq<char>,
    collection: Seq<char>,
    shard_id: u32,
    digits: Seq<char>,
)
    requires
        base.len() > 0 ==> base.last() != '/',
        forall|i: int| 0 <= i < slashes.len() ==> #[trigger] slashes[i] == '/',
        is_numeral(digits, shard_id as int),
    ensures
        cluster_url(base + slashes, collection) == base + "/collections/"@ + collection
            + "/cluster"@,
        snapshot_url(base + slashes, collection, shard_id) == base + "/collections/"@ + collection
            + "/shards/"@ + digits + "/snapshot"@,
{
    slash_removal_leaves_what_is_before(base, slashes);
    decimal_is_the_only_numeral(digits, shard_id as nat);
}

/// The snapshots of different shards of a collection have different URLs.
pub proof fn shards_do_not_share_a_url(
    server_url: Seq<char>,
    collection: Seq<char>,
    shard_id: u32,
    other_shard_id: u32,
)
    requires
        shard_id != other_shard_id,
    ensures
        snapshot_url(server_url, collection, shard_id) != snapshot_url(
            server_url,
            collection,
            other_shard_id,
        ),
{
    let front = unslashed(server_url) + "/collections/"@ + collection + "/shards/"@;
    let digits = decimal(shard_id as nat);
    let other_digits = decimal(other_shard_id as nat);
    let url = snapshot_url(server_url, collection, shard_id);
    let other_url = snapshot_url(server_url, collection, other_shard_id);
    let back = "/snapshot"@;
    if url == other_url {
        assert(url.len() == front.len() + digits.len() + back.len());
        assert(other_url.len() == front.len() + other_digits.len() + back.len());
        assert(url.subrange(front.len() as int, url.len() - back.len()) =~= digits);
        assert(other_url.subrange(front.len() as int, url.len() - back.len()) =~= other_digits);
        decimal_is_injective(shard_id as nat, other_shard_id as nat);
    }
}

/// A key is sent without the white space around it, and otherwise as it is.
pub proof fn key_is_sent_as_it_is(before: Seq<char>, key: Seq<char>, after: Seq<char>)
    requires
        only_white_space(before),
        key.len() > 0,
        no_outer_white_space(key),
        only_white_space(after),
    ensures
        api_key_header(before + key + after) == Some(key),
{
    trimming_leaves_what_is_between(before, key, after);
}

/// No key is sent if and only if there is nothing but white space to send.
pub proof fn only_a_blank_key_is_not_sent(api_key: Seq<char>)
    ensures
        api_key_header(api_key) is None <==> only_white_space(api_key),
{
    blank_means_only_white_space(api_key);
}

/// The status codes of success are those from two hundred on, a hundred of them.
pub proof fn success_is_two_hundred_and_something(status_code: u16)
    ensures
        success(status_code) <==> status_code / 100 == 2,
{
}

/// The words for a request that failed name its URL and what went wrong, both as
/// they are.
pub proof fn failed_requests_are_told_in_full(url: Seq<char>, error: Seq<char>, status: Seq<char>)
    ensures
        no_response(url, error) == "Request to "@ + url + " failed: "@ + error,
        refusal(url, status, Some(error)) == "Server returned "@ + status + " for "@ + url + ": "@
            + error,
        refusal(url, status, None) == "Server returned "@ + status + " for "@ + url + ": "@,
{
}

/// A key that is sent is not empty and has no white space around it.
pub proof fn sent_key_is_trimmed(api_key: Seq<char>)
    ensures
        api_key_header(api_key) matches Some(key) ==> key.len() > 0 && !white_space(key.first())
            && !white_space(key.last()),
{
    trimmed_has_no_outer_white_space(api_key);
}

/// Slashes at the end of the server URL change no request, however many there are.
pub proof fn trailing_slashes_are_irrelevant(
    server_url: Seq<char>,
    slashed_url: Seq<char>,
    collection: Seq<char>,
    shard_id: u32,
)
    requires
        server_url.is_prefix_of(slashed_url),
        forall|i: int| server_url.len() <= i < slashed_url.len() ==> slashed_url[i] == '/',
    ensures
        cluster_url(slashed_url, collection) == cluster_url(server_url, collection),
        snapshot_url(slashed_url, collection, shard_id) == snapshot_url(
            server_url,
            collection,
            shard_id,
        ),
{
    more_slashes_leave_the_same(server_url, slashed_url);
}

} // verus!
