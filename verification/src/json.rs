//! Reading the server's JSON through `serde_json`.
use vstd::prelude::*;

verus! {

/// A parsed JSON document.
#[verifier::external_type_specification]
#[verifier::external_body]
pub struct ExValue(serde_json::Value);

/// Why a text is not a JSON document.
#[verifier::external_type_specification]
#[verifier::external_body]
pub struct ExError(serde_json::Error);

/// What a JSON value is, as far as a cluster report is read: booleans, strings
/// and the numbers that are no `u64` are told apart from the rest, not from
/// each other.
pub enum JsonView {
    Null,
    Unsigned(u64),
    Array(Seq<JsonView>),
    Object(Map<Seq<char>, JsonView>),
    Other,
}

impl JsonView {
    /// The member under `key`; null where there is none, or no object.
    pub open spec fn member(self, key: Seq<char>) -> JsonView {
        match self {
            JsonView::Object(members) => if members.contains_key(key) {
                members[key]
            } else {
                JsonView::Null
            },
            _ => JsonView::Null,
        }
    }

    /// The items of an array; nothing where it is none.
    pub open spec fn items(self) -> Option<Seq<JsonView>> {
        match self {
            JsonView::Array(items) => Some(items),
            _ => None,
        }
    }

    /// The number, where it is one that a `u64` holds.
    pub open spec fn unsigned(self) -> Option<u64> {
        match self {
            JsonView::Unsigned(n) => Some(n),
            _ => None,
        }
    }
}

/// What a parsed document holds: its tree of members and items.
pub uninterp spec fn json_contents(value: serde_json::Value) -> JsonView;

/// What `serde_json::from_slice` reads from a text, or nothing where it fails.
pub uninterp spec fn json_document(text: Seq<u8>) -> Option<JsonView>;

/// Parses a JSON text with `serde_json::from_slice`, which is trusted to decide
/// from the bytes alone whether they are a document, and which.
#[verifier::external_body]
pub(crate) fn parse_document(text: &[u8]) -> (r: Result<serde_json::Value, serde_json::Error>)
    ensures
        match r {
            Ok(value) => json_document(text@) == Some(json_contents(value)),
            Err(_) => json_document(text@) is None,
        },
{
    serde_json::from_slice(text)
}

/// Looks a member up with the index operator of `serde_json::Value`, which is
/// trusted to give null for a missing key and for a value that is no object.
#[verifier::external_body]
pub(crate) fn member<'a>(value: &'a serde_json::Value, key: &str) -> (r: &'a serde_json::Value)
    ensures
        json_contents(*r) == json_contents(*value).member(key@),
{
    &value[key]
}

/// `serde_json::Value::as_array` is trusted to give the items of an array, in
/// their order, and nothing for any other value.
pub assume_specification[ serde_json::Value::as_array ](value: &serde_json::Value) -> (r: Option<
    &Vec<serde_json::Value>,
>)
    ensures
        match r {
            Some(items) => json_contents(*value).items() == Some(
                items@.map_values(|item: serde_json::Value| json_contents(item)),
            ),
            None => json_contents(*value).items() is None,
        },
;

/// `serde_json::Value::as_u64` is trusted to give the number of a value that is
/// an integer and fits, and nothing for any other value.
pub assume_specification[ serde_json::Value::as_u64 ](value: &serde_json::Value) -> (r: Option<u64>)
    ensures
        r == json_contents(*value).unsigned(),
;

} // verus!
