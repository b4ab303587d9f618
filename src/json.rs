use vstd::prelude::*;

verus! {

/// The list of strings that a JSON text holds, if it is a JSON array of
/// strings and nothing else.
pub uninterp spec fn json_strings(b: Seq<u8>) -> Option<Seq<Seq<char>>>;

/// The text, written as compact JSON, of the member `key` of the JSON
/// object in `b`; `None` where `b` is not JSON that serde_json accepts, is
/// not an object, or has no such member.
pub uninterp spec fn member_text_of(b: Seq<u8>, key: Seq<char>) -> Option<Seq<char>>;

pub open spec fn string_views(v: Seq<String>) -> Seq<Seq<char>> {
    v.map_values(|s: String| s@)
}

/// Relies on serde_json::from_slice into `Vec<String>`: it succeeds exactly
/// on a JSON array of strings, and then gives those strings in order.
#[verifier::external_body]
pub(crate) fn decode_strings(b: &Vec<u8>) -> (r: Option<Vec<String>>)
    ensures
        r is Some ==> json_strings(b@) == Some(string_views(r->Some_0@)),
        r is None ==> json_strings(b@) is None,
{
    serde_json::from_slice::<Vec<String>>(b).ok()
}

/// Relies on serde_json::from_slice into `Value`, `Value::get` and
/// `Display` for `Value`: the member `key` of the decoded object, written
/// back as JSON text. The result depends on the bytes and the key alone.
#[verifier::external_body]
pub(crate) fn member_text(b: &Vec<u8>, key: &str) -> (r: Option<String>)
    ensures
        r is Some ==> member_text_of(b@, key@) == Some(r->Some_0@),
        r is None ==> member_text_of(b@, key@) is None,
{
    serde_json::from_slice::<serde_json::Value>(b).ok().and_then(|v| v.get(key).map(|m| m.to_string()))
}

} // verus!
