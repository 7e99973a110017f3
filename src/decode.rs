//! Decoding of a reply body as a JSON object whose values are all strings.
use vstd::prelude::*;

verus! {

/// The entries, in key order, of the JSON object of strings that `body`
/// holds, or `None` where `body` is not such an object.
pub uninterp spec fn json_string_entries(body: Seq<u8>) -> Option<Seq<(Seq<char>, Seq<char>)>>;

/// The entries of a decoded mapping, each string seen as its characters.
pub open spec fn entries_view(v: Seq<(String, String)>) -> Seq<(Seq<char>, Seq<char>)> {
    v.map_values(|p: (String, String)| (p.0@, p.1@))
}

#[verifier::external_type_specification]
#[verifier::external_body]
pub struct ExJsonError(serde_json::Error);

/// Relies on `serde_json::from_slice` into a `BTreeMap<String, String>`: it
/// succeeds exactly on a JSON object whose values are all strings, and the
/// map hands its entries out in key order. What it returns depends on the
/// bytes alone.
#[verifier::external_body]
fn json_string_map(body: &[u8]) -> (r: Result<Vec<(String, String)>, serde_json::Error>)
    ensures
        r is Ok <==> json_string_entries(body@) is Some,
        r is Ok ==> entries_view(r->Ok_0@) == json_string_entries(body@)->Some_0,
{
    match serde_json::from_slice::<std::collections::BTreeMap<String, String>>(body) {
        Ok(m) => Ok(m.into_iter().collect()),
        Err(e) => Err(e),
    }
}

/// Decodes `body` as a JSON object of strings; `None` where it is not one.
pub fn decode_string_map(body: &[u8]) -> (r: Option<Vec<(String, String)>>)
    ensures
        r is Some <==> json_string_entries(body@) is Some,
        r is Some ==> entries_view(r->Some_0@) == json_string_entries(body@)->Some_0,
{
    match json_string_map(body) {
        Ok(entries) => Some(entries),
        Err(_) => None,
    }
}

} // verus!
