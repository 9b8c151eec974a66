use vstd::prelude::*;

verus! {

/// The string that a JSON Pointer addresses in a JSON document; nothing when
/// the document does not parse, or the pointer addresses no string.
pub uninterp spec fn json_str_at(doc: Seq<char>, pointer: Seq<char>) -> Option<Seq<char>>;

/// Relies on serde_json::from_str, Value::pointer and Value::as_str: the
/// document is parsed, the pointer followed, and a string found there read.
#[verifier::external_body]
pub(crate) fn json_string_at(doc: &str, pointer: &str) -> (r: Option<String>)
    ensures
        match r {
            Some(s) => json_str_at(doc@, pointer@) == Some(s@),
            None => json_str_at(doc@, pointer@) is None,
        },
{
    let v: serde_json::Value = serde_json::from_str(doc).ok()?;
    v.pointer(pointer).and_then(|m| m.as_str()).map(|s| s.to_string())
}

} // verus!
