use vstd::prelude::*;

verus! {

#[verifier::external_type_specification]
#[verifier::external_body]
pub struct ExJsonError(serde_json::Error);

/// The JSON string literal that `serde_json` writes for the text `s`, quotes
/// and escapes included; `None` where it refuses to write one.
pub uninterp spec fn json_string(s: Seq<char>) -> Option<Seq<char>>;

/// Relies on `serde_json::to_string` applied to a string slice: it writes the
/// JSON string literal for `s` (quoted and escaped) or reports an error.
#[verifier::external_body]
pub(crate) fn json_quote(s: &str) -> (r: Result<String, serde_json::Error>)
    ensures
        match r {
            Ok(t) => json_string(s@) == Some(t@),
            Err(_) => json_string(s@) is None,
        },
{
    serde_json::to_string(s)
}

} // verus!
