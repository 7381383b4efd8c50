use vstd::prelude::*;

verus! {

#[verifier::external_type_specification]
#[verifier::external_body]
pub struct ExJsonError(serde_json::Error);

/// What `serde_json` writes for a string: the JSON string literal, quoted and escaped.
pub uninterp spec fn json_string_of(s: Seq<char>) -> Seq<u8>;

/// Relies on `serde_json::to_vec` applied to a `str`: it writes into a `Vec`,
/// which cannot fail, and serializing a string has no error of its own, so the
/// call succeeds with the JSON string literal for `s`.
#[verifier::external_body]
pub(crate) fn json_string(s: &str) -> (r: Result<Vec<u8>, serde_json::Error>)
    ensures
        r is Ok,
        r matches Ok(b) ==> b@ == json_string_of(s@),
{
    serde_json::to_vec(s)
}

} // verus!
