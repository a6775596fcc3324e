use vstd::prelude::*;

verus! {

/// Whether `serde_json::from_str::<serde_json::Value>` accepts `raw` (it is
/// JSON text within serde_json's nesting limit).
pub uninterp spec fn spec_json_value_parses(raw: Seq<char>) -> bool;

/// Whether `a` and `b` both parse with `serde_json::from_str::<serde_json::Value>`
/// and the two values are equal (`serde_json::Value`'s derived equality,
/// objects compared as maps).
pub uninterp spec fn spec_json_texts_equal(a: Seq<char>, b: Seq<char>) -> bool;

/// Calls `serde_json::from_str::<serde_json::Value>` on `raw`; the contract
/// claims that the parse succeeds exactly when `spec_json_value_parses` holds.
#[verifier::external_body]
fn json_value_parses(raw: &str) -> (r: bool)
    ensures
        r == spec_json_value_parses(raw@),
{
    serde_json::from_str::<serde_json::Value>(raw).is_ok()
}

/// Parses `a` and `b` with `serde_json::from_str::<serde_json::Value>` and
/// compares the values with `==`; the contract claims that the result is the
/// name `spec_json_texts_equal` of the two texts (false when either does not parse).
#[verifier::external_body]
fn json_texts_equal(a: &str, b: &str) -> (r: bool)
    ensures
        r == spec_json_texts_equal(a@, b@),
{
    match (serde_json::from_str::<serde_json::Value>(a), serde_json::from_str::<serde_json::Value>(b)) {
        (Ok(x), Ok(y)) => x == y,
        _ => false,
    }
}

/// Whether a settings file whose text is `raw` must be rewritten after it was
/// loaded: exactly when the text is JSON and differs from `normalized`, the
/// JSON text of the loaded settings with every default filled in (so a file
/// missing newly added keys gets them written back).
pub fn needs_backfill(raw: &str, normalized: &str) -> (r: bool)
    ensures
        r == (spec_json_value_parses(raw@) && !spec_json_texts_equal(raw@, normalized@)),
{
    if !json_value_parses(raw) {
        return false;
    }
    !json_texts_equal(raw, normalized)
}

} // verus!
