use vstd::prelude::*;

verus! {

/// What a JSON text holds under `name`, where the text is an object whose
/// values are all strings and `name` is one of its keys.
pub uninterp spec fn spec_json_string_entry(text: Seq<char>, name: Seq<char>) -> Option<
    Seq<char>,
>;

/// `serde_json::from_str`, for a map from strings to strings, and the
/// entry of that map under `name`.
///
/// Trusted: the outcome depends on the text and the name alone.
#[verifier::external_body]
pub(crate) fn json_string_entry(text: &str, name: &str) -> (entry: Option<String>)
    ensures
        entry matches Some(value) ==> spec_json_string_entry(text@, name@) == Some(value@),
        entry is None ==> spec_json_string_entry(text@, name@) is None,
{
    let mut entries: std::collections::HashMap<String, String> = serde_json::from_str(text).ok()?;
    entries.remove(name)
}

} // verus!
