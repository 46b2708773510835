use vstd::prelude::*;

verus! {

/// The JSON text of a list of strings.
pub uninterp spec fn json_of_strings(items: Seq<Seq<char>>) -> Seq<char>;

/// Relies on serde_json's `to_string`, whose output depends on the strings alone; it does not
/// fail on a list of strings, and the empty text stands for a failure.
#[verifier::external_body]
pub(crate) fn json_string_list(items: &Vec<String>) -> (r: String)
    ensures
        r@ == json_of_strings(items@.map_values(|s: String| s@)),
{
    serde_json::to_string(items).unwrap_or_default()
}

} // verus!
