//! JSON, as `serde_json` writes it.
//!
//! Verus takes the contract of the function here on trust.
use vstd::prelude::*;

verus! {

/// The text that `serde_json`'s pretty printer writes for an object of two
/// members whose values are strings, in the order given, or `None` where it
/// fails to write one.
pub uninterp spec fn serde_json_pretty_object(first_key: Seq<char>, first_value: Seq<char>, second_key: Seq<char>, second_value: Seq<char>) -> Option<Seq<char>>;

/// Writes an object of two string members with `serde_json::Serializer::pretty`:
/// `serde::Serializer::serialize_map`, `SerializeMap::serialize_entry` for
/// each member and `SerializeMap::end`, into a buffer that is then read as
/// UTF-8. These are the calls that `serde_json::to_string_pretty` makes for
/// a struct of two string fields.
///
/// Trusted: the result is what `serde_json` writes for the four strings.
/// `None` comes back where one of the calls fails.
#[verifier::external_body]
pub(crate) fn pretty_object(
    first_key: &str,
    first_value: &str,
    second_key: &str,
    second_value: &str,
) -> (text: Option<String>)
    ensures
        text.deep_view() == serde_json_pretty_object(
            first_key@,
            first_value@,
            second_key@,
            second_value@,
        ),
{
    let mut buffer: Vec<u8> = Vec::new();
    let mut serializer = serde_json::Serializer::pretty(&mut buffer);
    let mut object = serde::Serializer::serialize_map(&mut serializer, Some(2)).ok()?;
    serde::ser::SerializeMap::serialize_entry(&mut object, first_key, first_value).ok()?;
    serde::ser::SerializeMap::serialize_entry(&mut object, second_key, second_value).ok()?;
    serde::ser::SerializeMap::end(object).ok()?;
    String::from_utf8(buffer).ok()
}

} // verus!
