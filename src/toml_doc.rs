//! The TOML documents that the library reads, through the `toml` crate.
//!
//! A TOML value is modelled by its string leaves: the map from each key path
//! that leads through nested tables to a string, to that string. A string
//! value itself is the leaf at the empty path.

use vstd::prelude::*;

verus! {

#[verifier::external_type_specification]
#[verifier::external_body]
pub struct ExTomlValue(toml::Value);

#[verifier::external_type_specification]
#[verifier::external_body]
pub struct ExTomlError(toml::de::Error);

/// The string leaves of a TOML value, by key path.
pub uninterp spec fn toml_strings(v: toml::Value) -> Map<Seq<Seq<char>>, Seq<char>>;

/// The string leaves of the TOML document written in `text`, or `None` where
/// `text` is not a TOML document.
pub uninterp spec fn toml_document(text: Seq<char>) -> Option<Map<Seq<Seq<char>>, Seq<char>>>;

/// The leaves below the entry `key` of a table, by their path inside it.
pub open spec fn below_key(
    leaves: Map<Seq<Seq<char>>, Seq<char>>,
    key: Seq<char>,
) -> Map<Seq<Seq<char>>, Seq<char>> {
    Map::new(|p: Seq<Seq<char>>| leaves.contains_key(seq![key] + p), |p: Seq<Seq<char>>| leaves[seq![key] + p])
}

/// Relies on `<toml::Value as FromStr>::from_str` (that is, `toml::from_str`):
/// it parses a whole document, and fails exactly on text that is not one.
#[verifier::external_body]
pub(crate) fn parse_document(text: &str) -> (r: Result<toml::Value, toml::de::Error>)
    ensures
        r is Ok <==> toml_document(text@) is Some,
        r matches Ok(v) ==> toml_document(text@) == Some(toml_strings(v)),
{
    text.parse::<toml::Value>()
}

/// Relies on `toml::Value::get` with a string key: the entry of a table under
/// that key, and `None` for a missing key or a value that is no table.
#[verifier::external_body]
pub(crate) fn get_key(v: &toml::Value, key: String) -> (r: Option<&toml::Value>)
    ensures
        r matches Some(c) ==> toml_strings(*c) == below_key(toml_strings(*v), key@),
        r is None ==> forall|p: Seq<Seq<char>>|
            !(#[trigger] toml_strings(*v).contains_key(seq![key@] + p)),
{
    v.get(key)
}

/// Relies on `toml::Value::as_str`: the text of a string value, `None` for
/// any other kind of value.
#[verifier::external_body]
pub(crate) fn string_value(v: &toml::Value) -> (r: Option<String>)
    ensures
        r is Some <==> toml_strings(*v).contains_key(Seq::empty()),
        r matches Some(s) ==> s@ == toml_strings(*v)[Seq::empty()],
{
    v.as_str().map(|s| s.to_string())
}

} // verus!
