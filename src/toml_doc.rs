//! The calls into the `toml` crate, and what this library relies on of them.
//!
//! A parsed document stays a `toml::Value`, opaque to the proofs. What the
//! proofs see of it is `toml_strings`: the string values that tables lead to,
//! each under its key path.
use vstd::prelude::*;

verus! {

#[verifier::external_type_specification]
#[verifier::external_body]
pub struct ExTomlValue(toml::Value);

#[verifier::external_type_specification]
#[verifier::external_body]
pub struct ExTomlError(toml::de::Error);

/// The strings held in a TOML value that can be reached from it through
/// tables alone, each under the key path that leads to it. A value that is
/// itself a string is listed under the empty path; strings inside arrays are
/// not listed.
pub uninterp spec fn toml_strings(v: toml::Value) -> Map<Seq<Seq<char>>, Seq<char>>;

/// What a TOML document holds, as `toml_strings` lists it, or `None` where
/// the text is not a valid TOML document.
pub uninterp spec fn toml_parse(text: Seq<char>) -> Option<Map<Seq<Seq<char>>, Seq<char>>>;

/// The entries of `m` whose key path begins with `key`, with that first key
/// taken off.
pub open spec fn entries_under(m: Map<Seq<Seq<char>>, Seq<char>>, key: Seq<char>) -> Map<
    Seq<Seq<char>>,
    Seq<char>,
> {
    Map::new(|p: Seq<Seq<char>>| m.contains_key(seq![key] + p), |p: Seq<Seq<char>>| m[seq![key] + p])
}

/// Relies on `toml::from_str`, which reads a whole document into a `Value`
/// and fails on text that is not valid TOML.
#[verifier::external_body]
pub(crate) fn parse_document(text: &str) -> (r: Result<toml::Value, toml::de::Error>)
    ensures
        r is Ok <==> toml_parse(text@) is Some,
        r matches Ok(v) ==> toml_parse(text@) == Some(toml_strings(v)),
{
    toml::from_str(text)
}

/// Relies on `toml::Value::get` with a string key: the value stored under the
/// key where `v` is a table that holds it, `None` otherwise.
#[verifier::external_body]
pub(crate) fn value_get<'a>(v: &'a toml::Value, key: &str) -> (r: Option<&'a toml::Value>)
    ensures
        r matches Some(c) ==> toml_strings(*c) == entries_under(toml_strings(*v), key@),
        r is None ==> entries_under(toml_strings(*v), key@).dom() == Set::<Seq<Seq<char>>>::empty(),
{
    v.get(key)
}

/// Relies on `toml::Value::as_str`: the text of a string value, `None` for a
/// value of any other kind.
#[verifier::external_body]
pub(crate) fn value_as_str(v: &toml::Value) -> (r: Option<&str>)
    ensures
        r matches Some(s) ==> toml_strings(*v).contains_key(seq![]) && toml_strings(*v)[seq![]]
            == s@,
        r is None ==> !toml_strings(*v).contains_key(seq![]),
{
    v.as_str()
}

} // verus!
