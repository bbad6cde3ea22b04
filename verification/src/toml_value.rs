//! The `toml` crate, which reads release descriptions: its types, and its
//! functions under the contracts that the rest of the library relies on. None
//! of these contracts is proved.

use vstd::prelude::*;
use crate::tree::Node;

verus! {

/// `toml::Value`, a TOML value as the `toml` crate reads it. Nothing of what
/// is inside is known here.
#[verifier::external_type_specification]
#[verifier::external_body]
pub struct ExReleaseValue(toml::Value);

/// `toml::de::Error`, the error of `toml::from_str`.
#[verifier::external_type_specification]
#[verifier::external_body]
pub struct ExReleaseError(toml::de::Error);

/// What `toml::from_str` reads from `body` as a `toml::Value`, as a tree;
/// `None` where it reports an error.
pub uninterp spec fn release_tree(body: Seq<char>) -> Option<Node>;

/// What a `toml::Value` holds, as a tree.
pub uninterp spec fn value_tree(value: toml::Value) -> Node;

/// `toml::from_str`, reading a `toml::Value`. Nothing is proved of it: the
/// contract gives the outcome a name, `release_tree`, and says that the value
/// handed back holds that tree.
#[verifier::external_body]
pub(crate) fn parse_release(body: &str) -> (r: Result<toml::Value, toml::de::Error>)
    ensures
        match r {
            Ok(value) => release_tree(body@) == Some(value_tree(value)),
            Err(_) => release_tree(body@) is None,
        },
{
    toml::from_str(body)
}

/// `toml::Value::get` with a string for the index. Nothing is proved of it:
/// the contract says that it finds the entry under `key` where the value is a
/// table that has one, and nothing otherwise.
#[verifier::external_body]
pub(crate) fn value_get<'a>(value: &'a toml::Value, key: &str) -> (r: Option<&'a toml::Value>)
    ensures
        match r {
            Some(found) => value_tree(*value).child(key@) == Some(value_tree(*found)),
            None => value_tree(*value).child(key@) is None,
        },
{
    value.get(key)
}

/// `toml::Value::as_str`. Nothing is proved of it: the contract says that it
/// gives the text where the value is a string, and nothing otherwise.
#[verifier::external_body]
pub(crate) fn value_as_str<'a>(value: &'a toml::Value) -> (r: Option<&'a str>)
    ensures
        match r {
            Some(text) => value_tree(*value).text() == Some(text@),
            None => value_tree(*value).text() is None,
        },
{
    value.as_str()
}

} // verus!
