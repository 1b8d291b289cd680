//! The instruction file as the TOML parser hands it over: a tree of
//! values. The parser is not verified; what is taken on trust of it
//! stands in this file.

use vstd::prelude::*;

verus! {

/// `toml::Value`, a value of a parsed document. Nothing is known of one
/// but what the functions below tell.
#[verifier::external_type_specification]
#[verifier::external_body]
pub struct ExValue(toml::Value);

/// `toml::de::Error`, the reason why a text is no document.
#[verifier::external_type_specification]
#[verifier::external_body]
pub struct ExSyntaxError(toml::de::Error);

/// What a value of the tree is, one level deep. A float stands as its
/// bits; the items of an array and the members of a table are values
/// again.
pub enum Node {
    Text(Seq<char>),
    Integer(i64),
    Float(u64),
    Boolean(bool),
    Datetime,
    Array(Seq<toml::Value>),
    Table(Map<Seq<char>, toml::Value>),
}

/// The tree that `text` parses to, if it is a TOML document.
pub uninterp spec fn document_of(text: Seq<char>) -> Option<toml::Value>;

/// What `value` is.
pub uninterp spec fn node_of(value: toml::Value) -> Node;

/// The member of a table under `key`. Only a table has members.
pub open spec fn member_of(value: toml::Value, key: Seq<char>) -> Option<toml::Value> {
    match node_of(value) {
        Node::Table(members) => if members.contains_key(key) {
            Some(members[key])
        } else {
            None
        },
        _ => None,
    }
}

/// `toml::from_str` for a `toml::Value`: parsing depends on the text
/// alone, so the same text gives the same tree or fails alike.
#[verifier::external_body]
pub(crate) fn parse(text: &str) -> (out: Result<toml::Value, toml::de::Error>)
    ensures
        out matches Ok(value) ==> document_of(text@) == Some(value),
        out is Err ==> document_of(text@) is None,
{
    toml::from_str::<toml::Value>(text)
}

/// `toml::Value::get` with a string: the member of a table under that
/// key, and nothing for a missing key or a value that is not a table.
#[verifier::external_body]
pub(crate) fn member<'a>(value: &'a toml::Value, key: &str) -> (out: Option<&'a toml::Value>)
    ensures
        out matches Some(found) ==> member_of(*value, key@) == Some(*found),
        out is None ==> member_of(*value, key@) is None,
{
    value.get(key)
}

/// `toml::Value::as_str`: the text of a string, nothing for any other
/// value.
#[verifier::external_body]
pub(crate) fn as_text<'a>(value: &'a toml::Value) -> (out: Option<&'a str>)
    ensures
        out matches Some(text) ==> node_of(*value) == Node::Text(text@),
        out is None ==> node_of(*value) !is Text,
{
    value.as_str()
}

/// `toml::Value::as_bool`: the truth value of a boolean, nothing for any
/// other value.
#[verifier::external_body]
pub(crate) fn as_flag(value: &toml::Value) -> (out: Option<bool>)
    ensures
        out matches Some(flag) ==> node_of(*value) == Node::Boolean(flag),
        out is None ==> node_of(*value) !is Boolean,
{
    value.as_bool()
}

/// `toml::Value::as_float`, the float handed over as its bits: nothing
/// for any other value, an integer included.
#[verifier::external_body]
pub(crate) fn as_float_bits(value: &toml::Value) -> (out: Option<u64>)
    ensures
        out matches Some(bits) ==> node_of(*value) == Node::Float(bits),
        out is None ==> node_of(*value) !is Float,
{
    value.as_float().map(|float| float.to_bits())
}

/// `toml::Value::as_array`: the items of an array in their order,
/// nothing for any other value.
#[verifier::external_body]
pub(crate) fn as_items<'a>(value: &'a toml::Value) -> (out: Option<&'a Vec<toml::Value>>)
    ensures
        out matches Some(items) ==> node_of(*value) == Node::Array(items@),
        out is None ==> node_of(*value) !is Array,
{
    value.as_array()
}

/// `toml::Value::is_table`: whether the value is a table.
#[verifier::external_body]
pub(crate) fn is_table(value: &toml::Value) -> (out: bool)
    ensures
        out == (node_of(*value) is Table),
{
    value.is_table()
}

} // verus!
