//! JSON documents: the mathematical model that contracts speak of, and the
//! calls into `serde_json` that read them.

use vstd::prelude::*;

verus! {

/// A JSON document as a mathematical value.
pub enum JsonModel {
    Null,
    Bool(bool),
    /// A number, given by its decimal text.
    Number(Seq<char>),
    Text(Seq<char>),
    Array(Seq<JsonModel>),
    Object(Map<Seq<char>, JsonModel>),
}

impl JsonModel {
    /// The member stored under `key`, where this document is an object that has one.
    pub open spec fn member(self, key: Seq<char>) -> Option<JsonModel> {
        match self {
            JsonModel::Object(members) => if members.contains_key(key) {
                Some(members[key])
            } else {
                None
            },
            _ => None,
        }
    }

    /// The characters of this document, where it is a string.
    pub open spec fn text(self) -> Option<Seq<char>> {
        match self {
            JsonModel::Text(chars) => Some(chars),
            _ => None,
        }
    }

    /// The characters of the string stored under `key`, where there is one.
    pub open spec fn text_member(self, key: Seq<char>) -> Option<Seq<char>> {
        match self.member(key) {
            Some(member) => member.text(),
            None => None,
        }
    }
}

/// `serde_json::Value`, carried as it is. What it holds is read through
/// the functions of this module only.
#[verifier::external_type_specification]
#[verifier::external_body]
pub struct ExJsonValue(serde_json::Value);

/// `serde_json::Error`, the reason why a text was rejected. Nothing is
/// read from it.
#[verifier::external_type_specification]
#[verifier::external_body]
pub struct ExJsonError(serde_json::Error);

/// The document that `serde_json::from_str` reads from `text`, and `None`
/// where it rejects the text.
pub uninterp spec fn json_parse(text: Seq<char>) -> Option<JsonModel>;

/// The document that a `serde_json::Value` holds.
pub uninterp spec fn json_view(value: serde_json::Value) -> JsonModel;

/// Calls `serde_json::from_str` for a `serde_json::Value`. Trusted: the
/// outcome is a function of the text alone, named by `json_parse`; a value
/// that comes back holds the document so named.
#[verifier::external_body]
pub(crate) fn parse_json(text: &str) -> (r: Result<serde_json::Value, serde_json::Error>)
    ensures
        match r {
            Ok(value) => json_parse(text@) == Some(json_view(value)),
            Err(_) => json_parse(text@) is None,
        },
{
    serde_json::from_str::<serde_json::Value>(text)
}

/// Calls `serde_json::Value::get` with a string key. Trusted: `Some` exactly
/// where the value is an object with a member under that key, and then that
/// member.
#[verifier::external_body]
pub(crate) fn member<'a>(value: &'a serde_json::Value, key: &str) -> (r: Option<&'a serde_json::Value>)
    ensures
        match r {
            Some(found) => json_view(*value).member(key@) == Some(json_view(*found)),
            None => json_view(*value).member(key@) is None,
        },
{
    value.get(key)
}

/// `serde_json::Value::as_str`. Trusted: `Some` exactly where the value is
/// a string, and then its characters.
pub assume_specification<'a>[ serde_json::Value::as_str ](value: &'a serde_json::Value) -> (r: Option<&'a str>)
    ensures
        match r {
            Some(chars) => json_view(*value).text() == Some(chars@),
            None => json_view(*value).text() is None,
        },
;

} // verus!
