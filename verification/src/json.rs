//! JSON documents, read and written through `serde_json`.
use vstd::prelude::*;

use crate::text::{opt_text, texts};

verus! {

/// What a member of a JSON object holds, as far as this library tells apart.
pub enum JsonMember {
    Null,
    Text(Seq<char>),
    Texts(Seq<Seq<char>>),
    Other,
}

/// `serde_json::Value`, carried as an opaque value.
#[verifier::external_type_specification]
#[verifier::external_body]
pub struct ExJsonValue(serde_json::Value);

/// The members of a JSON object by key; no members for any other JSON value.
pub uninterp spec fn json_members(v: serde_json::Value) -> Map<Seq<char>, JsonMember>;

/// The value is a JSON object.
pub uninterp spec fn json_is_object(v: serde_json::Value) -> bool;

/// What [`serde_json::from_str`] makes of a text: the members of the document, or
/// the message of the error.
pub uninterp spec fn json_parse(text: Seq<char>) -> Result<
    Map<Seq<char>, JsonMember>,
    Seq<char>,
>;

/// The text that [`serde_json::to_string`] writes for an object with these members.
/// The members of an object are kept sorted by key, so the text depends on nothing else.
pub uninterp spec fn json_text(members: Map<Seq<char>, JsonMember>) -> Seq<char>;

/// No member at all.
pub open spec fn no_members() -> Map<Seq<char>, JsonMember> {
    Map::empty()
}

/// Every member is null, a string or a list of strings.
pub open spec fn plain_members(members: Map<Seq<char>, JsonMember>) -> bool {
    forall|key: Seq<char>| members.contains_key(key) ==> #[trigger] members[key] !is Other
}

/// The member under `key`, when it is a string.
pub open spec fn text_member_of(members: Map<Seq<char>, JsonMember>, key: Seq<char>) -> Option<
    Seq<char>,
> {
    if members.contains_key(key) {
        match members[key] {
            JsonMember::Text(s) => Some(s),
            _ => None,
        }
    } else {
        None
    }
}

/// The member that stands for an optional string.
pub open spec fn optional_member(text: Option<Seq<char>>) -> JsonMember {
    match text {
        Some(s) => JsonMember::Text(s),
        None => JsonMember::Null,
    }
}

/// Calls [`serde_json::from_str`] for a `serde_json::Value`.
///
/// The outcome is named: the members of the parsed document, or the displayed
/// error.
#[verifier::external_body]
pub(crate) fn parse_json(text: &str) -> (r: Result<serde_json::Value, String>)
    ensures
        match r {
            Ok(v) => json_parse(text@) matches Ok(members) && members == json_members(v),
            Err(e) => json_parse(text@) matches Err(message) && message == e@,
        },
{
    match serde_json::from_str::<serde_json::Value>(text) {
        Ok(v) => Ok(v),
        Err(e) => Err(e.to_string()),
    }
}

/// Indexes a `serde_json::Value` by a key and calls `as_str` on what is found.
///
/// There is a result exactly when the value is an object whose member under the
/// key is a string, and it is that string.
#[verifier::external_body]
pub(crate) fn text_member(v: &serde_json::Value, key: &str) -> (r: Option<String>)
    ensures
        opt_text(r) == text_member_of(json_members(*v), key@),
{
    v[key].as_str().map(str::to_string)
}

/// Makes a `serde_json::Value` from a new `serde_json::Map`: an object without
/// members.
#[verifier::external_body]
pub(crate) fn empty_object() -> (v: serde_json::Value)
    ensures
        json_is_object(v),
        json_members(v) == no_members(),
{
    serde_json::Value::Object(serde_json::Map::new())
}

/// Assigns to a member of an object by indexing a `serde_json::Value` with a key.
///
/// The member becomes the string, or null when there is none; the other members
/// stay.
#[verifier::external_body]
pub(crate) fn set_optional_text(v: &mut serde_json::Value, key: &str, text: Option<String>)
    requires
        json_is_object(*old(v)),
    ensures
        json_is_object(*final(v)),
        json_members(*final(v)) == json_members(*old(v)).insert(
            key@,
            optional_member(opt_text(text)),
        ),
{
    v[key] = serde_json::Value::from(text);
}

/// Assigns to a member of an object by indexing a `serde_json::Value` with a key.
///
/// The member becomes the list of the strings, in their order; the other members
/// stay.
#[verifier::external_body]
pub(crate) fn set_texts(v: &mut serde_json::Value, key: &str, list: Vec<String>)
    requires
        json_is_object(*old(v)),
    ensures
        json_is_object(*final(v)),
        json_members(*final(v)) == json_members(*old(v)).insert(
            key@,
            JsonMember::Texts(texts(list@)),
        ),
{
    v[key] = serde_json::Value::from(list);
}

/// Calls [`serde_json::to_string`] on an object.
///
/// Writing a `serde_json::Value` to a string does not fail. The text is named, and
/// parsing it gives the members back.
#[verifier::external_body]
pub(crate) fn json_to_string(v: &serde_json::Value) -> (r: Result<String, String>)
    requires
        json_is_object(*v),
        plain_members(json_members(*v)),
    ensures
        match r {
            Ok(s) => {
                &&& s@ == json_text(json_members(*v))
                &&& json_parse(s@) matches Ok(members) && members == json_members(*v)
            },
            Err(_) => false,
        },
{
    match serde_json::to_string(v) {
        Ok(s) => Ok(s),
        Err(e) => Err(e.to_string()),
    }
}

} // verus!
