//! What the library reads from the payloads of the service.
//!
//! A payload is a `serde_json::Value` that is handed through as it came.
//! The library looks at it in three ways only: it reads the text of a
//! member, it reads the strings of a member that is an object, and it writes
//! the whole payload out. Each of the three is one function of this module,
//! and what it finds is named as a function of the payload.

use crate::server::ExportedImage;
use serde_json::Value;
use vstd::prelude::*;

verus! {

/// A JSON value of `serde_json`. Nothing of what it holds is known here.
#[verifier::external_type_specification]
#[verifier::external_body]
pub struct ExValue(Value);

/// What a JSON object holds: each of its members under its name. A member
/// is given by two things, its text as compact JSON and, where the member is
/// an object itself, the members of that object in the order in which it
/// hands them out, each with its name and with its text where it is a
/// string. What is no object has no members.
pub uninterp spec fn members_of(payload: Value) -> Map<
    Seq<char>,
    (Seq<char>, Option<Seq<(Seq<char>, Option<Seq<char>>)>>),
>;

/// The member `key` of `payload`, written as compact JSON, if there is
/// such a member.
pub open spec fn member_text_of(payload: Value, key: Seq<char>) -> Option<Seq<char>> {
    if members_of(payload).contains_key(key) {
        Some(members_of(payload)[key].0)
    } else {
        None
    }
}

/// The members of the object that stands under `key` in `payload`, if
/// there is such a member and it is an object.
pub open spec fn member_strings_of(payload: Value, key: Seq<char>) -> Option<
    Seq<(Seq<char>, Option<Seq<char>>)>,
> {
    if members_of(payload).contains_key(key) {
        members_of(payload)[key].1
    } else {
        None
    }
}

/// The name and the address of an image, as a pair.
pub open spec fn as_pair(image: ExportedImage) -> (Seq<char>, Option<Seq<char>>) {
    (
        image.node_id@,
        match image.url {
            Some(address) => Some(address@),
            None => None,
        },
    )
}

/// `payload` written as JSON over several lines, with indentation; where it
/// cannot be written, the words in which the failure describes itself.
pub uninterp spec fn pretty_text_of(payload: Value) -> Result<Seq<char>, Seq<char>>;

/// Looks the member up with `Value::get` and writes it with `to_string`.
/// Whether there is such a member, and what its text is, depends on
/// `payload` and `key` alone and is named by `members_of`; the contract says
/// nothing of what the text holds.
#[verifier::external_body]
pub(crate) fn member_text(payload: &Value, key: &str) -> (text: Option<String>)
    ensures
        match text {
            Some(t) => members_of(*payload).contains_key(key@) && members_of(*payload)[key@].0 == t@,
            None => !members_of(*payload).contains_key(key@),
        },
{
    payload.get(key).map(|member| member.to_string())
}

/// Looks the member up with `Value::get`, takes it as an object with
/// `Value::as_object` and walks the object with `Map::iter`, reading each
/// member with `Value::as_str`. What comes back depends on `payload` and
/// `key` alone and is named by `members_of`.
#[verifier::external_body]
pub(crate) fn member_strings(payload: &Value, key: &str) -> (list: Option<Vec<ExportedImage>>)
    ensures
        match list {
            Some(images) => members_of(*payload).contains_key(key@) && members_of(*payload)[key@].1
                == Some(Seq::new(images@.len(), |i: int| as_pair(images@[i]))),
            None => !members_of(*payload).contains_key(key@) || members_of(*payload)[key@].1 is None,
        },
{
    payload.get(key).and_then(|member| member.as_object()).map(
        |object|
            object.iter().map(
                |(name, value)|
                    ExportedImage {
                        node_id: name.clone(),
                        url: value.as_str().map(|address| address.to_string()),
                    },
            ).collect(),
    )
}

/// Writes `payload` with `serde_json::to_string_pretty`; a failure comes
/// back as the text that its `to_string` gives. Whether a text comes back,
/// and which, depends on `payload` alone and is named by `pretty_text_of`.
#[verifier::external_body]
pub(crate) fn pretty_text(payload: &Value) -> (text: Result<String, String>)
    ensures
        match text {
            Ok(t) => pretty_text_of(*payload) == Ok::<Seq<char>, Seq<char>>(t@),
            Err(reason) => pretty_text_of(*payload) == Err::<Seq<char>, Seq<char>>(reason@),
        },
{
    serde_json::to_string_pretty(payload).map_err(|e| e.to_string())
}

} // verus!
