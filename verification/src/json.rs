//! JSON text as `serde_json` writes and reads it.
//!
//! The two functions at the end of this file call into `serde_json`. Their
//! contracts are taken on trust: each says that what the call returned is
//! what the spec function beside it names, and the first that the call
//! succeeds.

use std::collections::BTreeMap;
use vstd::prelude::*;

verus! {

/// The error that `serde_json` reports; nothing is known of what it holds.
#[verifier::external_type_specification]
#[verifier::external_body]
pub struct ExJsonError(serde_json::Error);

/// The JSON string literal, quotes and escapes included, that
/// `serde_json::to_string` writes for `text`.
pub uninterp spec fn json_quoted(text: Seq<char>) -> Seq<char>;

/// What `serde_json::from_str` reads from `text` as a map from text to text:
/// the members of the one JSON object that `text` holds, each a key with its
/// value, in ascending order of the keys, and a key that is written more
/// than once with the last of its values; `None` where `text` is anything
/// else, an object with a member that is not a string included.
pub uninterp spec fn json_text_members(text: Seq<char>) -> Option<Seq<(Seq<char>, Seq<char>)>>;

/// Calls `serde_json::to_string` on a string slice. Trusted: the call
/// succeeds, and the literal that comes back is the one that `json_quoted`
/// names for `text`. It succeeds because the only errors on the way of a
/// string are those of the writer, and the writer is a vector in memory.
#[verifier::external_body]
pub(crate) fn quote(text: &str) -> (r: Result<String, serde_json::Error>)
    ensures
        r is Ok,
        r matches Ok(literal) ==> literal@ == json_quoted(text@),
{
    serde_json::to_string(text)
}

/// Calls `serde_json::from_str` for a `BTreeMap<String, String>` and hands
/// the map's entries out in the order in which the map walks them. Trusted:
/// the entries are those that `json_text_members` names for `text`, and an
/// error comes back exactly where it names none.
#[verifier::external_body]
pub(crate) fn text_members(text: &str) -> (r: Result<Vec<(String, String)>, serde_json::Error>)
    ensures
        match r {
            Ok(members) => json_text_members(text@) == Some(members.deep_view()),
            Err(_) => json_text_members(text@).is_none(),
        },
{
    match serde_json::from_str::<BTreeMap<String, String>>(text) {
        Ok(map) => Ok(map.into_iter().collect()),
        Err(error) => Err(error),
    }
}

} // verus!
