//! Reading members of a JSON record with `serde_json`.

use vstd::prelude::*;

verus! {

#[verifier::external_type_specification]
#[verifier::external_body]
pub struct ExJsonError(serde_json::Error);

/// What `serde_json` gives for the member `key` of the JSON object written in
/// `text`, read as an optional string: `None` where `text` is not a JSON
/// object or the member is neither a string nor null; `Some(None)` where the
/// object has no such member; `Some(Some(None))` where the member is null;
/// else the string.
pub uninterp spec fn json_text_member(text: Seq<char>, key: Seq<char>) -> Option<
    Option<Option<Seq<char>>>,
>;

/// What `serde_json` gives for the member `key` of the JSON object written in
/// `text`, read as an optional object of strings: `None` where `text` is not
/// a JSON object or the member is neither null nor an object whose values are
/// all strings; `Some(None)` where the object has no such member;
/// `Some(Some(None))` where the member is null; else the entries, ordered by key.
pub uninterp spec fn json_map_member(text: Seq<char>, key: Seq<char>) -> Option<
    Option<Option<Seq<(Seq<char>, Seq<char>)>>>,
>;

/// Calls `serde_json::from_str` to read `text` as a JSON object, looks the
/// member `key` up in it and calls `serde_json::from_value` to read that
/// member as `Option<String>`. A member that is not there is handed out as
/// such, apart from one that is null. The contract only names the outcome:
/// the same text and key always give it.
#[verifier::external_body]
pub(crate) fn read_text_member(text: &str, key: &str) -> (r: Result<
    Option<Option<String>>,
    serde_json::Error,
>)
    ensures
        match r {
            Ok(Some(Some(s))) => json_text_member(text@, key@) == Some(Some(Some(s@))),
            Ok(Some(None)) => json_text_member(text@, key@) == Some(Some(None::<Seq<char>>)),
            Ok(None) => json_text_member(text@, key@) == Some(None::<Option<Seq<char>>>),
            Err(_) => json_text_member(text@, key@) is None,
        },
{
    let doc: serde_json::Map<String, serde_json::Value> = serde_json::from_str(text)?;
    match doc.get(key) {
        Some(member) => Ok(Some(serde_json::from_value(member.clone())?)),
        None => Ok(None),
    }
}

/// Calls `serde_json::from_str` to read `text` as a JSON object, looks the
/// member `key` up in it and calls `serde_json::from_value` to read that
/// member as an optional map from strings to strings, handed out as pairs in
/// key order. A member that is not there is handed out as such, apart from
/// one that is null. The contract only names the outcome: the same text and
/// key always give it.
#[verifier::external_body]
pub(crate) fn read_map_member(text: &str, key: &str) -> (r: Result<
    Option<Option<Vec<(String, String)>>>,
    serde_json::Error,
>)
    ensures
        match r {
            Ok(Some(Some(m))) => json_map_member(text@, key@) == Some(
                Some(Some(Seq::new(m@.len(), |i: int| (m@[i].0@, m@[i].1@)))),
            ),
            Ok(Some(None)) => json_map_member(text@, key@) == Some(
                Some(None::<Seq<(Seq<char>, Seq<char>)>>),
            ),
            Ok(None) => json_map_member(text@, key@) == Some(
                None::<Option<Seq<(Seq<char>, Seq<char>)>>>,
            ),
            Err(_) => json_map_member(text@, key@) is None,
        },
{
    let doc: serde_json::Map<String, serde_json::Value> = serde_json::from_str(text)?;
    match doc.get(key) {
        Some(member) => {
            let map: Option<std::collections::BTreeMap<String, String>> = serde_json::from_value(
                member.clone(),
            )?;
            Ok(Some(map.map(|m| m.into_iter().collect())))
        },
        None => Ok(None),
    }
}

} // verus!
