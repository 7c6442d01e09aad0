//! JSON, as far as the service reads and writes it itself.

use serde_json::Value;
use vstd::prelude::*;
use vstd::string::StringExecFns;

verus! {

/// The texts that a list of strings holds.
pub open spec fn texts(list: Seq<String>) -> Seq<Seq<char>> {
    list.map_values(|s: String| s@)
}

pub open spec fn opt_text(s: Option<String>) -> Option<Seq<char>> {
    match s {
        Some(s) => Some(s@),
        None => None,
    }
}

/// The list of strings that serde_json reads from a JSON text; nothing where the
/// text is not a JSON array of strings.
pub uninterp spec fn json_list(text: Seq<char>) -> Option<Seq<Seq<char>>>;

/// The JSON text that serde_json writes for a list of strings.
pub uninterp spec fn list_json(list: Seq<Seq<char>>) -> Seq<char>;

/// The member `key` of the JSON object `text`, where there is such a member and
/// it is a string.
pub uninterp spec fn json_string_member(text: Seq<char>, key: Seq<char>) -> Option<Seq<char>>;

/// The JSON text that serde_json writes for the member `key` of the JSON object
/// `text`; nothing where there is no such member.
pub uninterp spec fn json_member(text: Seq<char>, key: Seq<char>) -> Option<Seq<char>>;

/// The JSON object with two members: `key`, with what stands for it in JSON, or
/// null; and `tag_key`, with the string `tag`.
pub open spec fn tagged(
    member: Option<Seq<char>>,
    key: Seq<char>,
    tag_key: Seq<char>,
    tag: Seq<char>,
) -> Seq<char> {
    let member = match member {
        Some(member) => member,
        None => "null"@,
    };
    "{\""@ + key + "\":"@ + member + ",\""@ + tag_key + "\":\""@ + tag + "\"}"@
}

/// The string that a JSON text stands for; where it stands for none, serde_json's
/// words for that.
pub uninterp spec fn json_string(text: Seq<char>) -> Result<Seq<char>, Seq<char>>;

/// The whole number that a JSON text stands for; where it stands for none that an
/// `i64` can hold, serde_json's words for that.
pub uninterp spec fn json_number(text: Seq<char>) -> Result<i64, Seq<char>>;

/// `serde_json::from_str` into a value, and `serde_json::from_value` of that into a
/// string: a function of the text. A failure comes as the text of its error.
#[verifier::external_body]
pub(crate) fn string(text: &str) -> (r: Result<String, String>)
    ensures
        match r {
            Ok(s) => json_string(text@) == Ok::<Seq<char>, Seq<char>>(s@),
            Err(words) => json_string(text@) == Err::<Seq<char>, Seq<char>>(words@),
        },
{
    serde_json::from_str(text).and_then(serde_json::from_value).map_err(|e| e.to_string())
}

/// `serde_json::from_str` into a value, and `serde_json::from_value` of that into an
/// `i64`: a function of the text. A failure comes as the text of its error.
#[verifier::external_body]
pub(crate) fn number(text: &str) -> (r: Result<i64, String>)
    ensures
        match r {
            Ok(n) => json_number(text@) == Ok::<i64, Seq<char>>(n),
            Err(words) => json_number(text@) == Err::<i64, Seq<char>>(words@),
        },
{
    serde_json::from_str(text).and_then(serde_json::from_value).map_err(|e| e.to_string())
}

/// `serde_json::from_str` into a list of strings.
#[verifier::external_body]
fn read_list(text: &str) -> (r: Option<Vec<String>>)
    ensures
        r is Some <==> json_list(text@) is Some,
        r matches Some(list) ==> json_list(text@) == Some(texts(list@)),
{
    serde_json::from_str(text).ok()
}

/// `serde_json::to_string` of a list of strings: a function of the list. It
/// fails only on what a list of strings cannot hold (a `Serialize` that fails, a
/// map with keys that are no strings), and what it writes, `serde_json::from_str`
/// reads as the same list.
#[verifier::external_body]
fn write_list(list: &Vec<String>) -> (r: Option<String>)
    ensures
        r is Some,
        r matches Some(text) ==> text@ == list_json(texts(list@)),
        r matches Some(text) ==> json_list(text@) == Some(texts(list@)),
{
    serde_json::to_string(list).ok()
}

/// `serde_json::from_str` into a value, `Value::get` with the key, and
/// `Value::as_str`: a function of the text and the key.
#[verifier::external_body]
pub(crate) fn string_member(text: &str, key: &str) -> (r: Option<String>)
    ensures
        opt_text(r) == json_string_member(text@, key@),
{
    let value: Value = serde_json::from_str(text).ok()?;
    value.get(key).and_then(|member| member.as_str()).map(|s| s.to_string())
}

/// `serde_json::from_str` into a value, `Value::get` with the key, and the `Display`
/// form of the member: a function of the text and the key.
#[verifier::external_body]
fn member_json(text: &str, key: &str) -> (r: Option<String>)
    ensures
        opt_text(r) == json_member(text@, key@),
{
    let value: Value = serde_json::from_str(text).ok()?;
    value.get(key).map(|member| member.to_string())
}

/// A member, as it stands in JSON, or null, next to a tag. Keys and tag are put
/// between quotation marks as they are.
pub fn tag_member(member: Option<String>, key: &str, tag_key: &str, tag: &str) -> (r: String)
    ensures
        r@ == tagged(opt_text(member), key@, tag_key@, tag@),
{
    let member = match member {
        Some(member) => member,
        None => "null".to_string(),
    };
    let mut out: String = "{\"".to_string();
    out.append(key);
    out.append("\":");
    out.append(member.as_str());
    out.append(",\"");
    out.append(tag_key);
    out.append("\":\"");
    out.append(tag);
    out.append("\"}");
    out
}

/// The member `key` of the JSON object `text`, or null, next to a tag.
pub(crate) fn retag(text: &str, key: &str, tag_key: &str, tag: &str) -> (r: String)
    ensures
        r@ == tagged(json_member(text@, key@), key@, tag_key@, tag@),
{
    tag_member(member_json(text, key), key, tag_key, tag)
}

/// The tags that a stored text stands for: none where it cannot be read.
pub open spec fn stored_tags(text: Seq<char>) -> Seq<Seq<char>> {
    match json_list(text) {
        Some(tags) => tags,
        None => Seq::empty(),
    }
}

pub fn read_tags(text: &str) -> (r: Vec<String>)
    ensures
        texts(r@) == stored_tags(text@),
{
    match read_list(text) {
        Some(tags) => tags,
        None => {
            let none: Vec<String> = Vec::new();
            assert(texts(none@) =~= Seq::<Seq<char>>::empty());
            none
        },
    }
}

/// The text to store for a list of tags: it stands for just these tags.
pub fn write_tags(tags: &Vec<String>) -> (r: String)
    ensures
        r@ == list_json(texts(tags@)),
        stored_tags(r@) == texts(tags@),
        json_list(r@) == Some(texts(tags@)),
{
    match write_list(tags) {
        Some(text) => text,
        None => "[]".to_string(),
    }
}

} // verus!
