//! JSON texts read and written through serde_json. The library works on
//! `JsonNode`, a reading of a text one level deep whose nested values stay
//! compact JSON texts, so every value the logic sees is a plain one.
use vstd::prelude::*;

verus! {

/// A JSON value one level deep: scalars as they are, the elements of an
/// array and the members of an object as their compact JSON texts.
pub enum JsonNode {
    Null,
    Bool(bool),
    /// A number, as serde_json writes it.
    Number(String),
    Text(String),
    Array(Vec<String>),
    /// Members in serde_json's order, keys unique.
    Object(Vec<(String, String)>),
}

/// Whether serde_json accepts the text as one JSON document.
pub uninterp spec fn json_accepts(text: Seq<char>) -> bool;

/// serde_json's reading of an accepted text, one level deep.
pub uninterp spec fn json_node(text: Seq<char>) -> JsonNode;

/// The JSON string literal that serde_json writes for a text, quotes and
/// escapes included.
pub uninterp spec fn json_string_literal(text: Seq<char>) -> Seq<char>;

/// The compact JSON text of the object whose members are the given keys
/// and JSON texts, as serde_json writes it.
pub uninterp spec fn object_text(members: Seq<(Seq<char>, Seq<char>)>) -> Seq<char>;

/// The indented JSON text that serde_json writes for a JSON text; empty when
/// the text is not JSON.
pub uninterp spec fn pretty_json_text(text: Seq<char>) -> Seq<char>;

/// The views of a list of keys and texts.
pub open spec fn pair_texts(v: Seq<(String, String)>) -> Seq<(Seq<char>, Seq<char>)> {
    v.map_values(|p: (String, String)| (p.0@, p.1@))
}

/// Relies on serde_json::from_str::<Value>, which succeeds exactly on the
/// texts it accepts, and on `Value`'s variants, each moved into the node;
/// nested values are written back with `Value`'s `Display`, its compact form.
#[verifier::external_body]
pub(crate) fn parse_node(text: &str) -> (r: Option<JsonNode>)
    ensures
        r is Some <==> json_accepts(text@),
        r matches Some(n) ==> n == json_node(text@),
{
    serde_json::from_str::<serde_json::Value>(text).ok().map(|v| match v {
        serde_json::Value::Null => JsonNode::Null,
        serde_json::Value::Bool(b) => JsonNode::Bool(b),
        serde_json::Value::Number(n) => JsonNode::Number(n.to_string()),
        serde_json::Value::String(s) => JsonNode::Text(s),
        serde_json::Value::Array(a) => JsonNode::Array(a.iter().map(|e| e.to_string()).collect()),
        serde_json::Value::Object(m) => JsonNode::Object(
            m.iter().map(|(k, e)| (k.clone(), e.to_string())).collect(),
        ),
    })
}

/// Relies on serde_json::to_string on a `&str`: the quoted, escaped literal.
/// Serialising a string into memory does not fail.
#[verifier::external_body]
pub(crate) fn quote_json(text: &str) -> (r: String)
    ensures
        r@ == json_string_literal(text@),
{
    serde_json::to_string(text).unwrap_or_default()
}

/// Relies on serde_json's `Map` and `Value`'s `Display`: the object of the
/// given members written compactly; a member text that is not JSON becomes
/// `null`.
#[verifier::external_body]
pub(crate) fn write_object(members: &Vec<(String, String)>) -> (r: String)
    ensures
        r@ == object_text(pair_texts(members@)),
{
    let m: serde_json::Map<String, serde_json::Value> = members
        .iter()
        .map(|(k, t)| (k.clone(), serde_json::from_str(t).unwrap_or(serde_json::Value::Null)))
        .collect();
    serde_json::Value::Object(m).to_string()
}

/// Relies on serde_json::from_str and to_string_pretty: a JSON text
/// re-written indented.
#[verifier::external_body]
pub(crate) fn pretty_json(text: &str) -> (r: String)
    ensures
        r@ == pretty_json_text(text@),
{
    serde_json::from_str::<serde_json::Value>(text)
        .ok()
        .and_then(|v| serde_json::to_string_pretty(&v).ok())
        .unwrap_or_default()
}

/// The text of the first member of `n` under `key`.
pub open spec fn member_text(n: JsonNode, key: Seq<char>) -> Option<String> {
    match n {
        JsonNode::Object(ms) => first_member(ms@, key),
        _ => None,
    }
}

pub open spec fn first_member(ms: Seq<(String, String)>, key: Seq<char>) -> Option<String>
    decreases ms.len(),
{
    if ms.len() == 0 {
        None
    } else if ms[0].0@ == key {
        Some(ms[0].1)
    } else {
        first_member(ms.drop_first(), key)
    }
}

/// The node of a JSON text, when it is one.
pub open spec fn node_of(t: Seq<char>) -> Option<JsonNode> {
    if json_accepts(t) {
        Some(json_node(t))
    } else {
        None
    }
}

/// The elements of the array that `t` holds, if it is one.
pub open spec fn array_items(t: Option<String>) -> Option<Seq<String>> {
    match t {
        Some(s) => match node_of(s@) {
            Some(JsonNode::Array(a)) => Some(a@),
            _ => None,
        },
        None => None,
    }
}

/// The string that member `key` of `n` holds, if it is one.
pub open spec fn string_member(n: JsonNode, key: Seq<char>) -> Option<String> {
    match member_text(n, key) {
        Some(t) => match node_of(t@) {
            Some(JsonNode::Text(s)) => Some(s),
            _ => None,
        },
        None => None,
    }
}

/// The text of the first member of `n` under `key`.
pub fn member_of(n: &JsonNode, key: &str) -> (r: Option<String>)
    ensures
        r == member_text(*n, key@),
{
    match n {
        JsonNode::Object(ms) => {
            let mut i: usize = 0;
            assert(member_text(*n, key@) == first_member(ms@, key@));
            assert(ms@.subrange(0, ms.len() as int) =~= ms@);
            while i < ms.len()
                invariant
                    i <= ms.len(),
                    member_text(*n, key@) == first_member(ms@, key@),
                    first_member(ms@, key@) == first_member(ms@.subrange(i as int, ms.len() as int), key@),
                decreases ms.len() - i,
            {
                proof {
                    assert(ms@.subrange(i as int, ms.len() as int).drop_first() =~= ms@.subrange(
                        i + 1,
                        ms.len() as int,
                    ));
                }
                if crate::catalog::same_text(ms[i].0.as_str(), key) {
                    assert(ms@.subrange(i as int, ms.len() as int)[0] == ms@[i as int]);
                    return Some(ms[i].1.clone());
                }
                i = i + 1;
            }
            None
        },
        _ => None,
    }
}

/// The node of a JSON text, when it is one.
pub fn read_node(t: &str) -> (r: Option<JsonNode>)
    ensures
        r == node_of(t@),
{
    parse_node(t)
}

/// The elements of the array that `t` holds, if it is one.
pub fn items_of(t: Option<String>) -> (r: Option<Vec<String>>)
    ensures
        match r {
            Some(v) => array_items(t) == Some(v@),
            None => array_items(t) is None,
        },
{
    match t {
        Some(s) => match read_node(s.as_str()) {
            Some(JsonNode::Array(a)) => Some(a),
            _ => None,
        },
        None => None,
    }
}

/// The string that member `key` of `n` holds, if it is one.
pub fn string_member_of(n: &JsonNode, key: &str) -> (r: Option<String>)
    ensures
        r == string_member(*n, key@),
{
    match member_of(n, key) {
        Some(t) => match read_node(t.as_str()) {
            Some(JsonNode::Text(s)) => Some(s),
            _ => None,
        },
        None => None,
    }
}

} // verus!
