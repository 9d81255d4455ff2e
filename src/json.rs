use vstd::prelude::*;

verus! {

/// A JSON document as plain values. Numbers keep their text; an object keeps
/// its members as `(key, value)` pairs.
#[derive(Debug, PartialEq)]
pub enum Json {
    Null,
    Bool(bool),
    Number(String),
    Text(String),
    Array(Vec<Json>),
    Object(Vec<(String, Json)>),
}

/// What serde_json makes of a text: its document, or nothing where the text
/// is not JSON.
pub uninterp spec fn json_of(text: Seq<char>) -> Option<Json>;

// serde_json's document tree; it is only carried from the parser into `Json`.
#[verifier::external_type_specification]
#[verifier::external_body]
pub struct ExValue(serde_json::Value);

/// Relies on serde_json::from_str: the document of a JSON text, or nothing
/// where the text is not JSON.
#[verifier::external_body]
pub(crate) fn parse_json(text: &str) -> (r: Option<Json>)
    ensures
        r == json_of(text@),
{
    serde_json::from_str::<serde_json::Value>(text).ok().map(json_tree)
}

/// Part of `parse_json`: rewrites serde_json's tree node for node as `Json`.
#[verifier::external_body]
fn json_tree(v: serde_json::Value) -> Json {
    match v {
        serde_json::Value::Null => Json::Null,
        serde_json::Value::Bool(b) => Json::Bool(b),
        serde_json::Value::Number(n) => Json::Number(n.to_string()),
        serde_json::Value::String(s) => Json::Text(s),
        serde_json::Value::Array(a) => Json::Array(a.into_iter().map(json_tree).collect()),
        serde_json::Value::Object(m) => Json::Object(m.into_iter().map(|(k, x)| (k, json_tree(x))).collect()),
    }
}

/// The value of the first member named `key` at index `i` or later.
pub open spec fn member_at(fields: Seq<(String, Json)>, key: Seq<char>, i: nat) -> Option<Json>
    decreases fields.len() - i,
{
    if i >= fields.len() {
        None
    } else if fields[i as int].0@ == key {
        Some(fields[i as int].1)
    } else {
        member_at(fields, key, i + 1)
    }
}

/// The value of an object's member named `key`, if it has one.
pub open spec fn member(fields: Seq<(String, Json)>, key: Seq<char>) -> Option<Json> {
    member_at(fields, key, 0)
}

/// The first member named `key`.
pub fn find_member<'a>(fields: &'a Vec<(String, Json)>, key: &str) -> (r: Option<&'a Json>)
    ensures
        match r {
            Some(j) => member(fields@, key@) == Some(*j),
            None => member(fields@, key@) is None,
        },
{
    let k = key.to_owned();
    let mut i: usize = 0;
    while i < fields.len()
        invariant
            i <= fields.len(),
            k@ == key@,
            member(fields@, key@) == member_at(fields@, key@, i as nat),
        decreases fields.len() - i,
    {
        if fields[i].0 == k {
            return Some(&fields[i].1);
        }
        i = i + 1;
    }
    None
}

/// The array under member `key` of a document that is an object.
pub open spec fn envelope_items(doc: Option<Json>, key: Seq<char>) -> Option<Seq<Json>> {
    match doc {
        Some(Json::Object(fields)) => match member(fields@, key) {
            Some(Json::Array(items)) => Some(items@),
            _ => None,
        },
        _ => None,
    }
}

/// The array under member `key` of a document that is an object.
pub fn envelope<'a>(doc: &'a Option<Json>, key: &str) -> (r: Option<&'a Vec<Json>>)
    ensures
        match r {
            Some(v) => envelope_items(*doc, key@) == Some(v@),
            None => envelope_items(*doc, key@) is None,
        },
{
    match doc {
        Some(Json::Object(fields)) => match find_member(fields, key) {
            Some(Json::Array(items)) => Some(items),
            _ => None,
        },
        _ => None,
    }
}

pub open spec fn opt_view(o: Option<String>) -> Option<Seq<char>> {
    match o {
        Some(s) => Some(s@),
        None => None,
    }
}

pub open spec fn members_view(m: Seq<(String, Option<String>)>) -> Seq<(Seq<char>, Option<Seq<char>>)> {
    m.map_values(|p: (String, Option<String>)| (p.0@, opt_view(p.1)))
}

/// What serde_json writes for an object whose members are texts or `null`.
pub uninterp spec fn object_text(members: Seq<(Seq<char>, Option<Seq<char>>)>) -> Seq<char>;

/// Relies on serde_json's `From<Option<String>>` and `Display` for Value: the
/// compact JSON text of an object with these members, each a string or `null`.
#[verifier::external_body]
pub(crate) fn render_object(members: Vec<(String, Option<String>)>) -> (r: String)
    ensures
        r@ == object_text(members_view(members@)),
{
    let m = members.into_iter().map(|(k, v)| (k, serde_json::Value::from(v))).collect();
    serde_json::Value::Object(m).to_string()
}

} // verus!
