//! A plain-data JSON model and the lookup the bot performs on fetched
//! documents: the string at the path `data.images.original.url`.
//!
//! Parsing is done by serde_json behind a trusted boundary; the parsed
//! document is converted into the crate's own [`Json`] value, and everything
//! that reads the document is verified against the spec functions below.

use vstd::prelude::*;

verus! {

/// A JSON value as plain data. Object members keep the order in which the
/// parser produced them (sorted, unique keys); numeric payloads are carried
/// but not inspected, since no lookup in this crate reads one.
pub enum Json {
    Null,
    Bool(bool),
    Num,
    Str(String),
    Arr(Vec<Json>),
    Obj(Vec<(String, Json)>),
}

/// Why no image URL could be extracted from a fetched body.
#[derive(PartialEq, Eq, Structural, Clone, Copy, Debug)]
pub enum JsonError {
    /// The body is not a valid JSON document.
    NotJson,
    /// The document has no string at `data.images.original.url`.
    MissingUrl,
}

/// The value under `key` in an object's member list: the first member whose
/// name equals `key`, if any.
pub open spec fn spec_obj_get(members: Seq<(String, Json)>, key: Seq<char>) -> Option<Json>
    decreases members.len(),
{
    if members.len() == 0 {
        None
    } else if members[0].0@ == key {
        Some(members[0].1)
    } else {
        spec_obj_get(members.skip(1), key)
    }
}

/// The value under `key` in `j`: defined only when `j` is an object that has
/// such a member.
pub open spec fn spec_get(j: Json, key: Seq<char>) -> Option<Json> {
    match j {
        Json::Obj(members) => spec_obj_get(members@, key),
        _ => None,
    }
}

/// The text of `j` when `j` is a JSON string.
pub open spec fn spec_str_of(j: Json) -> Option<Seq<char>> {
    match j {
        Json::Str(s) => Some(s@),
        _ => None,
    }
}

/// The string at the path `data.images.original.url` of `j`, if the whole
/// path is present and ends at a JSON string.
pub open spec fn spec_gif_url(j: Json) -> Option<Seq<char>> {
    match spec_get(j, "data"@) {
        None => None,
        Some(d) => match spec_get(d, "images"@) {
            None => None,
            Some(im) => match spec_get(im, "original"@) {
                None => None,
                Some(o) => match spec_get(o, "url"@) {
                    None => None,
                    Some(u) => spec_str_of(u),
                },
            },
        },
    }
}

/// Looks `key` up in `j`, returning the first member of that name when `j`
/// is an object.
#[verifier::loop_isolation(false)]
pub fn json_get<'a>(j: &'a Json, key: &str) -> (r: Option<&'a Json>)
    ensures
        r matches Some(v) ==> spec_get(*j, key@) == Some(*v),
        r is None ==> spec_get(*j, key@) is None,
{
    match j {
        Json::Obj(members) => {
            let n = members.len();
            let mut i: usize = 0;
            assert(members@.skip(0) =~= members@);
            while i < n
                invariant
                    i <= n,
                    n == members@.len(),
                    spec_obj_get(members@, key@) == spec_obj_get(
                        members@.skip(i as int),
                        key@,
                    ),
                decreases n - i,
            {
                let member = &members[i];
                if crate::dispatch::str_eq(member.0.as_str(), key) {
                    assert(members@.skip(i as int)[0] == members@[i as int]);
                    return Some(&member.1);
                }
                assert(members@.skip(i as int).skip(1) =~= members@.skip(i as int + 1));
                i = i + 1;
            }
            assert(members@.skip(n as int) =~= Seq::<(String, Json)>::empty());
            None
        },
        _ => None,
    }
}

/// Extracts the string at `data.images.original.url`, if present.
pub fn gif_url_of(j: &Json) -> (r: Option<String>)
    ensures
        r matches Some(s) ==> spec_gif_url(*j) == Some(s@),
        r is None ==> spec_gif_url(*j) is None,
{
    match json_get(j, "data") {
        None => None,
        Some(d) => match json_get(d, "images") {
            None => None,
            Some(im) => match json_get(im, "original") {
                None => None,
                Some(o) => match json_get(o, "url") {
                    None => None,
                    Some(u) => match u {
                        Json::Str(s) => Some(s.clone()),
                        _ => None,
                    },
                },
            },
        },
    }
}

#[verifier::external_type_specification]
#[verifier::external_body]
pub struct ExValue(serde_json::Value);

/// Relies on serde_json::Value: each variant is mapped to the matching
/// [`Json`] variant, member by member; numeric payloads are not inspected.
#[verifier::external_body]
fn from_value(v: serde_json::Value) -> Json {
    match v {
        serde_json::Value::Null => Json::Null,
        serde_json::Value::Bool(b) => Json::Bool(b),
        serde_json::Value::Number(_) => Json::Num,
        serde_json::Value::String(s) => Json::Str(s),
        serde_json::Value::Array(a) => Json::Arr(a.into_iter().map(from_value).collect()),
        serde_json::Value::Object(m) => Json::Obj(
            m.into_iter().map(|(k, x)| (k, from_value(x))).collect(),
        ),
    }
}

/// The JSON document that the text denotes, as this crate models it, or
/// `None` when the text is not valid JSON.
pub uninterp spec fn json_of(s: Seq<char>) -> Option<Json>;

/// Relies on serde_json::from_str: returns `Ok` exactly when the text is one
/// valid JSON document, and the parse is a function of the text alone.
#[verifier::external_body]
fn parse_json(s: &str) -> (r: Option<Json>)
    ensures
        r == json_of(s@),
{
    match serde_json::from_str::<serde_json::Value>(s) {
        Ok(v) => Some(from_value(v)),
        Err(_) => None,
    }
}

/// The image-fetch extraction: parses a fetched body and returns the string
/// at `data.images.original.url`, or says why there is none.
pub fn gif_url_from_body(body: &str) -> (r: Result<String, JsonError>)
    ensures
        match json_of(body@) {
            None => r matches Err(e) && e == JsonError::NotJson,
            Some(doc) => match spec_gif_url(doc) {
                Some(u) => r matches Ok(s) && s@ == u,
                None => r matches Err(e) && e == JsonError::MissingUrl,
            },
        },
{
    match parse_json(body) {
        None => Err(JsonError::NotJson),
        Some(doc) => match gif_url_of(&doc) {
            Some(u) => Ok(u),
            None => Err(JsonError::MissingUrl),
        },
    }
}

} // verus!
