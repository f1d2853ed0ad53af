//! A JSON document as plain data, and the trusted boundary to serde_json that
//! produces it from response text.
//!
//! Integers keep their wire representation: unsigned where the value fits,
//! signed otherwise. Any other number is kept as the decimal text serde_json
//! renders for it, so that values the models treat as opaque survive intact.

use vstd::prelude::*;

verus! {

/// A JSON number that is not held as a decoded integer field.
#[derive(Debug, Clone, PartialEq, Eq)]
pub enum JsonNum {
    UInt(u64),
    Int(i64),
    Text(String),
}

/// A JSON value as plain data. An object is the key/value list in the order
/// the parser hands it out; keys are unique.
#[derive(Debug, PartialEq, Eq)]
pub enum Json {
    Null,
    Bool(bool),
    UInt(u64),
    Int(i64),
    NumText(String),
    Str(String),
    Arr(Vec<Json>),
    Obj(Vec<(String, Json)>),
}

#[verifier::external_type_specification]
#[verifier::external_body]
pub struct ExValue(serde_json::Value);

/// Relies on serde_json::Value's variants: rebuilds a parsed document as plain
/// data, keeping integers as integers and any other number as its decimal text.
#[verifier::external_body]
fn json_of_value(v: &serde_json::Value) -> Json {
    match v {
        serde_json::Value::Null => Json::Null,
        serde_json::Value::Bool(b) => Json::Bool(*b),
        serde_json::Value::Number(n) => match (n.as_u64(), n.as_i64()) {
            (Some(u), _) => Json::UInt(u),
            (None, Some(i)) => Json::Int(i),
            _ => Json::NumText(n.to_string()),
        },
        serde_json::Value::String(s) => Json::Str(s.clone()),
        serde_json::Value::Array(a) => Json::Arr(a.iter().map(json_of_value).collect()),
        serde_json::Value::Object(o) => Json::Obj(
            o.iter().map(|(k, w)| (k.clone(), json_of_value(w))).collect(),
        ),
    }
}

/// What parsing a given text yields: the document as plain data, or nothing
/// where the text is not valid JSON. Parsing depends on the text alone.
pub uninterp spec fn parsed_json(s: Seq<char>) -> Option<Json>;

/// Relies on serde_json::from_str: parses the text into a document, or reports
/// the parser's diagnostic. The outcome is a function of the text alone.
#[verifier::external_body]
pub fn parse_json(s: &str) -> (r: Result<Json, String>)
    ensures
        r matches Ok(j) ==> parsed_json(s@) == Some(j),
        r is Err ==> parsed_json(s@) is None,
{
    match serde_json::from_str::<serde_json::Value>(s) {
        Ok(v) => Ok(json_of_value(&v)),
        Err(e) => Err(e.to_string()),
    }
}

/// The value under `key` in an object's field list: the first binding wins.
pub open spec fn obj_get(fs: Seq<(String, Json)>, key: Seq<char>) -> Option<Json>
    decreases fs.len(),
{
    if fs.len() == 0 {
        None
    } else if fs[0].0@ == key {
        Some(fs[0].1)
    } else {
        obj_get(fs.drop_first(), key)
    }
}

/// Removing the first binding of `key` leaves every other key's first binding
/// where it was.
proof fn lemma_obj_get_remove(fs: Seq<(String, Json)>, key: Seq<char>, i: int, k2: Seq<char>)
    requires
        0 <= i < fs.len(),
        forall|j: int| 0 <= j < i ==> fs[j].0@ != key,
        fs[i].0@ == key,
        k2 != key,
    ensures
        obj_get(fs.remove(i), k2) == obj_get(fs, k2),
    decreases i,
{
    let rest = fs.drop_first();
    if i == 0 {
        assert(fs.remove(0) =~= rest);
    } else {
        assert(fs.remove(i).drop_first() =~= rest.remove(i - 1));
        assert(fs.remove(i)[0] == fs[0]);
        lemma_obj_get_remove(rest, key, i - 1, k2);
    }
}

/// With no binding of `key` among the first `i` fields, the lookup is decided
/// by the rest.
proof fn lemma_obj_get_skip(fs: Seq<(String, Json)>, key: Seq<char>, i: int)
    requires
        0 <= i <= fs.len(),
        forall|j: int| 0 <= j < i ==> fs[j].0@ != key,
    ensures
        obj_get(fs, key) == obj_get(fs.skip(i), key),
    decreases i,
{
    if i > 0 {
        lemma_obj_get_skip(fs.drop_first(), key, i - 1);
        assert(fs.drop_first().skip(i - 1) =~= fs.skip(i));
    } else {
        assert(fs.skip(0) =~= fs);
    }
}

/// Takes the first binding of `key` out of the field list, handing back the
/// value (if any) and the remaining fields, in which every other key still
/// resolves as it did.
pub fn take_field(fields: Vec<(String, Json)>, key: &str) -> (r: (Option<Json>, Vec<(String, Json)>))
    ensures
        r.0 == obj_get(fields@, key@),
        r.0 is None ==> r.1@ == fields@,
        forall|k: Seq<char>| k != key@ ==> obj_get(r.1@, k) == obj_get(fields@, k),
{
    let key_owned: String = key.to_owned();
    let mut fs = fields;
    let mut i: usize = 0;
    while i < fs.len()
        invariant
            key_owned@ == key@,
            fs@ == fields@,
            i <= fs.len(),
            forall|j: int| 0 <= j < i ==> fs@[j].0@ != key@,
        decreases fs.len() - i,
    {
        if fs[i].0 == key_owned {
            proof {
                lemma_obj_get_skip(fs@, key@, i as int);
                assert(fs@.skip(i as int)[0] == fs@[i as int]);
                assert(obj_get(fs@, key@) == Some(fs@[i as int].1));
                assert forall|k: Seq<char>| k != key@ implies obj_get(fs@.remove(i as int), k)
                    == obj_get(fs@, k) by {
                    lemma_obj_get_remove(fs@, key@, i as int, k);
                }
            }
            let (_, v) = fs.remove(i);
            return (Some(v), fs);
        }
        i += 1;
    }
    proof {
        lemma_obj_get_skip(fs@, key@, fs@.len() as int);
        assert(fs@.skip(fs@.len() as int) =~= Seq::<(String, Json)>::empty());
    }
    (None, fs)
}

} // verus!
