//! A model of the JSON documents the registry returns, and the trusted
//! boundary to serde_json that reads them.
//!
//! A parsed document is carried as an opaque `serde_json::Value`; what the
//! library knows of it is its `JsonRep`, a mathematical rendering assigned by
//! the uninterpreted `json_rep`. Every serde_json call the library makes goes
//! through one wrapper here, and each wrapper's contract ties its result to
//! that rendering.

use vstd::prelude::*;

verus! {

/// The mathematical rendering of a JSON document. Numbers are never consumed
/// by this client, so their value is not modeled; object members are modeled
/// as a map from member name to member value.
pub enum JsonRep {
    Null,
    Bool(bool),
    Num,
    Str(Seq<char>),
    Arr(Seq<JsonRep>),
    Obj(Map<Seq<char>, JsonRep>),
}

#[verifier::external_type_specification]
#[verifier::external_body]
pub struct ExJsonValue(serde_json::Value);

#[verifier::external_type_specification]
#[verifier::external_body]
pub struct ExJsonError(serde_json::Error);

/// The rendering of one parsed document.
pub uninterp spec fn json_rep(v: serde_json::Value) -> JsonRep;

/// What parsing a text yields: `None` when the text is not a JSON document,
/// otherwise the rendering of the document it holds.
pub uninterp spec fn parsed_json(text: Seq<char>) -> Option<JsonRep>;

/// Relies on serde_json::from_str::<Value>: whether a text parses, and to
/// what, is a function of the text alone.
#[verifier::external_body]
pub fn parse_json(text: &str) -> (r: Result<serde_json::Value, serde_json::Error>)
    ensures
        match r {
            Ok(v) => parsed_json(text@) == Some(json_rep(v)),
            Err(_) => parsed_json(text@) is None,
        },
{
    serde_json::from_str(text)
}

/// Relies on serde_json::Value::get with a string index: on an object it
/// looks the member up by name, on anything else it returns nothing.
#[verifier::external_body]
pub fn json_get<'a>(v: &'a serde_json::Value, key: &str) -> (r: Option<&'a serde_json::Value>)
    ensures
        match r {
            Some(member) => json_rep(*v) is Obj && json_rep(*v)->Obj_0.contains_key(key@)
                && json_rep(*member) == json_rep(*v)->Obj_0[key@],
            None => !(json_rep(*v) is Obj && json_rep(*v)->Obj_0.contains_key(key@)),
        },
{
    v.get(key)
}

/// Relies on serde_json::Value::as_array: the element vector exactly when
/// the value is an array.
#[verifier::external_body]
pub fn json_as_array<'a>(v: &'a serde_json::Value) -> (r: Option<&'a Vec<serde_json::Value>>)
    ensures
        match r {
            Some(elems) => json_rep(*v) == JsonRep::Arr(
                elems@.map_values(|e: serde_json::Value| json_rep(e)),
            ),
            None => !(json_rep(*v) is Arr),
        },
{
    v.as_array()
}

/// Relies on serde_json::Value::as_str: the character content exactly when
/// the value is a string.
#[verifier::external_body]
pub fn json_as_str<'a>(v: &'a serde_json::Value) -> (r: Option<&'a str>)
    ensures
        match r {
            Some(s) => json_rep(*v) == JsonRep::Str(s@),
            None => !(json_rep(*v) is Str),
        },
{
    v.as_str()
}

/// The string members named `key` collected over an element sequence, in
/// order: an element contributes exactly when it is an object whose member
/// `key` is a string. Elements of any other shape are passed over.
pub open spec fn str_field_items(elems: Seq<JsonRep>, key: Seq<char>) -> Seq<Seq<char>>
    decreases elems.len(),
{
    if elems.len() == 0 {
        Seq::empty()
    } else {
        let init = str_field_items(elems.drop_last(), key);
        let last = elems.last();
        if last is Obj && last->Obj_0.contains_key(key) && last->Obj_0[key] is Str {
            init.push(last->Obj_0[key]->Str_0)
        } else {
            init
        }
    }
}

/// Collects, in order, the string members named `key` of the objects among
/// `elems`, passing over elements of any other shape.
pub fn collect_str_fields(elems: &Vec<serde_json::Value>, key: &str) -> (r: Vec<String>)
    ensures
        r.deep_view() == str_field_items(
            elems@.map_values(|e: serde_json::Value| json_rep(e)),
            key@,
        ),
{
    let ghost reps = elems@.map_values(|e: serde_json::Value| json_rep(e));
    let mut r: Vec<String> = Vec::new();
    proof {
        assert(reps.take(0) =~= Seq::<JsonRep>::empty());
        assert(r.deep_view() =~= str_field_items(reps.take(0), key@));
    }
    let mut i: usize = 0;
    while i < elems.len()
        invariant
            i <= elems@.len(),
            reps == elems@.map_values(|e: serde_json::Value| json_rep(e)),
            r.deep_view() == str_field_items(reps.take(i as int), key@),
        decreases elems@.len() - i,
    {
        let ghost prev = r.deep_view();
        proof {
            assert(reps[i as int] == json_rep(elems@[i as int]));
        }
        if let Some(member) = json_get(&elems[i], key) {
            if let Some(s) = json_as_str(member) {
                r.push(s.to_owned());
                proof {
                    assert(r.deep_view() =~= prev.push(s@));
                }
            }
        }
        proof {
            assert(reps.take(i + 1).drop_last() =~= reps.take(i as int));
            assert(reps.take(i + 1).last() == reps[i as int]);
            assert(r.deep_view() =~= str_field_items(reps.take(i + 1), key@));
        }
        i += 1;
    }
    proof {
        assert(reps.take(elems@.len() as int) =~= reps);
    }
    r
}

} // verus!
