//! The revision-discovery decision core: reading the branch names out of the
//! refs document the registry returns.

use vstd::prelude::*;

use crate::json::{
    json_as_array, json_get, json_rep, parse_json, parsed_json, collect_str_fields,
    str_field_items, JsonRep,
};

verus! {

/// The branch names a refs document announces: the `name` string members of
/// the objects under `branches`, in registry order. A document without a
/// `branches` array announces none.
pub open spec fn branch_names(doc: JsonRep) -> Seq<Seq<char>> {
    if doc is Obj && doc->Obj_0.contains_key("branches"@) && doc->Obj_0["branches"@] is Arr {
        str_field_items(doc->Obj_0["branches"@]->Arr_0, "name"@)
    } else {
        Seq::empty()
    }
}

/// Reads the branch names out of a parsed refs document.
pub fn extract_branch_names(doc: &serde_json::Value) -> (r: Vec<String>)
    ensures
        r.deep_view() == branch_names(json_rep(*doc)),
{
    let branches = match json_get(doc, "branches") {
        Some(b) => b,
        None => {
            let names: Vec<String> = Vec::new();
            proof {
                assert(names.deep_view() =~= branch_names(json_rep(*doc)));
            }
            return names;
        },
    };
    let elems = match json_as_array(branches) {
        Some(a) => a,
        None => {
            let names: Vec<String> = Vec::new();
            proof {
                assert(names.deep_view() =~= branch_names(json_rep(*doc)));
            }
            return names;
        },
    };
    collect_str_fields(elems, "name")
}

/// Parses a refs document out of its text and reads the branch names out of
/// it. Fails exactly when the text is not a JSON document.
pub fn parse_branches_from_json(json_str: &str) -> (r: Result<Vec<String>, RefsNotJson>)
    ensures
        match r {
            Ok(names) => parsed_json(json_str@) is Some && names.deep_view() == branch_names(
                parsed_json(json_str@)->0,
            ),
            Err(_) => parsed_json(json_str@) is None,
        },
{
    match parse_json(json_str) {
        Ok(doc) => Ok(extract_branch_names(&doc)),
        Err(_) => Err(RefsNotJson {}),
    }
}

/// The failure of revision discovery: the refs body was not a JSON document.
#[derive(Debug)]
pub struct RefsNotJson {}

} // verus!
