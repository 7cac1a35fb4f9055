//! The search decision core: reading the repository ids out of the search
//! response the registry returns.

use vstd::prelude::*;

use crate::json::{json_as_array, json_rep, collect_str_fields, str_field_items, JsonRep};

verus! {

/// The repository ids a search response announces: the `modelId` string
/// members of the objects of the top-level array, in registry order.
pub open spec fn model_ids(doc: JsonRep) -> Seq<Seq<char>>
    recommends
        doc is Arr,
{
    str_field_items(doc->Arr_0, "modelId"@)
}

/// Reads the repository ids out of a parsed search response: every id when
/// the document is an array, and nothing at all otherwise (the registry
/// found no repositories).
pub fn extract_model_ids(doc: &serde_json::Value) -> (r: Option<Vec<String>>)
    ensures
        match r {
            Some(ids) => json_rep(*doc) is Arr && ids.deep_view() == model_ids(json_rep(*doc)),
            None => !(json_rep(*doc) is Arr),
        },
{
    match json_as_array(doc) {
        Some(elems) => Some(collect_str_fields(elems, "modelId")),
        None => None,
    }
}

} // verus!
