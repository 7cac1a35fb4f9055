//! The repository lister's decision core: given the outcome of the one GET
//! to the listing URL, either the ordered file names of the repository or a
//! `ListingFailed` error naming it.

use vstd::prelude::*;
use vstd::string::StringExecFns;

use crate::json::{
    json_as_array, json_get, json_rep, parse_json, parsed_json, collect_str_fields,
    str_field_items, JsonRep,
};

verus! {

/// The fatal failure of a listing: a non-success status, or a body that is
/// not a JSON document. It carries the repository the listing was for.
#[derive(Debug)]
pub struct ListingFailed {
    pub repository: String,
}

impl ListingFailed {
    /// The user-facing description of the failure.
    pub fn message(&self) -> (m: String)
        ensures
            m@ == "Failed to list files for "@ + self.repository@,
    {
        let mut m = String::new();
        m.append("Failed to list files for ");
        m.append(self.repository.as_str());
        proof {
            assert(m@ =~= "Failed to list files for "@ + self.repository@);
        }
        m
    }
}

/// The file names a listing document announces: the `rfilename` string
/// members of the objects under `siblings`, in registry order. A document
/// without a `siblings` array announces no files; that is not an error.
pub open spec fn listing_files(doc: JsonRep) -> Seq<Seq<char>> {
    if doc is Obj && doc->Obj_0.contains_key("siblings"@) && doc->Obj_0["siblings"@] is Arr {
        str_field_items(doc->Obj_0["siblings"@]->Arr_0, "rfilename"@)
    } else {
        Seq::empty()
    }
}

/// A listing document without a `siblings` array — whatever else it holds —
/// announces the empty file sequence; by `parse_listing`'s contract the
/// listing still succeeds on it.
pub proof fn lemma_no_siblings_no_files(doc: JsonRep)
    requires
        !(doc is Obj && doc->Obj_0.contains_key("siblings"@) && doc->Obj_0["siblings"@] is Arr),
    ensures
        listing_files(doc) == Seq::<Seq<char>>::empty(),
{
}

/// Turns the listing response into the repository's file names.
///
/// Succeeds exactly when the response status was a success and the body is a
/// JSON document; the result is then every `rfilename` under `siblings`, in
/// registry order, and empty when `siblings` is missing, empty, or not an
/// array. Otherwise the listing has failed for `repository`.
pub fn parse_listing(status_success: bool, body: &str, repository: &str) -> (r: Result<
    Vec<String>,
    ListingFailed,
>)
    ensures
        match r {
            Ok(files) => status_success && parsed_json(body@) is Some && files.deep_view()
                == listing_files(parsed_json(body@)->0),
            Err(e) => (!status_success || parsed_json(body@) is None) && e.repository@
                == repository@,
        },
{
    if !status_success {
        return Err(ListingFailed { repository: repository.to_owned() });
    }
    let doc = match parse_json(body) {
        Ok(v) => v,
        Err(_) => {
            return Err(ListingFailed { repository: repository.to_owned() });
        },
    };
    let siblings = match json_get(&doc, "siblings") {
        Some(s) => s,
        None => {
            let files: Vec<String> = Vec::new();
            proof {
                assert(files.deep_view() =~= listing_files(json_rep(doc)));
            }
            return Ok(files);
        },
    };
    let elems = match json_as_array(siblings) {
        Some(a) => a,
        None => {
            let files: Vec<String> = Vec::new();
            proof {
                assert(files.deep_view() =~= listing_files(json_rep(doc)));
            }
            return Ok(files);
        },
    };
    let files = collect_str_fields(elems, "rfilename");
    Ok(files)
}

} // verus!
