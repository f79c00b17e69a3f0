//! Request routing: an exact match on (method, path) picks one of the two
//! pipelines, and everything else falls through to the not-found response.

use vstd::prelude::*;
use crate::strutil::str_eq;

verus! {

/// The pipeline selected for a request. Routing never fails: an unmatched
/// pair is the ordinary `NotFound` outcome, not an error.
#[derive(Debug, PartialEq, Eq, Structural, Clone, Copy)]
pub enum Route {
    Submit,
    List,
    NotFound,
}

/// The routing table: case-sensitive method, exact path, no normalization.
pub open spec fn spec_route(method: Seq<char>, path: Seq<char>) -> Route {
    if method == "POST"@ && path == "/"@ {
        Route::Submit
    } else if method == "GET"@ && path == "/"@ {
        Route::List
    } else {
        Route::NotFound
    }
}

pub fn route(method: &str, path: &str) -> (r: Route)
    ensures
        r == spec_route(method@, path@),
{
    if str_eq(method, "POST") && str_eq(path, "/") {
        Route::Submit
    } else if str_eq(method, "GET") && str_eq(path, "/") {
        Route::List
    } else {
        Route::NotFound
    }
}

} // verus!
