//! The per-request pipelines and the dispatcher over them. Each pipeline
//! is the short-circuiting chain the service runs for one request: decode,
//! store call, response build, with the first failure turned into the
//! error response.

use vstd::prelude::*;
use vstd::string::StringSliceAdditionalSpecFns;
use crate::domain::TimeRange;
use crate::form::{decode_new_message, decode_time_range, spec_form_pairs, spec_lookup_last};
use crate::htmlenc::spec_render_page;
use crate::jsonenc::spec_timestamp_payload;
use crate::numparse::spec_parse_i64;
use crate::response::{
    make_error_response,
    make_get_response,
    make_not_found_response,
    make_post_response,
    spec_is_error_response,
    ContentKind,
    HttpResponse,
};
use crate::router::{route, spec_route, Route};
use crate::store::{fetch_messages, spec_stub_messages, write_to_db};

verus! {

/// What the submit pipeline promises of its response, given the request
/// body: a form carrying both keys reaches the store and yields its
/// timestamp as JSON; any other body yields the uniform JSON error.
pub open spec fn spec_submit_outcome(body: Seq<u8>, r: HttpResponse) -> bool {
    let ps = spec_form_pairs(body);
    let mv = spec_lookup_last(ps, "message"@);
    let uv = spec_lookup_last(ps, "username"@);
    if mv is Some && uv is Some {
        &&& r.status == 200
        &&& r.content_type == ContentKind::Json
        &&& r.body@ == spec_timestamp_payload(1625247600)
    } else {
        spec_is_error_response(r, "Invalid form data"@)
    }
}

/// The successful listing response: the stub store's messages as HTML.
pub open spec fn spec_listing_ok(r: HttpResponse) -> bool {
    &&& r.status == 200
    &&& r.content_type == ContentKind::Html
    &&& r.body@ == spec_render_page(spec_stub_messages())
}

/// What the list pipeline promises of its response, given the query
/// string: a bound that fails to parse (checked `before` first) is
/// reported as a JSON error naming the field; every well-formed query
/// reaches the store and renders its messages.
pub open spec fn spec_list_outcome(q: Seq<u8>, r: HttpResponse) -> bool {
    let ps = spec_form_pairs(q);
    let bv = spec_lookup_last(ps, "before"@);
    let av = spec_lookup_last(ps, "after"@);
    if bv is Some && spec_parse_i64(bv->0) is Err {
        spec_is_error_response(
            r,
            "Error parsing 'before': "@ + spec_parse_i64(bv->0)->Err_0.spec_text(),
        )
    } else if av is Some && spec_parse_i64(av->0) is Err {
        spec_is_error_response(
            r,
            "Error parsing 'after': "@ + spec_parse_i64(av->0)->Err_0.spec_text(),
        )
    } else {
        spec_listing_ok(r)
    }
}

/// The submit pipeline: decode the form body, write to the store, report
/// the timestamp; the first failure becomes the JSON error response.
pub fn submit_response(body: &[u8]) -> (r: HttpResponse)
    ensures
        spec_submit_outcome(body@, r),
{
    match decode_new_message(body) {
        Ok(message) => {
            let result = write_to_db(message);
            make_post_response(result)
        },
        Err(e) => {
            let msg = e.message();
            make_post_response(Err(msg))
        },
    }
}

/// The list pipeline: decode the query (no query means an unbounded
/// range), read from the store, render the page; a bad query becomes the
/// JSON error response, a store failure the bare 500.
pub fn list_response(query: Option<&str>) -> (r: HttpResponse)
    ensures
        match query {
            Some(q) => spec_list_outcome(q.spec_bytes(), r),
            None => spec_listing_ok(r),
        },
{
    let time_range: TimeRange;
    match query {
        Some(q) => match decode_time_range(q) {
            Ok(tr) => {
                time_range = tr;
            },
            Err(e) => {
                let msg = e.message();
                return make_error_response(msg.as_str());
            },
        },
        None => {
            time_range = TimeRange { before: None, after: None };
        },
    }
    let messages = fetch_messages(time_range);
    make_get_response(messages)
}

/// Dispatch one request: route on (method, path) and run the selected
/// pipeline to a fully built response. Dispatch itself never fails; an
/// unmatched route is the ordinary not-found response.
pub fn handle_request(method: &str, path: &str, query: Option<&str>, body: &[u8]) -> (r:
    HttpResponse)
    ensures
        match spec_route(method@, path@) {
            Route::Submit => spec_submit_outcome(body@, r),
            Route::List => match query {
                Some(q) => spec_list_outcome(q.spec_bytes(), r),
                None => spec_listing_ok(r),
            },
            Route::NotFound => {
                &&& r.status == 404
                &&& r.content_type == ContentKind::PlainText
                &&& r.body@ == "Not Found"@
            },
        },
{
    match route(method, path) {
        Route::Submit => submit_response(body),
        Route::List => list_response(query),
        Route::NotFound => make_not_found_response(),
    }
}

} // verus!
