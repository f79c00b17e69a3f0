//! The response objects the pipelines terminate in, and the three builders
//! that turn an outcome into one.

use vstd::prelude::*;
use vstd::string::StringExecFns;
use crate::domain::NewMessage;
use crate::htmlenc::{render_page, spec_messages_view, spec_render_page};
use crate::jsonenc::{error_payload, spec_error_payload, spec_timestamp_payload, timestamp_payload};

verus! {

/// The media type announced with a response body; `Unspecified` stands for
/// a response sent without a content-type header.
#[derive(Debug, PartialEq, Eq, Structural, Clone, Copy)]
pub enum ContentKind {
    Html,
    Json,
    PlainText,
    Unspecified,
}

/// A fully built HTTP response, written out exactly once per request.
#[derive(Debug)]
pub struct HttpResponse {
    pub status: u16,
    pub content_type: ContentKind,
    pub body: String,
}

/// The uniform JSON error response: status 500 and `{"error": "..."}`.
pub open spec fn spec_is_error_response(r: HttpResponse, msg: Seq<char>) -> bool {
    &&& r.status == 500
    &&& r.content_type == ContentKind::Json
    &&& r.body@ == spec_error_payload(msg)
}

pub fn make_error_response(error: &str) -> (r: HttpResponse)
    ensures
        spec_is_error_response(r, error@),
{
    HttpResponse { status: 500, content_type: ContentKind::Json, body: error_payload(error) }
}

/// Build the response for the submit pipeline's outcome: a timestamp
/// becomes the 200 JSON body `{"timestamp": N}`, a failure message the
/// uniform JSON error.
pub fn make_post_response(result: Result<i64, String>) -> (r: HttpResponse)
    ensures
        match result {
            Ok(ts) => {
                &&& r.status == 200
                &&& r.content_type == ContentKind::Json
                &&& r.body@ == spec_timestamp_payload(ts as int)
            },
            Err(msg) => spec_is_error_response(r, msg@),
        },
{
    match result {
        Ok(timestamp) => HttpResponse {
            status: 200,
            content_type: ContentKind::Json,
            body: timestamp_payload(timestamp),
        },
        Err(msg) => make_error_response(msg.as_str()),
    }
}

/// Build the response for the list pipeline's outcome: messages become the
/// 200 HTML listing; a store read failure is a bare 500 with an empty body
/// (and no content type), the one asymmetric error shape of the service.
pub fn make_get_response(messages: Option<Vec<NewMessage>>) -> (r: HttpResponse)
    ensures
        match messages {
            Some(ms) => {
                &&& r.status == 200
                &&& r.content_type == ContentKind::Html
                &&& r.body@ == spec_render_page(spec_messages_view(ms@))
            },
            None => {
                &&& r.status == 500
                &&& r.content_type == ContentKind::Unspecified
                &&& r.body@ == Seq::<char>::empty()
            },
        },
{
    match messages {
        Some(ms) => HttpResponse {
            status: 200,
            content_type: ContentKind::Html,
            body: render_page(ms),
        },
        None => HttpResponse {
            status: 500,
            content_type: ContentKind::Unspecified,
            body: String::new(),
        },
    }
}

/// The response for every unmatched (method, path) pair.
pub fn make_not_found_response() -> (r: HttpResponse)
    ensures
        r.status == 404,
        r.content_type == ContentKind::PlainText,
        r.body@ == "Not Found"@,
{
    HttpResponse {
        status: 404,
        content_type: ContentKind::PlainText,
        body: String::from_str("Not Found"),
    }
}

} // verus!
