//! JSON payload construction. String values go through the `serde_json`
//! serializer; the payload framing around them is verified.

use vstd::prelude::*;
use vstd::string::{StrSliceExecFns, StringExecFns};
use crate::numfmt::{i64_to_string, spec_dec_i64};

verus! {

/// The JSON string literal, surrounding quotes included, that serializing
/// a piece of text yields.
pub uninterp spec fn spec_json_string(s: Seq<char>) -> Seq<char>;

/// Whether a character passes into a JSON string literal unescaped: the
/// serializer rewrites only `"`, `\` and the control characters below
/// U+0020.
pub open spec fn spec_json_plain_char(c: char) -> bool {
    c != '"' && c != '\\' && c as u32 >= 32
}

pub open spec fn spec_json_plain(s: Seq<char>) -> bool {
    forall|i: int| 0 <= i < s.len() ==> spec_json_plain_char(#[trigger] s[i])
}

/// Relies on `serde_json::to_string` on a `&str`: serializing a string
/// slice never fails, and yields a double-quoted JSON string literal in
/// which only `"`, `\` and control characters below U+0020 are escaped.
#[verifier::external_body]
fn json_quote(s: &str) -> (r: String)
    ensures
        r@ == spec_json_string(s@),
        r@.len() >= 2,
        r@[0] == '"',
        r@.last() == '"',
        spec_json_plain(s@) ==> r@ == seq!['"'] + s@ + seq!['"'],
{
    match serde_json::to_string(s) {
        Ok(q) => q,
        // unreachable: string serialization to an in-memory buffer cannot fail
        Err(_) => String::new(),
    }
}

/// The body `{"timestamp": N}` reported for an accepted submission.
pub open spec fn spec_timestamp_payload(ts: int) -> Seq<char> {
    "{\"timestamp\":"@ + spec_dec_i64(ts) + "}"@
}

pub fn timestamp_payload(ts: i64) -> (r: String)
    ensures
        r@ == spec_timestamp_payload(ts as int),
{
    let mut out = String::from_str("{\"timestamp\":");
    let num = i64_to_string(ts);
    out.append(num.as_str());
    out.append("}");
    proof {
        assert(out@ =~= spec_timestamp_payload(ts as int));
    }
    out
}

/// The body `{"error": "..."}` reported for any failed request.
pub open spec fn spec_error_payload(msg: Seq<char>) -> Seq<char> {
    "{\"error\":"@ + spec_json_string(msg) + "}"@
}

pub fn error_payload(msg: &str) -> (r: String)
    ensures
        r@ == spec_error_payload(msg@),
{
    let mut out = String::from_str("{\"error\":");
    let quoted = json_quote(msg);
    out.append(quoted.as_str());
    out.append("}");
    proof {
        assert(out@ =~= spec_error_payload(msg@));
    }
    out
}

} // verus!
