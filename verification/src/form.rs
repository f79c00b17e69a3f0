//! Decoding of `application/x-www-form-urlencoded` data: the wire format is
//! handled by the `url` crate; the last-value-wins key lookup and the typed
//! decoders on top of it are verified.

use vstd::prelude::*;
use vstd::string::{StrSliceExecFns, StringExecFns, StringSliceAdditionalSpecFns};
use crate::domain::{CodecError, NewMessage, TimeRange};
use crate::numparse::{parse_i64, spec_parse_i64};
use crate::strutil::str_eq;

verus! {

/// The (key, value) pairs that URL-encoded data decodes to, in input order,
/// with keys and values percent-decoded and `+` read as a space.
pub uninterp spec fn spec_form_pairs(bytes: Seq<u8>) -> Seq<(Seq<char>, Seq<char>)>;

/// Relies on `url::form_urlencoded::parse`: yields the `&`-separated
/// (key, value) pairs of the input in order, names and values
/// percent-decoded; empty input yields no pairs.
#[verifier::external_body]
fn form_urlencoded_pairs(bytes: &[u8]) -> (r: Vec<(String, String)>)
    ensures
        r@.len() == spec_form_pairs(bytes@).len(),
        forall|i: int|
            0 <= i < r@.len() ==> (#[trigger] r@[i]).0@ == spec_form_pairs(bytes@)[i].0
                && r@[i].1@ == spec_form_pairs(bytes@)[i].1,
        bytes@.len() == 0 ==> r@.len() == 0,
{
    url::form_urlencoded::parse(bytes).into_owned().collect()
}

/// The views of a decoded pair list.
pub open spec fn spec_pairs_view(pairs: Seq<(String, String)>) -> Seq<(Seq<char>, Seq<char>)> {
    pairs.map_values(|p: (String, String)| (p.0@, p.1@))
}

/// The value of the last pair whose key is `key`, if any: the form
/// semantics where a later duplicate key overwrites an earlier one.
pub open spec fn spec_lookup_last(pairs: Seq<(Seq<char>, Seq<char>)>, key: Seq<char>) -> Option<
    Seq<char>,
>
    decreases pairs.len(),
{
    if pairs.len() == 0 {
        None
    } else if pairs.last().0 == key {
        Some(pairs.last().1)
    } else {
        spec_lookup_last(pairs.drop_last(), key)
    }
}

/// Scan a decoded pair list for the last value under `key`.
fn lookup_last(pairs: &Vec<(String, String)>, key: &str) -> (r: Option<String>)
    ensures
        match r {
            Some(v) => spec_lookup_last(spec_pairs_view(pairs@), key@) == Some(v@),
            None => spec_lookup_last(spec_pairs_view(pairs@), key@) is None,
        },
{
    let ghost view = spec_pairs_view(pairs@);
    let mut j: usize = pairs.len();
    proof {
        assert(view.take(pairs@.len() as int) =~= view);
    }
    while j > 0
        invariant
            j <= pairs@.len(),
            view == spec_pairs_view(pairs@),
            view.len() == pairs@.len(),
            spec_lookup_last(view, key@) == spec_lookup_last(view.take(j as int), key@),
        decreases j,
    {
        j -= 1;
        proof {
            assert(view.take(j as int + 1).last() == view[j as int]);
            assert(view.take(j as int + 1).drop_last() =~= view.take(j as int));
        }
        if str_eq(pairs[j].0.as_str(), key) {
            return Some(pairs[j].1.clone());
        }
    }
    proof {
        assert(view.take(0) =~= Seq::<(Seq<char>, Seq<char>)>::empty());
    }
    None
}

/// Decode a form body into a `NewMessage`: both the `message` and the
/// `username` key must be present (checked in that order), each taken with
/// last-value-wins; a missing key is `InvalidInput`.
pub fn decode_new_message(body: &[u8]) -> (r: Result<NewMessage, CodecError>)
    ensures
        ({
            let ps = spec_form_pairs(body@);
            let mv = spec_lookup_last(ps, "message"@);
            let uv = spec_lookup_last(ps, "username"@);
            match r {
                Ok(m) => {
                    &&& mv is Some
                    &&& uv is Some
                    &&& m.message@ == mv->0
                    &&& m.username@ == uv->0
                },
                Err(e) => {
                    &&& (mv is None || uv is None)
                    &&& e.spec_field() == (if mv is None {
                        "message"@
                    } else {
                        "username"@
                    })
                    &&& e.spec_message() == "Invalid form data"@
                },
            }
        }),
{
    let pairs = form_urlencoded_pairs(body);
    proof {
        assert(spec_pairs_view(pairs@) =~= spec_form_pairs(body@));
    }
    match lookup_last(&pairs, "message") {
        Some(message) => match lookup_last(&pairs, "username") {
            Some(username) => Ok(NewMessage { username, message }),
            None => Err(
                CodecError::InvalidInput {
                    field: String::from_str("username"),
                    detail: String::from_str("Invalid form data"),
                },
            ),
        },
        None => Err(
            CodecError::InvalidInput {
                field: String::from_str("message"),
                detail: String::from_str("Invalid form data"),
            },
        ),
    }
}

/// Decode a query string into a `TimeRange`: the optional keys `before`
/// and `after` (checked in that order) must each parse as a base-10 signed
/// 64-bit integer when present; absence means unbounded.
pub fn decode_time_range(query: &str) -> (r: Result<TimeRange, CodecError>)
    ensures
        ({
            let ps = spec_form_pairs(query.spec_bytes());
            let bv = spec_lookup_last(ps, "before"@);
            let av = spec_lookup_last(ps, "after"@);
            match r {
                Ok(tr) => {
                    &&& (match bv {
                        Option::None => tr.before is None,
                        Option::Some(v) => spec_parse_i64(v) is Ok && tr.before == Some(
                            spec_parse_i64(v)->Ok_0,
                        ),
                    })
                    &&& (match av {
                        Option::None => tr.after is None,
                        Option::Some(v) => spec_parse_i64(v) is Ok && tr.after == Some(
                            spec_parse_i64(v)->Ok_0,
                        ),
                    })
                },
                Err(e) => {
                    if bv is Some && spec_parse_i64(bv->0) is Err {
                        &&& e.spec_field() == "before"@
                        &&& e.spec_message() == "Error parsing 'before': "@ + spec_parse_i64(
                            bv->0,
                        )->Err_0.spec_text()
                    } else {
                        &&& av is Some
                        &&& spec_parse_i64(av->0) is Err
                        &&& e.spec_field() == "after"@
                        &&& e.spec_message() == "Error parsing 'after': "@ + spec_parse_i64(
                            av->0,
                        )->Err_0.spec_text()
                    }
                },
            }
        }),
{
    let pairs = form_urlencoded_pairs(query.as_bytes());
    proof {
        assert(spec_pairs_view(pairs@) =~= spec_form_pairs(query.spec_bytes()));
    }
    let before: Option<i64>;
    match lookup_last(&pairs, "before") {
        Some(v) => match parse_i64(v.as_str()) {
            Ok(n) => {
                before = Some(n);
            },
            Err(e) => {
                let mut detail = String::from_str("Error parsing 'before': ");
                detail.append(e.text());
                return Err(
                    CodecError::InvalidInput { field: String::from_str("before"), detail },
                );
            },
        },
        None => {
            before = None;
        },
    }
    let after: Option<i64>;
    match lookup_last(&pairs, "after") {
        Some(v) => match parse_i64(v.as_str()) {
            Ok(n) => {
                after = Some(n);
            },
            Err(e) => {
                let mut detail = String::from_str("Error parsing 'after': ");
                detail.append(e.text());
                return Err(CodecError::InvalidInput { field: String::from_str("after"), detail });
            },
        },
        None => {
            after = None;
        },
    }
    Ok(TimeRange { before, after })
}

} // verus!
