//! Domain values carried through the request pipeline.

use vstd::prelude::*;

verus! {

/// A message submitted through the form: both fields are required to be
/// present in the form body (they may be empty strings).
#[derive(Debug)]
pub struct NewMessage {
    pub username: String,
    pub message: String,
}

/// Timestamp bounds for listing messages; a missing bound means unbounded
/// on that side. Timestamps are epoch seconds.
#[derive(Debug, Clone, Copy)]
pub struct TimeRange {
    pub before: Option<i64>,
    pub after: Option<i64>,
}

/// Failure to decode a form body or query string. `field` names the key at
/// fault and `detail` is the complete human-readable message shown to the
/// client.
#[derive(Debug)]
pub enum CodecError {
    InvalidInput { field: String, detail: String },
}

impl CodecError {
    /// The key that could not be decoded.
    pub open spec fn spec_field(&self) -> Seq<char> {
        match self {
            CodecError::InvalidInput { field, .. } => field@,
        }
    }

    /// The message reported to the client.
    pub open spec fn spec_message(&self) -> Seq<char> {
        match self {
            CodecError::InvalidInput { detail, .. } => detail@,
        }
    }

    pub fn message(&self) -> (r: String)
        ensures
            r@ == self.spec_message(),
    {
        match self {
            CodecError::InvalidInput { detail, .. } => detail.clone(),
        }
    }
}

} // verus!
