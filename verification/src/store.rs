//! The message store. Both operations are stand-ins for a real datastore:
//! the write reports a fixed timestamp and the read returns two fixed
//! messages whatever the range, exactly as a real store port would be
//! called but without persistence.

use vstd::prelude::*;
use vstd::string::StringExecFns;
use crate::domain::{NewMessage, TimeRange};
use crate::htmlenc::spec_messages_view;

verus! {

/// The field views of the two messages the stubbed read hands back.
pub open spec fn spec_stub_messages() -> Seq<(Seq<char>, Seq<char>)> {
    seq![("user1"@, "Hello!"@), ("user2"@, "Hi there!"@)]
}

/// Persist a submitted message. The stub accepts every message and
/// reports the same fixed timestamp.
pub fn write_to_db(new_message: NewMessage) -> (r: Result<i64, String>)
    ensures
        r == Ok::<i64, String>(1625247600i64),
{
    let timestamp: i64 = 1625247600;
    Ok(timestamp)
}

/// Read the messages whose timestamps fall in `time_range`. The stub
/// returns the same two messages for every range and never fails.
pub fn fetch_messages(time_range: TimeRange) -> (r: Option<Vec<NewMessage>>)
    ensures
        r is Some,
        spec_messages_view(r->0@) == spec_stub_messages(),
{
    let messages = vec![
        NewMessage { username: String::from_str("user1"), message: String::from_str("Hello!") },
        NewMessage {
            username: String::from_str("user2"),
            message: String::from_str("Hi there!"),
        },
    ];
    proof {
        assert(spec_messages_view(messages@) =~= spec_stub_messages());
    }
    Some(messages)
}

} // verus!
