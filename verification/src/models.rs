//! The records the assistant keeps, and the names under which their kinds are stored.
pub mod chat;
pub mod conversation;
pub mod entity;
pub mod memory;
pub mod message;
pub mod prompt;
pub mod routing;

use vstd::prelude::*;

use crate::text::append;

verus! {

/// A name that is not the name of any value of the kind that was asked for.
#[derive(Debug, Clone)]
pub struct UnknownValue {
    /// What kind of value was expected, such as `memory type`.
    pub expected: String,
    /// The text that was given.
    pub value: String,
}

impl UnknownValue {
    pub fn new(expected: &str, value: &str) -> (e: UnknownValue)
        ensures
            e.expected@ == expected@,
            e.value@ == value@,
    {
        UnknownValue { expected: expected.to_owned(), value: value.to_owned() }
    }

    /// The message that reports the error: `unknown <kind>: <text>`.
    pub fn message(&self) -> (m: String)
        ensures
            m@ == "unknown "@ + self.expected@ + ": "@ + self.value@,
    {
        let mut m = String::new();
        append(&mut m, "unknown ");
        append(&mut m, self.expected.as_str());
        append(&mut m, ": ");
        append(&mut m, self.value.as_str());
        m
    }
}

/// Why a stored row could not be read back.
#[derive(Debug, Clone)]
pub enum RowError {
    /// A column held a name that is not one of its kind's names.
    UnknownValue(UnknownValue),
    /// A timestamp column held text that does not read as a UTC timestamp.
    BadTimestamp(String),
}

/// How a row error reads: whether it is about a timestamp, what kind of name
/// was expected (empty for a timestamp), and the text that did not read.
pub open spec fn row_error_view(e: RowError) -> (bool, Seq<char>, Seq<char>) {
    match e {
        RowError::UnknownValue(u) => (false, u.expected@, u.value@),
        RowError::BadTimestamp(t) => (true, Seq::empty(), t@),
    }
}

impl RowError {
    /// The message that reports the error.
    pub fn message(&self) -> (m: String)
        ensures
            m@ == match self {
                RowError::UnknownValue(e) => "unknown "@ + e.expected@ + ": "@ + e.value@,
                RowError::BadTimestamp(t) => "invalid timestamp: "@ + t@,
            },
    {
        match self {
            RowError::UnknownValue(e) => e.message(),
            RowError::BadTimestamp(t) => {
                let mut m = String::new();
                append(&mut m, "invalid timestamp: ");
                append(&mut m, t.as_str());
                m
            },
        }
    }
}

} // verus!
