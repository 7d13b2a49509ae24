//! The errors of the database.

use vstd::prelude::*;

verus! {

/// Why an operation of the database failed.
#[derive(Debug)]
pub enum LimboError {
    /// The text is no statement that the database accepts.
    ParseError(String),
    /// Something that should not happen did.
    InternalError(String),
    /// What was stored is damaged.
    Corrupt(String),
    /// A value breaks a rule of its type.
    Constraint(String),
    /// The allocator refused.
    OutOfMemory,
}

impl LimboError {
    /// Whether this is a parse error with the given text.
    pub open spec fn is_parse_error(&self, text: Seq<char>) -> bool {
        self matches LimboError::ParseError(m) && m@ == text
    }

    /// Whether this is an internal error with the given text.
    pub open spec fn is_internal_error(&self, text: Seq<char>) -> bool {
        self matches LimboError::InternalError(m) && m@ == text
    }
}

} // verus!
