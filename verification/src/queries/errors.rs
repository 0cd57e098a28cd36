//! Query-level errors and the classification of raw driver failures.
//!
//! The driver reports failures as free text.  `From<String>` turns such a
//! message into a [`QueryError`] by an ordered, first-match-wins inspection of
//! the text: a uniqueness-constraint phrase means a constraint violation, a
//! zero-rows phrase means an empty result where one row was required, and
//! anything else is a generic execution failure that keeps the original
//! message.  Classification happens once, at the driver boundary; nothing
//! reclassifies downstream.

use vstd::prelude::*;

use crate::text::contains_seq;
use crate::text::str_contains;

verus! {

/// A failure of one query, as the closed query-layer taxonomy reports it.
#[derive(Debug)]
pub enum QueryError {
    /// The email input is malformed; raised before any statement is issued.
    InvalidEmailFormat(String),
    /// The statement text itself was rejected.
    SyntaxError(String),
    /// A database constraint (such as the unique email) was violated.
    ConstraintViolation(String),
    /// The statement returned no rows where at least one was required.
    NoResults,
    /// Extracting or converting a column of an answered row failed.
    MappingError(String),
    /// The statement affected an unexpected number of rows.
    AffectedRowsMismatch { expected: u64, actual: u64 },
    /// A driver failure that matched no more specific classification.
    ExecutionFailed(String),
    /// The given id matches no row where a row was required.
    InvalidId(String),
    /// The email matched a row but the password did not.
    InvalidPassword(String),
    /// The email matched no row.
    EmailNotFound(String),
}

/// The phrase whose presence in a driver message marks a uniqueness-constraint
/// violation.
pub open spec fn unique_constraint_phrase() -> Seq<char> {
    "unique constraint"@
}

/// The phrase whose presence in a driver message marks an empty result where
/// one row was required.
pub open spec fn zero_rows_phrase() -> Seq<char> {
    "0 rows"@
}

/// The duplicate-key message the store reports carries the
/// uniqueness-constraint phrase, so classification turns it into a
/// constraint violation.
pub proof fn lemma_dup_key_message_classified()
    ensures
        contains_seq(crate::store::dup_key_message(), unique_constraint_phrase()),
{
    reveal_strlit("duplicate key value violates unique constraint users_email_key");
    reveal_strlit("unique constraint");
    assert(crate::store::dup_key_message().subrange(
        29,
        29 + unique_constraint_phrase().len() as int,
    ) =~= unique_constraint_phrase());
}

/// The serial-overflow message the store reports carries neither
/// classification phrase, so classification leaves it a generic execution
/// failure.
pub proof fn lemma_serial_overflow_message_classified()
    ensures
        !contains_seq(crate::store::serial_overflow_message(), unique_constraint_phrase()),
        !contains_seq(crate::store::serial_overflow_message(), zero_rows_phrase()),
{
    reveal_strlit("serial overflow");
    reveal_strlit("unique constraint");
    reveal_strlit("0 rows");
    assert(serial_overflow_message_has_no_zero_digit());
    crate::text::lemma_absent_char_excludes(
        crate::store::serial_overflow_message(),
        zero_rows_phrase(),
        0,
        '0',
    );
}

/// Every character of the serial-overflow message differs from the digit the
/// zero-rows phrase starts with.
spec fn serial_overflow_message_has_no_zero_digit() -> bool {
    forall|j: int|
        0 <= j < crate::store::serial_overflow_message().len()
            ==> #[trigger] crate::store::serial_overflow_message()[j] != '0'
}

impl vstd::std_specs::convert::FromSpecImpl<String> for QueryError {
    open spec fn obeys_from_spec() -> bool {
        true
    }

    open spec fn from_spec(msg: String) -> QueryError {
        if contains_seq(msg@, unique_constraint_phrase()) {
            QueryError::ConstraintViolation(msg)
        } else if contains_seq(msg@, zero_rows_phrase()) {
            QueryError::NoResults
        } else {
            QueryError::ExecutionFailed(msg)
        }
    }
}

impl From<String> for QueryError {
    /// Classify a raw driver message, first match wins.
    fn from(msg: String) -> (e: QueryError) {
        if str_contains(msg.as_str(), "unique constraint") {
            QueryError::ConstraintViolation(msg)
        } else if str_contains(msg.as_str(), "0 rows") {
            QueryError::NoResults
        } else {
            QueryError::ExecutionFailed(msg)
        }
    }
}

impl vstd::std_specs::cmp::PartialEqSpecImpl for QueryError {
    open spec fn obeys_eq_spec() -> bool {
        true
    }

    open spec fn eq_spec(&self, other: &QueryError) -> bool {
        match (self, other) {
            (QueryError::InvalidEmailFormat(a), QueryError::InvalidEmailFormat(b)) => a@ == b@,
            (QueryError::SyntaxError(a), QueryError::SyntaxError(b)) => a@ == b@,
            (QueryError::ConstraintViolation(a), QueryError::ConstraintViolation(b)) => a@ == b@,
            (QueryError::NoResults, QueryError::NoResults) => true,
            (QueryError::MappingError(a), QueryError::MappingError(b)) => a@ == b@,
            (
                QueryError::AffectedRowsMismatch { expected: e1, actual: a1 },
                QueryError::AffectedRowsMismatch { expected: e2, actual: a2 },
            ) => e1 == e2 && a1 == a2,
            (QueryError::ExecutionFailed(a), QueryError::ExecutionFailed(b)) => a@ == b@,
            (QueryError::InvalidId(a), QueryError::InvalidId(b)) => a@ == b@,
            (QueryError::InvalidPassword(a), QueryError::InvalidPassword(b)) => a@ == b@,
            (QueryError::EmailNotFound(a), QueryError::EmailNotFound(b)) => a@ == b@,
            _ => false,
        }
    }
}

impl PartialEq for QueryError {
    /// Two query errors are equal when they are the same variant carrying the
    /// same text.
    fn eq(&self, other: &QueryError) -> (r: bool) {
        match (self, other) {
            (QueryError::InvalidEmailFormat(a), QueryError::InvalidEmailFormat(b)) => *a == *b,
            (QueryError::SyntaxError(a), QueryError::SyntaxError(b)) => *a == *b,
            (QueryError::ConstraintViolation(a), QueryError::ConstraintViolation(b)) => *a == *b,
            (QueryError::NoResults, QueryError::NoResults) => true,
            (QueryError::MappingError(a), QueryError::MappingError(b)) => *a == *b,
            (
                QueryError::AffectedRowsMismatch { expected: e1, actual: a1 },
                QueryError::AffectedRowsMismatch { expected: e2, actual: a2 },
            ) => *e1 == *e2 && *a1 == *a2,
            (QueryError::ExecutionFailed(a), QueryError::ExecutionFailed(b)) => *a == *b,
            (QueryError::InvalidId(a), QueryError::InvalidId(b)) => *a == *b,
            (QueryError::InvalidPassword(a), QueryError::InvalidPassword(b)) => *a == *b,
            (QueryError::EmailNotFound(a), QueryError::EmailNotFound(b)) => *a == *b,
            _ => false,
        }
    }
}

} // verus!
