//! Connection-lifecycle errors.
//!
//! The closed enumeration of failures the connection manager itself can
//! report, as opposed to failures of an individual query (see
//! [`crate::queries::errors::QueryError`]).  Errors carry plain text taken
//! from the driver, never live resources.

use vstd::prelude::*;

verus! {

/// A failure at the connection layer.
#[derive(Debug)]
pub enum DatabaseError {
    /// Opening the connection failed; carries the driver's own message so
    /// callers can pattern-match on its text.
    ConnectionFailed(String),
    /// The connection was closed under the caller.
    ConnectionClosed,
    /// The client handle is not populated: no successful `connect` has
    /// happened, or the handle has been dropped since.
    NotInitialized,
    /// A raw driver failure passed through unclassified.
    DriverError(String),
    /// The stored configuration is unusable.
    ConfigError(String),
    /// The operation timed out.
    Timeout,
    /// An internal fault of the library itself.
    Internal(String),
}

} // verus!
