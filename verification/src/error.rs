//! Structured errors for the three ways one database operation can fail.
//!
//! Every error carries the lower-level driver message verbatim; no finer
//! classification is attempted (a syntax error and a permission error are
//! both execution errors). Formatting to a plain string happens only at
//! the outer boundary, outside this crate.

use vstd::prelude::*;

verus! {

/// The error taxonomy of one database operation. All three are terminal
/// for the operation in which they occur: nothing is retried.
#[derive(Debug, Clone, PartialEq)]
pub enum DbError {
    /// The connection could not be established (bad host, port,
    /// credentials, or a network failure).
    ConnectionError(String),
    /// The statement was submitted but failed, or the driver failed while
    /// the rows were being materialized.
    ExecutionError(String),
    /// A catalog query failed during schema introspection.
    IntrospectionError(String),
}

impl DbError {
    /// The driver message the error carries, verbatim.
    pub open spec fn message_spec(self) -> Seq<char> {
        match self {
            DbError::ConnectionError(m) => m@,
            DbError::ExecutionError(m) => m@,
            DbError::IntrospectionError(m) => m@,
        }
    }

    /// The driver message the error carries, verbatim.
    pub fn message(&self) -> (m: &str)
        ensures
            m@ == self.message_spec(),
    {
        match self {
            DbError::ConnectionError(m) => m.as_str(),
            DbError::ExecutionError(m) => m.as_str(),
            DbError::IntrospectionError(m) => m.as_str(),
        }
    }
}

} // verus!
