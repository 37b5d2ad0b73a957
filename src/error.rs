use vstd::prelude::*;

verus! {

/// The error kind that the service's fallible operations report.
#[derive(Debug, PartialEq, Eq)]
pub enum ServiceError {
    /// A failure described by a message.
    Internal(String),
}

} // verus!
