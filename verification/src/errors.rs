//! The unified error taxonomy: transport failures wrapped with the name of
//! the logical operation that failed, and the distinct not-found condition.

use vstd::prelude::*;

use crate::text::{lower_of, spec_retryable_text};

verus! {

/// A transport failure tagged with the logical operation during which it
/// happened. `operation` is the adapter operation's name, not the endpoint's
/// method name; `source` is the textual form of the underlying cause, absent
/// when the failure carries no cause.
#[derive(Debug, PartialEq, Eq)]
pub struct RpcError {
    pub operation: String,
    pub source: Option<String>,
}

impl RpcError {
    /// Wraps a cause with the name of the failed logical operation.
    pub fn new(operation: &str, source: Option<String>) -> (r: Self)
        ensures
            r.operation@ == operation@,
            r.source == source,
    {
        RpcError { operation: operation.to_owned(), source }
    }

    /// An exact copy of this error.
    pub fn duplicate(&self) -> (r: Self)
        ensures
            r == *self,
    {
        RpcError {
            operation: self.operation.clone(),
            source: match &self.source {
                Some(s) => Some(s.clone()),
                None => None,
            },
        }
    }

    /// Whether the backoff policy classifies this error as retryable: it must
    /// carry a cause whose lower-cased text mentions a retryable condition.
    pub open spec fn spec_retryable(self) -> bool {
        match self.source {
            Some(s) => spec_retryable_text(lower_of(s@)),
            None => false,
        }
    }
}

/// Every failure an adapter operation can surface: a wrapped transport
/// failure, or the endpoint's affirmative answer that a requested block does
/// not exist.
#[derive(Debug, PartialEq, Eq)]
pub enum ExecutionError {
    Rpc(RpcError),
    BlockNotFound,
}

} // verus!
