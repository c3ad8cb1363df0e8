//! A retry-aware JSON-RPC client adapter core for Ethereum execution-layer
//! data.
//!
//! The crate verifies the decision logic of such an adapter: how an abstract
//! block selector is resolved into the identifier an endpoint expects, how
//! transport failures are wrapped into a single error type that records which
//! logical operation failed, how failures are classified as retryable, and how
//! an exponential backoff schedule with a ceiling decides whether and how long
//! to wait before the next attempt.
//!
//! The network exchange itself (the HTTP transport, request serialization and
//! the asynchronous waiting) is a collaborator outside this crate: callers
//! perform each endpoint call, hand its outcome to the functions here, and
//! perform the waits that the backoff policy prescribes.

pub mod errors;
pub mod retry;
pub mod rpc;
pub mod text;
pub mod types;
