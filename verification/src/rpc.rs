//! The RPC adapter: the unified operation set over an execution-layer
//! endpoint.
//!
//! The adapter owns the endpoint identity and the retry configuration. The
//! network exchange itself happens outside this crate: for each operation the
//! caller issues the endpoint call and hands the outcome — the payload, or
//! the textual form of the transport failure — to the operation's function
//! here, which produces what the adapter surfaces. Payloads are opaque to the
//! adapter and pass through unchanged.

use vstd::prelude::*;

use crate::errors::{ExecutionError, RpcError};
use crate::retry::{spec_run, AttemptOutcome, RetryConfig, RetryRun};

verus! {

/// The adapter: an endpoint URL and the retry configuration, both immutable
/// for the adapter's lifetime.
pub struct HttpRpc {
    pub url: String,
    pub retry_config: RetryConfig,
}

impl HttpRpc {
    /// The adapter's configuration can drive the retry state machine.
    pub open spec fn wf(self) -> bool {
        self.retry_config.wf()
    }

    /// Builds an adapter against the given endpoint URL with the default
    /// retry configuration. No network exchange happens here; whether the
    /// endpoint accepts the URL is the transport's concern.
    pub fn new(rpc: &str) -> (r: Self)
        ensures
            r.url@ == rpc@,
            r.retry_config == RetryConfig::spec_default(),
            r.wf(),
    {
        HttpRpc { url: rpc.to_owned(), retry_config: RetryConfig::default() }
    }

    /// Builds a fresh adapter against the same endpoint: the clone carries
    /// the same URL and the same (default) configuration, not a shallow copy
    /// of live connection state.
    pub fn clone(&self) -> (r: Self)
        ensures
            r.url@ == self.url@,
            r.retry_config == RetryConfig::spec_default(),
            r.wf(),
    {
        Self::new(self.url.as_str())
    }

    /// Runs this adapter's retry loop on the outcomes the attempts meet.
    pub fn execute_with_retry(&self, outcomes: &Vec<AttemptOutcome>) -> (r: RetryRun)
        requires
            self.wf(),
        ensures
            ({
                let m = spec_run(self.retry_config, outcomes@);
                &&& r.complete == m.complete
                &&& r.success == m.success
                &&& r.attempts as nat == m.attempts
                &&& r.total_wait_ms as int == m.total_wait_ms
                &&& r.failure == m.failure
            }),
    {
        crate::retry::execute_with_retry(&self.retry_config, outcomes)
    }
}

/// What the transport hands back for one endpoint call: the payload the
/// endpoint answered with, or the textual form of the transport failure.
pub type CallOutcome<T> = Result<T, String>;

/// Wraps a call's outcome: a payload passes through unchanged, and a
/// transport failure is wrapped with the name of the logical operation.
fn complete_call<T>(operation: &str, outcome: CallOutcome<T>) -> (r: Result<T, RpcError>)
    ensures
        (outcome matches Ok(v) ==> (r matches Ok(rv) && rv == v)),
        (outcome matches Err(t) ==> (r matches Err(e) && e.operation@ == operation@ && e.source
            == Some(t))),
{
    match outcome {
        Ok(v) => Ok(v),
        Err(t) => Err(RpcError::new(operation, Some(t))),
    }
}

impl HttpRpc {
    /// `get_proof(address, storage_slots, block)`: the payload is the state
    /// proof the endpoint answered with; a transport failure surfaces as an
    /// error named "get_proof".
    pub fn get_proof<T>(&self, outcome: CallOutcome<T>) -> (r: Result<T, RpcError>)
        ensures
            (outcome matches Ok(v) ==> (r matches Ok(rv) && rv == v)),
            (outcome matches Err(t) ==> (r matches Err(e) && e.operation@ == "get_proof"@
                && e.source == Some(t))),
    {
        complete_call("get_proof", outcome)
    }

    /// `create_access_list(transaction_request, block_tag)`: the tag is
    /// resolved with [`crate::types::resolve_block_tag`] before the call; the
    /// payload is the access-list portion of the endpoint's answer, which the
    /// transport collaborator extracts from the raw simulation response
    /// before handing it here.
    pub fn create_access_list<T>(&self, outcome: CallOutcome<T>) -> (r: Result<T, RpcError>)
        ensures
            (outcome matches Ok(v) ==> (r matches Ok(rv) && rv == v)),
            (outcome matches Err(t) ==> (r matches Err(e) && e.operation@ == "create_access_list"@
                && e.source == Some(t))),
    {
        complete_call("create_access_list", outcome)
    }

    /// `get_code(address, block_number)`: deployed bytecode at a specific
    /// numeric block; the number bypasses the block-tag resolver.
    pub fn get_code<T>(&self, outcome: CallOutcome<T>) -> (r: Result<T, RpcError>)
        ensures
            (outcome matches Ok(v) ==> (r matches Ok(rv) && rv == v)),
            (outcome matches Err(t) ==> (r matches Err(e) && e.operation@ == "get_code"@
                && e.source == Some(t))),
    {
        complete_call("get_code", outcome)
    }

    /// `send_raw_transaction(raw_bytes)`: the payload is the transaction
    /// hash the endpoint answered with.
    pub fn send_raw_transaction<T>(&self, outcome: CallOutcome<T>) -> (r: Result<T, RpcError>)
        ensures
            (outcome matches Ok(v) ==> (r matches Ok(rv) && rv == v)),
            (outcome matches Err(t) ==> (r matches Err(e) && e.operation@ == "send_raw_transaction"@
                && e.source == Some(t))),
    {
        complete_call("send_raw_transaction", outcome)
    }

    /// `get_transaction_receipt(hash)`: the payload is the optional receipt.
    pub fn get_transaction_receipt<T>(&self, outcome: CallOutcome<T>) -> (r: Result<T, RpcError>)
        ensures
            (outcome matches Ok(v) ==> (r matches Ok(rv) && rv == v)),
            (outcome matches Err(t) ==> (r matches Err(e) && e.operation@
                == "get_transaction_receipt"@ && e.source == Some(t))),
    {
        complete_call("get_transaction_receipt", outcome)
    }

    /// `get_block_receipts(block_tag)`: the tag is resolved with
    /// [`crate::types::resolve_block_tag`] before the call.
    pub fn get_block_receipts<T>(&self, outcome: CallOutcome<T>) -> (r: Result<T, RpcError>)
        ensures
            (outcome matches Ok(v) ==> (r matches Ok(rv) && rv == v)),
            (outcome matches Err(t) ==> (r matches Err(e) && e.operation@ == "get_block_receipts"@
                && e.source == Some(t))),
    {
        complete_call("get_block_receipts", outcome)
    }

    /// `get_transaction(hash)`: the payload is the optional transaction.
    pub fn get_transaction<T>(&self, outcome: CallOutcome<T>) -> (r: Result<T, RpcError>)
        ensures
            (outcome matches Ok(v) ==> (r matches Ok(rv) && rv == v)),
            (outcome matches Err(t) ==> (r matches Err(e) && e.operation@ == "get_transaction"@
                && e.source == Some(t))),
    {
        complete_call("get_transaction", outcome)
    }

    /// `get_logs(filter)`: the payload is the matching log sequence.
    pub fn get_logs<T>(&self, outcome: CallOutcome<T>) -> (r: Result<T, RpcError>)
        ensures
            (outcome matches Ok(v) ==> (r matches Ok(rv) && rv == v)),
            (outcome matches Err(t) ==> (r matches Err(e) && e.operation@ == "get_logs"@
                && e.source == Some(t))),
    {
        complete_call("get_logs", outcome)
    }

    /// `get_filter_changes(filter_id)`.
    pub fn get_filter_changes<T>(&self, outcome: CallOutcome<T>) -> (r: Result<T, RpcError>)
        ensures
            (outcome matches Ok(v) ==> (r matches Ok(rv) && rv == v)),
            (outcome matches Err(t) ==> (r matches Err(e) && e.operation@ == "get_filter_changes"@
                && e.source == Some(t))),
    {
        complete_call("get_filter_changes", outcome)
    }

    /// `get_filter_logs(filter_id)`: issued as the raw named call
    /// `eth_getFilterLogs`, since no typed helper exists for it.
    pub fn get_filter_logs<T>(&self, outcome: CallOutcome<T>) -> (r: Result<T, RpcError>)
        ensures
            (outcome matches Ok(v) ==> (r matches Ok(rv) && rv == v)),
            (outcome matches Err(t) ==> (r matches Err(e) && e.operation@ == "get_filter_logs"@
                && e.source == Some(t))),
    {
        complete_call("get_filter_logs", outcome)
    }

    /// `uninstall_filter(filter_id)`: issued as the raw named call
    /// `eth_uninstallFilter`; the payload is the success indicator.
    pub fn uninstall_filter(&self, outcome: CallOutcome<bool>) -> (r: Result<bool, RpcError>)
        ensures
            (outcome matches Ok(v) ==> (r matches Ok(rv) && rv == v)),
            (outcome matches Err(t) ==> (r matches Err(e) && e.operation@ == "uninstall_filter"@
                && e.source == Some(t))),
    {
        complete_call("uninstall_filter", outcome)
    }

    /// `new_filter(filter)`: the payload is the registered filter's id.
    pub fn new_filter<T>(&self, outcome: CallOutcome<T>) -> (r: Result<T, RpcError>)
        ensures
            (outcome matches Ok(v) ==> (r matches Ok(rv) && rv == v)),
            (outcome matches Err(t) ==> (r matches Err(e) && e.operation@ == "new_filter"@
                && e.source == Some(t))),
    {
        complete_call("new_filter", outcome)
    }

    /// `new_block_filter()`: the payload is the registered filter's id.
    pub fn new_block_filter<T>(&self, outcome: CallOutcome<T>) -> (r: Result<T, RpcError>)
        ensures
            (outcome matches Ok(v) ==> (r matches Ok(rv) && rv == v)),
            (outcome matches Err(t) ==> (r matches Err(e) && e.operation@ == "new_block_filter"@
                && e.source == Some(t))),
    {
        complete_call("new_block_filter", outcome)
    }

    /// `new_pending_transaction_filter()`: the endpoint is asked for bare
    /// hashes, not full transaction objects.
    pub fn new_pending_transaction_filter<T>(&self, outcome: CallOutcome<T>) -> (r: Result<
        T,
        RpcError,
    >)
        ensures
            (outcome matches Ok(v) ==> (r matches Ok(rv) && rv == v)),
            (outcome matches Err(t) ==> (r matches Err(e) && e.operation@
                == "new_pending_transaction_filter"@ && e.source == Some(t))),
    {
        complete_call("new_pending_transaction_filter", outcome)
    }

    /// `chain_id()`: present because in the manual-retry mode every call is
    /// wrapped by the backoff policy explicitly; each attempt's outcome is
    /// wrapped here, and the attempts are driven by the retry state machine.
    pub fn chain_id(&self, outcome: CallOutcome<u64>) -> (r: Result<u64, RpcError>)
        ensures
            (outcome matches Ok(v) ==> (r matches Ok(rv) && rv == v)),
            (outcome matches Err(t) ==> (r matches Err(e) && e.operation@ == "chain_id"@
                && e.source == Some(t))),
    {
        complete_call("chain_id", outcome)
    }

    /// `get_fee_history(block_count, last_block, reward_percentiles)`: the
    /// payload is the fee history the endpoint answered with.
    pub fn get_fee_history<T>(&self, outcome: CallOutcome<T>) -> (r: Result<T, RpcError>)
        ensures
            (outcome matches Ok(v) ==> (r matches Ok(rv) && rv == v)),
            (outcome matches Err(t) ==> (r matches Err(e) && e.operation@ == "get_fee_history"@
                && e.source == Some(t))),
    {
        complete_call("get_fee_history", outcome)
    }

    /// `get_block(hash)`: the endpoint answers with the block, or with an
    /// affirmative "no such block", which surfaces as the distinct not-found
    /// error rather than as a transport failure.
    pub fn get_block<T>(&self, outcome: CallOutcome<Option<T>>) -> (r: Result<T, ExecutionError>)
        ensures
            (outcome matches Ok(v) ==> (v matches Some(b) ==> (r matches Ok(rb) && rb == b))),
            (outcome matches Ok(v) ==> (v is None ==> (r matches Err(e) && e is BlockNotFound))),
            (outcome matches Err(t) ==> (r matches Err(e) && e matches ExecutionError::Rpc(re)
                && re.operation@ == "get_block"@ && re.source == Some(t))),
    {
        match complete_call("get_block", outcome) {
            Ok(Some(b)) => Ok(b),
            Ok(None) => Err(ExecutionError::BlockNotFound),
            Err(e) => Err(ExecutionError::Rpc(e)),
        }
    }
}

/// Construction/Clone law: an adapter rebuilt from the same endpoint behaves
/// identically to the original. Two adapters that agree on the endpoint URL
/// and the retry configuration — as an adapter and its clone do — make the
/// same retry decisions and waits on every sequence of attempt outcomes, and
/// address the same endpoint; every operation's result depends only on the
/// outcome the endpoint hands back.
pub proof fn lemma_clone_behaves_identically(a: HttpRpc, b: HttpRpc, outcomes: Seq<AttemptOutcome>)
    requires
        a.url@ == b.url@,
        a.retry_config == b.retry_config,
    ensures
        spec_run(a.retry_config, outcomes) == spec_run(b.retry_config, outcomes),
{
}

} // verus!
