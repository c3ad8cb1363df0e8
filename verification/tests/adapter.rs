use http_rpc::errors::{ExecutionError, RpcError};
use http_rpc::retry::{AttemptOutcome, RetryConfig};
use http_rpc::rpc::HttpRpc;
use http_rpc::text::retryable_text;
use http_rpc::types::{resolve_block_tag, BlockIdent, BlockTag};

#[test]
fn resolver_maps_latest() {
    assert_eq!(resolve_block_tag(BlockTag::Latest), BlockIdent::Latest);
}

#[test]
fn resolver_maps_finalized() {
    assert_eq!(resolve_block_tag(BlockTag::Finalized), BlockIdent::Finalized);
}

#[test]
fn resolver_maps_numbers() {
    assert_eq!(resolve_block_tag(BlockTag::Number(0)), BlockIdent::Number(0));
    assert_eq!(
        resolve_block_tag(BlockTag::Number(u64::MAX)),
        BlockIdent::Number(u64::MAX)
    );
}

#[test]
fn error_wrapper_records_the_operation() {
    let with_cause = RpcError::new("op", Some("connection reset".to_string()));
    assert_eq!(with_cause.operation, "op");
    assert_eq!(with_cause.source.as_deref(), Some("connection reset"));
    let without_cause = RpcError::new("op", None);
    assert_eq!(without_cause.operation, "op");
    assert!(without_cause.source.is_none());
}

#[test]
fn operations_pass_payloads_through() {
    let rpc = HttpRpc::new("http://localhost:8545");
    assert_eq!(rpc.get_proof::<u32>(Ok(7)), Ok(7));
    assert_eq!(rpc.get_code(Ok(vec![0x60u8, 0x80u8])), Ok(vec![0x60u8, 0x80u8]));
    assert_eq!(rpc.uninstall_filter(Ok(true)), Ok(true));
    assert_eq!(rpc.chain_id(Ok(1)), Ok(1));
}

#[test]
fn operations_wrap_failures_under_their_names() {
    let rpc = HttpRpc::new("http://localhost:8545");
    let cases: Vec<(Result<u32, RpcError>, &str)> = vec![
        (rpc.get_proof(Err("boom".to_string())), "get_proof"),
        (rpc.create_access_list(Err("boom".to_string())), "create_access_list"),
        (rpc.get_code(Err("boom".to_string())), "get_code"),
        (rpc.send_raw_transaction(Err("boom".to_string())), "send_raw_transaction"),
        (rpc.get_transaction_receipt(Err("boom".to_string())), "get_transaction_receipt"),
        (rpc.get_block_receipts(Err("boom".to_string())), "get_block_receipts"),
        (rpc.get_transaction(Err("boom".to_string())), "get_transaction"),
        (rpc.get_logs(Err("boom".to_string())), "get_logs"),
        (rpc.get_filter_changes(Err("boom".to_string())), "get_filter_changes"),
        (rpc.get_filter_logs(Err("boom".to_string())), "get_filter_logs"),
        (rpc.new_filter(Err("boom".to_string())), "new_filter"),
        (rpc.new_block_filter(Err("boom".to_string())), "new_block_filter"),
        (
            rpc.new_pending_transaction_filter(Err("boom".to_string())),
            "new_pending_transaction_filter",
        ),
        (rpc.chain_id(Err("boom".to_string())).map(|v| v as u32), "chain_id"),
        (rpc.get_fee_history(Err("boom".to_string())), "get_fee_history"),
    ];
    for (result, operation) in cases {
        match result {
            Err(e) => {
                assert_eq!(e.operation, operation);
                assert_eq!(e.source.as_deref(), Some("boom"));
            }
            Ok(_) => panic!("a transport failure must surface as an error"),
        }
    }
    match rpc.uninstall_filter(Err("boom".to_string())) {
        Err(e) => assert_eq!(e.operation, "uninstall_filter"),
        Ok(_) => panic!("a transport failure must surface as an error"),
    }
}

#[test]
fn get_block_distinguishes_not_found() {
    let rpc = HttpRpc::new("http://localhost:8545");
    match rpc.get_block::<u32>(Ok(None)) {
        Err(ExecutionError::BlockNotFound) => {}
        _ => panic!("an absent block must surface as the not-found error"),
    }
    assert!(matches!(rpc.get_block::<u32>(Ok(Some(9))), Ok(9)));
    match rpc.get_block::<u32>(Err("connection reset".to_string())) {
        Err(ExecutionError::Rpc(e)) => {
            assert_eq!(e.operation, "get_block");
            assert_eq!(e.source.as_deref(), Some("connection reset"));
        }
        _ => panic!("a transport failure must surface as a wrapped error"),
    }
}

#[test]
fn construction_uses_the_default_retry_config() {
    let rpc = HttpRpc::new("http://localhost:8545");
    assert_eq!(rpc.url, "http://localhost:8545");
    assert_eq!(rpc.retry_config, RetryConfig::default());
}

#[test]
fn clone_rebuilds_an_equivalent_adapter() {
    let rpc = HttpRpc::new("http://localhost:8545");
    let copy = rpc.clone();
    assert_eq!(copy.url, rpc.url);
    assert_eq!(copy.retry_config, rpc.retry_config);
    // An idempotent read-only call behaves identically on both.
    let outcomes = vec![
        AttemptOutcome::Fail(RpcError::new("chain_id", Some("timeout".to_string()))),
        AttemptOutcome::Succeed,
    ];
    let a = rpc.execute_with_retry(&outcomes);
    let b = copy.execute_with_retry(&outcomes);
    assert_eq!(a.success, b.success);
    assert_eq!(a.attempts, b.attempts);
    assert_eq!(a.total_wait_ms, b.total_wait_ms);
    assert_eq!(rpc.chain_id(Ok(1)), copy.chain_id(Ok(1)));
}

#[test]
fn classifier_reads_lowered_text() {
    assert!(retryable_text("rate limit exceeded"));
    assert!(retryable_text("502 server error"));
    assert!(!retryable_text("invalid signature"));
    assert!(!retryable_text(""));
}

#[test]
fn test_retry_mechanism() {
    // The endpoint answers HTTP 429 with body {"error":"rate limit exceeded"}
    // twice, then 200 with {"result":"0x1"}: in the manual-retry mode the
    // adapter retries twice, waits 100 ms and then 200 ms, and chain_id
    // returns 1.
    let rpc = HttpRpc::new("http://localhost:8545");
    let exhausted = vec![
        AttemptOutcome::Fail(RpcError::new("chain_id", Some("rate limit exceeded".to_string()))),
        AttemptOutcome::Fail(RpcError::new("chain_id", Some("rate limit exceeded".to_string()))),
        AttemptOutcome::Fail(RpcError::new("chain_id", Some("rate limit exceeded".to_string()))),
    ];
    let run = rpc.execute_with_retry(&exhausted);
    assert!(!run.success);
    assert_eq!(run.attempts, 3);

    let recovered = vec![
        AttemptOutcome::Fail(RpcError::new("chain_id", Some("rate limit exceeded".to_string()))),
        AttemptOutcome::Fail(RpcError::new("chain_id", Some("rate limit exceeded".to_string()))),
        AttemptOutcome::Succeed,
    ];
    let run = rpc.execute_with_retry(&recovered);
    assert!(run.success);
    assert_eq!(run.attempts, 3);
    assert!(run.total_wait_ms >= 100 + 200);
    assert_eq!(rpc.chain_id(Ok(0x1)), Ok(1));
}
