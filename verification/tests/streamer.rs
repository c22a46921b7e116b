use omnibox::block_streamer::{
    extract_logs, find_transaction_in_block, handle_logs, poll_step, specify_block_reference,
    BlockRef, ChunkData, ChunkTransaction, FetchOutcome, PollAction, StreamError,
    TransactionResponseOutcome, TxAction,
};

#[test]
fn initial_cursor_requests_latest_final_block() {
    assert_eq!(specify_block_reference(0), BlockRef::Final);
}

#[test]
fn nonzero_cursor_requests_the_next_height() {
    assert_eq!(specify_block_reference(41), BlockRef::Height(42));
}

#[test]
fn cursor_advancement_over_fetch_outcomes() {
    // Outcomes: unknown, success(5), transient error, success(6).
    // Cursor values: +1, 5, unchanged, 6; the transient error backs off
    // and retries the same height.
    let mut cursor: u64 = 4;

    let s1 = poll_step(cursor, &FetchOutcome::UnknownBlock);
    assert_eq!(s1.next_cursor, cursor + 1);
    assert_eq!(s1.action, PollAction::SkipUnknown);
    cursor = s1.next_cursor;

    let s2 = poll_step(cursor, &FetchOutcome::Block { height: 5 });
    assert_eq!(s2.next_cursor, 5);
    assert_eq!(s2.action, PollAction::ProcessBlock);
    cursor = s2.next_cursor;

    let s3 = poll_step(cursor, &FetchOutcome::TransientServerError);
    assert_eq!(s3.next_cursor, cursor);
    assert_eq!(s3.action, PollAction::Backoff);
    cursor = s3.next_cursor;

    let s4 = poll_step(cursor, &FetchOutcome::Block { height: 6 });
    assert_eq!(s4.next_cursor, 6);
    assert_eq!(s4.action, PollAction::ProcessBlock);
}

#[test]
fn unexpected_rpc_error_aborts_without_moving_cursor() {
    let s = poll_step(9, &FetchOutcome::OtherRpcError);
    assert_eq!(s.next_cursor, 9);
    assert_eq!(s.action, PollAction::Abort);
}

fn call_tx(hash: &str, signer: &str, receiver: &str, method: &str) -> ChunkTransaction {
    ChunkTransaction {
        hash: hash.to_string(),
        signer_id: signer.to_string(),
        receiver_id: receiver.to_string(),
        actions: vec![
            TxAction::Other,
            TxAction::FunctionCall {
                method_name: method.to_string(),
            },
        ],
    }
}

#[test]
fn scan_finds_first_matching_transaction() {
    let chunks = vec![
        ChunkData {
            transactions: vec![call_tx("t0", "alice.test", "other.test", "request_gov")],
        },
        ChunkData {
            transactions: vec![
                call_tx("t1", "bob.test", "gov.test", "unrelated"),
                call_tx("t2", "carol.test", "gov.test", "request_gov"),
                call_tx("t3", "dave.test", "gov.test", "request_gov"),
            ],
        },
    ];
    let m = find_transaction_in_block(&chunks, "gov.test", "request_gov").unwrap();
    assert_eq!(m.tx_hash, "t2");
    assert_eq!(m.sender_account_id, "carol.test");
}

#[test]
fn scan_without_match_returns_none() {
    let chunks = vec![ChunkData {
        transactions: vec![call_tx("t0", "alice.test", "gov.test", "unrelated")],
    }];
    assert!(find_transaction_in_block(&chunks, "gov.test", "request_gov").is_none());
}

#[test]
fn logs_flatten_transaction_then_receipts_in_order() {
    let resp = TransactionResponseOutcome::Full {
        transaction_logs: vec!["a".to_string()],
        receipt_logs: vec![vec!["b".to_string(), "c".to_string()], vec!["d".to_string()]],
    };
    assert_eq!(
        extract_logs(&resp),
        vec!["a".to_string(), "b".to_string(), "c".to_string(), "d".to_string()]
    );
}

#[test]
fn partial_outcome_yields_no_logs() {
    assert!(extract_logs(&TransactionResponseOutcome::WithReceipts).is_empty());
    assert!(extract_logs(&TransactionResponseOutcome::Missing).is_empty());
}

#[test]
fn three_or_more_logs_are_protocol_drift() {
    let logs = vec!["x".to_string(), "y".to_string(), "z".to_string()];
    assert_eq!(handle_logs(&logs).unwrap_err(), StreamError::ProtocolDrift);
}

#[test]
fn no_logs_yield_no_event() {
    let logs: Vec<String> = Vec::new();
    assert_eq!(handle_logs(&logs).unwrap(), None);
}

#[test]
fn undecodable_log_is_dropped_not_fatal() {
    let logs = vec!["no json here".to_string(), "second".to_string()];
    assert_eq!(handle_logs(&logs).unwrap(), None);
}

#[test]
fn first_log_is_decoded_and_dispatched() {
    let line = "EVENT_JSON:{\"standard\":\"mpc-1.0.0\",\"event\":\"respond\",\"data\":[{\"request_id\":3,\"status\":\"created\"}]}";
    let logs = vec![line.to_string(), "trailing".to_string()];
    let event = handle_logs(&logs).unwrap().unwrap();
    assert_eq!(event.request_id, Some(3));
    assert_eq!(event.status, "created");
}
