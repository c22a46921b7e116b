use omnibox::event::EventData;
use omnibox::models::{sign_call, RetryDecision, RetryPolicy};
use omnibox::nonce_manager::NonceLease;
use omnibox::signer::{
    check_respond_outcome, validate_respond_event, ExecutionStatus, RespondError, Signer,
};
use omnibox::tx_builder::{CallArgs, TxBuilder, DEFAULT_GAS};

const HEX_32: &str = "00112233445566778899aabbccddeeff00112233445566778899aabbccddeeff";

fn event_with(yield_id: Option<&str>, prompt: Option<&str>) -> EventData {
    EventData {
        request_id: Some(1),
        yield_id: yield_id.map(|s| s.to_string()),
        prompt: prompt.map(|s| s.to_string()),
        status: "created".to_string(),
        response: None,
    }
}

#[test]
fn valid_correlation_id_decodes_to_32_bytes() {
    let event = event_with(Some(HEX_32), Some("message"));
    let bytes = validate_respond_event(&event).unwrap();
    assert_eq!(bytes.len(), 32);
    assert_eq!(bytes[0], 0x00);
    assert_eq!(bytes[1], 0x11);
    assert_eq!(bytes[31], 0xff);
}

#[test]
fn surrounding_whitespace_is_trimmed() {
    let padded = format!("  {}\n", HEX_32);
    let event = event_with(Some(&padded), Some("message"));
    assert_eq!(validate_respond_event(&event).unwrap().len(), 32);
}

#[test]
fn missing_yield_id_is_rejected() {
    let event = event_with(None, Some("message"));
    assert_eq!(
        validate_respond_event(&event).unwrap_err(),
        RespondError::MissingYieldId
    );
}

#[test]
fn non_hex_yield_id_is_rejected() {
    let event = event_with(Some("zz not hex"), Some("message"));
    assert_eq!(
        validate_respond_event(&event).unwrap_err(),
        RespondError::InvalidHex
    );
}

#[test]
fn odd_length_yield_id_is_rejected() {
    let event = event_with(Some("abc"), Some("message"));
    assert_eq!(
        validate_respond_event(&event).unwrap_err(),
        RespondError::InvalidHex
    );
}

#[test]
fn wrong_byte_length_is_rejected() {
    let event = event_with(Some("abcd"), Some("message"));
    assert_eq!(
        validate_respond_event(&event).unwrap_err(),
        RespondError::WrongByteLength
    );
}

#[test]
fn missing_prompt_is_rejected() {
    let event = event_with(Some(HEX_32), None);
    assert_eq!(
        validate_respond_event(&event).unwrap_err(),
        RespondError::MissingPrompt
    );
}

#[test]
fn respond_transaction_carries_id_and_signature() {
    let signer = Signer::new("responder.test".to_string());
    let mut builder = TxBuilder::new("responder.test".to_string(), "gov.test".to_string());
    let lease = NonceLease {
        nonce: 5,
        block_hash: vec![1, 1, 2],
    };
    let event = event_with(Some(HEX_32), Some("message"));
    let bytes = validate_respond_event(&event).unwrap();
    let tx = signer.respond(bytes, "ed25519:signature", &mut builder, &lease);
    assert_eq!(tx.method_name, "respond");
    assert_eq!(tx.nonce, 5);
    assert_eq!(tx.block_hash, vec![1, 1, 2]);
    match tx.args {
        CallArgs::Respond { yield_id, response } => {
            assert_eq!(yield_id.len(), 32);
            assert_eq!(response, "ed25519:signature");
        }
        other => panic!("unexpected args: {:?}", other),
    }
}

#[test]
fn reported_failure_is_an_error() {
    assert_eq!(
        check_respond_outcome(&ExecutionStatus::Failure).unwrap_err(),
        RespondError::TransactionFailed
    );
    assert!(check_respond_outcome(&ExecutionStatus::Success).is_ok());
    assert!(check_respond_outcome(&ExecutionStatus::Unknown).is_ok());
}

#[test]
fn retry_succeeds_on_a_later_attempt() {
    let policy = RetryPolicy::new();
    assert_eq!(policy.run(&vec![false, false, true]), Some(2));
    assert_eq!(policy.run(&vec![true]), Some(0));
}

#[test]
fn retry_gives_up_at_the_ceiling() {
    let policy = RetryPolicy::new();
    assert_eq!(policy.run(&vec![false, false, false]), None);
    // A success after the ceiling no longer counts.
    assert_eq!(policy.run(&vec![false, false, false, true]), None);
}

#[test]
fn retry_step_decisions() {
    let policy = RetryPolicy::new();
    assert_eq!(policy.retry_step(0, true), RetryDecision::Done);
    assert_eq!(policy.retry_step(0, false), RetryDecision::Retry);
    assert_eq!(policy.retry_step(1, false), RetryDecision::Retry);
    assert_eq!(policy.retry_step(2, false), RetryDecision::GiveUp);
}

#[test]
fn sign_transaction_carries_the_prompt() {
    let mut builder = TxBuilder::new("account.test".to_string(), "gov.test".to_string());
    let lease = NonceLease {
        nonce: 3,
        block_hash: vec![9],
    };
    let tx = sign_call("Message to sign", &mut builder, &lease);
    assert_eq!(tx.method_name, "sign");
    assert_eq!(tx.nonce, 3);
    match tx.args {
        CallArgs::Sign { prompt } => assert_eq!(prompt, "Message to sign"),
        other => panic!("unexpected args: {:?}", other),
    }
}

#[test]
fn builder_starts_with_defaults_and_keeps_settings() {
    let mut builder = TxBuilder::new("account.test".to_string(), "gov.test".to_string());
    assert_eq!(builder.gas, DEFAULT_GAS);
    assert_eq!(builder.deposit, 0);
    builder.with_gas(55);
    builder.with_deposit(7);
    builder.with_method_name("m");
    let lease = NonceLease {
        nonce: 1,
        block_hash: vec![],
    };
    let tx = builder.build(&lease);
    assert_eq!(tx.gas, 55);
    assert_eq!(tx.deposit, 7);
    assert_eq!(tx.method_name, "m");
    assert_eq!(tx.signer_account_id, "account.test");
    assert_eq!(tx.receiver_account_id, "gov.test");
}
