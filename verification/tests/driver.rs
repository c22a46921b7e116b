use omnibox::miner::{parse_stage, Miner, Stage, StepFailure};
use omnibox::nonce_manager::NonceLease;
use omnibox::tx_builder::{CallArgs, TxBuilder};

#[test]
fn stage_strings_parse_with_their_quotes_stripped() {
    assert_eq!(parse_stage("\"CommitMiners\""), Stage::CommitMiners);
    assert_eq!(parse_stage("CommitMiners"), Stage::CommitMiners);
    assert_eq!(parse_stage("\"RevealMiners\""), Stage::RevealMiners);
    assert_eq!(parse_stage("\"CommitValidators\""), Stage::CommitValidators);
    assert_eq!(parse_stage("\"RevealValidators\""), Stage::RevealValidators);
    assert_eq!(parse_stage("\"Ended\""), Stage::Ended);
    assert_eq!(parse_stage("\"ChooseMiners\""), Stage::Unknown);
    assert_eq!(parse_stage(""), Stage::Unknown);
}

#[test]
fn commit_window_missed_skips_without_committing() {
    // The phase jumps straight from CommitValidators to Ended between
    // polls: the driver returns false, and the commit step's outcome is
    // irrelevant because the step is never reached.
    let miner = Miner::new("miner.test".to_string());
    let commit_stages = vec![Stage::CommitValidators, Stage::Ended];
    let reveal_stages: Vec<Stage> = Vec::new();
    let r = miner.process_transaction(
        &commit_stages,
        &reveal_stages,
        &Ok(()),
        &Ok(()),
    );
    assert_eq!(r, Ok(false));
    // Same decision with a failing commit step: it is never consulted.
    let r2 = miner.process_transaction(
        &commit_stages,
        &reveal_stages,
        &Err(StepFailure::QueryFailed),
        &Err(StepFailure::SubmissionRejected),
    );
    assert_eq!(r2, Ok(false));
}

#[test]
fn both_windows_taken_completes_the_protocol() {
    let miner = Miner::new("miner.test".to_string());
    let commit_stages = vec![Stage::Unknown, Stage::CommitMiners];
    let reveal_stages = vec![Stage::CommitMiners, Stage::RevealMiners];
    let r = miner.process_transaction(&commit_stages, &reveal_stages, &Ok(()), &Ok(()));
    assert_eq!(r, Ok(true));
}

#[test]
fn commit_step_error_propagates_at_once() {
    let miner = Miner::new("miner.test".to_string());
    let commit_stages = vec![Stage::CommitMiners];
    let reveal_stages = vec![Stage::RevealMiners];
    let r = miner.process_transaction(
        &commit_stages,
        &reveal_stages,
        &Err(StepFailure::SubmissionRejected),
        &Ok(()),
    );
    assert_eq!(r, Err(StepFailure::SubmissionRejected));
}

#[test]
fn reveal_window_missed_after_commit_skips() {
    let miner = Miner::new("miner.test".to_string());
    let commit_stages = vec![Stage::CommitMiners];
    let reveal_stages = vec![Stage::Ended];
    let r = miner.process_transaction(&commit_stages, &reveal_stages, &Ok(()), &Ok(()));
    assert_eq!(r, Ok(false));
}

#[test]
fn waiting_forever_exhausts_the_attempt_ceiling() {
    let miner = Miner::new("miner.test".to_string());
    let commit_stages = vec![Stage::Unknown; 40];
    let reveal_stages: Vec<Stage> = Vec::new();
    let r = miner.process_transaction(&commit_stages, &reveal_stages, &Ok(()), &Ok(()));
    assert_eq!(r, Ok(false));
}

#[test]
fn commit_transaction_carries_request_and_answer_hash() {
    let miner = Miner::new("miner.test".to_string());
    let mut builder = TxBuilder::new("miner.test".to_string(), "gov.test".to_string());
    let lease = NonceLease {
        nonce: 17,
        block_hash: vec![4, 5, 6],
    };
    let tx = miner.commit(Some(12), "deadbeef", &mut builder, &lease);
    assert_eq!(tx.method_name, "commit_by_miner");
    assert_eq!(tx.nonce, 17);
    assert_eq!(tx.block_hash, vec![4, 5, 6]);
    assert_eq!(tx.signer_account_id, "miner.test");
    assert_eq!(tx.receiver_account_id, "gov.test");
    match tx.args {
        CallArgs::CommitByMiner {
            request_id,
            answer_hash,
        } => {
            assert_eq!(request_id, Some(12));
            assert_eq!(answer_hash, "deadbeef");
        }
        other => panic!("unexpected args: {:?}", other),
    }
}

#[test]
fn reveal_transaction_carries_request_and_fixed_answer() {
    let miner = Miner::new("miner.test".to_string());
    let mut builder = TxBuilder::new("miner.test".to_string(), "gov.test".to_string());
    let lease = NonceLease {
        nonce: 18,
        block_hash: vec![7],
    };
    let tx = miner.reveal_answer(Some(12), &mut builder, &lease);
    assert_eq!(tx.method_name, "reveal_by_miner");
    assert_eq!(tx.nonce, 18);
    match tx.args {
        CallArgs::RevealByMiner {
            request_id,
            answer,
            message,
        } => {
            assert_eq!(request_id, Some(12));
            assert!(answer);
            assert_eq!(message, "It's the best option");
        }
        other => panic!("unexpected args: {:?}", other),
    }
}

#[test]
fn answer_hash_query_names_the_miner() {
    let miner = Miner::new("miner.test".to_string());
    let q = miner.hash_answer_query(Some(9));
    assert_eq!(q.method_name, "hash_miner_answer");
    match q.args {
        CallArgs::HashMinerAnswer {
            miner,
            request_id,
            answer,
            message,
        } => {
            assert_eq!(miner, "miner.test");
            assert_eq!(request_id, Some(9));
            assert!(answer);
            assert_eq!(message, "It's the best option");
        }
        other => panic!("unexpected args: {:?}", other),
    }
}
