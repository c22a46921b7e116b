use omnibox::tx_sender::{
    PollDecision, SendDecision, StatusPoll, SubmitResolution, TxResponseClass, TxSender,
};

fn timeout_polls() -> Vec<StatusPoll> {
    vec![
        StatusPoll {
            elapsed_ms: 100,
            response: TxResponseClass::TimeoutError,
        },
        StatusPoll {
            elapsed_ms: 400,
            response: TxResponseClass::TimeoutError,
        },
        StatusPoll {
            elapsed_ms: 700,
            response: TxResponseClass::TimeoutError,
        },
        StatusPoll {
            elapsed_ms: 900,
            response: TxResponseClass::Success,
        },
    ]
}

#[test]
fn three_timeouts_then_success_within_budget_is_accepted() {
    let sender = TxSender::new(1000);
    let r = sender.send_transaction(&TxResponseClass::TimeoutError, &timeout_polls());
    assert_eq!(r, SubmitResolution::Accepted);
}

#[test]
fn budget_exceeded_times_out_even_if_a_later_poll_would_succeed() {
    // The third poll is examined past the 500ms budget, so the submission
    // times out although the fourth poll would have succeeded.
    let sender = TxSender::new(500);
    let r = sender.send_transaction(&TxResponseClass::TimeoutError, &timeout_polls());
    assert_eq!(r, SubmitResolution::TimedOut);
}

#[test]
fn immediate_success_needs_no_polling() {
    let sender = TxSender::new(1000);
    let polls: Vec<StatusPoll> = Vec::new();
    let r = sender.send_transaction(&TxResponseClass::Success, &polls);
    assert_eq!(r, SubmitResolution::Accepted);
}

#[test]
fn immediate_rejection_is_terminal() {
    let sender = TxSender::new(1000);
    let r = sender.send_transaction(&TxResponseClass::OtherError, &timeout_polls());
    assert_eq!(r, SubmitResolution::Rejected);
}

#[test]
fn non_timeout_error_during_polling_is_terminal() {
    let sender = TxSender::new(1000);
    let polls = vec![
        StatusPoll {
            elapsed_ms: 100,
            response: TxResponseClass::TimeoutError,
        },
        StatusPoll {
            elapsed_ms: 200,
            response: TxResponseClass::OtherError,
        },
        StatusPoll {
            elapsed_ms: 300,
            response: TxResponseClass::Success,
        },
    ];
    let r = sender.send_transaction(&TxResponseClass::TimeoutError, &polls);
    assert_eq!(r, SubmitResolution::Rejected);
}

#[test]
fn polls_running_out_leave_the_submission_pending() {
    let sender = TxSender::new(1000);
    let polls = vec![StatusPoll {
        elapsed_ms: 100,
        response: TxResponseClass::TimeoutError,
    }];
    let r = sender.send_transaction(&TxResponseClass::TimeoutError, &polls);
    assert_eq!(r, SubmitResolution::Pending);
}

#[test]
fn budget_boundary_is_inclusive() {
    // A poll examined exactly at the budget is still within it.
    let sender = TxSender::new(900);
    let r = sender.send_transaction(&TxResponseClass::TimeoutError, &timeout_polls());
    assert_eq!(r, SubmitResolution::Accepted);
}

#[test]
fn single_poll_decisions() {
    let sender = TxSender::new(500);
    assert_eq!(
        sender.poll_decision(501, &TxResponseClass::Success),
        PollDecision::FailTimeout
    );
    assert_eq!(
        sender.poll_decision(500, &TxResponseClass::Success),
        PollDecision::Accept
    );
    assert_eq!(
        sender.poll_decision(10, &TxResponseClass::TimeoutError),
        PollDecision::RetryStatus
    );
    assert_eq!(
        sender.poll_decision(10, &TxResponseClass::OtherError),
        PollDecision::FailRejected
    );
}

#[test]
fn initial_send_decisions() {
    let sender = TxSender::new(500);
    assert_eq!(
        sender.initial_decision(&TxResponseClass::Success),
        SendDecision::Done
    );
    assert_eq!(
        sender.initial_decision(&TxResponseClass::TimeoutError),
        SendDecision::EnterStatusLoop
    );
    assert_eq!(
        sender.initial_decision(&TxResponseClass::OtherError),
        SendDecision::Fail
    );
}
