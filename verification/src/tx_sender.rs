//! Submission of a signed transaction with timeout-tolerant status retry:
//! only a "chain has not yet observed this transaction" response is retried,
//! any other rejection is terminal, and the whole retry is bounded by one
//! budget measured from the original submission — never reset per attempt.

use vstd::prelude::*;

verus! {

/// Classification of one ledger response to a send or a status poll.
#[derive(Debug, Clone, Copy, PartialEq, Eq, Structural)]
pub enum TxResponseClass {
    /// A typed result came back.
    Success,
    /// The handler-classified timeout: the chain has not yet observed the
    /// transaction. The only retryable class.
    TimeoutError,
    /// Any other ledger error: terminal for this attempt.
    OtherError,
}

/// How a whole submission resolved.
#[derive(Debug, Clone, Copy, PartialEq, Eq, Structural)]
pub enum SubmitResolution {
    /// A successful response was accepted.
    Accepted,
    /// The submission budget elapsed before a resolving response.
    TimedOut,
    /// The ledger rejected the transaction with a non-timeout error.
    Rejected,
    /// The recorded polls ran out with the submission still unresolved.
    Pending,
}

/// What the status-poll loop does after one poll.
#[derive(Debug, Clone, Copy, PartialEq, Eq, Structural)]
pub enum PollDecision {
    /// Return the successful response.
    Accept,
    /// The budget elapsed: fail with a timeout, whatever the response held.
    FailTimeout,
    /// A non-timeout error: fail without further retry.
    FailRejected,
    /// Still unobserved and within budget: poll again.
    RetryStatus,
}

/// What to do with the immediate response to the send itself.
#[derive(Debug, Clone, Copy, PartialEq, Eq, Structural)]
pub enum SendDecision {
    /// The send resolved at once: return the response.
    Done,
    /// The send timed out: fall back to the bounded status-poll loop.
    EnterStatusLoop,
    /// The ledger rejected the send outright.
    Fail,
}

/// One recorded status poll: the response class and the time elapsed since
/// the original submission when the response was examined.
#[derive(Debug, Clone, Copy)]
pub struct StatusPoll {
    pub elapsed_ms: u64,
    pub response: TxResponseClass,
}

/// The decision the status loop takes on one poll: the budget is checked
/// first, after the call but before the response is read, so a response that
/// arrives past the budget is discarded even if it would have succeeded.
pub open spec fn poll_decision_spec(budget_ms: u64, elapsed_ms: u64, response: TxResponseClass) -> PollDecision {
    if elapsed_ms > budget_ms {
        PollDecision::FailTimeout
    } else {
        match response {
            TxResponseClass::Success => PollDecision::Accept,
            TxResponseClass::TimeoutError => PollDecision::RetryStatus,
            TxResponseClass::OtherError => PollDecision::FailRejected,
        }
    }
}

/// How a run of status polls resolves: the first poll past the budget times
/// the submission out; otherwise the first non-timeout response decides.
pub open spec fn resolve_polls_spec(budget_ms: u64, polls: Seq<StatusPoll>) -> SubmitResolution
    decreases polls.len(),
{
    if polls.len() == 0 {
        SubmitResolution::Pending
    } else {
        match poll_decision_spec(budget_ms, polls[0].elapsed_ms, polls[0].response) {
            PollDecision::Accept => SubmitResolution::Accepted,
            PollDecision::FailTimeout => SubmitResolution::TimedOut,
            PollDecision::FailRejected => SubmitResolution::Rejected,
            PollDecision::RetryStatus => resolve_polls_spec(budget_ms, polls.drop_first()),
        }
    }
}

/// How a whole submission resolves: an immediate success or rejection is
/// final; only an immediate timeout enters the status-poll fallback.
pub open spec fn send_transaction_spec(
    budget_ms: u64,
    first: TxResponseClass,
    polls: Seq<StatusPoll>,
) -> SubmitResolution {
    match first {
        TxResponseClass::Success => SubmitResolution::Accepted,
        TxResponseClass::OtherError => SubmitResolution::Rejected,
        TxResponseClass::TimeoutError => resolve_polls_spec(budget_ms, polls),
    }
}

/// Submits signed transactions and awaits their finality within one fixed
/// time budget.
pub struct TxSender {
    pub timeout_ms: u64,
}

impl TxSender {
    pub fn new(timeout_ms: u64) -> (r: TxSender)
        ensures
            r.timeout_ms == timeout_ms,
    {
        TxSender { timeout_ms }
    }

    /// Decide on the immediate response to the send itself: a success is
    /// done, a timeout falls back to status polling, anything else fails
    /// without retry.
    pub fn initial_decision(&self, response: &TxResponseClass) -> (r: SendDecision)
        ensures
            (match response {
                TxResponseClass::Success => r == SendDecision::Done,
                TxResponseClass::TimeoutError => r == SendDecision::EnterStatusLoop,
                TxResponseClass::OtherError => r == SendDecision::Fail,
            }),
    {
        match response {
            TxResponseClass::Success => SendDecision::Done,
            TxResponseClass::TimeoutError => SendDecision::EnterStatusLoop,
            TxResponseClass::OtherError => SendDecision::Fail,
        }
    }

    /// Decide on one status poll, checking the submission-wide budget before
    /// reading the response.
    pub fn poll_decision(&self, elapsed_ms: u64, response: &TxResponseClass) -> (r: PollDecision)
        ensures
            r == poll_decision_spec(self.timeout_ms, elapsed_ms, *response),
    {
        if elapsed_ms > self.timeout_ms {
            PollDecision::FailTimeout
        } else {
            match response {
                TxResponseClass::Success => PollDecision::Accept,
                TxResponseClass::TimeoutError => PollDecision::RetryStatus,
                TxResponseClass::OtherError => PollDecision::FailRejected,
            }
        }
    }

    /// Resolve a whole submission from its recorded responses: the immediate
    /// send response, then the status polls taken after a send-side timeout.
    pub fn send_transaction(&self, first: &TxResponseClass, polls: &Vec<StatusPoll>) -> (r:
        SubmitResolution)
        ensures
            r == send_transaction_spec(self.timeout_ms, *first, polls@),
    {
        match self.initial_decision(first) {
            SendDecision::Done => SubmitResolution::Accepted,
            SendDecision::Fail => SubmitResolution::Rejected,
            SendDecision::EnterStatusLoop => {
                let n = polls.len();
                let mut i: usize = 0;
                proof {
                    assert(polls@.skip(0) =~= polls@);
                }
                while i < n
                    invariant
                        n == polls@.len(),
                        i <= n,
                        *first is TimeoutError,
                        resolve_polls_spec(self.timeout_ms, polls@) == resolve_polls_spec(
                            self.timeout_ms,
                            polls@.skip(i as int),
                        ),
                    decreases n - i,
                {
                    let poll = &polls[i];
                    proof {
                        assert(polls@.skip(i as int).len() == n - i);
                        assert(polls@.skip(i as int)[0] == polls@[i as int]);
                        assert(polls@.skip(i as int).drop_first() =~= polls@.skip(i + 1));
                    }
                    match self.poll_decision(poll.elapsed_ms, &poll.response) {
                        PollDecision::Accept => {
                            proof {
                                assert(resolve_polls_spec(self.timeout_ms, polls@.skip(i as int))
                                    == SubmitResolution::Accepted);
                            }
                            return SubmitResolution::Accepted;
                        },
                        PollDecision::FailTimeout => {
                            proof {
                                assert(resolve_polls_spec(self.timeout_ms, polls@.skip(i as int))
                                    == SubmitResolution::TimedOut);
                            }
                            return SubmitResolution::TimedOut;
                        },
                        PollDecision::FailRejected => {
                            proof {
                                assert(resolve_polls_spec(self.timeout_ms, polls@.skip(i as int))
                                    == SubmitResolution::Rejected);
                            }
                            return SubmitResolution::Rejected;
                        },
                        PollDecision::RetryStatus => {},
                    }
                    i += 1;
                }
                proof {
                    assert(polls@.skip(n as int).len() == 0);
                }
                SubmitResolution::Pending
            },
        }
    }
}

/// A submission whose early polls all report the not-yet-observed timeout
/// class within budget, and whose first other response is a success still
/// within budget, resolves to that success — however many timeouts came
/// first.
pub proof fn lemma_retry_success_within_budget(budget_ms: u64, polls: Seq<StatusPoll>, k: int)
    requires
        0 <= k < polls.len(),
        forall|i: int|
            0 <= i < k ==> polls[i].response is TimeoutError && polls[i].elapsed_ms <= budget_ms,
        polls[k].response is Success,
        polls[k].elapsed_ms <= budget_ms,
    ensures
        resolve_polls_spec(budget_ms, polls) == SubmitResolution::Accepted,
    decreases k,
{
    if k > 0 {
        lemma_retry_success_within_budget(budget_ms, polls.drop_first(), k - 1);
    }
}

/// Once a poll is examined past the budget, the submission times out, even
/// if that very poll's response would have succeeded.
pub proof fn lemma_budget_exceeded_times_out(budget_ms: u64, polls: Seq<StatusPoll>, k: int)
    requires
        0 <= k < polls.len(),
        forall|i: int|
            0 <= i < k ==> polls[i].response is TimeoutError && polls[i].elapsed_ms <= budget_ms,
        polls[k].elapsed_ms > budget_ms,
    ensures
        resolve_polls_spec(budget_ms, polls) == SubmitResolution::TimedOut,
    decreases k,
{
    if k > 0 {
        lemma_budget_exceeded_times_out(budget_ms, polls.drop_first(), k - 1);
    }
}

} // verus!
