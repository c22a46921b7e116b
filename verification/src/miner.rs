//! The staged commit–reveal driver for one discovered request: poll the
//! contract's phase afresh each attempt, commit while the commit window is
//! open, then reveal while the reveal window is open, each under a fixed
//! attempt ceiling. A window that passes unused skips the request; a step
//! error propagates at once.

use vstd::prelude::*;

use crate::nonce_manager::NonceLease;
use crate::strutil::{str_eq, trim_char_spec, trim_matching_char};
use crate::tx_builder::{CallArgs, TxBuilder, UnsignedTransaction};

verus! {

/// The externally tracked phase of one commit–reveal round, read fresh from
/// the contract at every poll because it can change at any time.
#[derive(Debug, Clone, Copy, PartialEq, Eq, Structural)]
pub enum Stage {
    CommitMiners,
    RevealMiners,
    CommitValidators,
    RevealValidators,
    Ended,
    /// Any other phase string: not yet at a window this driver acts in.
    Unknown,
}

/// The stage a contract phase string denotes, after its surrounding quote
/// characters are stripped.
pub open spec fn stage_of(s: Seq<char>) -> Stage {
    if s == "CommitMiners"@ {
        Stage::CommitMiners
    } else if s == "RevealMiners"@ {
        Stage::RevealMiners
    } else if s == "CommitValidators"@ {
        Stage::CommitValidators
    } else if s == "RevealValidators"@ {
        Stage::RevealValidators
    } else if s == "Ended"@ {
        Stage::Ended
    } else {
        Stage::Unknown
    }
}

/// Parse the phase string a contract view call returned, stripping the JSON
/// string quotes it is wrapped in.
pub fn parse_stage(text: &str) -> (r: Stage)
    ensures
        r == stage_of(trim_char_spec(text@, '"')),
{
    let t = trim_matching_char(text, '"');
    if str_eq(t, "CommitMiners") {
        Stage::CommitMiners
    } else if str_eq(t, "RevealMiners") {
        Stage::RevealMiners
    } else if str_eq(t, "CommitValidators") {
        Stage::CommitValidators
    } else if str_eq(t, "RevealValidators") {
        Stage::RevealValidators
    } else if str_eq(t, "Ended") {
        Stage::Ended
    } else {
        Stage::Unknown
    }
}

/// What one phase poll tells a wait loop to do.
#[derive(Debug, Clone, Copy, PartialEq, Eq, Structural)]
pub enum WaitDecision {
    /// The window is open: perform the step now.
    Act,
    /// The window has already passed: skip this request.
    Missed,
    /// Not there yet: sleep and poll again.
    Wait,
}

/// The commit wait-loop's decision on one observed phase: commit during
/// `CommitMiners`; any later phase means the commit window passed unused.
pub open spec fn commit_wait_spec(stage: Stage) -> WaitDecision {
    match stage {
        Stage::CommitMiners => WaitDecision::Act,
        Stage::RevealMiners => WaitDecision::Missed,
        Stage::CommitValidators => WaitDecision::Missed,
        Stage::RevealValidators => WaitDecision::Missed,
        Stage::Ended => WaitDecision::Missed,
        Stage::Unknown => WaitDecision::Wait,
    }
}

/// The reveal wait-loop's decision on one observed phase: reveal during
/// `RevealMiners`; any phase past it means the reveal window passed unused.
pub open spec fn reveal_wait_spec(stage: Stage) -> WaitDecision {
    match stage {
        Stage::RevealMiners => WaitDecision::Act,
        Stage::CommitValidators => WaitDecision::Missed,
        Stage::RevealValidators => WaitDecision::Missed,
        Stage::Ended => WaitDecision::Missed,
        Stage::CommitMiners => WaitDecision::Wait,
        Stage::Unknown => WaitDecision::Wait,
    }
}

/// Decide the commit wait-loop's next move for one observed phase.
pub fn commit_wait_step(stage: &Stage) -> (r: WaitDecision)
    ensures
        r == commit_wait_spec(*stage),
{
    match stage {
        Stage::CommitMiners => WaitDecision::Act,
        Stage::RevealMiners => WaitDecision::Missed,
        Stage::CommitValidators => WaitDecision::Missed,
        Stage::RevealValidators => WaitDecision::Missed,
        Stage::Ended => WaitDecision::Missed,
        Stage::Unknown => WaitDecision::Wait,
    }
}

/// Decide the reveal wait-loop's next move for one observed phase.
pub fn reveal_wait_step(stage: &Stage) -> (r: WaitDecision)
    ensures
        r == reveal_wait_spec(*stage),
{
    match stage {
        Stage::RevealMiners => WaitDecision::Act,
        Stage::CommitValidators => WaitDecision::Missed,
        Stage::RevealValidators => WaitDecision::Missed,
        Stage::Ended => WaitDecision::Missed,
        Stage::CommitMiners => WaitDecision::Wait,
        Stage::Unknown => WaitDecision::Wait,
    }
}

/// How a bounded wait-loop ended.
#[derive(Debug, Clone, Copy, PartialEq, Eq, Structural)]
pub enum WaitOutcome {
    /// The window opened and the step was performed.
    Acted,
    /// The window had already passed without the step being performed.
    Missed,
    /// The attempt ceiling was reached, or no further phase was observed,
    /// without the window opening.
    Exhausted,
}

/// How a commit wait-loop ends when it observes the given phases in order,
/// one per attempt, under an attempt ceiling.
pub open spec fn run_commit_wait(stages: Seq<Stage>, attempts: nat) -> WaitOutcome
    decreases attempts,
{
    if attempts == 0 || stages.len() == 0 {
        WaitOutcome::Exhausted
    } else {
        match commit_wait_spec(stages[0]) {
            WaitDecision::Act => WaitOutcome::Acted,
            WaitDecision::Missed => WaitOutcome::Missed,
            WaitDecision::Wait => run_commit_wait(stages.drop_first(), (attempts - 1) as nat),
        }
    }
}

/// How a reveal wait-loop ends when it observes the given phases in order,
/// one per attempt, under an attempt ceiling.
pub open spec fn run_reveal_wait(stages: Seq<Stage>, attempts: nat) -> WaitOutcome
    decreases attempts,
{
    if attempts == 0 || stages.len() == 0 {
        WaitOutcome::Exhausted
    } else {
        match reveal_wait_spec(stages[0]) {
            WaitDecision::Act => WaitOutcome::Acted,
            WaitDecision::Missed => WaitOutcome::Missed,
            WaitDecision::Wait => run_reveal_wait(stages.drop_first(), (attempts - 1) as nat),
        }
    }
}

/// Why a commit or reveal step failed; propagated at once, never retried
/// within the driver.
#[derive(Debug, Clone, Copy, PartialEq, Eq, Structural)]
pub enum StepFailure {
    /// The answer-hash query could not be completed.
    QueryFailed,
    /// The signing capability errored.
    SigningFailed,
    /// The submission budget elapsed before finality was observed.
    SubmissionTimedOut,
    /// The ledger rejected the submitted transaction.
    SubmissionRejected,
}

/// The driver's overall result for one request, given the phases each wait
/// loop observed and the outcome of each step it reached: `Ok(true)` only
/// when both commit and reveal went through; a window missed or attempts
/// exhausted yields `Ok(false)`; a step error propagates unchanged.
pub open spec fn process_spec(
    commit_attempts: nat,
    reveal_attempts: nat,
    commit_stages: Seq<Stage>,
    reveal_stages: Seq<Stage>,
    commit_result: Result<(), StepFailure>,
    reveal_result: Result<(), StepFailure>,
) -> Result<bool, StepFailure> {
    match run_commit_wait(commit_stages, commit_attempts) {
        WaitOutcome::Missed => Ok(false),
        WaitOutcome::Exhausted => Ok(false),
        WaitOutcome::Acted => match commit_result {
            Err(e) => Err(e),
            Ok(_) => match run_reveal_wait(reveal_stages, reveal_attempts) {
                WaitOutcome::Missed => Ok(false),
                WaitOutcome::Exhausted => Ok(false),
                WaitOutcome::Acted => match reveal_result {
                    Err(e) => Err(e),
                    Ok(_) => Ok(true),
                },
            },
        },
    }
}

/// Run a commit wait-loop over the phases observed so far, one per attempt.
pub fn run_commit_wait_loop(stages: &Vec<Stage>, attempts: u32) -> (r: WaitOutcome)
    ensures
        r == run_commit_wait(stages@, attempts as nat),
{
    let n = stages.len();
    let mut k: usize = 0;
    let att = attempts as usize;
    proof {
        assert(stages@.skip(0) =~= stages@);
    }
    while k < n && k < att
        invariant
            n == stages@.len(),
            att == attempts,
            k <= n,
            k <= att,
            run_commit_wait(stages@, attempts as nat) == run_commit_wait(
                stages@.skip(k as int),
                (attempts - k) as nat,
            ),
        decreases n - k,
    {
        proof {
            assert(stages@.skip(k as int).len() == n - k);
            assert(stages@.skip(k as int)[0] == stages@[k as int]);
            assert(stages@.skip(k as int).drop_first() =~= stages@.skip(k + 1));
        }
        match commit_wait_step(&stages[k]) {
            WaitDecision::Act => {
                return WaitOutcome::Acted;
            },
            WaitDecision::Missed => {
                return WaitOutcome::Missed;
            },
            WaitDecision::Wait => {},
        }
        k += 1;
    }
    proof {
        assert(stages@.skip(k as int).len() == n - k);
    }
    WaitOutcome::Exhausted
}

/// Run a reveal wait-loop over the phases observed so far, one per attempt.
pub fn run_reveal_wait_loop(stages: &Vec<Stage>, attempts: u32) -> (r: WaitOutcome)
    ensures
        r == run_reveal_wait(stages@, attempts as nat),
{
    let n = stages.len();
    let mut k: usize = 0;
    let att = attempts as usize;
    proof {
        assert(stages@.skip(0) =~= stages@);
    }
    while k < n && k < att
        invariant
            n == stages@.len(),
            att == attempts,
            k <= n,
            k <= att,
            run_reveal_wait(stages@, attempts as nat) == run_reveal_wait(
                stages@.skip(k as int),
                (attempts - k) as nat,
            ),
        decreases n - k,
    {
        proof {
            assert(stages@.skip(k as int).len() == n - k);
            assert(stages@.skip(k as int)[0] == stages@[k as int]);
            assert(stages@.skip(k as int).drop_first() =~= stages@.skip(k + 1));
        }
        match reveal_wait_step(&stages[k]) {
            WaitDecision::Act => {
                return WaitOutcome::Acted;
            },
            WaitDecision::Missed => {
                return WaitOutcome::Missed;
            },
            WaitDecision::Wait => {},
        }
        k += 1;
    }
    proof {
        assert(stages@.skip(k as int).len() == n - k);
    }
    WaitOutcome::Exhausted
}

/// A read-only contract query: a method name and its arguments.
#[derive(Debug)]
pub struct ViewQuery {
    pub method_name: String,
    pub args: CallArgs,
}

/// Drives discovered requests through the two miner phases of the
/// commit–reveal protocol.
#[derive(Debug)]
pub struct Miner {
    /// The account this miner acts as.
    pub account_id: String,
    /// Attempt ceiling of the commit wait-loop.
    pub commit_attempts: u32,
    /// Attempt ceiling of the reveal wait-loop.
    pub reveal_attempts: u32,
}

impl Miner {
    /// A miner for the given account, with the default attempt ceilings.
    pub fn new(account_id: String) -> (r: Miner)
        ensures
            r.account_id@ == account_id@,
            r.commit_attempts == 30,
            r.reveal_attempts == 30,
    {
        Miner { account_id, commit_attempts: 30, reveal_attempts: 30 }
    }

    /// The read-only query for the deterministic answer hash this miner
    /// commits to for one request.
    pub fn hash_answer_query(&self, request_id: Option<u32>) -> (q: ViewQuery)
        ensures
            q.method_name@ == "hash_miner_answer"@,
            (q.args matches CallArgs::HashMinerAnswer {
                miner,
                request_id: rid,
                answer,
                message,
            } && miner@ == self.account_id@ && rid == request_id && answer == true && message@
                == "It's the best option"@),
    {
        ViewQuery {
            method_name: String::from_str("hash_miner_answer"),
            args: CallArgs::HashMinerAnswer {
                miner: self.account_id.clone(),
                request_id,
                answer: true,
                message: String::from_str("It's the best option"),
            },
        }
    }

    /// Build the commit transaction: a `commit_by_miner` call carrying the
    /// request id and the answer hash the query returned, under the lease's
    /// nonce and reference block hash.
    pub fn commit(
        &self,
        request_id: Option<u32>,
        answer_hash: &str,
        tx_builder: &mut TxBuilder,
        lease: &NonceLease,
    ) -> (tx: UnsignedTransaction)
        ensures
            tx.method_name@ == "commit_by_miner"@,
            (tx.args matches CallArgs::CommitByMiner { request_id: rid, answer_hash: ah } && rid
                == request_id && ah@ == answer_hash@),
            tx.nonce == lease.nonce,
            tx.block_hash@ == lease.block_hash@,
            tx.signer_account_id@ == old(tx_builder).signer_account_id@,
            tx.receiver_account_id@ == old(tx_builder).receiver_account_id@,
            tx.gas == old(tx_builder).gas,
            tx.deposit == old(tx_builder).deposit,
    {
        tx_builder.with_method_name("commit_by_miner");
        tx_builder.with_args(
            CallArgs::CommitByMiner { request_id, answer_hash: answer_hash.to_owned() },
        );
        tx_builder.build(lease)
    }

    /// Build the reveal transaction: a `reveal_by_miner` call carrying the
    /// request id, the plaintext answer and its justification, under the
    /// lease's nonce and reference block hash.
    pub fn reveal_answer(&self, request_id: Option<u32>, tx_builder: &mut TxBuilder, lease: &NonceLease) -> (tx:
        UnsignedTransaction)
        ensures
            tx.method_name@ == "reveal_by_miner"@,
            (tx.args matches CallArgs::RevealByMiner { request_id: rid, answer, message } && rid
                == request_id && answer == true && message@ == "It's the best option"@),
            tx.nonce == lease.nonce,
            tx.block_hash@ == lease.block_hash@,
            tx.signer_account_id@ == old(tx_builder).signer_account_id@,
            tx.receiver_account_id@ == old(tx_builder).receiver_account_id@,
            tx.gas == old(tx_builder).gas,
            tx.deposit == old(tx_builder).deposit,
    {
        tx_builder.with_method_name("reveal_by_miner");
        tx_builder.with_args(
            CallArgs::RevealByMiner {
                request_id,
                answer: true,
                message: String::from_str("It's the best option"),
            },
        );
        tx_builder.build(lease)
    }

    /// Replay the driver's decisions for one request: the phases each wait
    /// loop observed, and the outcome of each step where its window opened.
    pub fn process_transaction(
        &self,
        commit_stages: &Vec<Stage>,
        reveal_stages: &Vec<Stage>,
        commit_result: &Result<(), StepFailure>,
        reveal_result: &Result<(), StepFailure>,
    ) -> (r: Result<bool, StepFailure>)
        ensures
            r == process_spec(
                self.commit_attempts as nat,
                self.reveal_attempts as nat,
                commit_stages@,
                reveal_stages@,
                *commit_result,
                *reveal_result,
            ),
    {
        match run_commit_wait_loop(commit_stages, self.commit_attempts) {
            WaitOutcome::Missed => Ok(false),
            WaitOutcome::Exhausted => Ok(false),
            WaitOutcome::Acted => match commit_result {
                Err(e) => Err(*e),
                Ok(_) => match run_reveal_wait_loop(reveal_stages, self.reveal_attempts) {
                    WaitOutcome::Missed => Ok(false),
                    WaitOutcome::Exhausted => Ok(false),
                    WaitOutcome::Acted => match reveal_result {
                        Err(e) => Err(*e),
                        Ok(_) => Ok(true),
                    },
                },
            },
        }
    }
}

/// A commit wait-loop that never observes the `CommitMiners` phase never
/// decides to commit, however many attempts it is allowed.
pub proof fn lemma_no_commit_window_not_acted(stages: Seq<Stage>, attempts: nat)
    requires
        forall|i: int| 0 <= i < stages.len() ==> stages[i] != Stage::CommitMiners,
    ensures
        run_commit_wait(stages, attempts) != WaitOutcome::Acted,
    decreases attempts,
{
    if attempts > 0 && stages.len() > 0 {
        assert(forall|i: int|
            0 <= i < stages.drop_first().len() ==> stages.drop_first()[i] == stages[i + 1]);
        lemma_no_commit_window_not_acted(stages.drop_first(), (attempts - 1) as nat);
    }
}

/// If the commit window passes without the phase ever being observed as
/// `CommitMiners` — for instance, the phase jumps straight from
/// `CommitValidators` to `Ended` between polls — the driver skips the
/// request with `Ok(false)`, and neither step's outcome matters, because
/// neither step is ever taken.
pub proof fn lemma_commit_window_missed_skips(
    commit_attempts: nat,
    reveal_attempts: nat,
    commit_stages: Seq<Stage>,
    reveal_stages: Seq<Stage>,
    commit_result: Result<(), StepFailure>,
    reveal_result: Result<(), StepFailure>,
)
    requires
        forall|i: int| 0 <= i < commit_stages.len() ==> commit_stages[i] != Stage::CommitMiners,
    ensures
        process_spec(
            commit_attempts,
            reveal_attempts,
            commit_stages,
            reveal_stages,
            commit_result,
            reveal_result,
        ) == Ok::<bool, StepFailure>(false),
{
    lemma_no_commit_window_not_acted(commit_stages, commit_attempts);
}

} // verus!
