//! The bounded retry of the sign flow: a signing request is built, signed
//! and submitted as one unit, and on failure the whole unit is retried with
//! a fresh nonce lease, up to a small fixed attempt ceiling.

use vstd::prelude::*;

use crate::nonce_manager::NonceLease;
use crate::tx_builder::{CallArgs, TxBuilder, UnsignedTransaction};

verus! {

/// What a bounded retry loop does after one attempt.
#[derive(Debug, Clone, Copy, PartialEq, Eq, Structural)]
pub enum RetryDecision {
    /// The attempt succeeded: return it.
    Done,
    /// The attempt failed with attempts left: back off and retry afresh.
    Retry,
    /// The attempt failed and was the last allowed: give up with its error.
    GiveUp,
}

/// The decision after attempt number `attempt` (counted from zero): retry a
/// failure only while later attempts remain under the ceiling.
pub open spec fn retry_decision_spec(max_attempts: u32, attempt: u32, succeeded: bool) -> RetryDecision {
    if succeeded {
        RetryDecision::Done
    } else if attempt + 1 < max_attempts {
        RetryDecision::Retry
    } else {
        RetryDecision::GiveUp
    }
}

/// The attempt (counted from zero) at which a retried unit first succeeds,
/// observing the given attempt outcomes in order under the ceiling; `None`
/// when every allowed attempt failed.
pub open spec fn run_retries(max_attempts: nat, outcomes: Seq<bool>) -> Option<int>
    decreases max_attempts,
{
    if max_attempts == 0 || outcomes.len() == 0 {
        None
    } else if outcomes[0] {
        Some(0)
    } else {
        match run_retries((max_attempts - 1) as nat, outcomes.drop_first()) {
            Some(k) => Some(k + 1),
            None => None,
        }
    }
}

/// A fixed attempt ceiling with backoff between attempts.
#[derive(Debug, Clone, Copy, PartialEq, Eq, Structural)]
pub struct RetryPolicy {
    pub max_attempts: u32,
}

impl RetryPolicy {
    /// The sign flow's ceiling: three whole build-sign-submit attempts.
    pub fn new() -> (r: RetryPolicy)
        ensures
            r.max_attempts == 3,
    {
        RetryPolicy { max_attempts: 3 }
    }

    /// Decide what follows one attempt's outcome.
    pub fn retry_step(&self, attempt: u32, succeeded: bool) -> (r: RetryDecision)
        requires
            attempt < self.max_attempts,
        ensures
            r == retry_decision_spec(self.max_attempts, attempt, succeeded),
    {
        if succeeded {
            RetryDecision::Done
        } else if attempt + 1 < self.max_attempts {
            RetryDecision::Retry
        } else {
            RetryDecision::GiveUp
        }
    }

    /// Replay a whole retried unit over its recorded attempt outcomes: the
    /// first success within the ceiling wins; otherwise every allowed
    /// attempt failed.
    pub fn run(&self, outcomes: &Vec<bool>) -> (r: Option<u32>)
        ensures
            (match run_retries(self.max_attempts as nat, outcomes@) {
                Some(k) => r matches Some(a) && a == k,
                None => r is None,
            }),
    {
        let n = outcomes.len();
        let att = self.max_attempts as usize;
        let mut k: usize = 0;
        proof {
            assert(outcomes@.skip(0) =~= outcomes@);
        }
        while k < n && k < att
            invariant
                n == outcomes@.len(),
                att == self.max_attempts,
                k <= n,
                k <= att,
                run_retries(self.max_attempts as nat, outcomes@) == (match run_retries(
                    (self.max_attempts - k) as nat,
                    outcomes@.skip(k as int),
                ) {
                    Some(j) => Some(j + k),
                    None => None,
                }),
            decreases n - k,
        {
            proof {
                assert(outcomes@.skip(k as int).len() == n - k);
                assert(outcomes@.skip(k as int)[0] == outcomes@[k as int]);
                assert(outcomes@.skip(k as int).drop_first() =~= outcomes@.skip(k + 1));
            }
            if outcomes[k] {
                proof {
                    assert(run_retries((self.max_attempts - k) as nat, outcomes@.skip(k as int))
                        == Some::<int>(0));
                }
                return Some(k as u32);
            }
            proof {
                assert(run_retries((self.max_attempts - k) as nat, outcomes@.skip(k as int)) == (
                match run_retries((self.max_attempts - (k + 1)) as nat, outcomes@.skip(k + 1)) {
                    Some(j) => Some(j + 1),
                    None => None,
                }));
            }
            k += 1;
        }
        proof {
            assert(outcomes@.skip(k as int).len() == n - k);
        }
        None
    }
}

/// Build the signing-request transaction: a `sign` call carrying the
/// free-form prompt, under the lease's nonce and reference block hash. Each
/// retry attempt rebuilds this with a fresh lease.
pub fn sign_call(prompt: &str, tx_builder: &mut TxBuilder, lease: &NonceLease) -> (tx:
    UnsignedTransaction)
    ensures
        tx.method_name@ == "sign"@,
        (tx.args matches CallArgs::Sign { prompt: p } && p@ == prompt@),
        tx.nonce == lease.nonce,
        tx.block_hash@ == lease.block_hash@,
        tx.signer_account_id@ == old(tx_builder).signer_account_id@,
        tx.receiver_account_id@ == old(tx_builder).receiver_account_id@,
        tx.gas == old(tx_builder).gas,
        tx.deposit == old(tx_builder).deposit,
{
    tx_builder.with_method_name("sign");
    tx_builder.with_args(CallArgs::Sign { prompt: prompt.to_owned() });
    tx_builder.build(lease)
}

} // verus!
