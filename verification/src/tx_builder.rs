//! Accumulates a contract call — method name, structured arguments, gas and
//! deposit — and combines it with a nonce lease into an immutable unsigned
//! transaction, ready for the signing and submission edge.

use vstd::prelude::*;

use crate::nonce_manager::NonceLease;
use crate::strutil::copy_bytes;

verus! {

/// The structured arguments of every contract call this agent submits or
/// queries. Serialization to JSON bytes happens at the submission edge.
#[derive(Debug)]
pub enum CallArgs {
    /// No arguments set yet.
    Empty,
    /// Read-only query for the deterministic answer hash a miner commits to.
    HashMinerAnswer { miner: String, request_id: Option<u32>, answer: bool, message: String },
    /// The commit step: the request and the hash of the hidden answer.
    CommitByMiner { request_id: Option<u32>, answer_hash: String },
    /// The reveal step: the request, the plaintext answer and justification.
    RevealByMiner { request_id: Option<u32>, answer: bool, message: String },
    /// The single-phase responder: the fixed-width correlation id and the
    /// signature drawn from the event.
    Respond { yield_id: Vec<u8>, response: String },
    /// A signing request carrying the free-form prompt.
    Sign { prompt: String },
}

/// Argument lists are equal up to the contents of their strings and bytes.
pub open spec fn call_args_eq(a: CallArgs, b: CallArgs) -> bool {
    match (a, b) {
        (CallArgs::Empty, CallArgs::Empty) => true,
        (
            CallArgs::HashMinerAnswer { miner: m1, request_id: r1, answer: a1, message: s1 },
            CallArgs::HashMinerAnswer { miner: m2, request_id: r2, answer: a2, message: s2 },
        ) => m1@ == m2@ && r1 == r2 && a1 == a2 && s1@ == s2@,
        (
            CallArgs::CommitByMiner { request_id: r1, answer_hash: a1 },
            CallArgs::CommitByMiner { request_id: r2, answer_hash: a2 },
        ) => r1 == r2 && a1@ == a2@,
        (
            CallArgs::RevealByMiner { request_id: r1, answer: a1, message: s1 },
            CallArgs::RevealByMiner { request_id: r2, answer: a2, message: s2 },
        ) => r1 == r2 && a1 == a2 && s1@ == s2@,
        (
            CallArgs::Respond { yield_id: y1, response: p1 },
            CallArgs::Respond { yield_id: y2, response: p2 },
        ) => y1@ == y2@ && p1@ == p2@,
        (CallArgs::Sign { prompt: p1 }, CallArgs::Sign { prompt: p2 }) => p1@ == p2@,
        _ => false,
    }
}

impl Clone for CallArgs {
    /// A cloned argument list carries the same contents.
    fn clone(&self) -> (r: Self)
        ensures
            call_args_eq(r, *self),
    {
        match self {
            CallArgs::Empty => CallArgs::Empty,
            CallArgs::HashMinerAnswer { miner, request_id, answer, message } => {
                CallArgs::HashMinerAnswer {
                    miner: miner.clone(),
                    request_id: *request_id,
                    answer: *answer,
                    message: message.clone(),
                }
            },
            CallArgs::CommitByMiner { request_id, answer_hash } => {
                CallArgs::CommitByMiner { request_id: *request_id, answer_hash: answer_hash.clone() }
            },
            CallArgs::RevealByMiner { request_id, answer, message } => {
                CallArgs::RevealByMiner {
                    request_id: *request_id,
                    answer: *answer,
                    message: message.clone(),
                }
            },
            CallArgs::Respond { yield_id, response } => {
                CallArgs::Respond { yield_id: copy_bytes(yield_id), response: response.clone() }
            },
            CallArgs::Sign { prompt } => CallArgs::Sign { prompt: prompt.clone() },
        }
    }
}

/// A fully assembled, not yet signed contract-call transaction: the builder's
/// accumulated call plus a nonce lease. Immutable once produced; the signing
/// edge turns it into a signed transaction and its content hash.
#[derive(Debug)]
pub struct UnsignedTransaction {
    pub signer_account_id: String,
    pub receiver_account_id: String,
    pub nonce: u64,
    pub block_hash: Vec<u8>,
    pub method_name: String,
    pub args: CallArgs,
    pub gas: u64,
    pub deposit: u128,
}

/// The default gas attached to every call.
pub const DEFAULT_GAS: u64 = 100_000_000_000_000;

/// Mutable builder state for one contract call: the signing account, the
/// watched contract the call is addressed to, and the accumulated call.
#[derive(Debug)]
pub struct TxBuilder {
    pub signer_account_id: String,
    pub receiver_account_id: String,
    pub method_name: String,
    pub args: CallArgs,
    pub gas: u64,
    pub deposit: u128,
}

impl TxBuilder {
    /// A fresh builder: no method or arguments yet, the default gas, and no
    /// deposit attached.
    pub fn new(signer_account_id: String, receiver_account_id: String) -> (r: TxBuilder)
        ensures
            r.signer_account_id@ == signer_account_id@,
            r.receiver_account_id@ == receiver_account_id@,
            r.method_name@ == Seq::<char>::empty(),
            r.args is Empty,
            r.gas == DEFAULT_GAS,
            r.deposit == 0,
    {
        TxBuilder {
            signer_account_id,
            receiver_account_id,
            method_name: String::new(),
            args: CallArgs::Empty,
            gas: DEFAULT_GAS,
            deposit: 0,
        }
    }

    /// Set the method to call; everything else is kept.
    pub fn with_method_name(&mut self, method_name: &str)
        ensures
            final(self).method_name@ == method_name@,
            final(self).args == old(self).args,
            final(self).gas == old(self).gas,
            final(self).deposit == old(self).deposit,
            final(self).signer_account_id == old(self).signer_account_id,
            final(self).receiver_account_id == old(self).receiver_account_id,
    {
        self.method_name = method_name.to_owned();
    }

    /// Set the call arguments; everything else is kept.
    pub fn with_args(&mut self, args: CallArgs)
        ensures
            final(self).args == args,
            final(self).method_name == old(self).method_name,
            final(self).gas == old(self).gas,
            final(self).deposit == old(self).deposit,
            final(self).signer_account_id == old(self).signer_account_id,
            final(self).receiver_account_id == old(self).receiver_account_id,
    {
        self.args = args;
    }

    /// Set the gas to attach; everything else is kept.
    pub fn with_gas(&mut self, gas: u64)
        ensures
            final(self).gas == gas,
            final(self).method_name == old(self).method_name,
            final(self).args == old(self).args,
            final(self).deposit == old(self).deposit,
            final(self).signer_account_id == old(self).signer_account_id,
            final(self).receiver_account_id == old(self).receiver_account_id,
    {
        self.gas = gas;
    }

    /// Set the deposit to attach; everything else is kept.
    pub fn with_deposit(&mut self, deposit: u128)
        ensures
            final(self).deposit == deposit,
            final(self).method_name == old(self).method_name,
            final(self).args == old(self).args,
            final(self).gas == old(self).gas,
            final(self).signer_account_id == old(self).signer_account_id,
            final(self).receiver_account_id == old(self).receiver_account_id,
    {
        self.deposit = deposit;
    }

    /// Combine the accumulated call with a nonce lease into an immutable
    /// unsigned transaction carrying exactly the builder's state, the lease's
    /// nonce and its reference block hash.
    pub fn build(&self, lease: &NonceLease) -> (tx: UnsignedTransaction)
        ensures
            tx.signer_account_id@ == self.signer_account_id@,
            tx.receiver_account_id@ == self.receiver_account_id@,
            tx.nonce == lease.nonce,
            tx.block_hash@ == lease.block_hash@,
            tx.method_name@ == self.method_name@,
            call_args_eq(tx.args, self.args),
            tx.gas == self.gas,
            tx.deposit == self.deposit,
    {
        UnsignedTransaction {
            signer_account_id: self.signer_account_id.clone(),
            receiver_account_id: self.receiver_account_id.clone(),
            nonce: lease.nonce,
            block_hash: copy_bytes(&lease.block_hash),
            method_name: self.method_name.clone(),
            args: self.args.clone(),
            gas: self.gas,
            deposit: self.deposit,
        }
    }
}

} // verus!
