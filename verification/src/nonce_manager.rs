//! Serializes per-account nonce issuance against the ledger's authoritative
//! account state: each issued nonce is strictly greater than both the
//! ledger-reported nonce observed at call time and every nonce issued before.

use vstd::prelude::*;

use crate::strutil::copy_bytes;

verus! {

/// What the ledger's account-key query reported: either the expected
/// key-info shape carrying the current on-chain nonce, or something else.
#[derive(Debug)]
pub enum AccessKeyQueryKind {
    AccessKey { nonce: u64 },
    Other,
}

/// Result of one account-key query: the response kind plus the hash of the
/// block the ledger answered at, used as the transaction's recency anchor.
#[derive(Debug)]
pub struct AccessKeyQueryResponse {
    pub kind: AccessKeyQueryKind,
    pub block_hash: Vec<u8>,
}

/// A nonce paired with the reference block hash it was issued against,
/// valid for exactly one transaction submission.
#[derive(Debug)]
pub struct NonceLease {
    pub nonce: u64,
    pub block_hash: Vec<u8>,
}

/// Why no lease could be issued.
#[derive(Debug, PartialEq, Eq, Structural)]
pub enum NonceError {
    /// The account-key query could not be completed.
    RpcFailure,
    /// The query completed but its response was not the expected key-info shape.
    ProtocolViolation,
}

/// The nonce an allocator with high-water mark `last_issued` hands out when
/// the ledger reports `ledger_nonce`: one past the larger of the two.
pub open spec fn next_nonce(last_issued: u64, ledger_nonce: u64) -> int {
    if ledger_nonce > last_issued {
        ledger_nonce + 1
    } else {
        last_issued + 1
    }
}

/// Issues nonces for one account. The local high-water mark is authoritative
/// once a nonce has been issued; the ledger-reported value only serves as a
/// floor, since the ledger lags behind in-flight transactions.
pub struct NonceManager {
    last_issued: u64,
}

impl NonceManager {
    /// The allocator's high-water mark: the greatest nonce issued so far.
    pub closed spec fn last_issued(&self) -> u64 {
        self.last_issued
    }

    pub fn new() -> (r: NonceManager)
        ensures
            r.last_issued() == 0,
    {
        NonceManager { last_issued: 0 }
    }

    /// Read the high-water mark, so a caller can see whether nonce space
    /// remains before asking for a lease.
    pub fn high_water_mark(&self) -> (r: u64)
        ensures
            r == self.last_issued(),
    {
        self.last_issued
    }

    /// Issue the next nonce given the ledger-reported current nonce.
    pub fn allocate(&mut self, ledger_nonce: u64) -> (nonce: u64)
        requires
            old(self).last_issued() < u64::MAX,
            ledger_nonce < u64::MAX,
        ensures
            nonce == next_nonce(old(self).last_issued(), ledger_nonce),
            final(self).last_issued() == nonce,
            nonce > ledger_nonce,
            nonce > old(self).last_issued(),
    {
        let floor = if ledger_nonce > self.last_issued {
            ledger_nonce
        } else {
            self.last_issued
        };
        let nonce = floor + 1;
        self.last_issued = nonce;
        nonce
    }

    /// Turn one account-key query outcome into a nonce lease: a failed query
    /// is an `RpcFailure`, an unexpected response shape a `ProtocolViolation`,
    /// and a key-info response yields the next nonce anchored at the reported
    /// block hash.
    pub fn get_nonce_and_tx_hash(&mut self, query: Option<&AccessKeyQueryResponse>) -> (r: Result<
        NonceLease,
        NonceError,
    >)
        requires
            old(self).last_issued() < u64::MAX,
        ensures
            (match query {
                None => r matches Err(e) && e == NonceError::RpcFailure,
                Some(q) => match q.kind {
                    AccessKeyQueryKind::Other => r matches Err(e) && e
                        == NonceError::ProtocolViolation,
                    AccessKeyQueryKind::AccessKey { nonce: ledger } => if ledger < u64::MAX {
                        r matches Ok(lease) && lease.nonce == next_nonce(
                            old(self).last_issued(),
                            ledger,
                        ) && lease.nonce > ledger && lease.nonce > old(self).last_issued()
                            && lease.block_hash@ == q.block_hash@ && final(self).last_issued()
                            == lease.nonce
                    } else {
                        r matches Err(e) && e == NonceError::ProtocolViolation
                    },
                },
            }),
            r is Err ==> final(self).last_issued() == old(self).last_issued(),
    {
        match query {
            None => Err(NonceError::RpcFailure),
            Some(q) => match q.kind {
                AccessKeyQueryKind::Other => Err(NonceError::ProtocolViolation),
                AccessKeyQueryKind::AccessKey { nonce: ledger } => {
                    if ledger == u64::MAX {
                        // A ledger nonce at the type's ceiling leaves no room
                        // to issue a greater one.
                        Err(NonceError::ProtocolViolation)
                    } else {
                        let nonce = self.allocate(ledger);
                        let block_hash = copy_bytes(&q.block_hash);
                        Ok(NonceLease { nonce, block_hash })
                    }
                },
            },
        }
    }
}

/// The sequence of nonces an allocator starting at high-water mark `init`
/// issues across a run of `allocate` calls that observe the ledger-reported
/// nonces `ledgers`, in issuance order.
pub open spec fn issued_nonces(init: int, ledgers: Seq<int>) -> Seq<int>
    decreases ledgers.len(),
{
    if ledgers.len() == 0 {
        Seq::empty()
    } else {
        let first = if ledgers[0] > init {
            ledgers[0] + 1
        } else {
            init + 1
        };
        seq![first] + issued_nonces(first, ledgers.drop_first())
    }
}

/// One nonce is issued per `allocate` call.
pub proof fn lemma_issued_len(init: int, ledgers: Seq<int>)
    ensures
        issued_nonces(init, ledgers).len() == ledgers.len(),
    decreases ledgers.len(),
{
    if ledgers.len() > 0 {
        let first = if ledgers[0] > init {
            ledgers[0] + 1
        } else {
            init + 1
        };
        lemma_issued_len(first, ledgers.drop_first());
    }
}

/// Every issued nonce is strictly greater than the ledger-reported nonce
/// observed by its own `allocate` call, and strictly greater than the
/// high-water mark the run started from.
pub proof fn lemma_issued_exceeds_observations(init: int, ledgers: Seq<int>, k: int)
    requires
        0 <= k < ledgers.len(),
    ensures
        issued_nonces(init, ledgers)[k] > ledgers[k],
        issued_nonces(init, ledgers)[k] > init,
    decreases ledgers.len(),
{
    let first = if ledgers[0] > init {
        ledgers[0] + 1
    } else {
        init + 1
    };
    let rest = issued_nonces(first, ledgers.drop_first());
    lemma_issued_len(first, ledgers.drop_first());
    assert(issued_nonces(init, ledgers) == seq![first] + rest);
    if k == 0 {
        assert((seq![first] + rest)[0] == first);
    } else {
        lemma_issued_exceeds_observations(first, ledgers.drop_first(), k - 1);
        assert((seq![first] + rest)[k] == rest[k - 1]);
        assert(ledgers.drop_first()[k - 1] == ledgers[k]);
    }
}

/// Nonces issued by one allocator are strictly increasing in issuance order;
/// in particular, any two issued nonces are distinct.
pub proof fn lemma_issued_strictly_increasing(init: int, ledgers: Seq<int>, i: int, j: int)
    requires
        0 <= i < j < ledgers.len(),
    ensures
        issued_nonces(init, ledgers)[i] < issued_nonces(init, ledgers)[j],
    decreases ledgers.len(),
{
    let first = if ledgers[0] > init {
        ledgers[0] + 1
    } else {
        init + 1
    };
    let rest = issued_nonces(first, ledgers.drop_first());
    lemma_issued_len(first, ledgers.drop_first());
    assert(issued_nonces(init, ledgers) == seq![first] + rest);
    assert((seq![first] + rest)[j] == rest[j - 1]);
    if i == 0 {
        assert((seq![first] + rest)[0] == first);
        lemma_issued_exceeds_observations(first, ledgers.drop_first(), j - 1);
    } else {
        assert((seq![first] + rest)[i] == rest[i - 1]);
        lemma_issued_strictly_increasing(first, ledgers.drop_first(), i - 1, j - 1);
    }
}

} // verus!
