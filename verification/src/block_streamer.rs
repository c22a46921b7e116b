//! Block-by-block polling decisions: which block to request next, how the
//! cursor moves on each fetch outcome, how a block's chunks are scanned for
//! the watched call, and how a found transaction's logs are flattened and
//! dispatched.

use vstd::prelude::*;

use crate::event::{decode_spec, process_log, EventData};
use crate::strutil::str_eq;

verus! {

/// How the next block is requested from the ledger: the latest finalized
/// block when no block has been processed yet, else the block one past the
/// cursor.
#[derive(Debug, PartialEq, Eq, Structural)]
pub enum BlockRef {
    /// The latest finalized block.
    Final,
    /// The block at this exact height.
    Height(u64),
}

/// Select the reference for the next block to fetch: height `0` (the initial
/// cursor) resolves to the latest finalized block; any other cursor requests
/// the block directly after the last one processed.
pub fn specify_block_reference(last_processed_block: u64) -> (r: BlockRef)
    requires
        last_processed_block < u64::MAX,
    ensures
        last_processed_block == 0 ==> r == BlockRef::Final,
        last_processed_block != 0 ==> r == BlockRef::Height((last_processed_block + 1) as u64),
{
    if last_processed_block == 0 {
        BlockRef::Final
    } else {
        BlockRef::Height(last_processed_block + 1)
    }
}

/// The classified outcome of one block fetch.
pub enum FetchOutcome {
    /// The block was fetched; its own height is carried here.
    Block { height: u64 },
    /// The ledger does not know this height (yet, or it was skipped).
    UnknownBlock,
    /// A transient server-side failure (unavailable, bad gateway).
    TransientServerError,
    /// Any other ledger error: the loop must abort.
    OtherRpcError,
}

/// What the poll loop does next with a fetch outcome.
#[derive(Debug, PartialEq, Eq, Structural)]
pub enum PollAction {
    /// Scan the fetched block, then rest at its height.
    ProcessBlock,
    /// Step past a height the chain skipped.
    SkipUnknown,
    /// Keep the same height and retry after a backoff wait.
    Backoff,
    /// Fatal: stop the loop.
    Abort,
}

/// One poll-loop transition: the cursor after the step and the action taken.
pub struct PollStep {
    pub next_cursor: u64,
    pub action: PollAction,
}

/// Advance the block cursor over one fetch outcome: a fetched block moves the
/// cursor to that block's own height (whether or not it held a match); an
/// unknown block is stepped past; a transient error leaves the cursor in
/// place pending a backoff retry; anything else aborts the loop.
pub fn poll_step(cursor: u64, outcome: &FetchOutcome) -> (r: PollStep)
    requires
        cursor < u64::MAX,
    ensures
        (match outcome {
            FetchOutcome::Block { height } => r.next_cursor == height && r.action
                == PollAction::ProcessBlock,
            FetchOutcome::UnknownBlock => r.next_cursor == cursor + 1 && r.action
                == PollAction::SkipUnknown,
            FetchOutcome::TransientServerError => r.next_cursor == cursor && r.action
                == PollAction::Backoff,
            FetchOutcome::OtherRpcError => r.next_cursor == cursor && r.action
                == PollAction::Abort,
        }),
{
    match outcome {
        FetchOutcome::Block { height } => PollStep {
            next_cursor: *height,
            action: PollAction::ProcessBlock,
        },
        FetchOutcome::UnknownBlock => PollStep {
            next_cursor: cursor + 1,
            action: PollAction::SkipUnknown,
        },
        FetchOutcome::TransientServerError => PollStep {
            next_cursor: cursor,
            action: PollAction::Backoff,
        },
        FetchOutcome::OtherRpcError => PollStep { next_cursor: cursor, action: PollAction::Abort },
    }
}

/// One action of a transaction, as far as the scan cares: a function call
/// with its method name, or anything else.
#[derive(Debug)]
pub enum TxAction {
    FunctionCall { method_name: String },
    Other,
}

/// One transaction of a chunk, reduced to what the scan reads.
#[derive(Debug)]
pub struct ChunkTransaction {
    pub hash: String,
    pub signer_id: String,
    pub receiver_id: String,
    pub actions: Vec<TxAction>,
}

/// The transactions of one chunk of a block. Receipts are deliberately not
/// scanned, to avoid matching the same call twice.
#[derive(Debug)]
pub struct ChunkData {
    pub transactions: Vec<ChunkTransaction>,
}

/// The watched call found in a block: the transaction id and the account
/// that submitted it.
#[derive(Debug)]
pub struct MatchResult {
    pub tx_hash: String,
    pub sender_account_id: String,
}

/// The action is a function call of exactly this method.
pub open spec fn action_is_call(a: TxAction, method: Seq<char>) -> bool {
    a matches TxAction::FunctionCall { method_name } && method_name@ == method
}

/// The transaction is addressed to the watched account and carries a call of
/// the watched method.
pub open spec fn tx_matches(tx: ChunkTransaction, account: Seq<char>, method: Seq<char>) -> bool {
    tx.receiver_id@ == account && exists|i: int|
        0 <= i < tx.actions@.len() && action_is_call(#[trigger] tx.actions@[i], method)
}

/// The first matching transaction of a run of transactions, if any.
pub open spec fn first_match_in_txs(
    txs: Seq<ChunkTransaction>,
    account: Seq<char>,
    method: Seq<char>,
) -> Option<ChunkTransaction>
    decreases txs.len(),
{
    if txs.len() == 0 {
        None
    } else if tx_matches(txs[0], account, method) {
        Some(txs[0])
    } else {
        first_match_in_txs(txs.drop_first(), account, method)
    }
}

/// The first matching transaction over a block's chunks in order, if any.
pub open spec fn first_match_in_chunks(
    chunks: Seq<ChunkData>,
    account: Seq<char>,
    method: Seq<char>,
) -> Option<ChunkTransaction>
    decreases chunks.len(),
{
    if chunks.len() == 0 {
        None
    } else {
        match first_match_in_txs(chunks[0].transactions@, account, method) {
            Some(tx) => Some(tx),
            None => first_match_in_chunks(chunks.drop_first(), account, method),
        }
    }
}

/// Does this transaction carry a call of `method_name` addressed to
/// `account_id`?
fn tx_is_match(tx: &ChunkTransaction, account_id: &str, method_name: &str) -> (r: bool)
    ensures
        r == tx_matches(*tx, account_id@, method_name@),
{
    if !str_eq(tx.receiver_id.as_str(), account_id) {
        return false;
    }
    let n = tx.actions.len();
    let mut j: usize = 0;
    while j < n
        invariant
            n == tx.actions@.len(),
            j <= n,
            tx.receiver_id@ == account_id@,
            forall|k: int| 0 <= k < j ==> !action_is_call(tx.actions@[k], method_name@),
        decreases n - j,
    {
        match &tx.actions[j] {
            TxAction::FunctionCall { method_name: m } => {
                if str_eq(m.as_str(), method_name) {
                    return true;
                }
            },
            TxAction::Other => {},
        }
        j += 1;
    }
    false
}

/// Scan one block's fetched chunks for the first transaction addressed to
/// the watched account whose actions include a call of the watched method.
/// The scan stops at the first match; transactions after it are not read.
pub fn find_transaction_in_block(
    chunks: &Vec<ChunkData>,
    account_id: &str,
    method_name: &str,
) -> (r: Option<MatchResult>)
    ensures
        (match first_match_in_chunks(chunks@, account_id@, method_name@) {
            Some(tx) => r matches Some(m) && m.tx_hash@ == tx.hash@ && m.sender_account_id@
                == tx.signer_id@,
            None => r is None,
        }),
{
    let nc = chunks.len();
    let mut ci: usize = 0;
    proof {
        assert(chunks@.skip(0) =~= chunks@);
    }
    while ci < nc
        invariant
            nc == chunks@.len(),
            ci <= nc,
            first_match_in_chunks(chunks@, account_id@, method_name@) == first_match_in_chunks(
                chunks@.skip(ci as int),
                account_id@,
                method_name@,
            ),
        decreases nc - ci,
    {
        let txs = &chunks[ci].transactions;
        let nt = txs.len();
        let mut ti: usize = 0;
        proof {
            assert(txs@.skip(0) =~= txs@);
        }
        while ti < nt
            invariant
                nc == chunks@.len(),
                ci < nc,
                nt == txs@.len(),
                ti <= nt,
                txs == &chunks[ci as int].transactions,
                first_match_in_chunks(chunks@, account_id@, method_name@)
                    == first_match_in_chunks(chunks@.skip(ci as int), account_id@, method_name@),
                first_match_in_txs(txs@, account_id@, method_name@) == first_match_in_txs(
                    txs@.skip(ti as int),
                    account_id@,
                    method_name@,
                ),
            decreases nt - ti,
        {
            let tx = &txs[ti];
            if tx_is_match(tx, account_id, method_name) {
                proof {
                    assert(txs@.skip(ti as int)[0] == txs@[ti as int]);
                    assert(first_match_in_txs(txs@.skip(ti as int), account_id@, method_name@)
                        == Some(txs@[ti as int]));
                    assert(chunks@.skip(ci as int)[0] == chunks@[ci as int]);
                }
                return Some(
                    MatchResult {
                        tx_hash: tx.hash.clone(),
                        sender_account_id: tx.signer_id.clone(),
                    },
                );
            }
            proof {
                assert(txs@.skip(ti as int)[0] == txs@[ti as int]);
                assert(txs@.skip(ti as int).drop_first() =~= txs@.skip(ti + 1));
            }
            ti += 1;
        }
        proof {
            assert(txs@.skip(nt as int).len() == 0);
            assert(first_match_in_txs(chunks@[ci as int].transactions@, account_id@, method_name@)
                is None);
            assert(chunks@.skip(ci as int)[0] == chunks@[ci as int]);
            assert(chunks@.skip(ci as int).drop_first() =~= chunks@.skip(ci + 1));
        }
        ci += 1;
    }
    proof {
        assert(chunks@.skip(nc as int).len() == 0);
    }
    None
}

/// The transaction-status response a log extraction works on: either the
/// full final outcome, reduced to its log lines, or a shape logs cannot be
/// extracted from.
pub enum TransactionResponseOutcome {
    /// The full final-outcome variant: the transaction's own log lines plus
    /// each receipt's log lines, in receipt order.
    Full { transaction_logs: Vec<String>, receipt_logs: Vec<Vec<String>> },
    /// The partial outcome-with-receipt variant: log lines cannot be read
    /// from it, so it yields none.
    WithReceipts,
    /// No final execution outcome was attached at all.
    Missing,
}

/// The views of a run of log lines, in order.
pub open spec fn views_of(ss: Seq<String>) -> Seq<Seq<char>> {
    Seq::new(ss.len(), |i: int| ss[i]@)
}

/// Appending a line extends the sequence of views by that line's view.
proof fn lemma_views_push(pre: Seq<String>, x: String, target: Seq<Seq<char>>)
    requires
        views_of(pre) == target,
    ensures
        views_of(pre.push(x)) =~= target.push(x@),
{
    assert forall|k: int| 0 <= k < views_of(pre.push(x)).len() implies views_of(pre.push(x))[k]
        == target.push(x@)[k] by {
        if k < pre.len() {
            assert(views_of(pre)[k] == pre[k]@);
        }
    }
}

/// The log lines of a run of receipts, flattened in receipt order.
pub open spec fn receipts_logs_spec(receipts: Seq<Vec<String>>) -> Seq<Seq<char>>
    decreases receipts.len(),
{
    if receipts.len() == 0 {
        Seq::empty()
    } else {
        receipts_logs_spec(receipts.drop_last()) + views_of(receipts.last()@)
    }
}

/// Every log line a status response exposes: the transaction's own lines
/// followed by every receipt's lines in receipt order; none for response
/// shapes logs cannot be extracted from.
pub open spec fn extract_logs_spec(resp: TransactionResponseOutcome) -> Seq<Seq<char>> {
    match resp {
        TransactionResponseOutcome::Full { transaction_logs, receipt_logs } => views_of(
            transaction_logs@,
        ) + receipts_logs_spec(receipt_logs@),
        TransactionResponseOutcome::WithReceipts => Seq::empty(),
        TransactionResponseOutcome::Missing => Seq::empty(),
    }
}

/// Flatten a status response into its ordered log lines: the transaction
/// outcome's lines first, then each receipt outcome's lines in order.
pub fn extract_logs(response: &TransactionResponseOutcome) -> (logs: Vec<String>)
    ensures
        views_of(logs@) == extract_logs_spec(*response),
{
    match response {
        TransactionResponseOutcome::Full { transaction_logs, receipt_logs } => {
            let mut logs: Vec<String> = Vec::new();
            let nt = transaction_logs.len();
            let mut i: usize = 0;
            while i < nt
                invariant
                    nt == transaction_logs@.len(),
                    i <= nt,
                    views_of(logs@) =~= views_of(transaction_logs@.take(i as int)),
                decreases nt - i,
            {
                let line = transaction_logs[i].clone();
                let ghost pre = logs@;
                logs.push(line);
                proof {
                    lemma_views_push(pre, line, views_of(transaction_logs@.take(i as int)));
                    assert(views_of(transaction_logs@.take(i as int)).push(line@) =~= views_of(
                        transaction_logs@.take(i + 1),
                    ));
                }
                i += 1;
            }
            proof {
                assert(transaction_logs@.take(nt as int) =~= transaction_logs@);
            }
            let nr = receipt_logs.len();
            let mut ri: usize = 0;
            while ri < nr
                invariant
                    nr == receipt_logs@.len(),
                    ri <= nr,
                    views_of(logs@) =~= views_of(transaction_logs@) + receipts_logs_spec(
                        receipt_logs@.take(ri as int),
                    ),
                decreases nr - ri,
            {
                let receipt = &receipt_logs[ri];
                let nl = receipt.len();
                let mut j: usize = 0;
                while j < nl
                    invariant
                        nr == receipt_logs@.len(),
                        ri < nr,
                        receipt == &receipt_logs[ri as int],
                        nl == receipt@.len(),
                        j <= nl,
                        views_of(logs@) =~= views_of(transaction_logs@) + receipts_logs_spec(
                            receipt_logs@.take(ri as int),
                        ) + views_of(receipt@.take(j as int)),
                    decreases nl - j,
                {
                    let line = receipt[j].clone();
                    let ghost pre = logs@;
                    logs.push(line);
                    proof {
                        let base = views_of(transaction_logs@) + receipts_logs_spec(
                            receipt_logs@.take(ri as int),
                        );
                        lemma_views_push(pre, line, base + views_of(receipt@.take(j as int)));
                        assert((base + views_of(receipt@.take(j as int))).push(line@) =~= base
                            + views_of(receipt@.take(j + 1)));
                    }
                    j += 1;
                }
                proof {
                    assert(receipt@.take(nl as int) =~= receipt@);
                    let upto = receipt_logs@.take(ri + 1);
                    assert(upto.drop_last() =~= receipt_logs@.take(ri as int));
                    assert(upto.last() == receipt_logs@[ri as int]);
                    assert(receipts_logs_spec(upto) == receipts_logs_spec(
                        receipt_logs@.take(ri as int),
                    ) + views_of(receipt_logs@[ri as int]@));
                }
                ri += 1;
            }
            proof {
                assert(receipt_logs@.take(nr as int) =~= receipt_logs@);
            }
            logs
        },
        TransactionResponseOutcome::WithReceipts => Vec::new(),
        TransactionResponseOutcome::Missing => Vec::new(),
    }
}

/// The fatal condition of the watch loop: the watched contract emitted more
/// logs for one transaction than its event contract allows, so its behavior
/// has drifted from what this agent was built against.
#[derive(Debug, PartialEq, Eq, Structural)]
pub enum StreamError {
    ProtocolDrift,
}

/// Decide what a found transaction's logs yield: more than two log lines is
/// protocol drift (fatal); no lines means nothing to do; otherwise the first
/// line is decoded, and a decode failure drops the event without an error.
pub fn handle_logs(logs: &Vec<String>) -> (r: Result<Option<EventData>, StreamError>)
    ensures
        logs@.len() > 2 ==> (r matches Err(e) && e == StreamError::ProtocolDrift),
        logs@.len() == 0 ==> (r matches Ok(ev) && ev is None),
        1 <= logs@.len() <= 2 ==> (match decode_spec(logs@[0]@) {
            Ok(v) => r matches Ok(ev) && ev matches Some(d) && d@ == v,
            Err(_) => r matches Ok(ev) && ev is None,
        }),
{
    if logs.len() > 2 {
        return Err(StreamError::ProtocolDrift);
    }
    if logs.len() == 0 {
        return Ok(None);
    }
    match process_log(logs[0].as_str()) {
        Ok(event) => Ok(Some(event)),
        Err(_) => Ok(None),
    }
}

} // verus!
