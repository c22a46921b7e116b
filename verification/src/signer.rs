//! The single-phase responder: validates the event's fixed-width correlation
//! id, and builds the `respond` call carrying that id and a signature drawn
//! from the event's prompt. An invalid event is fatal to that event alone,
//! never to the poll loop.

use vstd::prelude::*;

use crate::event::{EventData, EventDataView};
use crate::nonce_manager::NonceLease;
use crate::strutil::{trim_spaces, trim_spaces_spec};
use crate::tx_builder::{CallArgs, TxBuilder, UnsignedTransaction};

verus! {

/// Is `c` one of the sixteen hexadecimal digit characters, either case?
pub open spec fn is_hex_digit(c: char) -> bool {
    ('0' <= c && c <= '9') || ('a' <= c && c <= 'f') || ('A' <= c && c <= 'F')
}

/// The value of one hexadecimal digit character.
pub open spec fn hex_digit_val(c: char) -> int {
    if '0' <= c && c <= '9' {
        c as int - '0' as int
    } else if 'a' <= c && c <= 'f' {
        c as int - 'a' as int + 10
    } else {
        c as int - 'A' as int + 10
    }
}

/// A decodable hex string: an even number of hex digit characters.
pub open spec fn valid_hex_string(s: Seq<char>) -> bool {
    s.len() % 2 == 0 && forall|i: int| 0 <= i < s.len() ==> is_hex_digit(#[trigger] s[i])
}

/// The bytes a hex string decodes to: one byte from each pair of digits,
/// high digit first.
pub open spec fn hex_bytes(s: Seq<char>) -> Seq<u8> {
    Seq::new(
        (s.len() / 2) as nat,
        |i: int| (hex_digit_val(s[2 * i]) * 16 + hex_digit_val(s[2 * i + 1])) as u8,
    )
}

/// Relies on hex::decode: a string of an even number of hex digit
/// characters, in either case, decodes to its bytes, two digits per byte
/// with the high digit first; any other string is refused.
#[verifier::external_body]
fn hex_decode(s: &str) -> (r: Option<Vec<u8>>)
    ensures
        r is Some <==> valid_hex_string(s@),
        (r matches Some(v) ==> v@ == hex_bytes(s@)),
{
    hex::decode(s).ok()
}

/// Why a respond event was rejected or its submission failed.
#[derive(Debug, PartialEq, Eq, Structural)]
pub enum RespondError {
    /// The event carries no correlation id at all.
    MissingYieldId,
    /// The correlation id is not a hex string.
    InvalidHex,
    /// The correlation id decodes, but not to exactly 32 bytes.
    WrongByteLength,
    /// The event carries no prompt to sign.
    MissingPrompt,
    /// The ledger reported the submitted transaction as failed.
    TransactionFailed,
}

/// What validating an event for the respond flow yields: the correlation id
/// as exactly 32 bytes, decoded from the whitespace-trimmed hex id, with a
/// prompt present to sign — or the first reason it cannot be responded to.
pub open spec fn respond_validate_spec(ev: EventDataView) -> Result<Seq<u8>, RespondError> {
    match ev.yield_id {
        None => Err(RespondError::MissingYieldId),
        Some(y) => {
            let t = trim_spaces_spec(y);
            if !valid_hex_string(t) {
                Err(RespondError::InvalidHex)
            } else if hex_bytes(t).len() != 32 {
                Err(RespondError::WrongByteLength)
            } else {
                match ev.prompt {
                    None => Err(RespondError::MissingPrompt),
                    Some(_) => Ok(hex_bytes(t)),
                }
            }
        },
    }
}

/// Validate one decoded event for the respond flow: require a correlation
/// id, trim and hex-decode it, require exactly 32 bytes, and require a
/// prompt to sign.
pub fn validate_respond_event(event: &EventData) -> (r: Result<Vec<u8>, RespondError>)
    ensures
        (match respond_validate_spec(event@) {
            Ok(b) => r matches Ok(v) && v@ == b,
            Err(e) => r matches Err(e2) && e2 == e,
        }),
{
    let y = match &event.yield_id {
        None => {
            return Err(RespondError::MissingYieldId);
        },
        Some(y) => y,
    };
    let t = trim_spaces(y.as_str());
    let bytes = match hex_decode(t) {
        None => {
            return Err(RespondError::InvalidHex);
        },
        Some(b) => b,
    };
    if bytes.len() != 32 {
        return Err(RespondError::WrongByteLength);
    }
    if event.prompt.is_none() {
        return Err(RespondError::MissingPrompt);
    }
    Ok(bytes)
}

/// The ledger-reported final status of a submitted transaction, as far as
/// the respond flow reads it.
#[derive(Debug, Clone, Copy, PartialEq, Eq, Structural)]
pub enum ExecutionStatus {
    /// The transaction executed successfully.
    Success,
    /// The ledger reports the transaction as failed.
    Failure,
    /// No final status could be read from the response.
    Unknown,
}

/// A reported failure turns into an error; any other status lets the
/// respond flow complete.
pub fn check_respond_outcome(status: &ExecutionStatus) -> (r: Result<(), RespondError>)
    ensures
        (match status {
            ExecutionStatus::Failure => r matches Err(e) && e == RespondError::TransactionFailed,
            ExecutionStatus::Success => r is Ok,
            ExecutionStatus::Unknown => r is Ok,
        }),
{
    match status {
        ExecutionStatus::Failure => Err(RespondError::TransactionFailed),
        ExecutionStatus::Success => Ok(()),
        ExecutionStatus::Unknown => Ok(()),
    }
}

/// Responds to discovered requests on behalf of one registered account.
#[derive(Debug)]
pub struct Signer {
    pub account: String,
}

impl Signer {
    pub fn new(account: String) -> (r: Signer)
        ensures
            r.account@ == account@,
    {
        Signer { account }
    }

    /// Build the respond transaction: a `respond` call carrying the
    /// validated 32-byte correlation id and the signature computed over the
    /// event's prompt, under the lease's nonce and reference block hash.
    pub fn respond(
        &self,
        yield_id: Vec<u8>,
        signature: &str,
        tx_builder: &mut TxBuilder,
        lease: &NonceLease,
    ) -> (tx: UnsignedTransaction)
        ensures
            tx.method_name@ == "respond"@,
            (tx.args matches CallArgs::Respond { yield_id: y, response } && y@ == yield_id@
                && response@ == signature@),
            tx.nonce == lease.nonce,
            tx.block_hash@ == lease.block_hash@,
            tx.signer_account_id@ == old(tx_builder).signer_account_id@,
            tx.receiver_account_id@ == old(tx_builder).receiver_account_id@,
            tx.gas == old(tx_builder).gas,
            tx.deposit == old(tx_builder).deposit,
    {
        tx_builder.with_method_name("respond");
        tx_builder.with_args(CallArgs::Respond { yield_id, response: signature.to_owned() });
        tx_builder.build(lease)
    }
}

} // verus!
