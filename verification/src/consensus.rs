//! What the consensus library computes of a transaction: decoding, sizes,
//! identifiers, and the renderings of amounts and scripts.

use vstd::prelude::*;
use crate::model::{witnesses_fit, Transaction, TransactionView, TxIn, TxOut};
use bitcoin::absolute::LockTime;
use bitcoin::consensus::encode::{deserialize_hex, FromHexError};
use bitcoin::consensus::DecodeError as Undecoded;
use bitcoin::hashes::Hash as Digest;
use bitcoin::transaction::Version;
use bitcoin::{Amount, OutPoint, ScriptBuf, Sequence, Witness};

verus! {

/// Why a hex string is not a transaction.
#[derive(Clone, Copy, Debug, PartialEq, Eq, Structural)]
pub enum DecodeError {
    /// The string has an odd number of bytes.
    OddLength,
    /// A character that is no hex digit was met while reading.
    InvalidChar,
    /// The bytes are no consensus encoding of a transaction, or some were
    /// left over after one.
    Malformed,
}

/// A hex digit, in either case.
pub open spec fn is_hex_digit(c: char) -> bool {
    ||| '0' <= c <= '9'
    ||| 'a' <= c <= 'f'
    ||| 'A' <= c <= 'F'
}

/// Whether every character is a hex digit.
pub open spec fn all_hex_digits(s: Seq<char>) -> bool {
    forall|i: int| 0 <= i < s.len() ==> is_hex_digit(#[trigger] s[i])
}

/// The number of bytes that a string takes.
pub open spec fn byte_len(s: Seq<char>) -> nat {
    vstd::utf8::encode_utf8(s).len()
}

/// What `bitcoin::consensus::encode::deserialize_hex` makes of a hex string
/// as a transaction.
pub uninterp spec fn decoded(hex: Seq<char>) -> Result<TransactionView, DecodeError>;

/// What `bitcoin::Transaction::base_size` returns: the length in bytes of
/// the serialization without witness data.
pub uninterp spec fn base_size_of(tx: TransactionView) -> nat;

/// What `bitcoin::Transaction::total_size` returns: the length in bytes of
/// the serialization with witness data.
pub uninterp spec fn total_size_of(tx: TransactionView) -> nat;

/// What `bitcoin::Transaction::compute_txid` returns, as bytes in wire order.
pub uninterp spec fn txid_of(tx: TransactionView) -> Seq<u8>;

/// What `bitcoin::Transaction::compute_wtxid` returns, as bytes in wire order.
pub uninterp spec fn wtxid_of(tx: TransactionView) -> Seq<u8>;

/// What `bitcoin::Amount::to_string_in` returns for a number of satoshis in
/// the denomination bitcoin.
pub uninterp spec fn btc_text(sats: u64) -> Seq<char>;

/// What `bitcoin::Script::to_asm_string` returns for the bytes of a script.
pub uninterp spec fn asm_text(script: Seq<u8>) -> Seq<char>;

/// The view of a decoding result.
pub open spec fn decoding_view(r: Result<Transaction, DecodeError>) -> Result<
    TransactionView,
    DecodeError,
> {
    match r {
        Ok(tx) => Ok(tx@),
        Err(e) => Err(e),
    }
}

/// `bitcoin::consensus::encode::deserialize_hex` at the type
/// `bitcoin::Transaction`, the result copied field by field. The outcome is a
/// function of the string. A string with an odd number of bytes is refused
/// as such, and no other is; a string that holds anything but hex digits is
/// never decoded. The decoder refuses a witness whose items take more than
/// 4,000,000 bytes, so every witness decoded is within the limit.
#[verifier::external_body]
fn decode_hex(hex: &str) -> (r: Result<Transaction, DecodeError>)
    ensures
        decoding_view(r) == decoded(hex@),
        (r matches Err(DecodeError::OddLength)) <==> byte_len(hex@) % 2 == 1,
        !all_hex_digits(hex@) ==> r is Err,
        r matches Ok(tx) ==> witnesses_fit(tx@),
{
    let t: bitcoin::Transaction = deserialize_hex(hex).map_err(|e| match e {
        FromHexError::OddLengthString(_) => DecodeError::OddLength,
        FromHexError::Decode(Undecoded::Other(_)) => DecodeError::InvalidChar,
        FromHexError::Decode(_) => DecodeError::Malformed,
    })?;
    Ok(Transaction {
        version: t.version.0,
        lock_time: t.lock_time.to_consensus_u32(),
        input: t.input.iter().map(|i| TxIn {
            txid: i.previous_output.txid.to_byte_array(), vout: i.previous_output.vout,
            script_sig: i.script_sig.to_bytes(), sequence: i.sequence.0, witness: i.witness.to_vec()
        }).collect(),
        output: t.output.iter().map(|o| TxOut { value: o.value.to_sat(), script_pubkey: o.script_pubkey.to_bytes() }).collect(),
    })
}

/// Decodes a transaction from the hex form of its consensus encoding.
pub fn decode(hex: &str) -> (r: Result<Transaction, DecodeError>)
    ensures
        decoding_view(r) == decoded(hex@),
        (r matches Err(DecodeError::OddLength)) <==> byte_len(hex@) % 2 == 1,
        !all_hex_digits(hex@) ==> r is Err,
        r matches Ok(tx) ==> witnesses_fit(tx@),
{
    decode_hex(hex)
}

/// Whether weight and virtual size of a transaction can be computed in
/// `usize` without overflow: the rounding adds four to the weight before it
/// divides.
pub open spec fn weighable(tx: TransactionView) -> bool {
    weight_of(tx) + 4 <= usize::MAX
}

/// Whether a transaction is within the limits of the machine and of the
/// consensus library: its witnesses fit, and its weight can be counted.
pub open spec fn measurable(tx: TransactionView) -> bool {
    witnesses_fit(tx) && weighable(tx)
}

/// The weight of a transaction: three times the base size plus the total
/// size.
pub open spec fn weight_of(tx: TransactionView) -> nat {
    base_size_of(tx) * 3 + total_size_of(tx)
}

/// A quarter of `n`, rounded up.
pub open spec fn quarter_ceil(n: nat) -> nat {
    (n + 3) / 4
}

/// `bitcoin::Transaction::base_size` on the same transaction. Building the
/// witnesses for it asks that they fit.
#[verifier::external_body]
pub(crate) fn base_size(tx: &Transaction) -> (n: usize)
    requires
        witnesses_fit(tx@),
    ensures
        n == base_size_of(tx@),
{
    bitcoin::Transaction {
        version: Version(tx.version),
        lock_time: LockTime::from_consensus(tx.lock_time),
        input: tx.input.iter().map(|i| bitcoin::TxIn {
            previous_output: OutPoint::new(Digest::from_byte_array(i.txid), i.vout),
            script_sig: ScriptBuf::from_bytes(i.script_sig.clone()),
            sequence: Sequence(i.sequence),
            witness: Witness::from_slice(&i.witness),
        }).collect(),
        output: tx.output.iter().map(|o| bitcoin::TxOut {
            value: Amount::from_sat(o.value),
            script_pubkey: ScriptBuf::from_bytes(o.script_pubkey.clone()),
        }).collect(),
    }.base_size()
}

/// `bitcoin::Transaction::total_size` on the same transaction. For a
/// transaction serialized without witness data it is the base size.
/// Building the witnesses for it asks that they fit.
#[verifier::external_body]
pub(crate) fn total_size(tx: &Transaction) -> (n: usize)
    requires
        witnesses_fit(tx@),
    ensures
        n == total_size_of(tx@),
        tx@.is_legacy() ==> n == base_size_of(tx@),
{
    bitcoin::Transaction {
        version: Version(tx.version),
        lock_time: LockTime::from_consensus(tx.lock_time),
        input: tx.input.iter().map(|i| bitcoin::TxIn {
            previous_output: OutPoint::new(Digest::from_byte_array(i.txid), i.vout),
            script_sig: ScriptBuf::from_bytes(i.script_sig.clone()),
            sequence: Sequence(i.sequence),
            witness: Witness::from_slice(&i.witness),
        }).collect(),
        output: tx.output.iter().map(|o| bitcoin::TxOut {
            value: Amount::from_sat(o.value),
            script_pubkey: ScriptBuf::from_bytes(o.script_pubkey.clone()),
        }).collect(),
    }.total_size()
}

/// `bitcoin::Transaction::weight` on the same transaction, in weight units:
/// three times the base size plus the total size, which it computes in
/// `usize`. Building the witnesses for it asks that they fit.
#[verifier::external_body]
pub(crate) fn weight(tx: &Transaction) -> (w: u64)
    requires
        measurable(tx@),
    ensures
        w == weight_of(tx@),
{
    bitcoin::Transaction {
        version: Version(tx.version),
        lock_time: LockTime::from_consensus(tx.lock_time),
        input: tx.input.iter().map(|i| bitcoin::TxIn {
            previous_output: OutPoint::new(Digest::from_byte_array(i.txid), i.vout),
            script_sig: ScriptBuf::from_bytes(i.script_sig.clone()),
            sequence: Sequence(i.sequence),
            witness: Witness::from_slice(&i.witness),
        }).collect(),
        output: tx.output.iter().map(|o| bitcoin::TxOut {
            value: Amount::from_sat(o.value),
            script_pubkey: ScriptBuf::from_bytes(o.script_pubkey.clone()),
        }).collect(),
    }.weight().to_wu()
}

/// `bitcoin::Transaction::vsize` on the same transaction: a quarter of the
/// weight, rounded up, for which it adds four to the weight and takes one
/// off. Building the witnesses for it asks that they fit.
#[verifier::external_body]
pub(crate) fn vsize(tx: &Transaction) -> (n: usize)
    requires
        measurable(tx@),
    ensures
        n == quarter_ceil(weight_of(tx@)),
{
    bitcoin::Transaction {
        version: Version(tx.version),
        lock_time: LockTime::from_consensus(tx.lock_time),
        input: tx.input.iter().map(|i| bitcoin::TxIn {
            previous_output: OutPoint::new(Digest::from_byte_array(i.txid), i.vout),
            script_sig: ScriptBuf::from_bytes(i.script_sig.clone()),
            sequence: Sequence(i.sequence),
            witness: Witness::from_slice(&i.witness),
        }).collect(),
        output: tx.output.iter().map(|o| bitcoin::TxOut {
            value: Amount::from_sat(o.value),
            script_pubkey: ScriptBuf::from_bytes(o.script_pubkey.clone()),
        }).collect(),
    }.vsize()
}

/// `bitcoin::Transaction::compute_txid` on the same transaction, as the 32
/// bytes of the hash. Building the witnesses for it asks that they fit.
#[verifier::external_body]
pub(crate) fn compute_txid(tx: &Transaction) -> (id: [u8; 32])
    requires
        witnesses_fit(tx@),
    ensures
        id@ == txid_of(tx@),
{
    Digest::to_byte_array(bitcoin::Transaction {
        version: Version(tx.version),
        lock_time: LockTime::from_consensus(tx.lock_time),
        input: tx.input.iter().map(|i| bitcoin::TxIn {
            previous_output: OutPoint::new(Digest::from_byte_array(i.txid), i.vout),
            script_sig: ScriptBuf::from_bytes(i.script_sig.clone()),
            sequence: Sequence(i.sequence),
            witness: Witness::from_slice(&i.witness),
        }).collect(),
        output: tx.output.iter().map(|o| bitcoin::TxOut {
            value: Amount::from_sat(o.value),
            script_pubkey: ScriptBuf::from_bytes(o.script_pubkey.clone()),
        }).collect(),
    }.compute_txid())
}

/// `bitcoin::Transaction::compute_wtxid` on the same transaction, as the 32
/// bytes of the hash. A transaction serialized without witness data has the
/// same bytes hashed for both identifiers. Building the witnesses for it
/// asks that they fit.
#[verifier::external_body]
pub(crate) fn compute_wtxid(tx: &Transaction) -> (id: [u8; 32])
    requires
        witnesses_fit(tx@),
    ensures
        id@ == wtxid_of(tx@),
        tx@.is_legacy() ==> id@ == txid_of(tx@),
{
    Digest::to_byte_array(bitcoin::Transaction {
        version: Version(tx.version),
        lock_time: LockTime::from_consensus(tx.lock_time),
        input: tx.input.iter().map(|i| bitcoin::TxIn {
            previous_output: OutPoint::new(Digest::from_byte_array(i.txid), i.vout),
            script_sig: ScriptBuf::from_bytes(i.script_sig.clone()),
            sequence: Sequence(i.sequence),
            witness: Witness::from_slice(&i.witness),
        }).collect(),
        output: tx.output.iter().map(|o| bitcoin::TxOut {
            value: Amount::from_sat(o.value),
            script_pubkey: ScriptBuf::from_bytes(o.script_pubkey.clone()),
        }).collect(),
    }.compute_wtxid())
}

/// `bitcoin::Amount::to_string_in` with the denomination bitcoin.
#[verifier::external_body]
pub(crate) fn btc_string(sats: u64) -> (s: String)
    ensures
        s@ == btc_text(sats),
{
    Amount::from_sat(sats).to_string_in(bitcoin::Denomination::Bitcoin)
}

/// `bitcoin::Script::to_asm_string` on a script of these bytes.
#[verifier::external_body]
pub(crate) fn asm_string(script: &[u8]) -> (s: String)
    ensures
        s@ == asm_text(script@),
{
    bitcoin::Script::from_bytes(script).to_asm_string()
}

} // verus!
