use vstd::prelude::*;
use alloy_consensus::transaction::SignerRecoverable;
use alloy_consensus::Transaction;
use alloy_eips::eip2718::Decodable2718;
use crate::address::{hex_text, parse_hex, Address, Target, ToAddress};

verus! {

#[verifier::external_type_specification]
#[verifier::external_body]
#[verifier::reject_recursive_types(Eip4844)]
pub struct ExEthereumTxEnvelope<Eip4844>(alloy_consensus::EthereumTxEnvelope<Eip4844>);

#[verifier::external_type_specification]
#[verifier::external_body]
#[verifier::reject_recursive_types(T)]
pub struct ExTxEip4844Variant<T>(alloy_consensus::TxEip4844Variant<T>);

#[verifier::external_type_specification]
#[verifier::external_body]
pub struct ExBlobTransactionSidecarVariant(alloy_eips::eip7594::BlobTransactionSidecarVariant);

#[verifier::external_type_specification]
#[verifier::external_body]
pub struct ExEip2718Error(alloy_eips::eip2718::Eip2718Error);

#[verifier::external_type_specification]
#[verifier::external_body]
pub struct ExRecoveryError(alloy_consensus::crypto::RecoveryError);

/// The envelope formats of a signed transaction.
#[derive(Clone, Copy, Debug, PartialEq, Eq, Structural)]
pub enum TxFormat {
    Legacy,
    Eip2930,
    Eip1559,
    Eip4844,
    Eip7702,
}

/// The formats that this library accepts: legacy, access lists, priority
/// fees and blob-carrying transactions.
pub open spec fn supported_format(f: TxFormat) -> bool {
    f != TxFormat::Eip7702
}

/// Whether the bytes decode as a signed transaction envelope.
pub uninterp spec fn envelope_decodes(raw: Seq<u8>) -> bool;

/// The format that the first byte of an envelope announces: a byte above
/// `0x7f` opens a legacy transaction, bytes 1 to 4 are the types of the typed
/// formats, and every other byte is no known format.
pub open spec fn type_byte_format(b: u8) -> Option<TxFormat> {
    if b > 0x7f {
        Some(TxFormat::Legacy)
    } else if b == 1 {
        Some(TxFormat::Eip2930)
    } else if b == 2 {
        Some(TxFormat::Eip1559)
    } else if b == 3 {
        Some(TxFormat::Eip4844)
    } else if b == 4 {
        Some(TxFormat::Eip7702)
    } else {
        None
    }
}

/// Whether the bytes announce a format that this library accepts.
pub open spec fn announces_supported_format(raw: Seq<u8>) -> bool {
    raw.len() > 0 && match type_byte_format(raw[0]) {
        Some(f) => supported_format(f),
        None => false,
    }
}

/// The address recovered from the signature of the envelope that the bytes
/// decode to, if recovery succeeds.
pub uninterp spec fn envelope_signer(raw: Seq<u8>) -> Option<Seq<u8>>;

/// The recipient of the envelope that the bytes decode to.
pub uninterp spec fn envelope_recipient(raw: Seq<u8>) -> Target;

/// A decoded envelope together with the bytes it was decoded from.
pub struct Envelope {
    raw: Vec<u8>,
    tx: alloy_consensus::TxEnvelope,
}

impl Envelope {
    /// The bytes the envelope was decoded from.
    pub closed spec fn raw(&self) -> Seq<u8> {
        self.raw@
    }
}

/// Relies on `Decodable2718::decode_2718` for `TxEnvelope`: whether the
/// bytes decode depends on the bytes alone. A first byte up to `0x7f` is a
/// type, and only the types 1 to 4 decode (type 0 is refused); a larger
/// first byte is decoded as a legacy transaction, the only format whose
/// untagged decoding succeeds.
#[verifier::external_body]
fn decode_envelope(raw: Vec<u8>) -> (r: Result<Envelope, alloy_eips::eip2718::Eip2718Error>)
    ensures
        r is Ok <==> envelope_decodes(raw@),
        r matches Ok(e) ==> e.raw() == raw@,
        r is Ok ==> raw@.len() > 0 && type_byte_format(raw@[0]) is Some,
{
    match alloy_consensus::TxEnvelope::decode_2718(&mut raw.as_slice()) {
        Ok(tx) => Ok(Envelope { raw, tx }),
        Err(err) => Err(err),
    }
}

/// Relies on the variants of `EthereumTxEnvelope`, one for each format:
/// `decode_2718` picks the variant by the first byte.
#[verifier::external_body]
fn format_of(e: &Envelope) -> (r: TxFormat)
    requires
        e.raw().len() > 0,
    ensures
        type_byte_format(e.raw()[0]) == Some(r),
{
    match &e.tx {
        alloy_consensus::EthereumTxEnvelope::Legacy(_) => TxFormat::Legacy,
        alloy_consensus::EthereumTxEnvelope::Eip2930(_) => TxFormat::Eip2930,
        alloy_consensus::EthereumTxEnvelope::Eip1559(_) => TxFormat::Eip1559,
        alloy_consensus::EthereumTxEnvelope::Eip4844(_) => TxFormat::Eip4844,
        alloy_consensus::EthereumTxEnvelope::Eip7702(_) => TxFormat::Eip7702,
    }
}

/// Relies on `SignerRecoverable::recover_signer` for `TxEnvelope`: the
/// signer is recovered from the signature over the format's signing hash,
/// which depends on the envelope alone.
#[verifier::external_body]
fn recover_signer(e: &Envelope) -> (r: Result<Address, alloy_consensus::crypto::RecoveryError>)
    ensures
        match r {
            Ok(a) => envelope_signer(e.raw()) == Some(a@),
            Err(_) => envelope_signer(e.raw()) is None,
        },
{
    match e.tx.recover_signer() {
        Ok(a) => Ok(Address { bytes: a.into_array() }),
        Err(err) => Err(err),
    }
}

/// Relies on `Transaction::kind` for `TxEnvelope`: the target address, or
/// the mark of a contract creation.
#[verifier::external_body]
fn recipient_of(e: &Envelope) -> (r: ToAddress)
    ensures
        r@ == envelope_recipient(e.raw()),
{
    match e.tx.kind() {
        alloy_primitives::TxKind::Call(a) => ToAddress::Call(Address { bytes: a.into_array() }),
        alloy_primitives::TxKind::Create => ToAddress::Create,
    }
}

/// Why a raw transaction was refused.
#[derive(Clone, Copy, Debug, PartialEq, Eq, Structural)]
pub enum TxFault {
    /// The payload is not a decodable envelope of a supported format.
    IllegalTransaction,
    /// The envelope decodes, but no signer can be recovered from it.
    IllegalTransactionSignature,
}

/// The parties of a decoded transaction.
#[derive(Clone, Copy, Debug)]
pub struct DecodedTx {
    /// The address that signed the transaction.
    pub sender: Address,
    /// Its target, or the mark of a contract creation.
    pub recipient: ToAddress,
}

/// What decoding the bytes of an envelope gives: its sender and recipient,
/// or the fault.
pub open spec fn envelope_outcome(raw: Seq<u8>) -> Result<(Seq<u8>, Target), TxFault> {
    if !envelope_decodes(raw) || !announces_supported_format(raw) {
        Err(TxFault::IllegalTransaction)
    } else {
        match envelope_signer(raw) {
            Some(s) => Ok((s, envelope_recipient(raw))),
            None => Err(TxFault::IllegalTransactionSignature),
        }
    }
}

/// What decoding a hexadecimal payload gives.
pub open spec fn payload_outcome(text: Seq<char>) -> Result<(Seq<u8>, Target), TxFault> {
    match hex_text(text) {
        Some(raw) => envelope_outcome(raw),
        None => Err(TxFault::IllegalTransaction),
    }
}

/// Whether a decoding result agrees with an expected outcome.
pub open spec fn outcome_is(r: Result<DecodedTx, TxFault>, o: Result<(Seq<u8>, Target), TxFault>) -> bool {
    match r {
        Ok(d) => o == Ok::<(Seq<u8>, Target), TxFault>((d.sender@, d.recipient@)),
        Err(f) => o == Err::<(Seq<u8>, Target), TxFault>(f),
    }
}

/// Decodes the bytes of a signed transaction envelope and recovers its
/// signer.
pub fn decode_transaction(raw: Vec<u8>) -> (r: Result<DecodedTx, TxFault>)
    ensures
        outcome_is(r, envelope_outcome(raw@)),
        !announces_supported_format(raw@) ==> r == Err::<DecodedTx, TxFault>(
            TxFault::IllegalTransaction,
        ),
{
    let ghost bytes = raw@;
    let e = match decode_envelope(raw) {
        Ok(e) => e,
        Err(_) => {
            return Err(TxFault::IllegalTransaction);
        },
    };
    let format = format_of(&e);
    if format == TxFormat::Eip7702 {
        return Err(TxFault::IllegalTransaction);
    }
    let sender = match recover_signer(&e) {
        Ok(a) => a,
        Err(_) => {
            return Err(TxFault::IllegalTransactionSignature);
        },
    };
    let recipient = recipient_of(&e);
    assert(e.raw() == bytes);
    Ok(DecodedTx { sender, recipient })
}

/// Decodes a hexadecimal payload (with an optional `0x` prefix) holding a
/// signed transaction envelope, and recovers its signer. A payload that is
/// not hexadecimal is refused before any decoding.
pub fn decode_raw_transaction(text: &str) -> (r: Result<DecodedTx, TxFault>)
    ensures
        outcome_is(r, payload_outcome(text@)),
        hex_text(text@) is None ==> r == Err::<DecodedTx, TxFault>(TxFault::IllegalTransaction),
        hex_text(text@) matches Some(raw) && !announces_supported_format(raw) ==> r == Err::<
            DecodedTx,
            TxFault,
        >(TxFault::IllegalTransaction),
{
    match parse_hex(text) {
        Some(raw) => decode_transaction(raw),
        None => Err(TxFault::IllegalTransaction),
    }
}

} // verus!
