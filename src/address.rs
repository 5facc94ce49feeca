//! Textual contract identifiers and signing keys.
//!
//! Both can be written as 64 hexadecimal digits, optionally preceded by `0x`,
//! and stand for 32 bytes. A contract identifier can also be written in its
//! checksummed form (`fuel1...`, bech32m; a plain bech32 checksum is accepted
//! too). A signing key must in addition be a valid secp256k1 scalar: read as a
//! big-endian number, it lies strictly between zero and the curve order.
use std::str::FromStr;

use fuels::crypto::SecretKey;
use fuels::types::bech32::Bech32ContractId;
use fuels::types::ContractId;
use vstd::prelude::*;

verus! {

/// Number of bytes of a contract identifier or a signing key.
pub const ADDRESS_LEN: usize = 32;

/// An ASCII hexadecimal digit, in either case.
pub open spec fn is_hex_digit(c: char) -> bool {
    ('0' <= c && c <= '9') || ('a' <= c && c <= 'f') || ('A' <= c && c <= 'F')
}

/// The value of a hexadecimal digit.
pub open spec fn hex_value(c: char) -> nat {
    if '0' <= c && c <= '9' {
        (c as u32 - '0' as u32) as nat
    } else if 'a' <= c && c <= 'f' {
        (c as u32 - 'a' as u32 + 10) as nat
    } else {
        (c as u32 - 'A' as u32 + 10) as nat
    }
}

/// The digits of a hexadecimal text: what follows a leading `0x`, if there is one.
pub open spec fn hex_body(s: Seq<char>) -> Seq<char> {
    if s.len() >= 2 && s[0] == '0' && s[1] == 'x' {
        s.subrange(2, s.len() as int)
    } else {
        s
    }
}

/// The text spells 32 bytes: exactly 64 hexadecimal digits after an optional `0x`.
pub open spec fn is_hex32(s: Seq<char>) -> bool {
    &&& hex_body(s).len() == 2 * ADDRESS_LEN
    &&& forall|i: int| 0 <= i < hex_body(s).len() ==> is_hex_digit(#[trigger] hex_body(s)[i])
}

/// The 32 bytes that a text satisfying `is_hex32` spells, two digits per byte,
/// the high half first.
pub open spec fn hex32_bytes(s: Seq<char>) -> Seq<u8> {
    Seq::new(
        ADDRESS_LEN as nat,
        |i: int| (hex_value(hex_body(s)[2 * i]) * 16 + hex_value(hex_body(s)[2 * i + 1])) as u8,
    )
}

/// The number that a byte string denotes, most significant byte first.
pub open spec fn big_endian_value(b: Seq<u8>) -> nat
    decreases b.len(),
{
    if b.len() == 0 {
        0
    } else {
        big_endian_value(b.drop_last()) * 256 + b.last() as nat
    }
}

/// The order of the secp256k1 group.
pub open spec fn secp256k1_order() -> nat {
    0xFFFFFFFFFFFFFFFFFFFFFFFFFFFFFFFEBAAEDCE6AF48A03BBFD25E8CD0364141nat
}

/// The text spells a usable secret key: 32 bytes whose big-endian value is a
/// nonzero scalar below the group order.
pub open spec fn is_signing_key_text(s: Seq<char>) -> bool {
    &&& is_hex32(s)
    &&& 0 < big_endian_value(hex32_bytes(s))
    &&& big_endian_value(hex32_bytes(s)) < secp256k1_order()
}

/// The 32 bytes that a checksummed identifier names, or `None` where the text
/// does not decode to exactly 32 bytes with a valid bech32 or bech32m
/// checksum. The human-readable part before the separator is not held to
/// `fuel`.
pub uninterp spec fn bech32_contract_bytes(s: Seq<char>) -> Option<Seq<u8>>;

/// The text is a contract identifier in either accepted form.
pub open spec fn is_contract_id_text(s: Seq<char>) -> bool {
    is_hex32(s) || bech32_contract_bytes(s) is Some
}

/// The address that a contract identifier names: the hexadecimal reading
/// where the text is 64 hexadecimal digits, else the checksummed reading.
pub open spec fn contract_id_bytes(s: Seq<char>) -> Seq<u8> {
    if is_hex32(s) {
        hex32_bytes(s)
    } else {
        bech32_contract_bytes(s).unwrap()
    }
}

/// Relies on `ContractId::from_str` (fuel-types, through fuels): it strips one
/// leading `0x` and decodes the rest with `hex::decode_to_slice` into 32 bytes,
/// which fails unless the rest is 64 hexadecimal digits.
#[verifier::external_body]
fn contract_id_from_str(s: &str) -> (r: Result<[u8; 32], &'static str>)
    ensures
        r is Ok <==> is_hex32(s@),
        r matches Ok(b) ==> b@ == hex32_bytes(s@),
{
    ContractId::from_str(s).map(|id| *id)
}

/// Relies on `Bech32ContractId::from_str` (fuels-core, through fuels): it
/// decodes the text with `bech32::decode` and accepts the payload only if it is
/// exactly 32 bytes; the result depends on the text alone.
#[verifier::external_body]
fn contract_id_from_bech32(s: &str) -> (r: Result<[u8; 32], ()>)
    ensures
        r is Ok <==> bech32_contract_bytes(s@) is Some,
        r matches Ok(b) ==> bech32_contract_bytes(s@) == Some(b@),
{
    Bech32ContractId::from_str(s).map(|id| *id.hash()).map_err(|_| ())
}

/// Relies on `SecretKey::from_str` (fuel-crypto, through fuels): it decodes the
/// text as `Bytes32::from_str` does (one leading `0x` stripped, then 64
/// hexadecimal digits), then accepts the bytes only if k256 reads them as a
/// nonzero big-endian scalar below the secp256k1 order.
#[verifier::external_body]
fn secret_key_from_str(s: &str) -> (r: Result<[u8; 32], ()>)
    ensures
        r is Ok <==> is_signing_key_text(s@),
        r matches Ok(b) ==> b@ == hex32_bytes(s@),
{
    SecretKey::from_str(s).map(|k| *k).map_err(|_| ())
}

/// The on-chain address of a contract.
pub struct ContractAddress {
    pub bytes: [u8; 32],
}

/// Why a contract identifier was refused.
#[derive(Debug, Clone, Copy, PartialEq, Eq, Structural)]
pub enum ContractIdError {
    /// The text is neither 64 hexadecimal digits after an optional `0x` nor
    /// a checksummed identifier of 32 bytes.
    Malformed,
}

impl ContractAddress {
    /// Reads a contract identifier written as 64 hexadecimal digits, with or
    /// without a leading `0x`, or in its checksummed form.
    pub fn parse(text: &str) -> (r: Result<ContractAddress, ContractIdError>)
        ensures
            r is Ok <==> is_contract_id_text(text@),
            r matches Ok(a) ==> a.bytes@ == contract_id_bytes(text@),
            is_hex32(text@) ==> (r matches Ok(a) && a.bytes@ == hex32_bytes(text@)),
            r matches Err(e) ==> e == ContractIdError::Malformed,
    {
        match contract_id_from_str(text) {
            Ok(bytes) => Ok(ContractAddress { bytes }),
            Err(_) => match contract_id_from_bech32(text) {
                Ok(bytes) => Ok(ContractAddress { bytes }),
                Err(_) => Err(ContractIdError::Malformed),
            },
        }
    }
}

/// The secret key of a signing wallet, a valid secp256k1 scalar.
pub struct SigningKey {
    pub bytes: [u8; 32],
}

impl SigningKey {
    /// The bytes are a nonzero big-endian scalar below the group order.
    pub open spec fn wf(&self) -> bool {
        0 < big_endian_value(self.bytes@) < secp256k1_order()
    }

    /// Reads a secret key written as 64 hexadecimal digits, with or without a
    /// leading `0x`; `None` where the text is malformed or the number is not a
    /// valid scalar.
    pub fn parse(text: &str) -> (r: Option<SigningKey>)
        ensures
            r is Some <==> is_signing_key_text(text@),
            r matches Some(k) ==> k.bytes@ == hex32_bytes(text@) && k.wf(),
    {
        match secret_key_from_str(text) {
            Ok(bytes) => Some(SigningKey { bytes }),
            Err(_) => None,
        }
    }
}

} // verus!
