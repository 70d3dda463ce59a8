use vstd::prelude::*;

use crate::errors::{ErrorKind, WalletError};

use bitcoin_hashes::hex::ToHex;

verus! {

/// The base64 encoding (standard alphabet, padded) of a byte string.
pub uninterp spec fn b64_of(bytes: Seq<u8>) -> Seq<char>;

/// The bytes a well-formed base64 string encodes.
pub uninterp spec fn b64_bytes_of(s: Seq<char>) -> Seq<u8>;

/// Whether a string is well-formed base64.
pub uninterp spec fn b64_valid(s: Seq<char>) -> bool;

/// The lowercase hex digit for a value in 0..16.
pub open spec fn hex_digit(d: int) -> char {
    if d == 0 {
        '0'
    } else if d == 1 {
        '1'
    } else if d == 2 {
        '2'
    } else if d == 3 {
        '3'
    } else if d == 4 {
        '4'
    } else if d == 5 {
        '5'
    } else if d == 6 {
        '6'
    } else if d == 7 {
        '7'
    } else if d == 8 {
        '8'
    } else if d == 9 {
        '9'
    } else if d == 10 {
        'a'
    } else if d == 11 {
        'b'
    } else if d == 12 {
        'c'
    } else if d == 13 {
        'd'
    } else if d == 14 {
        'e'
    } else {
        'f'
    }
}

/// The lowercase hex encoding of a byte string: two digits per byte,
/// high nibble first.
pub open spec fn hex_of(bytes: Seq<u8>) -> Seq<char>
    decreases bytes.len(),
{
    if bytes.len() == 0 {
        Seq::<char>::empty()
    } else {
        hex_of(bytes.drop_last()) + seq![
            hex_digit(bytes.last() as int / 16),
            hex_digit(bytes.last() as int % 16),
        ]
    }
}

/// The value of a hex digit character, either case; 16 marks a non-digit.
pub open spec fn hex_char_val(c: char) -> int {
    if c == '0' {
        0
    } else if c == '1' {
        1
    } else if c == '2' {
        2
    } else if c == '3' {
        3
    } else if c == '4' {
        4
    } else if c == '5' {
        5
    } else if c == '6' {
        6
    } else if c == '7' {
        7
    } else if c == '8' {
        8
    } else if c == '9' {
        9
    } else if c == 'a' || c == 'A' {
        10
    } else if c == 'b' || c == 'B' {
        11
    } else if c == 'c' || c == 'C' {
        12
    } else if c == 'd' || c == 'D' {
        13
    } else if c == 'e' || c == 'E' {
        14
    } else if c == 'f' || c == 'F' {
        15
    } else {
        16
    }
}

/// Whether a string is well-formed hex: even length, hex digits of
/// either case only.
pub open spec fn hex_valid(s: Seq<char>) -> bool {
    s.len() % 2 == 0 && forall|i: int| 0 <= i < s.len() ==> hex_char_val(#[trigger] s[i]) < 16
}

/// The bytes a well-formed hex string encodes, one byte per digit pair.
pub open spec fn hex_bytes_of(s: Seq<char>) -> Seq<u8>
    decreases s.len(),
{
    if s.len() < 2 {
        Seq::<u8>::empty()
    } else {
        hex_bytes_of(s.take(s.len() - 2)).push(
            (hex_char_val(s[s.len() - 2]) * 16 + hex_char_val(s[s.len() - 1])) as u8,
        )
    }
}

/// Relies on base64::encode with the standard padded alphabet: the result
/// is a function of the bytes alone, and base64::decode inverts it.
#[verifier::external_body]
pub(crate) fn base64_encode(bytes: &Vec<u8>) -> (r: String)
    ensures
        r@ == b64_of(bytes@),
        b64_valid(r@),
        b64_bytes_of(r@) == bytes@,
{
    base64::encode(bytes)
}

/// Relies on base64::decode: it succeeds exactly on well-formed base64
/// and returns the bytes the string encodes.
#[verifier::external_body]
pub(crate) fn base64_decode(s: &str) -> (r: Result<Vec<u8>, WalletError>)
    ensures
        r is Ok <==> b64_valid(s@),
        r matches Ok(v) ==> v@ == b64_bytes_of(s@),
        r matches Err(e) ==> e.kind == ErrorKind::InvalidInput,
{
    base64::decode(s).map_err(|e| WalletError::new(ErrorKind::InvalidInput, e.to_string()))
}

/// Relies on bitcoin_hashes' ToHex for byte slices: it renders exactly
/// `hex_of`, two lowercase digits per byte, and hex::decode inverts it.
#[verifier::external_body]
pub(crate) fn hex_encode(bytes: &Vec<u8>) -> (r: String)
    ensures
        r@ == hex_of(bytes@),
        r@.len() == 2 * bytes@.len(),
        hex_valid(r@),
        hex_bytes_of(r@) == bytes@,
{
    bytes.to_hex()
}

/// Relies on hex::decode: it succeeds exactly on the strings `hex_valid`
/// admits and returns `hex_bytes_of` them, one byte for two digits.
#[verifier::external_body]
pub(crate) fn hex_decode(s: &str) -> (r: Result<Vec<u8>, WalletError>)
    ensures
        r is Ok <==> hex_valid(s@),
        r matches Ok(v) ==> v@ == hex_bytes_of(s@) && s@.len() == 2 * v@.len(),
        r matches Err(e) ==> e.kind == ErrorKind::InvalidInput,
{
    hex::decode(s).map_err(|e| WalletError::new(ErrorKind::InvalidInput, e.to_string()))
}

/// Decodes the caller's base64 PSBT text into the serialized PSBT bytes;
/// rejects text that is not well-formed base64.
pub fn psbt_bytes_from_base64(psbt_b64: &str) -> (r: Result<Vec<u8>, WalletError>)
    ensures
        r is Ok <==> b64_valid(psbt_b64@),
        r matches Ok(v) ==> v@ == b64_bytes_of(psbt_b64@),
        r matches Err(e) ==> e.kind == ErrorKind::InvalidInput,
{
    base64_decode(psbt_b64)
}

/// Decodes the caller's hex transaction text into raw transaction bytes;
/// rejects text that is not well-formed hex.
pub fn raw_tx_bytes_from_hex(tx_hex: &str) -> (r: Result<Vec<u8>, WalletError>)
    ensures
        r is Ok <==> hex_valid(tx_hex@),
        r matches Ok(v) ==> v@ == hex_bytes_of(tx_hex@) && tx_hex@.len() == 2 * v@.len(),
        r matches Err(e) ==> e.kind == ErrorKind::InvalidInput,
{
    hex_decode(tx_hex)
}

} // verus!
