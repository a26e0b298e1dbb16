//! Hexadecimal text for quotes and measurements.
//!
//! The attestation quote arrives as hexadecimal text and the measurement
//! register leaves as hexadecimal text.  Encoding and decoding are done by
//! the `hex` crate; their exact meaning is stated here as spec functions
//! over character and byte sequences, and the trusted wrappers promise no
//! more than those statements.
use vstd::prelude::*;

use crate::errors::Error;

verus! {

/// Whether `c` is a hexadecimal digit, in either case.
pub open spec fn is_hex_digit(c: char) -> bool {
    ('0' <= c && c <= '9') || ('a' <= c && c <= 'f') || ('A' <= c && c <= 'F')
}

/// The numeric value of the hexadecimal digit `c`.
pub open spec fn hex_val(c: char) -> u8 {
    match c {
        '0' => 0, '1' => 1, '2' => 2, '3' => 3, '4' => 4,
        '5' => 5, '6' => 6, '7' => 7, '8' => 8, '9' => 9,
        'a' => 10, 'b' => 11, 'c' => 12, 'd' => 13, 'e' => 14, 'f' => 15,
        'A' => 10, 'B' => 11, 'C' => 12, 'D' => 13, 'E' => 14, 'F' => 15,
        _ => 0,
    }
}

/// The lower-case hexadecimal digit for the value `v`, which is below 16.
pub open spec fn hex_digit(v: u8) -> char {
    match v {
        0 => '0', 1 => '1', 2 => '2', 3 => '3', 4 => '4',
        5 => '5', 6 => '6', 7 => '7', 8 => '8', 9 => '9',
        10 => 'a', 11 => 'b', 12 => 'c', 13 => 'd', 14 => 'e',
        _ => 'f',
    }
}

/// Whether `s` is well-formed hexadecimal text: an even number of
/// characters, every one a hexadecimal digit.
pub open spec fn is_hex_str(s: Seq<char>) -> bool {
    s.len() % 2 == 0 && forall|i: int| 0 <= i < s.len() ==> is_hex_digit(#[trigger] s[i])
}

/// The bytes denoted by the well-formed hexadecimal text `s`, one byte per
/// digit pair, high nibble first.
pub open spec fn hex_bytes_of(s: Seq<char>) -> Seq<u8> {
    Seq::new((s.len() / 2) as nat, |i: int| (hex_val(s[2 * i]) * 16 + hex_val(s[2 * i + 1])) as u8)
}

/// The lower-case hexadecimal text denoting the bytes `b`, two digits per
/// byte, high nibble first.
pub open spec fn hex_of(b: Seq<u8>) -> Seq<char> {
    Seq::new(
        (2 * b.len()) as nat,
        |i: int| if i % 2 == 0 { hex_digit(b[i / 2] / 16) } else { hex_digit(b[i / 2] % 16) },
    )
}

/// Relies on hex::decode: it returns the denoted bytes exactly when the
/// input is an even number of hexadecimal digits, and fails otherwise.
#[verifier::external_body]
fn hex_decode(s: &String) -> (r: Option<Vec<u8>>)
    ensures
        r is Some <==> is_hex_str(s@),
        r is Some ==> r.unwrap()@ == hex_bytes_of(s@),
{
    match hex::decode(s.as_str()) {
        Ok(bytes) => Some(bytes),
        Err(_) => None,
    }
}

/// Relies on hex::encode: two lower-case digits for each byte, high nibble
/// first.
#[verifier::external_body]
fn hex_encode(b: &Vec<u8>) -> (r: String)
    ensures
        r@ == hex_of(b@),
{
    hex::encode(b)
}

/// The raw attestation quote denoted by `quote_hex`, or
/// [`Error::VerificationFailure`] when `quote_hex` is not well-formed
/// hexadecimal text.
pub fn quote_bytes(quote_hex: &String) -> (r: Result<Vec<u8>, Error>)
    ensures
        match r {
            Ok(b) => is_hex_str(quote_hex@) && b@ == hex_bytes_of(quote_hex@),
            Err(e) => !is_hex_str(quote_hex@) && e == Error::VerificationFailure,
        },
{
    match hex_decode(quote_hex) {
        Some(b) => Ok(b),
        None => Err(Error::VerificationFailure),
    }
}

/// The lower-case hexadecimal text of the measurement register `m`.
pub fn measurement_hex(m: &Vec<u8>) -> (r: String)
    ensures
        r@ == hex_of(m@),
{
    hex_encode(m)
}

} // verus!
