//! Payload derivation: deterministic framing and digest of the message to
//! sign.
//!
//! The message is framed with the personal-message convention — a fixed
//! prefix followed by the decimal byte length of the message, then the
//! message itself — so that a signature over it cannot be replayed as a
//! signature over a structured transaction.  The framed bytes are then
//! hashed with Keccak-256 to the fixed-size signing payload.
use sha3::Digest;
use vstd::prelude::*;

use crate::errors::Error;

verus! {

/// The framing prefix: the byte 0x19 followed by the text
/// `Ethereum Signed Message:` and a line feed.
pub open spec fn prefix_bytes() -> Seq<u8> {
    seq![
        0x19u8, 69u8, 116u8, 104u8, 101u8, 114u8, 101u8, 117u8, 109u8, 32u8, 83u8, 105u8, 103u8,
        110u8, 101u8, 100u8, 32u8, 77u8, 101u8, 115u8, 115u8, 97u8, 103u8, 101u8, 58u8, 10u8,
    ]
}

/// The decimal digits of `n`, as ASCII bytes, most significant first.
pub open spec fn dec_digits(n: nat) -> Seq<u8>
    decreases n,
{
    if n < 10 {
        seq![(48 + n) as u8]
    } else {
        dec_digits(n / 10).push((48 + n % 10) as u8)
    }
}

/// The personal-message framing of `message`: prefix, decimal byte length,
/// then the message bytes.
pub open spec fn erc191_of(message: Seq<u8>) -> Seq<u8> {
    prefix_bytes() + dec_digits(message.len()) + message
}

/// What Keccak-256 returns on `data`: a fixed 32-byte digest, a function
/// of the input bytes alone.
pub uninterp spec fn keccak256_of(data: Seq<u8>) -> Seq<u8>;

/// Relies on sha3::Keccak256: the digest depends on the input bytes alone.
#[verifier::external_body]
fn keccak256(data: &Vec<u8>) -> (r: [u8; 32])
    ensures
        r@ == keccak256_of(data@),
{
    let digest = sha3::Keccak256::digest(data.as_slice());
    let mut out = [0u8; 32];
    out.copy_from_slice(&digest);
    out
}

/// The signing payload derived from `message`: the Keccak-256 digest of
/// its personal-message framing.
pub open spec fn payload_of(message: Seq<u8>) -> Seq<u8> {
    keccak256_of(erc191_of(message))
}

/// The decimal digits of `n`, as ASCII bytes.
fn dec_ascii(n: usize) -> (r: Vec<u8>)
    ensures
        r@ == dec_digits(n as nat),
    decreases n,
{
    if n < 10 {
        let mut v: Vec<u8> = Vec::new();
        v.push(48 + n as u8);
        v
    } else {
        let mut v = dec_ascii(n / 10);
        v.push(48 + (n % 10) as u8);
        v
    }
}

/// Frames `message` with the personal-message convention: prefix, decimal
/// byte length, then the message bytes.
pub fn format_erc191(message: &Vec<u8>) -> (r: Vec<u8>)
    ensures
        r@ == erc191_of(message@),
{
    let mut out: Vec<u8> = vec![
        0x19u8, 69u8, 116u8, 104u8, 101u8, 114u8, 101u8, 117u8, 109u8, 32u8, 83u8, 105u8, 103u8,
        110u8, 101u8, 100u8, 32u8, 77u8, 101u8, 115u8, 115u8, 97u8, 103u8, 101u8, 58u8, 10u8,
    ];
    proof {
        assert(out@ =~= prefix_bytes());
    }
    let mut digits = dec_ascii(message.len());
    out.append(&mut digits);
    let n = message.len();
    let mut i: usize = 0;
    while i < n
        invariant
            n == message@.len(),
            0 <= i <= n,
            out@ == prefix_bytes() + dec_digits(message@.len()) + message@.subrange(0, i as int),
        decreases n - i,
    {
        out.push(message[i]);
        proof {
            assert(out@ =~= prefix_bytes() + dec_digits(message@.len()) + message@.subrange(
                0,
                i + 1,
            ));
        }
        i += 1;
    }
    proof {
        assert(message@.subrange(0, n as int) =~= message@);
    }
    out
}

/// The Keccak-256 digest of `data`.
pub fn generate_payload(data: &Vec<u8>) -> (r: [u8; 32])
    ensures
        r@ == keccak256_of(data@),
{
    keccak256(data)
}

/// The signing payload for `message`, or [`Error::InvalidArgument`] when
/// `message` is empty.  The payload is a function of the message bytes
/// alone: no randomness, no per-call salt.
pub fn derive_payload(message: &Vec<u8>) -> (r: Result<[u8; 32], Error>)
    ensures
        match r {
            Ok(p) => message@.len() > 0 && p@ == payload_of(message@),
            Err(e) => message@.len() == 0 && e == Error::InvalidArgument,
        },
{
    if message.len() == 0 {
        Err(Error::InvalidArgument)
    } else {
        let framed = format_erc191(message);
        Ok(generate_payload(&framed))
    }
}

/// The signing payload is deterministic: any two payloads derived from the
/// same message bytes are the same digest.
pub proof fn lemma_payload_deterministic(p1: Seq<u8>, p2: Seq<u8>, message: Seq<u8>)
    requires
        p1 == payload_of(message),
        p2 == payload_of(message),
    ensures
        p1 == p2,
{
}

} // verus!
