//! The SHA3 hash functions of the `rust-crypto` crate (`crypto::sha3`).
//!
//! Each wrapper starts a fresh hasher of one output size, feeds it one message
//! and reads the whole digest.  Feeding the parts of a message one after the
//! other, as the key derivations of this library describe it, is the same as
//! feeding their concatenation, so the library builds the message as a byte
//! vector in verified code and hashes it here.

use crypto::digest::Digest;
use crypto::sha3::Sha3;
use vstd::prelude::*;

verus! {

/// The SHA3-256 digest of a message, as `crypto::sha3::Sha3::sha3_256` computes it.
pub uninterp spec fn sha3_256_digest(data: Seq<u8>) -> Seq<u8>;

/// The SHA3-384 digest of a message, as `crypto::sha3::Sha3::sha3_384` computes it.
pub uninterp spec fn sha3_384_digest(data: Seq<u8>) -> Seq<u8>;

/// The SHA3-512 digest of a message, as `crypto::sha3::Sha3::sha3_512` computes it.
pub uninterp spec fn sha3_512_digest(data: Seq<u8>) -> Seq<u8>;

/// Hashes `data` with `crypto::sha3::Sha3::sha3_256` (`input`, then `result`
/// into a 32-byte buffer).  Claimed: the 32 bytes are the digest of `data`.
#[verifier::external_body]
pub(crate) fn sha3_256(data: &[u8]) -> (r: [u8; 32])
    ensures
        r@ == sha3_256_digest(data@),
{
    let mut sha = Sha3::sha3_256();
    sha.input(data);
    let mut r = [0u8; 32];
    sha.result(&mut r);
    r
}

/// Hashes `data` with `crypto::sha3::Sha3::sha3_384` (`input`, then `result`
/// into a 48-byte buffer).  Claimed: the 48 bytes are the digest of `data`.
#[verifier::external_body]
pub(crate) fn sha3_384(data: &[u8]) -> (r: [u8; 48])
    ensures
        r@ == sha3_384_digest(data@),
{
    let mut sha = Sha3::sha3_384();
    sha.input(data);
    let mut r = [0u8; 48];
    sha.result(&mut r);
    r
}

/// Hashes `data` with `crypto::sha3::Sha3::sha3_512` (`input`, then `result`
/// into a 64-byte buffer).  Claimed: the 64 bytes are the digest of `data`.
#[verifier::external_body]
pub(crate) fn sha3_512(data: &[u8]) -> (r: [u8; 64])
    ensures
        r@ == sha3_512_digest(data@),
{
    let mut sha = Sha3::sha3_512();
    sha.input(data);
    let mut r = [0u8; 64];
    sha.result(&mut r);
    r
}

} // verus!
