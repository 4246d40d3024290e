//! Trusted boundary to the cryptographic primitives.
//!
//! Every hash and every elliptic-curve operation the library relies on is a
//! pure function of its input bytes.  Each such result is given an
//! uninterpreted name here, and a thin wrapper performs the actual call.
//! All contracts elsewhere in the crate speak of these names, so a caller
//! can see exactly which cryptographic facts a proof rests on.

use vstd::prelude::*;
use sha2::Digest;

verus! {

/// The SHA-256 digest (32 bytes) of a byte string.
pub uninterp spec fn sha256_of(data: Seq<u8>) -> Seq<u8>;

/// The RIPEMD-160 digest (20 bytes) of a byte string.
pub uninterp spec fn ripemd160_of(data: Seq<u8>) -> Seq<u8>;

/// The SHA-512/256 digest (32 bytes) of a byte string.
pub uninterp spec fn sha512_256_of(data: Seq<u8>) -> Seq<u8>;

/// The public key (compressed, 33 bytes) recovered from a 32-byte message
/// digest and a 65-byte recoverable signature (recovery id first), or `None`
/// if the signature bytes do not recover to a valid curve point.
pub uninterp spec fn recovered_pubkey_of(msg: Seq<u8>, sig: Seq<u8>) -> Option<Seq<u8>>;

/// The uncompressed (65-byte) serialization of a compressed (33-byte) public
/// key, or `None` if the bytes are not a valid compressed curve point.
pub uninterp spec fn uncompressed_form_of(key: Seq<u8>) -> Option<Seq<u8>>;

/// The 65-byte recoverable signature (recovery id first) that the
/// deterministic (RFC 6979) ECDSA signer produces over a 32-byte message
/// digest with a 32-byte secret key.
pub uninterp spec fn signature_of(privkey: Seq<u8>, msg: Seq<u8>) -> Seq<u8>;

/// The compressed (33-byte) public key of a 32-byte secret key, or `None`
/// if the bytes are not a valid secret scalar.
pub uninterp spec fn pubkey_of(privkey: Seq<u8>) -> Option<Seq<u8>>;

/// The 160-bit hash used for signer identities and addresses:
/// RIPEMD-160 applied to the SHA-256 of the input.
pub open spec fn hash160_of(data: Seq<u8>) -> Seq<u8> {
    ripemd160_of(sha256_of(data))
}

/// Relies on `sha2::Sha256` (one-shot `Digest::digest`): a 32-byte digest,
/// a function of the input bytes alone.
#[verifier::external_body]
pub(crate) fn sha256(data: &Vec<u8>) -> (r: Vec<u8>)
    ensures
        r@ == sha256_of(data@),
        r@.len() == 32,
{
    sha2::Sha256::digest(data.as_slice()).to_vec()
}

/// Relies on `ripemd::Ripemd160` (one-shot `Digest::digest`): a 20-byte
/// digest, a function of the input bytes alone.
#[verifier::external_body]
pub(crate) fn ripemd160(data: &Vec<u8>) -> (r: Vec<u8>)
    ensures
        r@ == ripemd160_of(data@),
        r@.len() == 20,
{
    ripemd::Ripemd160::digest(data.as_slice()).to_vec()
}

/// Relies on `sha2::Sha512_256` (one-shot `Digest::digest`): a 32-byte
/// digest, a function of the input bytes alone.
#[verifier::external_body]
pub(crate) fn sha512_256(data: &Vec<u8>) -> (r: Vec<u8>)
    ensures
        r@ == sha512_256_of(data@),
        r@.len() == 32,
{
    sha2::Sha512_256::digest(data.as_slice()).to_vec()
}

/// Computes the 160-bit signer-identity hash: RIPEMD-160 of SHA-256.
pub fn hash160(data: &Vec<u8>) -> (r: Vec<u8>)
    ensures
        r@ == hash160_of(data@),
        r@.len() == 20,
{
    let inner = sha256(data);
    ripemd160(&inner)
}

/// Relies on `libsecp256k1::recover`: ECDSA public-key recovery, a pure
/// function of the 32-byte digest and the 65-byte recoverable signature.
/// The recovered key is returned in compressed form
/// (`PublicKey::serialize_compressed`, 33 bytes).  A recovered key is a
/// valid curve point, so parsing its compressed form back and serializing
/// it uncompressed cannot fail: its uncompressed form exists.
#[verifier::external_body]
pub(crate) fn secp256k1_recover(msg: &Vec<u8>, sig: &Vec<u8>) -> (r: Option<Vec<u8>>)
    requires
        msg@.len() == 32,
        sig@.len() == 65,
    ensures
        match r {
            Some(k) => recovered_pubkey_of(msg@, sig@) == Some(k@) && k@.len() == 33
                && uncompressed_form_of(k@) is Some,
            None => recovered_pubkey_of(msg@, sig@) is None,
        },
{
    let rid = libsecp256k1::RecoveryId::parse(sig[0]).ok()?;
    let s = libsecp256k1::Signature::parse_standard_slice(&sig[1..65]).ok()?;
    let m = libsecp256k1::Message::parse_slice(&msg[..]).ok()?;
    let k = libsecp256k1::recover(&m, &s, &rid).ok()?;
    Some(k.serialize_compressed().to_vec())
}

/// Relies on `libsecp256k1::PublicKey::serialize`: the 65-byte uncompressed
/// form of a public key parsed from its 33-byte compressed form.
#[verifier::external_body]
pub(crate) fn secp256k1_decompress(key: &Vec<u8>) -> (r: Option<Vec<u8>>)
    requires
        key@.len() == 33,
    ensures
        match r {
            Some(k) => uncompressed_form_of(key@) == Some(k@) && k@.len() == 65,
            None => uncompressed_form_of(key@) is None,
        },
{
    let mut raw = [0u8; 33];
    raw.copy_from_slice(key.as_slice());
    match libsecp256k1::PublicKey::parse_compressed(&raw) {
        Ok(k) => Some(k.serialize().to_vec()),
        Err(_) => None,
    }
}

/// Relies on `libsecp256k1::PublicKey::from_secret_key`: the public key of a
/// secret scalar, returned in compressed form (33 bytes); fails only when the
/// bytes are not a valid secret scalar.
#[verifier::external_body]
pub(crate) fn secp256k1_pubkey(privkey: &Vec<u8>) -> (r: Option<Vec<u8>>)
    requires
        privkey@.len() == 32,
    ensures
        match r {
            Some(k) => pubkey_of(privkey@) == Some(k@) && k@.len() == 33,
            None => pubkey_of(privkey@) is None,
        },
{
    let sk = libsecp256k1::SecretKey::parse_slice(privkey.as_slice()).ok()?;
    let k = libsecp256k1::PublicKey::from_secret_key(&sk);
    Some(k.serialize_compressed().to_vec())
}

/// Relies on `libsecp256k1::sign`: deterministic (RFC 6979) recoverable
/// ECDSA, a pure function of the secret key and the 32-byte digest, and on
/// `libsecp256k1::recover` returning the signer's public key for a signature
/// that `sign` produced over the same digest.  Fails only when the key bytes
/// are not a valid secret scalar.
#[verifier::external_body]
pub(crate) fn secp256k1_sign(privkey: &Vec<u8>, msg: &Vec<u8>) -> (r: Option<Vec<u8>>)
    requires
        privkey@.len() == 32,
        msg@.len() == 32,
    ensures
        match r {
            Some(s) => {
                &&& s@ == signature_of(privkey@, msg@)
                &&& s@.len() == 65
                &&& pubkey_of(privkey@) is Some
                &&& recovered_pubkey_of(msg@, s@) == pubkey_of(privkey@)
            },
            None => pubkey_of(privkey@) is None,
        },
{
    let sk = libsecp256k1::SecretKey::parse_slice(privkey.as_slice()).ok()?;
    let m = libsecp256k1::Message::parse_slice(msg.as_slice()).ok()?;
    let (sig, rid) = libsecp256k1::sign(&m, &sk);
    let mut out = vec![rid.serialize()];
    out.extend_from_slice(&sig.serialize());
    Some(out)
}

} // verus!
