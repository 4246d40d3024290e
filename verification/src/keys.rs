//! Public and private keys, held as their serialized bytes.
//!
//! A public key is carried in the encoding its owner chose: 33 bytes
//! (compressed) or 65 bytes (uncompressed).  Signer hashes are computed over
//! exactly these bytes, so the chosen encoding is part of the signer's
//! identity.

use vstd::prelude::*;
use crate::codec;
use crate::crypto;
use crate::hashes::{MessageSignature, Txid};

verus! {

/// A secp256k1 public key, as its serialized bytes.
#[derive(Clone, Debug, PartialEq, Eq)]
pub struct StacksPublicKey {
    pub data: Vec<u8>,
}

impl View for StacksPublicKey {
    type V = Seq<u8>;

    open spec fn view(&self) -> Seq<u8> {
        self.data@
    }
}

impl StacksPublicKey {
    /// Structural validity: a 33-byte compressed or 65-byte uncompressed
    /// serialization.
    pub open spec fn wf(&self) -> bool {
        self@.len() == 33 || self@.len() == 65
    }

    /// Accepts a 33- or 65-byte serialization; any other length is rejected.
    pub fn from_bytes(bytes: Vec<u8>) -> (r: Option<Self>)
        ensures
            (bytes@.len() == 33 || bytes@.len() == 65) ==> (r matches Some(k) && k@ == bytes@
                && k.wf()),
            !(bytes@.len() == 33 || bytes@.len() == 65) ==> r is None,
    {
        if bytes.len() == 33 || bytes.len() == 65 {
            Some(StacksPublicKey { data: bytes })
        } else {
            None
        }
    }

    /// Whether the key is carried in compressed form.
    pub fn is_compressed(&self) -> (r: bool)
        ensures
            r == (self@.len() == 33),
    {
        self.data.len() == 33
    }

    /// Copies the key.
    pub fn dup(&self) -> (r: Self)
        ensures
            r@ == self@,
    {
        StacksPublicKey { data: codec::dup_bytes(&self.data) }
    }
}

/// A secp256k1 secret key (32 bytes).
#[derive(Clone, Debug, PartialEq, Eq)]
pub struct StacksPrivateKey {
    pub data: Vec<u8>,
}

impl View for StacksPrivateKey {
    type V = Seq<u8>;

    open spec fn view(&self) -> Seq<u8> {
        self.data@
    }
}

impl StacksPrivateKey {
    /// Structural validity: exactly 32 bytes.
    pub open spec fn wf(&self) -> bool {
        self@.len() == 32
    }

    /// Accepts exactly 32 bytes; any other length is rejected.
    pub fn from_bytes(bytes: Vec<u8>) -> (r: Option<Self>)
        ensures
            bytes@.len() == 32 ==> (r matches Some(k) && k@ == bytes@ && k.wf()),
            bytes@.len() != 32 ==> r is None,
    {
        if bytes.len() == 32 {
            Some(StacksPrivateKey { data: bytes })
        } else {
            None
        }
    }

    /// The compressed public key of this secret key; fails exactly when the
    /// bytes are not a valid secret scalar.
    pub fn to_public_key(&self) -> (r: Option<StacksPublicKey>)
        requires
            self.wf(),
        ensures
            match r {
                Some(k) => crypto::pubkey_of(self@) == Some(k@) && k@.len() == 33 && k.wf(),
                None => crypto::pubkey_of(self@) is None,
            },
    {
        match crypto::secp256k1_pubkey(&self.data) {
            Some(k) => Some(StacksPublicKey { data: k }),
            None => None,
        }
    }

    /// Signs a 32-byte digest, producing a recoverable signature from which
    /// this key's public key can be recovered against the same digest; fails
    /// exactly when the bytes are not a valid secret scalar.
    pub fn sign(&self, sighash: &Txid) -> (r: Option<MessageSignature>)
        requires
            self.wf(),
            sighash.wf(),
        ensures
            match r {
                Some(s) => {
                    &&& s@ == crypto::signature_of(self@, sighash@)
                    &&& s.wf()
                    &&& crypto::pubkey_of(self@) is Some
                    &&& crypto::recovered_pubkey_of(sighash@, s@) == crypto::pubkey_of(self@)
                },
                None => crypto::pubkey_of(self@) is None,
            },
    {
        match crypto::secp256k1_sign(&self.data, &sighash.0) {
            Some(s) => Some(MessageSignature(s)),
            None => None,
        }
    }
}

} // verus!
