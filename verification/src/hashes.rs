//! Fixed-size byte-array value types: hashes, signatures, and proofs.
//!
//! Each type wraps its raw bytes and carries a well-formedness predicate
//! fixing its exact length.  Equality of two values is equality of their
//! bytes, checked by `bytes_eq`.

use vstd::prelude::*;
use crate::crypto;

verus! {

/// Compares two byte strings for equality.  Equal-length strings — the
/// authentication data this library compares has a fixed length — are
/// walked in full, accumulating a difference flag rather than returning at
/// the first mismatch, so the comparison's duration does not reveal where
/// two values diverge.
pub fn bytes_eq(a: &Vec<u8>, b: &Vec<u8>) -> (r: bool)
    ensures
        r == (a@ == b@),
{
    if a.len() != b.len() {
        return false;
    }
    let mut diff: u8 = 0;
    let mut i: usize = 0;
    while i < a.len()
        invariant
            i <= a.len(),
            a@.len() == b@.len(),
            (diff == 0) <==> (forall|j: int| 0 <= j < i ==> a@[j] == b@[j]),
        decreases a.len() - i,
    {
        let x = a[i] ^ b[i];
        proof {
            let av = a@[i as int];
            let bv = b@[i as int];
            assert(((av ^ bv) == 0) <==> (av == bv)) by (bit_vector);
            assert(((diff | (av ^ bv)) == 0) <==> (diff == 0 && (av ^ bv) == 0)) by (bit_vector);
        }
        diff = diff | x;
        i = i + 1;
    }
    proof {
        if diff == 0 {
            assert(a@ =~= b@);
        }
    }
    diff == 0
}

/// A 160-bit hash identifying a signer or an address (20 bytes).
#[derive(Clone, Debug, PartialEq, Eq)]
pub struct Hash160(pub Vec<u8>);

impl View for Hash160 {
    type V = Seq<u8>;

    open spec fn view(&self) -> Seq<u8> {
        self.0@
    }
}

impl Hash160 {
    /// Structural validity: exactly 20 bytes.
    pub open spec fn wf(&self) -> bool {
        self@.len() == 20
    }

    /// Accepts exactly 20 bytes; any other length is rejected.
    pub fn from_bytes(bytes: Vec<u8>) -> (r: Option<Self>)
        ensures
            bytes@.len() == 20 ==> (r matches Some(h) && h@ == bytes@ && h.wf()),
            bytes@.len() != 20 ==> r is None,
    {
        if bytes.len() == 20 {
            Some(Hash160(bytes))
        } else {
            None
        }
    }
}

/// A 256-bit SHA-512/256 digest (32 bytes), the canonical transaction and
/// Merkle-commitment hash.
#[derive(Clone, Debug, PartialEq, Eq)]
pub struct Sha512Trunc256Sum(pub Vec<u8>);

impl View for Sha512Trunc256Sum {
    type V = Seq<u8>;

    open spec fn view(&self) -> Seq<u8> {
        self.0@
    }
}

impl Sha512Trunc256Sum {
    /// Structural validity: exactly 32 bytes.
    pub open spec fn wf(&self) -> bool {
        self@.len() == 32
    }

    /// Accepts exactly 32 bytes; any other length is rejected.
    pub fn from_bytes(bytes: Vec<u8>) -> (r: Option<Self>)
        ensures
            bytes@.len() == 32 ==> (r matches Some(h) && h@ == bytes@ && h.wf()),
            bytes@.len() != 32 ==> r is None,
    {
        if bytes.len() == 32 {
            Some(Sha512Trunc256Sum(bytes))
        } else {
            None
        }
    }

    /// The SHA-512/256 digest of the given bytes.
    pub fn from_data(data: &Vec<u8>) -> (r: Self)
        ensures
            r@ == crypto::sha512_256_of(data@),
            r.wf(),
    {
        Sha512Trunc256Sum(crypto::sha512_256(data))
    }
}

/// The hash identifying an anchored block header (32 bytes).
#[derive(Clone, Debug, PartialEq, Eq)]
pub struct BlockHeaderHash(pub Vec<u8>);

impl View for BlockHeaderHash {
    type V = Seq<u8>;

    open spec fn view(&self) -> Seq<u8> {
        self.0@
    }
}

impl BlockHeaderHash {
    /// Structural validity: exactly 32 bytes.
    pub open spec fn wf(&self) -> bool {
        self@.len() == 32
    }

    /// Accepts exactly 32 bytes; any other length is rejected.
    pub fn from_bytes(bytes: Vec<u8>) -> (r: Option<Self>)
        ensures
            bytes@.len() == 32 ==> (r matches Some(h) && h@ == bytes@ && h.wf()),
            bytes@.len() != 32 ==> r is None,
    {
        if bytes.len() == 32 {
            Some(BlockHeaderHash(bytes))
        } else {
            None
        }
    }
}

/// The hash identifying a burn-chain block header (32 bytes).
#[derive(Clone, Debug, PartialEq, Eq)]
pub struct BurnchainHeaderHash(pub Vec<u8>);

impl View for BurnchainHeaderHash {
    type V = Seq<u8>;

    open spec fn view(&self) -> Seq<u8> {
        self.0@
    }
}

impl BurnchainHeaderHash {
    /// Structural validity: exactly 32 bytes.
    pub open spec fn wf(&self) -> bool {
        self@.len() == 32
    }
}

/// The root hash of the state-commitment trie (32 bytes).
#[derive(Clone, Debug, PartialEq, Eq)]
pub struct TrieHash(pub Vec<u8>);

impl View for TrieHash {
    type V = Seq<u8>;

    open spec fn view(&self) -> Seq<u8> {
        self.0@
    }
}

impl TrieHash {
    /// Structural validity: exactly 32 bytes.
    pub open spec fn wf(&self) -> bool {
        self@.len() == 32
    }

    /// Accepts exactly 32 bytes; any other length is rejected.
    pub fn from_bytes(bytes: Vec<u8>) -> (r: Option<Self>)
        ensures
            bytes@.len() == 32 ==> (r matches Some(h) && h@ == bytes@ && h.wf()),
            bytes@.len() != 32 ==> r is None,
    {
        if bytes.len() == 32 {
            Some(TrieHash(bytes))
        } else {
            None
        }
    }
}

/// The canonical identifier of a transaction or a sighash (32 bytes).
#[derive(Clone, Debug, PartialEq, Eq)]
pub struct Txid(pub Vec<u8>);

impl View for Txid {
    type V = Seq<u8>;

    open spec fn view(&self) -> Seq<u8> {
        self.0@
    }
}

impl Txid {
    /// Structural validity: exactly 32 bytes.
    pub open spec fn wf(&self) -> bool {
        self@.len() == 32
    }

    /// A transaction ID is a single SHA-512/256 hash of the transaction's
    /// canonical encoding (not a double application of another hash).
    pub fn from_stacks_tx(txdata: &Vec<u8>) -> (r: Txid)
        ensures
            r@ == crypto::sha512_256_of(txdata@),
            r.wf(),
    {
        Txid(crypto::sha512_256(txdata))
    }

    /// A sighash is calculated the same way as a transaction ID.
    pub fn from_sighash_bytes(txdata: &Vec<u8>) -> (r: Txid)
        ensures
            r@ == crypto::sha512_256_of(txdata@),
            r.wf(),
    {
        Txid::from_stacks_tx(txdata)
    }
}

/// A recoverable ECDSA signature: one recovery-id byte followed by the
/// 64-byte compact signature (65 bytes in all).
#[derive(Clone, Debug, PartialEq, Eq)]
pub struct MessageSignature(pub Vec<u8>);

impl View for MessageSignature {
    type V = Seq<u8>;

    open spec fn view(&self) -> Seq<u8> {
        self.0@
    }
}

impl MessageSignature {
    /// Structural validity: exactly 65 bytes.
    pub open spec fn wf(&self) -> bool {
        self@.len() == 65
    }

    /// Accepts exactly 65 bytes; any other length is rejected.
    pub fn from_raw(bytes: Vec<u8>) -> (r: Option<Self>)
        ensures
            bytes@.len() == 65 ==> (r matches Some(h) && h@ == bytes@ && h.wf()),
            bytes@.len() != 65 ==> r is None,
    {
        if bytes.len() == 65 {
            Some(MessageSignature(bytes))
        } else {
            None
        }
    }
}

/// A verifiable-random-function proof of leader-election eligibility
/// (80 bytes).
#[derive(Clone, Debug, PartialEq, Eq)]
pub struct VRFProof(pub Vec<u8>);

impl View for VRFProof {
    type V = Seq<u8>;

    open spec fn view(&self) -> Seq<u8> {
        self.0@
    }
}

impl VRFProof {
    /// Structural validity: exactly 80 bytes.
    pub open spec fn wf(&self) -> bool {
        self@.len() == 80
    }

    /// Accepts exactly 80 bytes; any other length is rejected.
    pub fn from_bytes(bytes: Vec<u8>) -> (r: Option<Self>)
        ensures
            bytes@.len() == 80 ==> (r matches Some(h) && h@ == bytes@ && h.wf()),
            bytes@.len() != 80 ==> r is None,
    {
        if bytes.len() == 80 {
            Some(VRFProof(bytes))
        } else {
            None
        }
    }
}

} // verus!
