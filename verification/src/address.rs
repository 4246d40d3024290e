//! Versioned addresses and the generic address-hash-mode tag.

use vstd::prelude::*;
use crate::codec;
use crate::codec::{bytes_at, be_bytes, opt_view, spec_read_be, spec_read_bytes};
use crate::crypto;
use crate::hashes::Hash160;

verus! {

/// Mainnet address version byte for single-signature spending.
pub const C32_ADDRESS_VERSION_MAINNET_SINGLESIG: u8 = 22;

/// Mainnet address version byte for multi-signature spending.
pub const C32_ADDRESS_VERSION_MAINNET_MULTISIG: u8 = 20;

/// Testnet address version byte for single-signature spending.
pub const C32_ADDRESS_VERSION_TESTNET_SINGLESIG: u8 = 26;

/// Testnet address version byte for multi-signature spending.
pub const C32_ADDRESS_VERSION_TESTNET_MULTISIG: u8 = 21;

/// Number of bytes in an encoded address: a version byte plus a 20-byte hash.
pub const STACKS_ADDRESS_ENCODED_SIZE: u32 = 21;

/// The generic tag naming how a signer hash was derived.  The typed
/// single-signature and multi-signature hash modes each map bidirectionally
/// into this set.
#[derive(Clone, Copy, Debug, PartialEq, Eq, Structural)]
pub enum AddressHashMode {
    SerializeP2PKH,
    SerializeP2SH,
    SerializeP2WPKH,
    SerializeP2WSH,
}

impl AddressHashMode {
    /// The mainnet address version byte of this hash mode: the
    /// single-signature byte for pay-to-public-key-hash, the multi-signature
    /// byte otherwise.
    pub fn to_version_mainnet(&self) -> (r: u8)
        ensures
            r == (if self is SerializeP2PKH {
                C32_ADDRESS_VERSION_MAINNET_SINGLESIG
            } else {
                C32_ADDRESS_VERSION_MAINNET_MULTISIG
            }),
    {
        match *self {
            AddressHashMode::SerializeP2PKH => C32_ADDRESS_VERSION_MAINNET_SINGLESIG,
            _ => C32_ADDRESS_VERSION_MAINNET_MULTISIG,
        }
    }

    /// The testnet address version byte of this hash mode: the
    /// single-signature byte for pay-to-public-key-hash, the multi-signature
    /// byte otherwise.
    pub fn to_version_testnet(&self) -> (r: u8)
        ensures
            r == (if self is SerializeP2PKH {
                C32_ADDRESS_VERSION_TESTNET_SINGLESIG
            } else {
                C32_ADDRESS_VERSION_TESTNET_MULTISIG
            }),
    {
        match *self {
            AddressHashMode::SerializeP2PKH => C32_ADDRESS_VERSION_TESTNET_SINGLESIG,
            _ => C32_ADDRESS_VERSION_TESTNET_MULTISIG,
        }
    }
}

/// A versioned address: a version byte over a 20-byte hash.  Immutable once
/// constructed; equality is structural.
#[derive(Clone, Debug, PartialEq, Eq)]
pub struct StacksAddress {
    pub version: u8,
    pub bytes: Hash160,
}

/// Ghost model of an address.
pub struct StacksAddressV {
    pub version: u8,
    pub bytes: Seq<u8>,
}

impl StacksAddressV {
    /// Structural validity: exactly 20 hash bytes.
    pub open spec fn wf(&self) -> bool {
        self.bytes.len() == 20
    }
}

impl View for StacksAddress {
    type V = StacksAddressV;

    open spec fn view(&self) -> StacksAddressV {
        StacksAddressV { version: self.version, bytes: self.bytes@ }
    }
}

/// Canonical encoding of an address: the version byte, then the hash bytes.
pub open spec fn spec_enc_address(a: StacksAddressV) -> Seq<u8> {
    be_bytes(a.version as int, 1) + a.bytes
}

/// Reading an address at `pos`.
pub open spec fn spec_read_address(b: Seq<u8>, pos: int) -> Option<(StacksAddressV, int)> {
    match spec_read_be(b, pos, 1) {
        None => None,
        Some((v, p1)) => match spec_read_bytes(b, p1, 20) {
            None => None,
            Some((h, p2)) => Some((StacksAddressV { version: v as u8, bytes: h }, p2)),
        },
    }
}

/// An encoded address reads back as itself.
pub proof fn lemma_read_enc_address(a: StacksAddressV, b: Seq<u8>, pos: int)
    requires
        a.wf(),
        bytes_at(b, pos, spec_enc_address(a)),
    ensures
        spec_read_address(b, pos) == Some((a, pos + 21)),
{
    codec::lemma_be_bytes_len(a.version as int, 1);
    codec::lemma_bytes_at_concat(b, pos, be_bytes(a.version as int, 1), a.bytes);
    assert(codec::pow256(0) == 1);
    codec::lemma_read_be_bytes_at(b, pos, a.version as int, 1);
}

impl StacksAddress {
    /// Structural validity of the held bytes.
    pub open spec fn wf(&self) -> bool {
        self@.wf()
    }

    /// The address of a serialized public key: the given version byte over
    /// the 160-bit hash of the key bytes.
    pub fn from_public_key_bytes(version: u8, key_bytes: &Vec<u8>) -> (r: StacksAddress)
        ensures
            r@.version == version,
            r@.bytes == crypto::hash160_of(key_bytes@),
            r.wf(),
    {
        StacksAddress { version, bytes: Hash160(crypto::hash160(key_bytes)) }
    }

    /// Copies the address.
    pub fn dup(&self) -> (r: StacksAddress)
        ensures
            r@ == self@,
    {
        StacksAddress { version: self.version, bytes: Hash160(codec::dup_bytes(&self.bytes.0)) }
    }

    /// Appends the canonical encoding of the address.
    pub fn encode_to(&self, out: &mut Vec<u8>)
        ensures
            final(out)@ == old(out)@ + spec_enc_address(self@),
    {
        codec::push_be(out, self.version as u64, 1);
        codec::push_bytes(out, &self.bytes.0);
        proof {
            assert(out@ =~= old(out)@ + spec_enc_address(self@));
        }
    }

    /// Reads an address at `pos`; fails exactly when fewer than 21 bytes
    /// remain.
    pub fn read_from(buf: &Vec<u8>, pos: usize) -> (r: Option<(StacksAddress, usize)>)
        ensures
            opt_view(r) == spec_read_address(buf@, pos as int),
            r matches Some((v, end)) ==> v.wf() && pos <= end <= buf@.len(),
    {
        let (ver, p1) = match codec::read_be(buf, pos, 1) {
            Some(x) => x,
            None => {
                return None;
            },
        };
        proof {
            assert(codec::pow256(0) == 1);
            assert(ver < 256);
        }
        let (h, p2) = match codec::read_bytes(buf, p1, 20) {
            Some(x) => x,
            None => {
                return None;
            },
        };
        Some((StacksAddress { version: ver as u8, bytes: Hash160(h) }, p2))
    }
}

} // verus!
