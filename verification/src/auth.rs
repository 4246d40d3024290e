//! The spending-condition and authorization data model, and its canonical
//! encoding.
//!
//! A spending condition binds a signer hash, a nonce, a fee rate, and
//! recoverable signature material; an authorization wraps one condition
//! (standard) or two (sponsored: the second account pays the fee).  Hash
//! modes are typed as single-signature or multi-signature so that an invalid
//! combination cannot be constructed.

use vstd::prelude::*;
use crate::address::AddressHashMode;
use crate::codec;
use crate::codec::{bytes_at, be_bytes, opt_view, spec_read_be, spec_read_bytes};
use crate::crypto;
use crate::error::Error;
use crate::hashes::{Hash160, MessageSignature};
use crate::keys::StacksPublicKey;

verus! {

/// Wire tags distinguishing a standard from a sponsored authorization.
#[derive(Clone, Copy, Debug, PartialEq, Eq, Structural)]
pub enum TransactionAuthFlags {
    AuthStandard,
    AuthSponsored,
}

/// The wire tag of an authorization flag.
pub open spec fn spec_auth_flag_tag(f: TransactionAuthFlags) -> u8 {
    match f {
        TransactionAuthFlags::AuthStandard => 0x04,
        TransactionAuthFlags::AuthSponsored => 0x05,
    }
}

/// Wire tags of the four kinds of authorization field: a public key or a
/// signature, each carried compressed or uncompressed.
#[derive(Clone, Copy, Debug, PartialEq, Eq, Structural)]
pub enum TransactionAuthFieldID {
    PublicKeyCompressed,
    PublicKeyUncompressed,
    SignatureCompressed,
    SignatureUncompressed,
}

/// The wire tag of an authorization-field kind.
pub open spec fn spec_auth_field_id_tag(id: TransactionAuthFieldID) -> u8 {
    match id {
        TransactionAuthFieldID::PublicKeyCompressed => 0x00,
        TransactionAuthFieldID::PublicKeyUncompressed => 0x01,
        TransactionAuthFieldID::SignatureCompressed => 0x02,
        TransactionAuthFieldID::SignatureUncompressed => 0x03,
    }
}

/// The ways a public key may be encoded when it is hashed or recovered.
#[derive(Clone, Copy, Debug, PartialEq, Eq, Structural)]
pub enum TransactionPublicKeyEncoding {
    Compressed,
    Uncompressed,
}

/// The wire tag of a key encoding.
pub open spec fn spec_key_encoding_tag(e: TransactionPublicKeyEncoding) -> u8 {
    match e {
        TransactionPublicKeyEncoding::Compressed => 0x00,
        TransactionPublicKeyEncoding::Uncompressed => 0x01,
    }
}

/// The key encoding a wire tag denotes, if any.
pub open spec fn spec_key_encoding_from_u8(n: u8) -> Option<TransactionPublicKeyEncoding> {
    if n == 0x00 {
        Some(TransactionPublicKeyEncoding::Compressed)
    } else if n == 0x01 {
        Some(TransactionPublicKeyEncoding::Uncompressed)
    } else {
        None
    }
}

impl TransactionPublicKeyEncoding {
    /// The encoding a wire tag denotes; tags other than the two defined ones
    /// are rejected.
    pub fn from_u8(n: u8) -> (r: Option<TransactionPublicKeyEncoding>)
        ensures
            r == spec_key_encoding_from_u8(n),
    {
        match n {
            0x00 => Some(TransactionPublicKeyEncoding::Compressed),
            0x01 => Some(TransactionPublicKeyEncoding::Uncompressed),
            _ => None,
        }
    }

    /// The wire tag of this encoding.
    pub fn to_u8(&self) -> (r: u8)
        ensures
            r == spec_key_encoding_tag(*self),
    {
        match *self {
            TransactionPublicKeyEncoding::Compressed => 0x00,
            TransactionPublicKeyEncoding::Uncompressed => 0x01,
        }
    }
}

/// The hash modes available to a single-signature spending condition.
#[derive(Clone, Copy, Debug, PartialEq, Eq, Structural)]
pub enum SinglesigHashMode {
    P2PKH,
    P2WPKH,
}

/// The hash modes available to a multi-signature spending condition.
#[derive(Clone, Copy, Debug, PartialEq, Eq, Structural)]
pub enum MultisigHashMode {
    P2SH,
    P2WSH,
}

/// The wire tag of a single-signature hash mode.
pub open spec fn spec_singlesig_hash_mode_tag(m: SinglesigHashMode) -> u8 {
    match m {
        SinglesigHashMode::P2PKH => 0x00,
        SinglesigHashMode::P2WPKH => 0x02,
    }
}

/// The single-signature hash mode a wire tag denotes, if any.
pub open spec fn spec_singlesig_hash_mode_from_u8(n: u8) -> Option<SinglesigHashMode> {
    if n == 0x00 {
        Some(SinglesigHashMode::P2PKH)
    } else if n == 0x02 {
        Some(SinglesigHashMode::P2WPKH)
    } else {
        None
    }
}

/// The wire tag of a multi-signature hash mode.
pub open spec fn spec_multisig_hash_mode_tag(m: MultisigHashMode) -> u8 {
    match m {
        MultisigHashMode::P2SH => 0x01,
        MultisigHashMode::P2WSH => 0x03,
    }
}

/// The multi-signature hash mode a wire tag denotes, if any.
pub open spec fn spec_multisig_hash_mode_from_u8(n: u8) -> Option<MultisigHashMode> {
    if n == 0x01 {
        Some(MultisigHashMode::P2SH)
    } else if n == 0x03 {
        Some(MultisigHashMode::P2WSH)
    } else {
        None
    }
}

/// The generic tag of a single-signature hash mode.
pub open spec fn spec_singlesig_to_address_hash_mode(m: SinglesigHashMode) -> AddressHashMode {
    match m {
        SinglesigHashMode::P2PKH => AddressHashMode::SerializeP2PKH,
        SinglesigHashMode::P2WPKH => AddressHashMode::SerializeP2WPKH,
    }
}

/// The single-signature hash mode of a generic tag, if the tag names one.
pub open spec fn spec_singlesig_from_address_hash_mode(hm: AddressHashMode) -> Option<
    SinglesigHashMode,
> {
    match hm {
        AddressHashMode::SerializeP2PKH => Some(SinglesigHashMode::P2PKH),
        AddressHashMode::SerializeP2WPKH => Some(SinglesigHashMode::P2WPKH),
        _ => None,
    }
}

/// The generic tag of a multi-signature hash mode.
pub open spec fn spec_multisig_to_address_hash_mode(m: MultisigHashMode) -> AddressHashMode {
    match m {
        MultisigHashMode::P2SH => AddressHashMode::SerializeP2SH,
        MultisigHashMode::P2WSH => AddressHashMode::SerializeP2WSH,
    }
}

/// The multi-signature hash mode of a generic tag, if the tag names one.
pub open spec fn spec_multisig_from_address_hash_mode(hm: AddressHashMode) -> Option<
    MultisigHashMode,
> {
    match hm {
        AddressHashMode::SerializeP2SH => Some(MultisigHashMode::P2SH),
        AddressHashMode::SerializeP2WSH => Some(MultisigHashMode::P2WSH),
        _ => None,
    }
}

impl SinglesigHashMode {
    /// The generic tag of this hash mode.
    pub fn to_address_hash_mode(&self) -> (r: AddressHashMode)
        ensures
            r == spec_singlesig_to_address_hash_mode(*self),
    {
        match *self {
            SinglesigHashMode::P2PKH => AddressHashMode::SerializeP2PKH,
            SinglesigHashMode::P2WPKH => AddressHashMode::SerializeP2WPKH,
        }
    }

    /// The hash mode of a generic tag; multi-signature tags are rejected.
    pub fn from_address_hash_mode(hm: AddressHashMode) -> (r: Option<SinglesigHashMode>)
        ensures
            r == spec_singlesig_from_address_hash_mode(hm),
    {
        match hm {
            AddressHashMode::SerializeP2PKH => Some(SinglesigHashMode::P2PKH),
            AddressHashMode::SerializeP2WPKH => Some(SinglesigHashMode::P2WPKH),
            _ => None,
        }
    }

    /// The hash mode a wire tag denotes; other tags are rejected.
    pub fn from_u8(n: u8) -> (r: Option<SinglesigHashMode>)
        ensures
            r == spec_singlesig_hash_mode_from_u8(n),
    {
        match n {
            0x00 => Some(SinglesigHashMode::P2PKH),
            0x02 => Some(SinglesigHashMode::P2WPKH),
            _ => None,
        }
    }

    /// The wire tag of this hash mode.
    pub fn to_u8(&self) -> (r: u8)
        ensures
            r == spec_singlesig_hash_mode_tag(*self),
    {
        match *self {
            SinglesigHashMode::P2PKH => 0x00,
            SinglesigHashMode::P2WPKH => 0x02,
        }
    }
}

impl MultisigHashMode {
    /// The generic tag of this hash mode.
    pub fn to_address_hash_mode(&self) -> (r: AddressHashMode)
        ensures
            r == spec_multisig_to_address_hash_mode(*self),
    {
        match *self {
            MultisigHashMode::P2SH => AddressHashMode::SerializeP2SH,
            MultisigHashMode::P2WSH => AddressHashMode::SerializeP2WSH,
        }
    }

    /// The hash mode of a generic tag; single-signature tags are rejected.
    pub fn from_address_hash_mode(hm: AddressHashMode) -> (r: Option<MultisigHashMode>)
        ensures
            r == spec_multisig_from_address_hash_mode(hm),
    {
        match hm {
            AddressHashMode::SerializeP2SH => Some(MultisigHashMode::P2SH),
            AddressHashMode::SerializeP2WSH => Some(MultisigHashMode::P2WSH),
            _ => None,
        }
    }

    /// The hash mode a wire tag denotes; other tags are rejected.
    pub fn from_u8(n: u8) -> (r: Option<MultisigHashMode>)
        ensures
            r == spec_multisig_hash_mode_from_u8(n),
    {
        match n {
            0x01 => Some(MultisigHashMode::P2SH),
            0x03 => Some(MultisigHashMode::P2WSH),
            _ => None,
        }
    }

    /// The wire tag of this hash mode.
    pub fn to_u8(&self) -> (r: u8)
        ensures
            r == spec_multisig_hash_mode_tag(*self),
    {
        match *self {
            MultisigHashMode::P2SH => 0x01,
            MultisigHashMode::P2WSH => 0x03,
        }
    }
}

/// Law: each typed hash mode maps to the generic tag and back to itself, and
/// each generic tag that a typed mode maps from maps back to that tag: the
/// two mappings are mutually inverse on their domains.
pub proof fn lemma_hash_mode_bijection()
    ensures
        forall|m: SinglesigHashMode| #![all_triggers]
            spec_singlesig_from_address_hash_mode(spec_singlesig_to_address_hash_mode(m)) == Some(
                m,
            ),
        forall|m: MultisigHashMode| #![all_triggers]
            spec_multisig_from_address_hash_mode(spec_multisig_to_address_hash_mode(m)) == Some(m),
        forall|hm: AddressHashMode|
            (#[trigger] spec_singlesig_from_address_hash_mode(hm)) matches Some(m)
                ==> spec_singlesig_to_address_hash_mode(m) == hm,
        forall|hm: AddressHashMode|
            (#[trigger] spec_multisig_from_address_hash_mode(hm)) matches Some(m)
                ==> spec_multisig_to_address_hash_mode(m) == hm,
{
}

/// An authorization field: either a bare public key, or a recoverable
/// signature together with the encoding the recovered key must take.
/// Exactly one of the two holds.
#[derive(Clone, Debug, PartialEq, Eq)]
pub enum TransactionAuthField {
    PublicKey(StacksPublicKey),
    Signature(TransactionPublicKeyEncoding, MessageSignature),
}

/// Ghost model of an authorization field.
pub enum TransactionAuthFieldV {
    PublicKey(Seq<u8>),
    Signature(TransactionPublicKeyEncoding, Seq<u8>),
}

impl TransactionAuthFieldV {
    /// Structural validity: a 33- or 65-byte key, or a 65-byte signature.
    pub open spec fn wf(&self) -> bool {
        match self {
            TransactionAuthFieldV::PublicKey(k) => k.len() == 33 || k.len() == 65,
            TransactionAuthFieldV::Signature(_, s) => s.len() == 65,
        }
    }
}

impl View for TransactionAuthField {
    type V = TransactionAuthFieldV;

    open spec fn view(&self) -> TransactionAuthFieldV {
        match self {
            TransactionAuthField::PublicKey(k) => TransactionAuthFieldV::PublicKey(k@),
            TransactionAuthField::Signature(e, s) => TransactionAuthFieldV::Signature(*e, s@),
        }
    }
}

/// The models of a run of authorization fields.
pub open spec fn field_views(fs: Seq<TransactionAuthField>) -> Seq<TransactionAuthFieldV> {
    fs.map_values(|f: TransactionAuthField| f@)
}

/// The key an authorization field resolves to against a sighash: a bare key
/// as stored; a signature's recovered key, re-encoded as the field demands.
/// `None` when recovery or re-encoding fails.
pub open spec fn spec_field_key(f: TransactionAuthFieldV, sighash: Seq<u8>) -> Option<Seq<u8>> {
    match f {
        TransactionAuthFieldV::PublicKey(k) => Some(k),
        TransactionAuthFieldV::Signature(e, sig) => match crypto::recovered_pubkey_of(
            sighash,
            sig,
        ) {
            None => None,
            Some(k) => match e {
                TransactionPublicKeyEncoding::Compressed => Some(k),
                TransactionPublicKeyEncoding::Uncompressed => crypto::uncompressed_form_of(k),
            },
        },
    }
}

impl TransactionAuthField {
    /// Structural validity of the carried bytes.
    pub open spec fn wf(&self) -> bool {
        self@.wf()
    }

    /// Whether the field holds a bare public key.
    pub fn is_public_key(&self) -> (r: bool)
        ensures
            r == (self@ is PublicKey),
    {
        match *self {
            TransactionAuthField::PublicKey(_) => true,
            _ => false,
        }
    }

    /// Whether the field holds a signature.
    pub fn is_signature(&self) -> (r: bool)
        ensures
            r == (self@ is Signature),
    {
        match *self {
            TransactionAuthField::Signature(_, _) => true,
            _ => false,
        }
    }

    /// The bare public key, where the field holds one.
    pub fn as_public_key(&self) -> (r: Option<StacksPublicKey>)
        ensures
            match r {
                Some(k) => self@ matches TransactionAuthFieldV::PublicKey(kv) && kv == k@,
                None => self@ is Signature,
            },
    {
        match self {
            TransactionAuthField::PublicKey(k) => Some(k.dup()),
            _ => None,
        }
    }

    /// The key encoding and signature, where the field holds a signature.
    pub fn as_signature(&self) -> (r: Option<(TransactionPublicKeyEncoding, MessageSignature)>)
        ensures
            match r {
                Some((e, s)) => self@ matches TransactionAuthFieldV::Signature(ev, sv) && ev == e
                    && sv == s@,
                None => self@ is PublicKey,
            },
    {
        match self {
            TransactionAuthField::Signature(e, s) => Some(
                (*e, MessageSignature(codec::dup_bytes(&s.0))),
            ),
            _ => None,
        }
    }

    /// Resolves the field to a public key against the exact sighash bytes it
    /// authorizes.  A bare key is returned as stored; a signature is
    /// recovered against the sighash and the recovered key re-encoded as the
    /// field demands, so recovery against any other sighash yields a
    /// different key by design.
    pub fn get_public_key(&self, sighash_bytes: &Vec<u8>) -> (r: Result<StacksPublicKey, Error>)
        requires
            self.wf(),
            sighash_bytes@.len() == 32,
        ensures
            match r {
                Ok(k) => spec_field_key(self@, sighash_bytes@) == Some(k@) && k.wf(),
                Err(e) => spec_field_key(self@, sighash_bytes@) is None && e is NetError,
            },
    {
        match self {
            TransactionAuthField::PublicKey(k) => Ok(k.dup()),
            TransactionAuthField::Signature(e, sig) => {
                let k33 = match crypto::secp256k1_recover(sighash_bytes, &sig.0) {
                    Some(k) => k,
                    None => {
                        return Err(Error::NetError("public key recovery failed".to_string()));
                    },
                };
                match e {
                    TransactionPublicKeyEncoding::Compressed => Ok(
                        StacksPublicKey { data: k33 },
                    ),
                    TransactionPublicKeyEncoding::Uncompressed => {
                        match crypto::secp256k1_decompress(&k33) {
                            Some(k65) => Ok(StacksPublicKey { data: k65 }),
                            None => Err(
                                Error::NetError("public key decompression failed".to_string()),
                            ),
                        }
                    },
                }
            },
        }
    }
}

/// Canonical encoding of an authorization field: a kind tag, then the key or
/// signature bytes.
pub open spec fn spec_enc_auth_field(f: TransactionAuthFieldV) -> Seq<u8> {
    match f {
        TransactionAuthFieldV::PublicKey(k) => {
            if k.len() == 33 {
                be_bytes(0x00, 1) + k
            } else {
                be_bytes(0x01, 1) + k
            }
        },
        TransactionAuthFieldV::Signature(e, sig) => {
            if e is Compressed {
                be_bytes(0x02, 1) + sig
            } else {
                be_bytes(0x03, 1) + sig
            }
        },
    }
}

/// Reading an authorization field at `pos`.
pub open spec fn spec_read_auth_field(b: Seq<u8>, pos: int) -> Option<(
    TransactionAuthFieldV,
    int,
)> {
    match spec_read_be(b, pos, 1) {
        None => None,
        Some((t, p1)) => {
            if t == 0x00 {
                match spec_read_bytes(b, p1, 33) {
                    None => None,
                    Some((k, p2)) => Some((TransactionAuthFieldV::PublicKey(k), p2)),
                }
            } else if t == 0x01 {
                match spec_read_bytes(b, p1, 65) {
                    None => None,
                    Some((k, p2)) => Some((TransactionAuthFieldV::PublicKey(k), p2)),
                }
            } else if t == 0x02 {
                match spec_read_bytes(b, p1, 65) {
                    None => None,
                    Some((s, p2)) => Some(
                        (
                            TransactionAuthFieldV::Signature(
                                TransactionPublicKeyEncoding::Compressed,
                                s,
                            ),
                            p2,
                        ),
                    ),
                }
            } else if t == 0x03 {
                match spec_read_bytes(b, p1, 65) {
                    None => None,
                    Some((s, p2)) => Some(
                        (
                            TransactionAuthFieldV::Signature(
                                TransactionPublicKeyEncoding::Uncompressed,
                                s,
                            ),
                            p2,
                        ),
                    ),
                }
            } else {
                None
            }
        },
    }
}

/// An encoded authorization field reads back as itself.
pub proof fn lemma_read_enc_auth_field(f: TransactionAuthFieldV, b: Seq<u8>, pos: int)
    requires
        f.wf(),
        bytes_at(b, pos, spec_enc_auth_field(f)),
    ensures
        spec_read_auth_field(b, pos) == Some((f, pos + spec_enc_auth_field(f).len())),
{
    assert(codec::pow256(0) == 1);
    match f {
        TransactionAuthFieldV::PublicKey(k) => {
            let tag: int = if k.len() == 33 {
                0x00
            } else {
                0x01
            };
            codec::lemma_be_bytes_len(tag, 1);
            codec::lemma_bytes_at_concat(b, pos, be_bytes(tag, 1), k);
            codec::lemma_read_be_bytes_at(b, pos, tag, 1);
        },
        TransactionAuthFieldV::Signature(e, sig) => {
            let tag: int = if e is Compressed {
                0x02
            } else {
                0x03
            };
            codec::lemma_be_bytes_len(tag, 1);
            codec::lemma_bytes_at_concat(b, pos, be_bytes(tag, 1), sig);
            codec::lemma_read_be_bytes_at(b, pos, tag, 1);
        },
    }
}

impl TransactionAuthField {
    /// Appends the canonical encoding of the field.
    pub fn encode_to(&self, out: &mut Vec<u8>)
        ensures
            final(out)@ == old(out)@ + spec_enc_auth_field(self@),
    {
        match self {
            TransactionAuthField::PublicKey(k) => {
                if k.data.len() == 33 {
                    codec::push_be(out, 0x00, 1);
                } else {
                    codec::push_be(out, 0x01, 1);
                }
                codec::push_bytes(out, &k.data);
            },
            TransactionAuthField::Signature(e, sig) => {
                match e {
                    TransactionPublicKeyEncoding::Compressed => codec::push_be(out, 0x02, 1),
                    TransactionPublicKeyEncoding::Uncompressed => codec::push_be(out, 0x03, 1),
                }
                codec::push_bytes(out, &sig.0);
            },
        }
        proof {
            assert(out@ =~= old(out)@ + spec_enc_auth_field(self@));
        }
    }

    /// Reads an authorization field at `pos`; fails exactly on a truncated
    /// buffer or an undefined kind tag.
    pub fn read_from(buf: &Vec<u8>, pos: usize) -> (r: Option<(TransactionAuthField, usize)>)
        ensures
            opt_view(r) == spec_read_auth_field(buf@, pos as int),
            r matches Some((v, end)) ==> v.wf() && pos <= end <= buf@.len(),
    {
        let (tag, p1) = match codec::read_be(buf, pos, 1) {
            Some(x) => x,
            None => {
                return None;
            },
        };
        if tag == 0x00 {
            match codec::read_bytes(buf, p1, 33) {
                Some((k, p2)) => Some(
                    (TransactionAuthField::PublicKey(StacksPublicKey { data: k }), p2),
                ),
                None => None,
            }
        } else if tag == 0x01 {
            match codec::read_bytes(buf, p1, 65) {
                Some((k, p2)) => Some(
                    (TransactionAuthField::PublicKey(StacksPublicKey { data: k }), p2),
                ),
                None => None,
            }
        } else if tag == 0x02 {
            match codec::read_bytes(buf, p1, 65) {
                Some((s, p2)) => Some(
                    (
                        TransactionAuthField::Signature(
                            TransactionPublicKeyEncoding::Compressed,
                            MessageSignature(s),
                        ),
                        p2,
                    ),
                ),
                None => None,
            }
        } else if tag == 0x03 {
            match codec::read_bytes(buf, p1, 65) {
                Some((s, p2)) => Some(
                    (
                        TransactionAuthField::Signature(
                            TransactionPublicKeyEncoding::Uncompressed,
                            MessageSignature(s),
                        ),
                        p2,
                    ),
                ),
                None => None,
            }
        } else {
            None
        }
    }
}

/// A single-signature spending condition: the signer hash must equal the
/// 160-bit hash of the public key recovered from `signature` under the given
/// hash mode.  Exactly one signature.  `nonce` and `fee_rate` are carried
/// through unmodified for the external account collaborator.
#[derive(Clone, Debug, PartialEq, Eq)]
pub struct SinglesigSpendingCondition {
    pub hash_mode: SinglesigHashMode,
    pub signer: Hash160,
    pub nonce: u64,
    pub fee_rate: u64,
    pub key_encoding: TransactionPublicKeyEncoding,
    pub signature: MessageSignature,
}

/// Ghost model of a single-signature spending condition.
pub struct SinglesigSpendingConditionV {
    pub hash_mode: SinglesigHashMode,
    pub signer: Seq<u8>,
    pub nonce: u64,
    pub fee_rate: u64,
    pub key_encoding: TransactionPublicKeyEncoding,
    pub signature: Seq<u8>,
}

impl SinglesigSpendingConditionV {
    /// Structural validity: a 20-byte signer hash and a 65-byte signature.
    pub open spec fn wf(&self) -> bool {
        &&& self.signer.len() == 20
        &&& self.signature.len() == 65
    }
}

impl View for SinglesigSpendingCondition {
    type V = SinglesigSpendingConditionV;

    open spec fn view(&self) -> SinglesigSpendingConditionV {
        SinglesigSpendingConditionV {
            hash_mode: self.hash_mode,
            signer: self.signer@,
            nonce: self.nonce,
            fee_rate: self.fee_rate,
            key_encoding: self.key_encoding,
            signature: self.signature@,
        }
    }
}

/// A multi-signature spending condition: the ordered fields resolve to a key
/// list whose hash, together with the threshold, must equal the signer hash.
/// At least `signatures_required` fields must be signatures, and
/// `signatures_required` never exceeds the number of fields.
#[derive(Clone, Debug, PartialEq, Eq)]
pub struct MultisigSpendingCondition {
    pub hash_mode: MultisigHashMode,
    pub signer: Hash160,
    pub nonce: u64,
    pub fee_rate: u64,
    pub fields: Vec<TransactionAuthField>,
    pub signatures_required: u16,
}

/// Ghost model of a multi-signature spending condition.
pub struct MultisigSpendingConditionV {
    pub hash_mode: MultisigHashMode,
    pub signer: Seq<u8>,
    pub nonce: u64,
    pub fee_rate: u64,
    pub fields: Seq<TransactionAuthFieldV>,
    pub signatures_required: u16,
}

impl MultisigSpendingConditionV {
    /// Structural validity: a 20-byte signer hash, well-formed fields whose
    /// count fits the wire format, and a threshold not above the field
    /// count.
    pub open spec fn wf(&self) -> bool {
        &&& self.signer.len() == 20
        &&& forall|i: int| 0 <= i < self.fields.len() ==> (#[trigger] self.fields[i]).wf()
        &&& self.fields.len() < 0x100000000
        &&& self.signatures_required <= self.fields.len()
    }
}

impl View for MultisigSpendingCondition {
    type V = MultisigSpendingConditionV;

    open spec fn view(&self) -> MultisigSpendingConditionV {
        MultisigSpendingConditionV {
            hash_mode: self.hash_mode,
            signer: self.signer@,
            nonce: self.nonce,
            fee_rate: self.fee_rate,
            fields: field_views(self.fields@),
            signatures_required: self.signatures_required,
        }
    }
}

/// A spending condition is single-signature or multi-signature; `nonce` and
/// `fee_rate` are meaningful per condition, not per transaction.
#[derive(Clone, Debug, PartialEq, Eq)]
pub enum TransactionSpendingCondition {
    Singlesig(SinglesigSpendingCondition),
    Multisig(MultisigSpendingCondition),
}

/// Ghost model of a spending condition.
pub enum TransactionSpendingConditionV {
    Singlesig(SinglesigSpendingConditionV),
    Multisig(MultisigSpendingConditionV),
}

impl TransactionSpendingConditionV {
    /// Structural validity of the held variant.
    pub open spec fn wf(&self) -> bool {
        match self {
            TransactionSpendingConditionV::Singlesig(c) => c.wf(),
            TransactionSpendingConditionV::Multisig(c) => c.wf(),
        }
    }

    /// The account check number the condition carries.
    pub open spec fn spec_nonce(&self) -> u64 {
        match self {
            TransactionSpendingConditionV::Singlesig(c) => c.nonce,
            TransactionSpendingConditionV::Multisig(c) => c.nonce,
        }
    }

    /// The fee rate the condition offers.
    pub open spec fn spec_fee_rate(&self) -> u64 {
        match self {
            TransactionSpendingConditionV::Singlesig(c) => c.fee_rate,
            TransactionSpendingConditionV::Multisig(c) => c.fee_rate,
        }
    }

    /// The signer hash the condition claims.
    pub open spec fn spec_signer(&self) -> Seq<u8> {
        match self {
            TransactionSpendingConditionV::Singlesig(c) => c.signer,
            TransactionSpendingConditionV::Multisig(c) => c.signer,
        }
    }
}

impl View for TransactionSpendingCondition {
    type V = TransactionSpendingConditionV;

    open spec fn view(&self) -> TransactionSpendingConditionV {
        match self {
            TransactionSpendingCondition::Singlesig(c) => TransactionSpendingConditionV::Singlesig(
                c@,
            ),
            TransactionSpendingCondition::Multisig(c) => TransactionSpendingConditionV::Multisig(
                c@,
            ),
        }
    }
}

impl TransactionSpendingCondition {
    /// Structural validity of the held variant.
    pub open spec fn wf(&self) -> bool {
        self@.wf()
    }

    /// The account check number the condition carries, unmodified.
    pub fn nonce(&self) -> (r: u64)
        ensures
            r == self@.spec_nonce(),
    {
        match self {
            TransactionSpendingCondition::Singlesig(c) => c.nonce,
            TransactionSpendingCondition::Multisig(c) => c.nonce,
        }
    }

    /// The fee rate the condition offers, unmodified.
    pub fn fee_rate(&self) -> (r: u64)
        ensures
            r == self@.spec_fee_rate(),
    {
        match self {
            TransactionSpendingCondition::Singlesig(c) => c.fee_rate,
            TransactionSpendingCondition::Multisig(c) => c.fee_rate,
        }
    }
}

/// An authorization: either one spending condition that both authorizes and
/// pays, or a sponsored pair in which the first (origin) condition
/// authorizes the action and the second (sponsor) pays the fee.
#[derive(Clone, Debug, PartialEq, Eq)]
pub enum TransactionAuth {
    Standard(TransactionSpendingCondition),
    Sponsored(TransactionSpendingCondition, TransactionSpendingCondition),
}

/// Ghost model of an authorization.
pub enum TransactionAuthV {
    Standard(TransactionSpendingConditionV),
    Sponsored(TransactionSpendingConditionV, TransactionSpendingConditionV),
}

impl TransactionAuthV {
    /// Structural validity of the held conditions.
    pub open spec fn wf(&self) -> bool {
        match self {
            TransactionAuthV::Standard(c) => c.wf(),
            TransactionAuthV::Sponsored(o, s) => o.wf() && s.wf(),
        }
    }

    /// The fee rate that governs fee accounting: the sponsor's where there
    /// is one, the sole condition's otherwise.  The origin's fee rate in a
    /// sponsored authorization is ignored.
    pub open spec fn spec_fee_rate(&self) -> u64 {
        match self {
            TransactionAuthV::Standard(c) => c.spec_fee_rate(),
            TransactionAuthV::Sponsored(_, s) => s.spec_fee_rate(),
        }
    }
}

impl View for TransactionAuth {
    type V = TransactionAuthV;

    open spec fn view(&self) -> TransactionAuthV {
        match self {
            TransactionAuth::Standard(c) => TransactionAuthV::Standard(c@),
            TransactionAuth::Sponsored(o, s) => TransactionAuthV::Sponsored(o@, s@),
        }
    }
}

impl TransactionAuth {
    /// Structural validity of the held conditions.
    pub open spec fn wf(&self) -> bool {
        self@.wf()
    }

    /// The condition that authorizes execution.
    pub fn origin(&self) -> (r: &TransactionSpendingCondition)
        ensures
            r@ == (match self@ {
                TransactionAuthV::Standard(c) => c,
                TransactionAuthV::Sponsored(o, _) => o,
            }),
    {
        match self {
            TransactionAuth::Standard(c) => c,
            TransactionAuth::Sponsored(o, _) => o,
        }
    }

    /// The condition that pays the fee, where it differs from the origin.
    pub fn sponsor(&self) -> (r: Option<&TransactionSpendingCondition>)
        ensures
            match r {
                Some(s) => self@ matches TransactionAuthV::Sponsored(_, sv) && sv == s@,
                None => self@ is Standard,
            },
    {
        match self {
            TransactionAuth::Standard(_) => None,
            TransactionAuth::Sponsored(_, s) => Some(s),
        }
    }

    /// The fee rate that governs fee accounting; in a sponsored
    /// authorization it is the sponsor's, and the origin's is ignored.
    pub fn fee_rate(&self) -> (r: u64)
        ensures
            r == self@.spec_fee_rate(),
    {
        match self {
            TransactionAuth::Standard(c) => c.fee_rate(),
            TransactionAuth::Sponsored(_, s) => s.fee_rate(),
        }
    }
}

/// Canonical encoding of a run of authorization fields, in order.
pub open spec fn spec_enc_auth_fields(fs: Seq<TransactionAuthFieldV>) -> Seq<u8>
    decreases fs.len(),
{
    if fs.len() == 0 {
        Seq::empty()
    } else {
        spec_enc_auth_field(fs[0]) + spec_enc_auth_fields(fs.skip(1))
    }
}

/// Appending a field appends its encoding.
pub proof fn lemma_enc_auth_fields_snoc(fs: Seq<TransactionAuthFieldV>, f: TransactionAuthFieldV)
    ensures
        spec_enc_auth_fields(fs.push(f)) == spec_enc_auth_fields(fs) + spec_enc_auth_field(f),
    decreases fs.len(),
{
    if fs.len() == 0 {
        assert(fs.push(f)[0] == f);
        assert(fs.push(f).skip(1) =~= Seq::<TransactionAuthFieldV>::empty());
        assert(spec_enc_auth_fields(Seq::<TransactionAuthFieldV>::empty())
            =~= Seq::<u8>::empty());
        assert(spec_enc_auth_fields(fs.push(f)) =~= spec_enc_auth_fields(fs)
            + spec_enc_auth_field(f));
    } else {
        assert(fs.push(f).skip(1) =~= fs.skip(1).push(f));
        lemma_enc_auth_fields_snoc(fs.skip(1), f);
        assert(spec_enc_auth_field(fs[0]) + (spec_enc_auth_fields(fs.skip(1))
            + spec_enc_auth_field(f)) =~= (spec_enc_auth_field(fs[0]) + spec_enc_auth_fields(
            fs.skip(1),
        )) + spec_enc_auth_field(f));
    }
}

/// Reading `n` authorization fields at `pos`.
pub open spec fn spec_read_auth_fields(b: Seq<u8>, pos: int, n: nat) -> Option<(
    Seq<TransactionAuthFieldV>,
    int,
)>
    decreases n,
{
    if n == 0 {
        Some((Seq::empty(), pos))
    } else {
        match spec_read_auth_field(b, pos) {
            None => None,
            Some((f, p1)) => match spec_read_auth_fields(b, p1, (n - 1) as nat) {
                None => None,
                Some((fs, p2)) => Some((seq![f] + fs, p2)),
            },
        }
    }
}

/// An encoded run of fields reads back as itself.
pub proof fn lemma_read_enc_auth_fields(fs: Seq<TransactionAuthFieldV>, b: Seq<u8>, pos: int)
    requires
        forall|i: int| 0 <= i < fs.len() ==> (#[trigger] fs[i]).wf(),
        bytes_at(b, pos, spec_enc_auth_fields(fs)),
    ensures
        spec_read_auth_fields(b, pos, fs.len()) == Some(
            (fs, pos + spec_enc_auth_fields(fs).len()),
        ),
    decreases fs.len(),
{
    if fs.len() > 0 {
        codec::lemma_bytes_at_concat(
            b,
            pos,
            spec_enc_auth_field(fs[0]),
            spec_enc_auth_fields(fs.skip(1)),
        );
        lemma_read_enc_auth_field(fs[0], b, pos);
        assert(forall|i: int| 0 <= i < fs.skip(1).len() ==> (#[trigger] fs.skip(1)[i]).wf());
        lemma_read_enc_auth_fields(fs.skip(1), b, pos + spec_enc_auth_field(fs[0]).len());
        assert(seq![fs[0]] + fs.skip(1) =~= fs);
    }
}

/// Continuing a partial field read: prepends the fields already read.
pub open spec fn spec_fields_cont(
    acc: Seq<TransactionAuthFieldV>,
    rest: Option<(Seq<TransactionAuthFieldV>, int)>,
) -> Option<(Seq<TransactionAuthFieldV>, int)> {
    match rest {
        None => None,
        Some((fs, p)) => Some((acc + fs, p)),
    }
}

/// Appends the canonical encodings of the fields, in order.
pub fn encode_auth_fields(out: &mut Vec<u8>, fields: &Vec<TransactionAuthField>)
    ensures
        final(out)@ == old(out)@ + spec_enc_auth_fields(field_views(fields@)),
{
    let mut i: usize = 0;
    while i < fields.len()
        invariant
            i <= fields@.len(),
            out@ =~= old(out)@ + spec_enc_auth_fields(field_views(fields@).take(i as int)),
        decreases fields@.len() - i,
    {
        let ghost pre = field_views(fields@).take(i as int);
        fields[i].encode_to(out);
        proof {
            lemma_enc_auth_fields_snoc(pre, fields@[i as int]@);
            assert(pre.push(fields@[i as int]@) =~= field_views(fields@).take(i + 1));
            assert(out@ =~= old(out)@ + spec_enc_auth_fields(field_views(fields@).take(i + 1)));
        }
        i = i + 1;
    }
    proof {
        assert(field_views(fields@).take(fields@.len() as int) =~= field_views(fields@));
    }
}

/// Reads `n` authorization fields at `pos`.
pub fn read_auth_fields(buf: &Vec<u8>, pos: usize, n: u32) -> (r: Option<
    (Vec<TransactionAuthField>, usize),
>)
    requires
        pos <= buf@.len(),
    ensures
        (match r {
            Some((v, end)) => Some((field_views(v@), end as int)),
            None => None::<(Seq<TransactionAuthFieldV>, int)>,
        }) == spec_read_auth_fields(buf@, pos as int, n as nat),
        r matches Some((v, end)) ==> pos <= end <= buf@.len() && v@.len() == n && forall|i: int|
            0 <= i < v@.len() ==> (#[trigger] v@[i]).wf(),
{
    let mut out: Vec<TransactionAuthField> = Vec::new();
    let mut cur: usize = pos;
    let mut i: u32 = 0;
    while i < n
        invariant
            i <= n,
            pos <= cur <= buf@.len(),
            out@.len() == i,
            forall|j: int| 0 <= j < out@.len() ==> (#[trigger] out@[j]).wf(),
            spec_read_auth_fields(buf@, pos as int, n as nat) == spec_fields_cont(
                field_views(out@),
                spec_read_auth_fields(buf@, cur as int, (n - i) as nat),
            ),
        decreases n - i,
    {
        let ghost acc0 = field_views(out@);
        let (f, nxt) = match TransactionAuthField::read_from(buf, cur) {
            Some(x) => x,
            None => {
                return None;
            },
        };
        out.push(f);
        proof {
            assert(field_views(out@) =~= acc0.push(f@));
            let rest = spec_read_auth_fields(buf@, nxt as int, (n - i - 1) as nat);
            match rest {
                Some((fs, p)) => {
                    assert(acc0 + (seq![f@] + fs) =~= acc0.push(f@) + fs);
                },
                None => {},
            }
        }
        cur = nxt;
        i = i + 1;
    }
    proof {
        assert(field_views(out@) + Seq::<TransactionAuthFieldV>::empty() =~= field_views(out@));
    }
    Some((out, cur))
}

/// Canonical encoding of a single-signature condition: hash-mode tag, signer
/// hash, nonce, fee rate, key-encoding tag, signature.
pub open spec fn spec_enc_singlesig(c: SinglesigSpendingConditionV) -> Seq<u8> {
    be_bytes(spec_singlesig_hash_mode_tag(c.hash_mode) as int, 1) + c.signer + be_bytes(
        c.nonce as int,
        8,
    ) + be_bytes(c.fee_rate as int, 8) + be_bytes(spec_key_encoding_tag(c.key_encoding) as int, 1)
        + c.signature
}

/// Reading a single-signature condition at `pos`.
pub open spec fn spec_read_singlesig(b: Seq<u8>, pos: int) -> Option<(
    SinglesigSpendingConditionV,
    int,
)> {
    match spec_read_be(b, pos, 1) {
        None => None,
        Some((t, p1)) => match spec_singlesig_hash_mode_from_u8(t as u8) {
            None => None,
            Some(hm) => match spec_read_bytes(b, p1, 20) {
                None => None,
                Some((signer, p2)) => match spec_read_be(b, p2, 8) {
                    None => None,
                    Some((nonce, p3)) => match spec_read_be(b, p3, 8) {
                        None => None,
                        Some((fee, p4)) => match spec_read_be(b, p4, 1) {
                            None => None,
                            Some((et, p5)) => match spec_key_encoding_from_u8(et as u8) {
                                None => None,
                                Some(enc) => match spec_read_bytes(b, p5, 65) {
                                    None => None,
                                    Some((sig, p6)) => Some(
                                        (
                                            SinglesigSpendingConditionV {
                                                hash_mode: hm,
                                                signer: signer,
                                                nonce: nonce as u64,
                                                fee_rate: fee as u64,
                                                key_encoding: enc,
                                                signature: sig,
                                            },
                                            p6,
                                        ),
                                    ),
                                },
                            },
                        },
                    },
                },
            },
        },
    }
}

/// An encoded single-signature condition reads back as itself.
pub proof fn lemma_read_enc_singlesig(c: SinglesigSpendingConditionV, b: Seq<u8>, pos: int)
    requires
        c.wf(),
        bytes_at(b, pos, spec_enc_singlesig(c)),
    ensures
        spec_read_singlesig(b, pos) == Some((c, pos + spec_enc_singlesig(c).len())),
{
    let ea = be_bytes(spec_singlesig_hash_mode_tag(c.hash_mode) as int, 1);
    let eb = c.signer;
    let ec = be_bytes(c.nonce as int, 8);
    let ed = be_bytes(c.fee_rate as int, 8);
    let ee = be_bytes(spec_key_encoding_tag(c.key_encoding) as int, 1);
    let ef = c.signature;
    assert(codec::pow256(0) == 1);
    assert(codec::pow256(1) == 256);
    assert(codec::pow256(2) == 0x10000);
    assert(codec::pow256(3) == 0x1000000);
    assert(codec::pow256(4) == 0x100000000);
    assert(codec::pow256(5) == 0x10000000000);
    assert(codec::pow256(6) == 0x1000000000000);
    assert(codec::pow256(7) == 0x100000000000000);
    assert(codec::pow256(8) == 0x10000000000000000);
    codec::lemma_be_bytes_len(spec_singlesig_hash_mode_tag(c.hash_mode) as int, 1);
    codec::lemma_be_bytes_len(c.nonce as int, 8);
    codec::lemma_be_bytes_len(c.fee_rate as int, 8);
    codec::lemma_be_bytes_len(spec_key_encoding_tag(c.key_encoding) as int, 1);
    codec::lemma_bytes_at_concat(b, pos, ea + eb + ec + ed + ee, ef);
    codec::lemma_bytes_at_concat(b, pos, ea + eb + ec + ed, ee);
    codec::lemma_bytes_at_concat(b, pos, ea + eb + ec, ed);
    codec::lemma_bytes_at_concat(b, pos, ea + eb, ec);
    codec::lemma_bytes_at_concat(b, pos, ea, eb);
    codec::lemma_read_be_bytes_at(b, pos, spec_singlesig_hash_mode_tag(c.hash_mode) as int, 1);
    codec::lemma_read_be_bytes_at(b, pos + 21, c.nonce as int, 8);
    codec::lemma_read_be_bytes_at(b, pos + 29, c.fee_rate as int, 8);
    codec::lemma_read_be_bytes_at(
        b,
        pos + 37,
        spec_key_encoding_tag(c.key_encoding) as int,
        1,
    );
}

impl SinglesigSpendingCondition {
    /// Structural validity of the carried bytes.
    pub open spec fn wf(&self) -> bool {
        self@.wf()
    }

    /// Appends the canonical encoding of the condition.
    pub fn encode_to(&self, out: &mut Vec<u8>)
        ensures
            final(out)@ == old(out)@ + spec_enc_singlesig(self@),
    {
        codec::push_be(out, self.hash_mode.to_u8() as u64, 1);
        codec::push_bytes(out, &self.signer.0);
        codec::push_be(out, self.nonce, 8);
        codec::push_be(out, self.fee_rate, 8);
        codec::push_be(out, self.key_encoding.to_u8() as u64, 1);
        codec::push_bytes(out, &self.signature.0);
        proof {
            assert(out@ =~= old(out)@ + spec_enc_singlesig(self@));
        }
    }

    /// Reads a single-signature condition at `pos`; fails exactly on a
    /// truncated buffer or an undefined tag.
    pub fn read_from(buf: &Vec<u8>, pos: usize) -> (r: Option<(SinglesigSpendingCondition, usize)>)
        ensures
            opt_view(r) == spec_read_singlesig(buf@, pos as int),
            r matches Some((v, end)) ==> v.wf() && pos <= end <= buf@.len(),
    {
        proof {
            assert(codec::pow256(0) == 1);
            assert(codec::pow256(1) == 256);
        }
        let (t, p1) = match codec::read_be(buf, pos, 1) {
            Some(x) => x,
            None => {
                return None;
            },
        };
        let hm = match SinglesigHashMode::from_u8(t as u8) {
            Some(hm) => hm,
            None => {
                return None;
            },
        };
        let (signer, p2) = match codec::read_bytes(buf, p1, 20) {
            Some(x) => x,
            None => {
                return None;
            },
        };
        let (nonce, p3) = match codec::read_be(buf, p2, 8) {
            Some(x) => x,
            None => {
                return None;
            },
        };
        let (fee, p4) = match codec::read_be(buf, p3, 8) {
            Some(x) => x,
            None => {
                return None;
            },
        };
        let (et, p5) = match codec::read_be(buf, p4, 1) {
            Some(x) => x,
            None => {
                return None;
            },
        };
        let enc = match TransactionPublicKeyEncoding::from_u8(et as u8) {
            Some(e) => e,
            None => {
                return None;
            },
        };
        let (sig, p6) = match codec::read_bytes(buf, p5, 65) {
            Some(x) => x,
            None => {
                return None;
            },
        };
        Some(
            (
                SinglesigSpendingCondition {
                    hash_mode: hm,
                    signer: Hash160(signer),
                    nonce,
                    fee_rate: fee,
                    key_encoding: enc,
                    signature: MessageSignature(sig),
                },
                p6,
            ),
        )
    }
}

/// Canonical encoding of a multi-signature condition: hash-mode tag, signer
/// hash, nonce, fee rate, field count, the fields in order, threshold.
pub open spec fn spec_enc_multisig(c: MultisigSpendingConditionV) -> Seq<u8> {
    be_bytes(spec_multisig_hash_mode_tag(c.hash_mode) as int, 1) + c.signer + be_bytes(
        c.nonce as int,
        8,
    ) + be_bytes(c.fee_rate as int, 8) + be_bytes(c.fields.len() as int, 4) + spec_enc_auth_fields(
        c.fields,
    ) + be_bytes(c.signatures_required as int, 2)
}

/// Reading a multi-signature condition at `pos`.
pub open spec fn spec_read_multisig(b: Seq<u8>, pos: int) -> Option<(
    MultisigSpendingConditionV,
    int,
)> {
    match spec_read_be(b, pos, 1) {
        None => None,
        Some((t, p1)) => match spec_multisig_hash_mode_from_u8(t as u8) {
            None => None,
            Some(hm) => match spec_read_bytes(b, p1, 20) {
                None => None,
                Some((signer, p2)) => match spec_read_be(b, p2, 8) {
                    None => None,
                    Some((nonce, p3)) => match spec_read_be(b, p3, 8) {
                        None => None,
                        Some((fee, p4)) => match spec_read_be(b, p4, 4) {
                            None => None,
                            Some((n, p5)) => match spec_read_auth_fields(b, p5, n as nat) {
                                None => None,
                                Some((fs, p6)) => match spec_read_be(b, p6, 2) {
                                    None => None,
                                    Some((req, p7)) => {
                                        if req <= fs.len() {
                                            Some(
                                                (
                                                    MultisigSpendingConditionV {
                                                        hash_mode: hm,
                                                        signer: signer,
                                                        nonce: nonce as u64,
                                                        fee_rate: fee as u64,
                                                        fields: fs,
                                                        signatures_required: req as u16,
                                                    },
                                                    p7,
                                                ),
                                            )
                                        } else {
                                            None
                                        }
                                    },
                                },
                            },
                        },
                    },
                },
            },
        },
    }
}

/// An encoded multi-signature condition reads back as itself.
pub proof fn lemma_read_enc_multisig(c: MultisigSpendingConditionV, b: Seq<u8>, pos: int)
    requires
        c.wf(),
        bytes_at(b, pos, spec_enc_multisig(c)),
    ensures
        spec_read_multisig(b, pos) == Some((c, pos + spec_enc_multisig(c).len())),
{
    let ea = be_bytes(spec_multisig_hash_mode_tag(c.hash_mode) as int, 1);
    let eb = c.signer;
    let ec = be_bytes(c.nonce as int, 8);
    let ed = be_bytes(c.fee_rate as int, 8);
    let ee = be_bytes(c.fields.len() as int, 4);
    let ef = spec_enc_auth_fields(c.fields);
    let eg = be_bytes(c.signatures_required as int, 2);
    assert(codec::pow256(0) == 1);
    assert(codec::pow256(1) == 256);
    assert(codec::pow256(2) == 0x10000);
    assert(codec::pow256(3) == 0x1000000);
    assert(codec::pow256(4) == 0x100000000);
    assert(codec::pow256(5) == 0x10000000000);
    assert(codec::pow256(6) == 0x1000000000000);
    assert(codec::pow256(7) == 0x100000000000000);
    assert(codec::pow256(8) == 0x10000000000000000);
    codec::lemma_be_bytes_len(spec_multisig_hash_mode_tag(c.hash_mode) as int, 1);
    codec::lemma_be_bytes_len(c.nonce as int, 8);
    codec::lemma_be_bytes_len(c.fee_rate as int, 8);
    codec::lemma_be_bytes_len(c.fields.len() as int, 4);
    codec::lemma_be_bytes_len(c.signatures_required as int, 2);
    codec::lemma_bytes_at_concat(b, pos, ea + eb + ec + ed + ee + ef, eg);
    codec::lemma_bytes_at_concat(b, pos, ea + eb + ec + ed + ee, ef);
    codec::lemma_bytes_at_concat(b, pos, ea + eb + ec + ed, ee);
    codec::lemma_bytes_at_concat(b, pos, ea + eb + ec, ed);
    codec::lemma_bytes_at_concat(b, pos, ea + eb, ec);
    codec::lemma_bytes_at_concat(b, pos, ea, eb);
    codec::lemma_read_be_bytes_at(b, pos, spec_multisig_hash_mode_tag(c.hash_mode) as int, 1);
    codec::lemma_read_be_bytes_at(b, pos + 21, c.nonce as int, 8);
    codec::lemma_read_be_bytes_at(b, pos + 29, c.fee_rate as int, 8);
    codec::lemma_read_be_bytes_at(b, pos + 37, c.fields.len() as int, 4);
    lemma_read_enc_auth_fields(c.fields, b, pos + 41);
    codec::lemma_read_be_bytes_at(
        b,
        pos + 41 + ef.len(),
        c.signatures_required as int,
        2,
    );
}

impl MultisigSpendingCondition {
    /// Structural validity of the carried bytes, fields, and threshold.
    pub open spec fn wf(&self) -> bool {
        self@.wf()
    }

    /// Appends the canonical encoding of the condition.
    pub fn encode_to(&self, out: &mut Vec<u8>)
        requires
            self@.wf(),
        ensures
            final(out)@ == old(out)@ + spec_enc_multisig(self@),
    {
        codec::push_be(out, self.hash_mode.to_u8() as u64, 1);
        codec::push_bytes(out, &self.signer.0);
        codec::push_be(out, self.nonce, 8);
        codec::push_be(out, self.fee_rate, 8);
        codec::push_be(out, self.fields.len() as u64, 4);
        encode_auth_fields(out, &self.fields);
        codec::push_be(out, self.signatures_required as u64, 2);
        proof {
            assert(out@ =~= old(out)@ + spec_enc_multisig(self@));
        }
    }

    /// Reads a multi-signature condition at `pos`; fails exactly on a
    /// truncated buffer, an undefined tag, or a threshold above the field
    /// count.
    pub fn read_from(buf: &Vec<u8>, pos: usize) -> (r: Option<(MultisigSpendingCondition, usize)>)
        ensures
            opt_view(r) == spec_read_multisig(buf@, pos as int),
            r matches Some((v, end)) ==> v.wf() && pos <= end <= buf@.len(),
    {
        proof {
            assert(codec::pow256(0) == 1);
            assert(codec::pow256(1) == 256);
            assert(codec::pow256(2) == 0x10000);
            assert(codec::pow256(3) == 0x1000000);
            assert(codec::pow256(4) == 0x100000000);
        }
        let (t, p1) = match codec::read_be(buf, pos, 1) {
            Some(x) => x,
            None => {
                return None;
            },
        };
        let hm = match MultisigHashMode::from_u8(t as u8) {
            Some(hm) => hm,
            None => {
                return None;
            },
        };
        let (signer, p2) = match codec::read_bytes(buf, p1, 20) {
            Some(x) => x,
            None => {
                return None;
            },
        };
        let (nonce, p3) = match codec::read_be(buf, p2, 8) {
            Some(x) => x,
            None => {
                return None;
            },
        };
        let (fee, p4) = match codec::read_be(buf, p3, 8) {
            Some(x) => x,
            None => {
                return None;
            },
        };
        let (n, p5) = match codec::read_be(buf, p4, 4) {
            Some(x) => x,
            None => {
                return None;
            },
        };
        let (fields, p6) = match read_auth_fields(buf, p5, n as u32) {
            Some(x) => x,
            None => {
                return None;
            },
        };
        let (req, p7) = match codec::read_be(buf, p6, 2) {
            Some(x) => x,
            None => {
                return None;
            },
        };
        if (req as usize) <= fields.len() {
            Some(
                (
                    MultisigSpendingCondition {
                        hash_mode: hm,
                        signer: Hash160(signer),
                        nonce,
                        fee_rate: fee,
                        fields,
                        signatures_required: req as u16,
                    },
                    p7,
                ),
            )
        } else {
            None
        }
    }
}

/// Canonical encoding of a spending condition: that of its variant.  The
/// leading hash-mode tag distinguishes the two.
pub open spec fn spec_enc_spending_condition(c: TransactionSpendingConditionV) -> Seq<u8> {
    match c {
        TransactionSpendingConditionV::Singlesig(s) => spec_enc_singlesig(s),
        TransactionSpendingConditionV::Multisig(m) => spec_enc_multisig(m),
    }
}

/// Reading a spending condition at `pos`: the leading hash-mode tag selects
/// the variant.
pub open spec fn spec_read_spending_condition(b: Seq<u8>, pos: int) -> Option<(
    TransactionSpendingConditionV,
    int,
)> {
    match spec_read_be(b, pos, 1) {
        None => None,
        Some((t, _)) => {
            if spec_singlesig_hash_mode_from_u8(t as u8) is Some {
                match spec_read_singlesig(b, pos) {
                    None => None,
                    Some((c, p)) => Some((TransactionSpendingConditionV::Singlesig(c), p)),
                }
            } else if spec_multisig_hash_mode_from_u8(t as u8) is Some {
                match spec_read_multisig(b, pos) {
                    None => None,
                    Some((c, p)) => Some((TransactionSpendingConditionV::Multisig(c), p)),
                }
            } else {
                None
            }
        },
    }
}

/// An encoded spending condition reads back as itself.
#[verifier::rlimit(50)]
pub proof fn lemma_read_enc_spending_condition(
    c: TransactionSpendingConditionV,
    b: Seq<u8>,
    pos: int,
)
    requires
        c.wf(),
        bytes_at(b, pos, spec_enc_spending_condition(c)),
    ensures
        spec_read_spending_condition(b, pos) == Some(
            (c, pos + spec_enc_spending_condition(c).len()),
        ),
{
    assert(codec::pow256(0) == 1);
    match c {
        TransactionSpendingConditionV::Singlesig(s) => {
            let tag = spec_singlesig_hash_mode_tag(s.hash_mode);
            let e = spec_enc_singlesig(s);
            assert(e =~= be_bytes(tag as int, 1) + (c.spec_singlesig_rest(s)));
            codec::lemma_bytes_at_concat(b, pos, be_bytes(tag as int, 1), c.spec_singlesig_rest(s));
            codec::lemma_read_be_bytes_at(b, pos, tag as int, 1);
            lemma_read_enc_singlesig(s, b, pos);
        },
        TransactionSpendingConditionV::Multisig(m) => {
            let tag = spec_multisig_hash_mode_tag(m.hash_mode);
            let e = spec_enc_multisig(m);
            assert(e =~= be_bytes(tag as int, 1) + (c.spec_multisig_rest(m)));
            codec::lemma_bytes_at_concat(b, pos, be_bytes(tag as int, 1), c.spec_multisig_rest(m));
            codec::lemma_read_be_bytes_at(b, pos, tag as int, 1);
            lemma_read_enc_multisig(m, b, pos);
        },
    }
}

impl TransactionSpendingConditionV {
    /// The bytes of a single-signature encoding after its hash-mode tag.
    pub open spec fn spec_singlesig_rest(&self, s: SinglesigSpendingConditionV) -> Seq<u8> {
        s.signer + be_bytes(s.nonce as int, 8) + be_bytes(s.fee_rate as int, 8) + be_bytes(
            spec_key_encoding_tag(s.key_encoding) as int,
            1,
        ) + s.signature
    }

    /// The bytes of a multi-signature encoding after its hash-mode tag.
    pub open spec fn spec_multisig_rest(&self, m: MultisigSpendingConditionV) -> Seq<u8> {
        m.signer + be_bytes(m.nonce as int, 8) + be_bytes(m.fee_rate as int, 8) + be_bytes(
            m.fields.len() as int,
            4,
        ) + spec_enc_auth_fields(m.fields) + be_bytes(m.signatures_required as int, 2)
    }
}

impl TransactionSpendingCondition {
    /// Appends the canonical encoding of the condition.
    pub fn encode_to(&self, out: &mut Vec<u8>)
        requires
            self@.wf(),
        ensures
            final(out)@ == old(out)@ + spec_enc_spending_condition(self@),
    {
        match self {
            TransactionSpendingCondition::Singlesig(c) => c.encode_to(out),
            TransactionSpendingCondition::Multisig(c) => c.encode_to(out),
        }
    }

    /// Reads a spending condition at `pos`; the leading hash-mode tag
    /// selects the variant, and undefined tags are rejected.
    pub fn read_from(buf: &Vec<u8>, pos: usize) -> (r: Option<
        (TransactionSpendingCondition, usize),
    >)
        ensures
            opt_view(r) == spec_read_spending_condition(buf@, pos as int),
            r matches Some((v, end)) ==> v.wf() && pos <= end <= buf@.len(),
    {
        proof {
            assert(codec::pow256(0) == 1);
        }
        let (t, _) = match codec::read_be(buf, pos, 1) {
            Some(x) => x,
            None => {
                return None;
            },
        };
        if SinglesigHashMode::from_u8(t as u8).is_some() {
            match SinglesigSpendingCondition::read_from(buf, pos) {
                Some((c, p)) => Some((TransactionSpendingCondition::Singlesig(c), p)),
                None => None,
            }
        } else if MultisigHashMode::from_u8(t as u8).is_some() {
            match MultisigSpendingCondition::read_from(buf, pos) {
                Some((c, p)) => Some((TransactionSpendingCondition::Multisig(c), p)),
                None => None,
            }
        } else {
            None
        }
    }
}

/// Canonical encoding of an authorization: a flag byte, then one condition
/// (standard) or the origin condition followed by the sponsor's (sponsored).
pub open spec fn spec_enc_auth(a: TransactionAuthV) -> Seq<u8> {
    match a {
        TransactionAuthV::Standard(c) => be_bytes(0x04, 1) + spec_enc_spending_condition(c),
        TransactionAuthV::Sponsored(o, s) => be_bytes(0x05, 1) + spec_enc_spending_condition(o)
            + spec_enc_spending_condition(s),
    }
}

/// Reading an authorization at `pos`.
pub open spec fn spec_read_auth(b: Seq<u8>, pos: int) -> Option<(TransactionAuthV, int)> {
    match spec_read_be(b, pos, 1) {
        None => None,
        Some((t, p1)) => {
            if t == 0x04 {
                match spec_read_spending_condition(b, p1) {
                    None => None,
                    Some((c, p2)) => Some((TransactionAuthV::Standard(c), p2)),
                }
            } else if t == 0x05 {
                match spec_read_spending_condition(b, p1) {
                    None => None,
                    Some((o, p2)) => match spec_read_spending_condition(b, p2) {
                        None => None,
                        Some((s, p3)) => Some((TransactionAuthV::Sponsored(o, s), p3)),
                    },
                }
            } else {
                None
            }
        },
    }
}

/// An encoded authorization reads back as itself.
pub proof fn lemma_read_enc_auth(a: TransactionAuthV, b: Seq<u8>, pos: int)
    requires
        a.wf(),
        bytes_at(b, pos, spec_enc_auth(a)),
    ensures
        spec_read_auth(b, pos) == Some((a, pos + spec_enc_auth(a).len())),
{
    assert(codec::pow256(0) == 1);
    match a {
        TransactionAuthV::Standard(c) => {
            codec::lemma_be_bytes_len(0x04, 1);
            codec::lemma_bytes_at_concat(b, pos, be_bytes(0x04, 1), spec_enc_spending_condition(c));
            codec::lemma_read_be_bytes_at(b, pos, 0x04, 1);
            lemma_read_enc_spending_condition(c, b, pos + 1);
        },
        TransactionAuthV::Sponsored(o, s) => {
            let eo = spec_enc_spending_condition(o);
            let es = spec_enc_spending_condition(s);
            codec::lemma_be_bytes_len(0x05, 1);
            codec::lemma_bytes_at_concat(b, pos, be_bytes(0x05, 1) + eo, es);
            codec::lemma_bytes_at_concat(b, pos, be_bytes(0x05, 1), eo);
            codec::lemma_read_be_bytes_at(b, pos, 0x05, 1);
            lemma_read_enc_spending_condition(o, b, pos + 1);
            lemma_read_enc_spending_condition(s, b, pos + 1 + eo.len());
        },
    }
}

impl TransactionAuth {
    /// Appends the canonical encoding of the authorization.
    pub fn encode_to(&self, out: &mut Vec<u8>)
        requires
            self@.wf(),
        ensures
            final(out)@ == old(out)@ + spec_enc_auth(self@),
    {
        match self {
            TransactionAuth::Standard(c) => {
                codec::push_be(out, 0x04, 1);
                c.encode_to(out);
            },
            TransactionAuth::Sponsored(o, s) => {
                codec::push_be(out, 0x05, 1);
                o.encode_to(out);
                s.encode_to(out);
            },
        }
        proof {
            assert(out@ =~= old(out)@ + spec_enc_auth(self@));
        }
    }

    /// Reads an authorization at `pos`; fails exactly on a truncated buffer
    /// or an undefined flag or tag.
    pub fn read_from(buf: &Vec<u8>, pos: usize) -> (r: Option<(TransactionAuth, usize)>)
        ensures
            opt_view(r) == spec_read_auth(buf@, pos as int),
            r matches Some((v, end)) ==> v.wf() && pos <= end <= buf@.len(),
    {
        proof {
            assert(codec::pow256(0) == 1);
        }
        let (t, p1) = match codec::read_be(buf, pos, 1) {
            Some(x) => x,
            None => {
                return None;
            },
        };
        if t == 0x04 {
            match TransactionSpendingCondition::read_from(buf, p1) {
                Some((c, p2)) => Some((TransactionAuth::Standard(c), p2)),
                None => None,
            }
        } else if t == 0x05 {
            let (o, p2) = match TransactionSpendingCondition::read_from(buf, p1) {
                Some(x) => x,
                None => {
                    return None;
                },
            };
            match TransactionSpendingCondition::read_from(buf, p2) {
                Some((s, p3)) => Some((TransactionAuth::Sponsored(o, s), p3)),
                None => None,
            }
        } else {
            None
        }
    }
}

} // verus!
