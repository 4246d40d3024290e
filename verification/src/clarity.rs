//! Names, code bodies, values, and principals of the contract layer, held as
//! plain bytes.
//!
//! The contract-execution collaborator interprets these; this core only
//! carries them, compares them for equality, and encodes them.

use vstd::prelude::*;
use crate::address::StacksAddress;
use crate::codec;
use crate::codec::{bytes_at, be_bytes, spec_read_be, spec_read_bytes};
use crate::hashes::bytes_eq;

verus! {

/// Longest allowed contract or asset name, in bytes.
pub const MAX_NAME_LENGTH: usize = 128;

/// Canonical encoding of a short name: one length byte, then the bytes.
pub open spec fn spec_enc_name(n: Seq<u8>) -> Seq<u8> {
    be_bytes(n.len() as int, 1) + n
}

/// Reading a short name at `pos`: rejects an empty or over-long name.
pub open spec fn spec_read_name(b: Seq<u8>, pos: int) -> Option<(Seq<u8>, int)> {
    match spec_read_be(b, pos, 1) {
        None => None,
        Some((n, p1)) => {
            if 1 <= n <= MAX_NAME_LENGTH {
                spec_read_bytes(b, p1, n as nat)
            } else {
                None
            }
        },
    }
}

/// A well-formed short name: nonempty, at most `MAX_NAME_LENGTH` bytes.
pub open spec fn name_wf(n: Seq<u8>) -> bool {
    1 <= n.len() <= MAX_NAME_LENGTH
}

/// An encoded short name reads back as itself.
pub proof fn lemma_read_enc_name(n: Seq<u8>, b: Seq<u8>, pos: int)
    requires
        name_wf(n),
        bytes_at(b, pos, spec_enc_name(n)),
    ensures
        spec_read_name(b, pos) == Some((n, pos + spec_enc_name(n).len())),
{
    assert(codec::pow256(0) == 1);
    codec::lemma_be_bytes_len(n.len() as int, 1);
    codec::lemma_bytes_at_concat(b, pos, be_bytes(n.len() as int, 1), n);
    codec::lemma_read_be_bytes_at(b, pos, n.len() as int, 1);
}

/// Appends the canonical encoding of a short name.
pub fn encode_name_to(out: &mut Vec<u8>, n: &Vec<u8>)
    ensures
        final(out)@ == old(out)@ + spec_enc_name(n@),
{
    codec::push_be(out, n.len() as u64, 1);
    codec::push_bytes(out, n);
    proof {
        assert(out@ =~= old(out)@ + spec_enc_name(n@));
    }
}

/// Reads a short name at `pos`.
pub fn read_name_from(buf: &Vec<u8>, pos: usize) -> (r: Option<(Vec<u8>, usize)>)
    ensures
        (match r {
            Some((v, end)) => Some((v@, end as int)),
            None => None::<(Seq<u8>, int)>,
        }) == spec_read_name(buf@, pos as int),
        r matches Some((v, end)) ==> name_wf(v@) && pos <= end <= buf@.len(),
{
    proof {
        assert(codec::pow256(0) == 1);
        assert(codec::pow256(1) == 256);
    }
    let (n, p1) = match codec::read_be(buf, pos, 1) {
        Some(x) => x,
        None => {
            return None;
        },
    };
    if 1 <= n && n <= MAX_NAME_LENGTH as u64 {
        match codec::read_bytes(buf, p1, n as usize) {
            Some((v, p2)) => Some((v, p2)),
            None => None,
        }
    } else {
        None
    }
}

/// Canonical encoding of a long byte string: a four-byte length, then the
/// bytes.
pub open spec fn spec_enc_lp_bytes(v: Seq<u8>) -> Seq<u8> {
    be_bytes(v.len() as int, 4) + v
}

/// Reading a long byte string at `pos`.
pub open spec fn spec_read_lp_bytes(b: Seq<u8>, pos: int) -> Option<(Seq<u8>, int)> {
    match spec_read_be(b, pos, 4) {
        None => None,
        Some((n, p1)) => spec_read_bytes(b, p1, n as nat),
    }
}

/// A well-formed long byte string: its length fits the four-byte prefix.
pub open spec fn lp_bytes_wf(v: Seq<u8>) -> bool {
    v.len() < 0x100000000
}

/// An encoded long byte string reads back as itself.
pub proof fn lemma_read_enc_lp_bytes(v: Seq<u8>, b: Seq<u8>, pos: int)
    requires
        lp_bytes_wf(v),
        bytes_at(b, pos, spec_enc_lp_bytes(v)),
    ensures
        spec_read_lp_bytes(b, pos) == Some((v, pos + spec_enc_lp_bytes(v).len())),
{
    assert(codec::pow256(0) == 1);
    assert(codec::pow256(1) == 256);
    assert(codec::pow256(2) == 0x10000);
    assert(codec::pow256(3) == 0x1000000);
    assert(codec::pow256(4) == 0x100000000);
    codec::lemma_be_bytes_len(v.len() as int, 4);
    codec::lemma_bytes_at_concat(b, pos, be_bytes(v.len() as int, 4), v);
    codec::lemma_read_be_bytes_at(b, pos, v.len() as int, 4);
}

/// Appends the canonical encoding of a long byte string.
pub fn encode_lp_bytes_to(out: &mut Vec<u8>, v: &Vec<u8>)
    ensures
        final(out)@ == old(out)@ + spec_enc_lp_bytes(v@),
{
    codec::push_be(out, v.len() as u64, 4);
    codec::push_bytes(out, v);
    proof {
        assert(out@ =~= old(out)@ + spec_enc_lp_bytes(v@));
    }
}

/// Reads a long byte string at `pos`.
pub fn read_lp_bytes_from(buf: &Vec<u8>, pos: usize) -> (r: Option<(Vec<u8>, usize)>)
    ensures
        (match r {
            Some((v, end)) => Some((v@, end as int)),
            None => None::<(Seq<u8>, int)>,
        }) == spec_read_lp_bytes(buf@, pos as int),
        r matches Some((v, end)) ==> lp_bytes_wf(v@) && pos <= end <= buf@.len(),
{
    proof {
        assert(codec::pow256(0) == 1);
        assert(codec::pow256(1) == 256);
        assert(codec::pow256(2) == 0x10000);
        assert(codec::pow256(3) == 0x1000000);
        assert(codec::pow256(4) == 0x100000000);
    }
    let (n, p1) = match codec::read_be(buf, pos, 4) {
        Some(x) => x,
        None => {
            return None;
        },
    };
    match codec::read_bytes(buf, p1, n as usize) {
        Some((v, p2)) => Some((v, p2)),
        None => None,
    }
}

/// The name of a deployed contract (1 to 128 bytes).
#[derive(Clone, Debug, PartialEq, Eq)]
pub struct ContractName(pub Vec<u8>);

impl View for ContractName {
    type V = Seq<u8>;

    open spec fn view(&self) -> Seq<u8> {
        self.0@
    }
}

impl ContractName {
    /// Structural validity: nonempty, at most 128 bytes.
    pub open spec fn wf(&self) -> bool {
        name_wf(self@)
    }

    /// Accepts a name of 1 to 128 bytes; anything else is rejected.
    pub fn new(bytes: Vec<u8>) -> (r: Option<Self>)
        ensures
            name_wf(bytes@) ==> (r matches Some(n) && n@ == bytes@ && n.wf()),
            !name_wf(bytes@) ==> r is None,
    {
        if 1 <= bytes.len() && bytes.len() <= MAX_NAME_LENGTH {
            Some(ContractName(bytes))
        } else {
            None
        }
    }

    /// Copies the name.
    pub fn dup(&self) -> (r: Self)
        ensures
            r@ == self@,
    {
        ContractName(codec::dup_bytes(&self.0))
    }
}

/// The name of a function or asset inside a contract (1 to 128 bytes).
#[derive(Clone, Debug, PartialEq, Eq)]
pub struct ClarityName(pub Vec<u8>);

impl View for ClarityName {
    type V = Seq<u8>;

    open spec fn view(&self) -> Seq<u8> {
        self.0@
    }
}

impl ClarityName {
    /// Structural validity: nonempty, at most 128 bytes.
    pub open spec fn wf(&self) -> bool {
        name_wf(self@)
    }

    /// Accepts a name of 1 to 128 bytes; anything else is rejected.
    pub fn new(bytes: Vec<u8>) -> (r: Option<Self>)
        ensures
            name_wf(bytes@) ==> (r matches Some(n) && n@ == bytes@ && n.wf()),
            !name_wf(bytes@) ==> r is None,
    {
        if 1 <= bytes.len() && bytes.len() <= MAX_NAME_LENGTH {
            Some(ClarityName(bytes))
        } else {
            None
        }
    }
}

/// A contract code body, held as its bytes.
#[derive(Clone, Debug, PartialEq, Eq)]
pub struct StacksString(pub Vec<u8>);

impl View for StacksString {
    type V = Seq<u8>;

    open spec fn view(&self) -> Seq<u8> {
        self.0@
    }
}

impl StacksString {
    /// Structural validity: the length fits the four-byte wire prefix.
    pub open spec fn wf(&self) -> bool {
        lp_bytes_wf(self@)
    }

    /// Accepts any byte string whose length fits the wire format.
    pub fn new(bytes: Vec<u8>) -> (r: Option<Self>)
        ensures
            lp_bytes_wf(bytes@) ==> (r matches Some(s) && s@ == bytes@ && s.wf()),
            !lp_bytes_wf(bytes@) ==> r is None,
    {
        if (bytes.len() as u64) < 0x100000000u64 {
            Some(StacksString(bytes))
        } else {
            None
        }
    }
}

/// A contract-layer value, carried opaquely as its canonical bytes; this
/// core only compares values for equality and encodes them.
#[derive(Clone, Debug, PartialEq, Eq)]
pub struct ClarityValue(pub Vec<u8>);

impl View for ClarityValue {
    type V = Seq<u8>;

    open spec fn view(&self) -> Seq<u8> {
        self.0@
    }
}

impl ClarityValue {
    /// Structural validity: the length fits the four-byte wire prefix.
    pub open spec fn wf(&self) -> bool {
        lp_bytes_wf(self@)
    }

    /// Accepts any byte string whose length fits the wire format.
    pub fn new(bytes: Vec<u8>) -> (r: Option<Self>)
        ensures
            lp_bytes_wf(bytes@) ==> (r matches Some(s) && s@ == bytes@ && s.wf()),
            !lp_bytes_wf(bytes@) ==> r is None,
    {
        if (bytes.len() as u64) < 0x100000000u64 {
            Some(ClarityValue(bytes))
        } else {
            None
        }
    }

    /// Copies the value.
    pub fn dup(&self) -> (r: Self)
        ensures
            r@ == self@,
    {
        ClarityValue(codec::dup_bytes(&self.0))
    }

    /// Compares two values for equality of their bytes.
    pub fn eq_value(&self, other: &ClarityValue) -> (r: bool)
        ensures
            r == (self@ == other@),
    {
        bytes_eq(&self.0, &other.0)
    }
}

/// A standard (non-contract) principal: an address in the contract layer.
#[derive(Clone, Debug, PartialEq, Eq)]
pub struct StandardPrincipalData {
    pub version: u8,
    pub bytes: Vec<u8>,
}

/// Ghost model of a standard principal.
pub struct StandardPrincipalDataV {
    pub version: u8,
    pub bytes: Seq<u8>,
}

impl View for StandardPrincipalData {
    type V = StandardPrincipalDataV;

    open spec fn view(&self) -> StandardPrincipalDataV {
        StandardPrincipalDataV { version: self.version, bytes: self.bytes@ }
    }
}

impl StandardPrincipalData {
    /// Structural validity: a 20-byte hash.
    pub open spec fn wf(&self) -> bool {
        self@.bytes.len() == 20
    }

    /// The principal of an address: the same version byte over the same
    /// hash bytes.
    pub fn from_address(addr: &StacksAddress) -> (r: StandardPrincipalData)
        ensures
            r@.version == addr@.version,
            r@.bytes == addr@.bytes,
    {
        StandardPrincipalData { version: addr.version, bytes: codec::dup_bytes(&addr.bytes.0) }
    }

    /// Copies the principal.
    pub fn dup(&self) -> (r: Self)
        ensures
            r@ == self@,
    {
        StandardPrincipalData { version: self.version, bytes: codec::dup_bytes(&self.bytes) }
    }
}

/// The qualified identifier of a deployed contract: issuer and name.
#[derive(Clone, Debug, PartialEq, Eq)]
pub struct QualifiedContractIdentifier {
    pub issuer: StandardPrincipalData,
    pub name: ContractName,
}

/// Ghost model of a qualified contract identifier.
pub struct QualifiedContractIdentifierV {
    pub issuer: StandardPrincipalDataV,
    pub name: Seq<u8>,
}

impl View for QualifiedContractIdentifier {
    type V = QualifiedContractIdentifierV;

    open spec fn view(&self) -> QualifiedContractIdentifierV {
        QualifiedContractIdentifierV { issuer: self.issuer@, name: self.name@ }
    }
}

impl QualifiedContractIdentifier {
    /// Pairs an issuer with a contract name.
    pub fn new(issuer: StandardPrincipalData, name: ContractName) -> (r: Self)
        ensures
            r@.issuer == issuer@,
            r@.name == name@,
    {
        QualifiedContractIdentifier { issuer, name }
    }
}

/// A concrete principal: a standard account or a deployed contract.
#[derive(Clone, Debug, PartialEq, Eq)]
pub enum PrincipalData {
    Standard(StandardPrincipalData),
    Contract(QualifiedContractIdentifier),
}

/// Ghost model of a principal.
pub enum PrincipalDataV {
    Standard(StandardPrincipalDataV),
    Contract(QualifiedContractIdentifierV),
}

impl View for PrincipalData {
    type V = PrincipalDataV;

    open spec fn view(&self) -> PrincipalDataV {
        match self {
            PrincipalData::Standard(s) => PrincipalDataV::Standard(s@),
            PrincipalData::Contract(c) => PrincipalDataV::Contract(c@),
        }
    }
}

impl PrincipalData {
    /// Copies the principal.
    pub fn dup(&self) -> (r: Self)
        ensures
            r@ == self@,
    {
        match self {
            PrincipalData::Standard(s) => PrincipalData::Standard(s.dup()),
            PrincipalData::Contract(c) => PrincipalData::Contract(
                QualifiedContractIdentifier { issuer: c.issuer.dup(), name: c.name.dup() },
            ),
        }
    }

    /// Compares two principals for structural equality.
    pub fn eq_principal(&self, other: &PrincipalData) -> (r: bool)
        ensures
            r == (self@ == other@),
    {
        match (self, other) {
            (PrincipalData::Standard(a), PrincipalData::Standard(b)) => {
                let r = a.version == b.version && bytes_eq(&a.bytes, &b.bytes);
                proof {
                    if r {
                        assert(self@ == other@);
                    }
                }
                r
            },
            (PrincipalData::Contract(a), PrincipalData::Contract(b)) => {
                let r = a.issuer.version == b.issuer.version && bytes_eq(
                    &a.issuer.bytes,
                    &b.issuer.bytes,
                ) && bytes_eq(&a.name.0, &b.name.0);
                proof {
                    if r {
                        assert(self@ == other@);
                    }
                }
                r
            },
            _ => false,
        }
    }
}

} // verus!
