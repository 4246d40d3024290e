//! Post-conditions on asset movement, and their evaluation.
//!
//! A post-condition names a principal, an asset, and a condition code; the
//! execution collaborator supplies the observed movements.  Evaluation is
//! conjunctive: every declared condition must hold, and under `Deny` mode
//! every observed movement must additionally be covered by some declared
//! condition on its principal and asset.

use vstd::prelude::*;
use crate::address::{spec_enc_address, spec_read_address, StacksAddress};
use crate::clarity::{
    name_wf, lp_bytes_wf, spec_enc_lp_bytes, spec_enc_name, spec_read_lp_bytes, spec_read_name,
    encode_lp_bytes_to, encode_name_to, read_lp_bytes_from, read_name_from,
};
use crate::clarity::{ClarityName, ClarityValue, ContractName, PrincipalData, PrincipalDataV};
use crate::clarity::{
    QualifiedContractIdentifier, QualifiedContractIdentifierV, StandardPrincipalData,
    StandardPrincipalDataV,
};
use crate::codec;
use crate::codec::{bytes_at, be_bytes, opt_view, spec_read_be};
use crate::error::Error;
use crate::hashes::bytes_eq;
use vstd::string::StringExecFns;

verus! {

/// The asset-type identifier of a non-STX asset: the contract that defines
/// it and the asset's name inside that contract.
#[derive(Clone, Debug, PartialEq, Eq)]
pub struct AssetInfo {
    pub contract_address: StacksAddress,
    pub contract_name: ContractName,
    pub asset_name: ClarityName,
}

/// Ghost model of an asset-type identifier.
pub struct AssetInfoV {
    pub contract_address: crate::address::StacksAddressV,
    pub contract_name: Seq<u8>,
    pub asset_name: Seq<u8>,
}

impl AssetInfoV {
    /// Structural validity of the address and names.
    pub open spec fn wf(&self) -> bool {
        &&& self.contract_address.wf()
        &&& name_wf(self.contract_name)
        &&& name_wf(self.asset_name)
    }
}

impl View for AssetInfo {
    type V = AssetInfoV;

    open spec fn view(&self) -> AssetInfoV {
        AssetInfoV {
            contract_address: self.contract_address@,
            contract_name: self.contract_name@,
            asset_name: self.asset_name@,
        }
    }
}

impl AssetInfo {
    /// Structural validity of the address and names.
    pub open spec fn wf(&self) -> bool {
        self@.wf()
    }

    /// Compares two asset identifiers for structural equality.
    pub fn eq_asset(&self, other: &AssetInfo) -> (r: bool)
        ensures
            r == (self@ == other@),
    {
        let r = self.contract_address.version == other.contract_address.version && bytes_eq(
            &self.contract_address.bytes.0,
            &other.contract_address.bytes.0,
        ) && bytes_eq(&self.contract_name.0, &other.contract_name.0) && bytes_eq(
            &self.asset_name.0,
            &other.asset_name.0,
        );
        proof {
            if r {
                assert(self@ == other@);
            }
        }
        r
    }
}

/// The wire tags of the three asset kinds.
#[derive(Clone, Copy, Debug, PartialEq, Eq, Structural)]
pub enum AssetInfoID {
    STX,
    FungibleAsset,
    NonfungibleAsset,
}

/// The wire tag of an asset kind.
pub open spec fn spec_asset_info_id_tag(id: AssetInfoID) -> u8 {
    match id {
        AssetInfoID::STX => 0,
        AssetInfoID::FungibleAsset => 1,
        AssetInfoID::NonfungibleAsset => 2,
    }
}

/// The asset kind a wire tag denotes, if any.
pub open spec fn spec_asset_info_id_from_u8(b: u8) -> Option<AssetInfoID> {
    if b == 0 {
        Some(AssetInfoID::STX)
    } else if b == 1 {
        Some(AssetInfoID::FungibleAsset)
    } else if b == 2 {
        Some(AssetInfoID::NonfungibleAsset)
    } else {
        None
    }
}

impl AssetInfoID {
    /// The asset kind a wire tag denotes; other tags are rejected.
    pub fn from_u8(b: u8) -> (r: Option<AssetInfoID>)
        ensures
            r == spec_asset_info_id_from_u8(b),
    {
        match b {
            0 => Some(AssetInfoID::STX),
            1 => Some(AssetInfoID::FungibleAsset),
            2 => Some(AssetInfoID::NonfungibleAsset),
            _ => None,
        }
    }
}

/// How a declared amount constrains the observed sent amount.
#[derive(Clone, Copy, Debug, PartialEq, Eq, Structural)]
pub enum FungibleConditionCode {
    SentEq,
    SentGt,
    SentGe,
    SentLt,
    SentLe,
}

/// The wire tag of a fungible condition code.
pub open spec fn spec_fungible_code_tag(c: FungibleConditionCode) -> u8 {
    match c {
        FungibleConditionCode::SentEq => 0x01,
        FungibleConditionCode::SentGt => 0x02,
        FungibleConditionCode::SentGe => 0x03,
        FungibleConditionCode::SentLt => 0x04,
        FungibleConditionCode::SentLe => 0x05,
    }
}

/// The fungible condition code a wire tag denotes, if any.
pub open spec fn spec_fungible_code_from_u8(b: u8) -> Option<FungibleConditionCode> {
    if b == 0x01 {
        Some(FungibleConditionCode::SentEq)
    } else if b == 0x02 {
        Some(FungibleConditionCode::SentGt)
    } else if b == 0x03 {
        Some(FungibleConditionCode::SentGe)
    } else if b == 0x04 {
        Some(FungibleConditionCode::SentLt)
    } else if b == 0x05 {
        Some(FungibleConditionCode::SentLe)
    } else {
        None
    }
}

/// Whether the observed sent amount satisfies the declared constraint.
pub open spec fn spec_fungible_check(
    c: FungibleConditionCode,
    amount_sent_condition: u128,
    amount_sent: u128,
) -> bool {
    match c {
        FungibleConditionCode::SentEq => amount_sent == amount_sent_condition,
        FungibleConditionCode::SentGt => amount_sent > amount_sent_condition,
        FungibleConditionCode::SentGe => amount_sent >= amount_sent_condition,
        FungibleConditionCode::SentLt => amount_sent < amount_sent_condition,
        FungibleConditionCode::SentLe => amount_sent <= amount_sent_condition,
    }
}

impl FungibleConditionCode {
    /// The condition code a wire tag denotes; other tags are rejected.
    pub fn from_u8(b: u8) -> (r: Option<FungibleConditionCode>)
        ensures
            r == spec_fungible_code_from_u8(b),
    {
        match b {
            0x01 => Some(FungibleConditionCode::SentEq),
            0x02 => Some(FungibleConditionCode::SentGt),
            0x03 => Some(FungibleConditionCode::SentGe),
            0x04 => Some(FungibleConditionCode::SentLt),
            0x05 => Some(FungibleConditionCode::SentLe),
            _ => None,
        }
    }

    /// The wire tag of this condition code.
    pub fn to_u8(&self) -> (r: u8)
        ensures
            r == spec_fungible_code_tag(*self),
    {
        match *self {
            FungibleConditionCode::SentEq => 0x01,
            FungibleConditionCode::SentGt => 0x02,
            FungibleConditionCode::SentGe => 0x03,
            FungibleConditionCode::SentLt => 0x04,
            FungibleConditionCode::SentLe => 0x05,
        }
    }

    /// Compares the observed sent amount to the declared threshold.
    pub fn check(&self, amount_sent_condition: u128, amount_sent: u128) -> (r: bool)
        ensures
            r == spec_fungible_check(*self, amount_sent_condition, amount_sent),
    {
        match *self {
            FungibleConditionCode::SentEq => amount_sent == amount_sent_condition,
            FungibleConditionCode::SentGt => amount_sent > amount_sent_condition,
            FungibleConditionCode::SentGe => amount_sent >= amount_sent_condition,
            FungibleConditionCode::SentLt => amount_sent < amount_sent_condition,
            FungibleConditionCode::SentLe => amount_sent <= amount_sent_condition,
        }
    }
}

/// Whether a specific asset value must, or must not, have moved.
#[derive(Clone, Copy, Debug, PartialEq, Eq, Structural)]
pub enum NonfungibleConditionCode {
    Sent,
    NotSent,
}

/// The wire tag of a non-fungible condition code.
pub open spec fn spec_nonfungible_code_tag(c: NonfungibleConditionCode) -> u8 {
    match c {
        NonfungibleConditionCode::Sent => 0x10,
        NonfungibleConditionCode::NotSent => 0x11,
    }
}

/// The non-fungible condition code a wire tag denotes, if any.
pub open spec fn spec_nonfungible_code_from_u8(b: u8) -> Option<NonfungibleConditionCode> {
    if b == 0x10 {
        Some(NonfungibleConditionCode::Sent)
    } else if b == 0x11 {
        Some(NonfungibleConditionCode::NotSent)
    } else {
        None
    }
}

/// The byte strings of a list of values.
pub open spec fn value_views(vs: Seq<ClarityValue>) -> Seq<Seq<u8>> {
    vs.map_values(|v: ClarityValue| v@)
}

/// Whether the specific value occurs among the values observed to have
/// moved.
pub open spec fn spec_was_sent(cond: Seq<u8>, sent: Seq<Seq<u8>>) -> bool {
    exists|i: int| 0 <= i < sent.len() && sent[i] == cond
}

/// Whether the observed moved values satisfy the declared membership
/// constraint.
pub open spec fn spec_nonfungible_check(
    c: NonfungibleConditionCode,
    cond: Seq<u8>,
    sent: Seq<Seq<u8>>,
) -> bool {
    match c {
        NonfungibleConditionCode::Sent => spec_was_sent(cond, sent),
        NonfungibleConditionCode::NotSent => !spec_was_sent(cond, sent),
    }
}

impl NonfungibleConditionCode {
    /// The condition code a wire tag denotes; other tags are rejected.
    pub fn from_u8(b: u8) -> (r: Option<NonfungibleConditionCode>)
        ensures
            r == spec_nonfungible_code_from_u8(b),
    {
        match b {
            0x10 => Some(NonfungibleConditionCode::Sent),
            0x11 => Some(NonfungibleConditionCode::NotSent),
            _ => None,
        }
    }

    /// The wire tag of this condition code.
    pub fn to_u8(&self) -> (r: u8)
        ensures
            r == spec_nonfungible_code_tag(*self),
    {
        match *self {
            NonfungibleConditionCode::Sent => 0x10,
            NonfungibleConditionCode::NotSent => 0x11,
        }
    }

    /// Whether the specific asset value was sent (and so is no longer owned
    /// by the principal).
    pub fn was_sent(nft_sent_condition: &ClarityValue, nfts_sent: &Vec<ClarityValue>) -> (r: bool)
        ensures
            r == spec_was_sent(nft_sent_condition@, value_views(nfts_sent@)),
    {
        let mut i: usize = 0;
        while i < nfts_sent.len()
            invariant
                i <= nfts_sent@.len(),
                forall|j: int|
                    0 <= j < i ==> value_views(nfts_sent@)[j] != nft_sent_condition@,
            decreases nfts_sent@.len() - i,
        {
            if nfts_sent[i].eq_value(nft_sent_condition) {
                proof {
                    assert(value_views(nfts_sent@)[i as int] == nft_sent_condition@);
                }
                return true;
            }
            i = i + 1;
        }
        false
    }

    /// Checks set membership of the specific asset value in the observed
    /// moved set, under this condition code.
    pub fn check(&self, nft_sent_condition: &ClarityValue, nfts_sent: &Vec<ClarityValue>) -> (r:
        bool)
        ensures
            r == spec_nonfungible_check(*self, nft_sent_condition@, value_views(nfts_sent@)),
    {
        match *self {
            NonfungibleConditionCode::Sent => NonfungibleConditionCode::was_sent(
                nft_sent_condition,
                nfts_sent,
            ),
            NonfungibleConditionCode::NotSent => !NonfungibleConditionCode::was_sent(
                nft_sent_condition,
                nfts_sent,
            ),
        }
    }
}

/// The principal a post-condition constrains: the transaction's origin, a
/// named account, or a named contract.
#[derive(Clone, Debug, PartialEq, Eq)]
pub enum PostConditionPrincipal {
    Origin,
    Standard(StacksAddress),
    Contract(StacksAddress, ContractName),
}

/// Ghost model of a post-condition principal.
pub enum PostConditionPrincipalV {
    Origin,
    Standard(crate::address::StacksAddressV),
    Contract(crate::address::StacksAddressV, Seq<u8>),
}

impl PostConditionPrincipalV {
    /// Structural validity of the held address and name.
    pub open spec fn wf(&self) -> bool {
        match self {
            PostConditionPrincipalV::Origin => true,
            PostConditionPrincipalV::Standard(a) => a.wf(),
            PostConditionPrincipalV::Contract(a, n) => a.wf() && name_wf(*n),
        }
    }
}

impl View for PostConditionPrincipal {
    type V = PostConditionPrincipalV;

    open spec fn view(&self) -> PostConditionPrincipalV {
        match self {
            PostConditionPrincipal::Origin => PostConditionPrincipalV::Origin,
            PostConditionPrincipal::Standard(a) => PostConditionPrincipalV::Standard(a@),
            PostConditionPrincipal::Contract(a, n) => PostConditionPrincipalV::Contract(a@, n@),
        }
    }
}

/// The concrete principal a post-condition principal resolves to, with
/// `Origin` standing for the transaction's origin principal.
pub open spec fn spec_resolve_principal(
    p: PostConditionPrincipalV,
    origin: PrincipalDataV,
) -> PrincipalDataV {
    match p {
        PostConditionPrincipalV::Origin => origin,
        PostConditionPrincipalV::Standard(a) => PrincipalDataV::Standard(
            StandardPrincipalDataV { version: a.version, bytes: a.bytes },
        ),
        PostConditionPrincipalV::Contract(a, n) => PrincipalDataV::Contract(
            QualifiedContractIdentifierV {
                issuer: StandardPrincipalDataV { version: a.version, bytes: a.bytes },
                name: n,
            },
        ),
    }
}

impl PostConditionPrincipal {
    /// Structural validity of the held address and name.
    pub open spec fn wf(&self) -> bool {
        self@.wf()
    }

    /// Resolves to a concrete principal, substituting the transaction's
    /// origin principal for `Origin`.
    pub fn to_principal_data(&self, origin_principal: &PrincipalData) -> (r: PrincipalData)
        ensures
            r@ == spec_resolve_principal(self@, origin_principal@),
    {
        match self {
            PostConditionPrincipal::Origin => origin_principal.dup(),
            PostConditionPrincipal::Standard(addr) => PrincipalData::Standard(
                StandardPrincipalData::from_address(addr),
            ),
            PostConditionPrincipal::Contract(addr, name) => PrincipalData::Contract(
                QualifiedContractIdentifier::new(
                    StandardPrincipalData::from_address(addr),
                    name.dup(),
                ),
            ),
        }
    }
}

/// The wire tags of the three post-condition principal kinds.
#[derive(Clone, Copy, Debug, PartialEq, Eq, Structural)]
pub enum PostConditionPrincipalID {
    Origin,
    Standard,
    Contract,
}

/// The wire tag of a post-condition principal kind.
pub open spec fn spec_principal_id_tag(id: PostConditionPrincipalID) -> u8 {
    match id {
        PostConditionPrincipalID::Origin => 0x01,
        PostConditionPrincipalID::Standard => 0x02,
        PostConditionPrincipalID::Contract => 0x03,
    }
}

/// Canonical encoding of a post-condition principal.
pub open spec fn spec_enc_pc_principal(p: PostConditionPrincipalV) -> Seq<u8> {
    match p {
        PostConditionPrincipalV::Origin => be_bytes(0x01, 1),
        PostConditionPrincipalV::Standard(a) => be_bytes(0x02, 1) + spec_enc_address(a),
        PostConditionPrincipalV::Contract(a, n) => be_bytes(0x03, 1) + spec_enc_address(a)
            + spec_enc_name(n),
    }
}

/// Reading a post-condition principal at `pos`.
pub open spec fn spec_read_pc_principal(b: Seq<u8>, pos: int) -> Option<(
    PostConditionPrincipalV,
    int,
)> {
    match spec_read_be(b, pos, 1) {
        None => None,
        Some((t, p1)) => {
            if t == 0x01 {
                Some((PostConditionPrincipalV::Origin, p1))
            } else if t == 0x02 {
                match spec_read_address(b, p1) {
                    None => None,
                    Some((a, p2)) => Some((PostConditionPrincipalV::Standard(a), p2)),
                }
            } else if t == 0x03 {
                match spec_read_address(b, p1) {
                    None => None,
                    Some((a, p2)) => match spec_read_name(b, p2) {
                        None => None,
                        Some((n, p3)) => Some((PostConditionPrincipalV::Contract(a, n), p3)),
                    },
                }
            } else {
                None
            }
        },
    }
}

/// An encoded post-condition principal reads back as itself.
pub proof fn lemma_read_enc_pc_principal(p: PostConditionPrincipalV, b: Seq<u8>, pos: int)
    requires
        p.wf(),
        bytes_at(b, pos, spec_enc_pc_principal(p)),
    ensures
        spec_read_pc_principal(b, pos) == Some((p, pos + spec_enc_pc_principal(p).len())),
{
    assert(codec::pow256(0) == 1);
    match p {
        PostConditionPrincipalV::Origin => {
            codec::lemma_read_be_bytes_at(b, pos, 0x01, 1);
            codec::lemma_be_bytes_len(0x01, 1);
        },
        PostConditionPrincipalV::Standard(a) => {
            codec::lemma_be_bytes_len(0x02, 1);
            codec::lemma_bytes_at_concat(b, pos, be_bytes(0x02, 1), spec_enc_address(a));
            codec::lemma_read_be_bytes_at(b, pos, 0x02, 1);
            crate::address::lemma_read_enc_address(a, b, pos + 1);
        },
        PostConditionPrincipalV::Contract(a, n) => {
            codec::lemma_be_bytes_len(0x03, 1);
            codec::lemma_bytes_at_concat(
                b,
                pos,
                be_bytes(0x03, 1) + spec_enc_address(a),
                spec_enc_name(n),
            );
            codec::lemma_bytes_at_concat(b, pos, be_bytes(0x03, 1), spec_enc_address(a));
            codec::lemma_read_be_bytes_at(b, pos, 0x03, 1);
            crate::address::lemma_read_enc_address(a, b, pos + 1);
            crate::clarity::lemma_read_enc_name(n, b, pos + 22);
        },
    }
}

impl PostConditionPrincipal {
    /// Appends the canonical encoding of the principal.
    pub fn encode_to(&self, out: &mut Vec<u8>)
        ensures
            final(out)@ == old(out)@ + spec_enc_pc_principal(self@),
    {
        match self {
            PostConditionPrincipal::Origin => {
                codec::push_be(out, 0x01, 1);
            },
            PostConditionPrincipal::Standard(a) => {
                codec::push_be(out, 0x02, 1);
                a.encode_to(out);
            },
            PostConditionPrincipal::Contract(a, n) => {
                codec::push_be(out, 0x03, 1);
                a.encode_to(out);
                encode_name_to(out, &n.0);
            },
        }
        proof {
            assert(out@ =~= old(out)@ + spec_enc_pc_principal(self@));
        }
    }

    /// Reads a post-condition principal at `pos`; fails exactly on a
    /// truncated buffer or an undefined tag.
    pub fn read_from(buf: &Vec<u8>, pos: usize) -> (r: Option<(PostConditionPrincipal, usize)>)
        ensures
            opt_view(r) == spec_read_pc_principal(buf@, pos as int),
            r matches Some((v, end)) ==> v.wf() && pos <= end <= buf@.len(),
    {
        proof {
            assert(codec::pow256(0) == 1);
        }
        let (t, p1) = match codec::read_be(buf, pos, 1) {
            Some(x) => x,
            None => {
                return None;
            },
        };
        if t == 0x01 {
            Some((PostConditionPrincipal::Origin, p1))
        } else if t == 0x02 {
            match StacksAddress::read_from(buf, p1) {
                Some((a, p2)) => Some((PostConditionPrincipal::Standard(a), p2)),
                None => None,
            }
        } else if t == 0x03 {
            let (a, p2) = match StacksAddress::read_from(buf, p1) {
                Some(x) => x,
                None => {
                    return None;
                },
            };
            match read_name_from(buf, p2) {
                Some((n, p3)) => Some((PostConditionPrincipal::Contract(a, ContractName(n)), p3)),
                None => None,
            }
        } else {
            None
        }
    }
}

/// Canonical encoding of an asset identifier: contract address, contract
/// name, asset name.
pub open spec fn spec_enc_asset_info(a: AssetInfoV) -> Seq<u8> {
    spec_enc_address(a.contract_address) + spec_enc_name(a.contract_name) + spec_enc_name(
        a.asset_name,
    )
}

/// Reading an asset identifier at `pos`.
pub open spec fn spec_read_asset_info(b: Seq<u8>, pos: int) -> Option<(AssetInfoV, int)> {
    match spec_read_address(b, pos) {
        None => None,
        Some((addr, p1)) => match spec_read_name(b, p1) {
            None => None,
            Some((cn, p2)) => match spec_read_name(b, p2) {
                None => None,
                Some((an, p3)) => Some(
                    (AssetInfoV { contract_address: addr, contract_name: cn, asset_name: an }, p3),
                ),
            },
        },
    }
}

/// An encoded asset identifier reads back as itself.
pub proof fn lemma_read_enc_asset_info(a: AssetInfoV, b: Seq<u8>, pos: int)
    requires
        a.wf(),
        bytes_at(b, pos, spec_enc_asset_info(a)),
    ensures
        spec_read_asset_info(b, pos) == Some((a, pos + spec_enc_asset_info(a).len())),
{
    let ea = spec_enc_address(a.contract_address);
    let eb = spec_enc_name(a.contract_name);
    let ec = spec_enc_name(a.asset_name);
    codec::lemma_be_bytes_len(a.contract_address.version as int, 1);
    codec::lemma_be_bytes_len(a.contract_name.len() as int, 1);
    codec::lemma_bytes_at_concat(b, pos, ea + eb, ec);
    codec::lemma_bytes_at_concat(b, pos, ea, eb);
    crate::address::lemma_read_enc_address(a.contract_address, b, pos);
    crate::clarity::lemma_read_enc_name(a.contract_name, b, pos + 21);
    crate::clarity::lemma_read_enc_name(a.asset_name, b, pos + 21 + eb.len());
}

impl AssetInfo {
    /// Appends the canonical encoding of the asset identifier.
    pub fn encode_to(&self, out: &mut Vec<u8>)
        ensures
            final(out)@ == old(out)@ + spec_enc_asset_info(self@),
    {
        self.contract_address.encode_to(out);
        encode_name_to(out, &self.contract_name.0);
        encode_name_to(out, &self.asset_name.0);
        proof {
            assert(out@ =~= old(out)@ + spec_enc_asset_info(self@));
        }
    }

    /// Reads an asset identifier at `pos`.
    pub fn read_from(buf: &Vec<u8>, pos: usize) -> (r: Option<(AssetInfo, usize)>)
        ensures
            opt_view(r) == spec_read_asset_info(buf@, pos as int),
            r matches Some((v, end)) ==> v.wf() && pos <= end <= buf@.len(),
    {
        let (addr, p1) = match StacksAddress::read_from(buf, pos) {
            Some(x) => x,
            None => {
                return None;
            },
        };
        let (cn, p2) = match read_name_from(buf, p1) {
            Some(x) => x,
            None => {
                return None;
            },
        };
        let (an, p3) = match read_name_from(buf, p2) {
            Some(x) => x,
            None => {
                return None;
            },
        };
        Some(
            (
                AssetInfo {
                    contract_address: addr,
                    contract_name: ContractName(cn),
                    asset_name: ClarityName(an),
                },
                p3,
            ),
        )
    }
}

/// A declared constraint on asset movement: what the named principal may
/// have sent of STX, of a fungible asset, or of a specific non-fungible
/// value.
#[derive(Clone, Debug, PartialEq, Eq)]
pub enum TransactionPostCondition {
    STX(PostConditionPrincipal, FungibleConditionCode, u64),
    Fungible(PostConditionPrincipal, AssetInfo, FungibleConditionCode, u64),
    Nonfungible(PostConditionPrincipal, AssetInfo, ClarityValue, NonfungibleConditionCode),
}

/// Ghost model of a post-condition.
pub enum TransactionPostConditionV {
    STX(PostConditionPrincipalV, FungibleConditionCode, u64),
    Fungible(PostConditionPrincipalV, AssetInfoV, FungibleConditionCode, u64),
    Nonfungible(PostConditionPrincipalV, AssetInfoV, Seq<u8>, NonfungibleConditionCode),
}

impl TransactionPostConditionV {
    /// Structural validity of the held principal, asset, and value.
    pub open spec fn wf(&self) -> bool {
        match self {
            TransactionPostConditionV::STX(p, _, _) => p.wf(),
            TransactionPostConditionV::Fungible(p, a, _, _) => p.wf() && a.wf(),
            TransactionPostConditionV::Nonfungible(p, a, v, _) => p.wf() && a.wf() && lp_bytes_wf(
                *v,
            ),
        }
    }
}

impl View for TransactionPostCondition {
    type V = TransactionPostConditionV;

    open spec fn view(&self) -> TransactionPostConditionV {
        match self {
            TransactionPostCondition::STX(p, c, amt) => TransactionPostConditionV::STX(
                p@,
                *c,
                *amt,
            ),
            TransactionPostCondition::Fungible(p, a, c, amt) => TransactionPostConditionV::Fungible(
                p@,
                a@,
                *c,
                *amt,
            ),
            TransactionPostCondition::Nonfungible(
                p,
                a,
                v,
                c,
            ) => TransactionPostConditionV::Nonfungible(p@, a@, v@, *c),
        }
    }
}

/// Canonical encoding of a post-condition: an asset-kind tag, then its
/// parts.
pub open spec fn spec_enc_post_condition(pc: TransactionPostConditionV) -> Seq<u8> {
    match pc {
        TransactionPostConditionV::STX(p, c, amt) => be_bytes(0, 1) + spec_enc_pc_principal(p)
            + be_bytes(spec_fungible_code_tag(c) as int, 1) + be_bytes(amt as int, 8),
        TransactionPostConditionV::Fungible(p, a, c, amt) => be_bytes(1, 1) + spec_enc_pc_principal(
            p,
        ) + spec_enc_asset_info(a) + be_bytes(spec_fungible_code_tag(c) as int, 1) + be_bytes(
            amt as int,
            8,
        ),
        TransactionPostConditionV::Nonfungible(p, a, v, c) => be_bytes(2, 1)
            + spec_enc_pc_principal(p) + spec_enc_asset_info(a) + spec_enc_lp_bytes(v) + be_bytes(
            spec_nonfungible_code_tag(c) as int,
            1,
        ),
    }
}

/// Reading a post-condition at `pos`.
pub open spec fn spec_read_post_condition(b: Seq<u8>, pos: int) -> Option<(
    TransactionPostConditionV,
    int,
)> {
    match spec_read_be(b, pos, 1) {
        None => None,
        Some((t, p1)) => {
            if t == 0 {
                match spec_read_pc_principal(b, p1) {
                    None => None,
                    Some((p, p2)) => match spec_read_be(b, p2, 1) {
                        None => None,
                        Some((ct, p3)) => match spec_fungible_code_from_u8(ct as u8) {
                            None => None,
                            Some(c) => match spec_read_be(b, p3, 8) {
                                None => None,
                                Some((amt, p4)) => Some(
                                    (TransactionPostConditionV::STX(p, c, amt as u64), p4),
                                ),
                            },
                        },
                    },
                }
            } else if t == 1 {
                match spec_read_pc_principal(b, p1) {
                    None => None,
                    Some((p, p2)) => match spec_read_asset_info(b, p2) {
                        None => None,
                        Some((a, p3)) => match spec_read_be(b, p3, 1) {
                            None => None,
                            Some((ct, p4)) => match spec_fungible_code_from_u8(ct as u8) {
                                None => None,
                                Some(c) => match spec_read_be(b, p4, 8) {
                                    None => None,
                                    Some((amt, p5)) => Some(
                                        (
                                            TransactionPostConditionV::Fungible(
                                                p,
                                                a,
                                                c,
                                                amt as u64,
                                            ),
                                            p5,
                                        ),
                                    ),
                                },
                            },
                        },
                    },
                }
            } else if t == 2 {
                match spec_read_pc_principal(b, p1) {
                    None => None,
                    Some((p, p2)) => match spec_read_asset_info(b, p2) {
                        None => None,
                        Some((a, p3)) => match spec_read_lp_bytes(b, p3) {
                            None => None,
                            Some((v, p4)) => match spec_read_be(b, p4, 1) {
                                None => None,
                                Some((ct, p5)) => match spec_nonfungible_code_from_u8(ct as u8) {
                                    None => None,
                                    Some(c) => Some(
                                        (
                                            TransactionPostConditionV::Nonfungible(p, a, v, c),
                                            p5,
                                        ),
                                    ),
                                },
                            },
                        },
                    },
                }
            } else {
                None
            }
        },
    }
}

/// An encoded STX post-condition reads back as itself.
#[verifier::rlimit(100)]
proof fn lemma_read_enc_pc_stx(
    p: PostConditionPrincipalV,
    c: FungibleConditionCode,
    amt: u64,
    b: Seq<u8>,
    pos: int,
)
    requires
        p.wf(),
        bytes_at(b, pos, spec_enc_post_condition(TransactionPostConditionV::STX(p, c, amt))),
    ensures
        spec_read_post_condition(b, pos) == Some(
            (
                TransactionPostConditionV::STX(p, c, amt),
                pos + spec_enc_post_condition(TransactionPostConditionV::STX(p, c, amt)).len(),
            ),
        ),
{
    assert(codec::pow256(0) == 1);
    assert(codec::pow256(1) == 256);
    assert(codec::pow256(2) == 0x10000);
    assert(codec::pow256(3) == 0x1000000);
    assert(codec::pow256(4) == 0x100000000);
    assert(codec::pow256(5) == 0x10000000000);
    assert(codec::pow256(6) == 0x1000000000000);
    assert(codec::pow256(7) == 0x100000000000000);
    assert(codec::pow256(8) == 0x10000000000000000);
    let ea = be_bytes(0, 1);
    let eb = spec_enc_pc_principal(p);
    let ec = be_bytes(spec_fungible_code_tag(c) as int, 1);
    let ed = be_bytes(amt as int, 8);
    codec::lemma_be_bytes_len(0, 1);
    codec::lemma_be_bytes_len(spec_fungible_code_tag(c) as int, 1);
    codec::lemma_be_bytes_len(amt as int, 8);
    codec::lemma_bytes_at_concat(b, pos, ea + eb + ec, ed);
    codec::lemma_bytes_at_concat(b, pos, ea + eb, ec);
    codec::lemma_bytes_at_concat(b, pos, ea, eb);
    codec::lemma_read_be_bytes_at(b, pos, 0, 1);
    lemma_read_enc_pc_principal(p, b, pos + 1);
    codec::lemma_read_be_bytes_at(b, pos + 1 + eb.len(), spec_fungible_code_tag(c) as int, 1);
    codec::lemma_read_be_bytes_at(b, pos + 2 + eb.len(), amt as int, 8);
}

/// An encoded fungible post-condition reads back as itself.
#[verifier::rlimit(100)]
proof fn lemma_read_enc_pc_fungible(
    p: PostConditionPrincipalV,
    a: AssetInfoV,
    c: FungibleConditionCode,
    amt: u64,
    b: Seq<u8>,
    pos: int,
)
    requires
        p.wf(),
        a.wf(),
        bytes_at(
            b,
            pos,
            spec_enc_post_condition(TransactionPostConditionV::Fungible(p, a, c, amt)),
        ),
    ensures
        spec_read_post_condition(b, pos) == Some(
            (
                TransactionPostConditionV::Fungible(p, a, c, amt),
                pos + spec_enc_post_condition(
                    TransactionPostConditionV::Fungible(p, a, c, amt),
                ).len(),
            ),
        ),
{
    assert(codec::pow256(0) == 1);
    assert(codec::pow256(1) == 256);
    assert(codec::pow256(2) == 0x10000);
    assert(codec::pow256(3) == 0x1000000);
    assert(codec::pow256(4) == 0x100000000);
    assert(codec::pow256(5) == 0x10000000000);
    assert(codec::pow256(6) == 0x1000000000000);
    assert(codec::pow256(7) == 0x100000000000000);
    assert(codec::pow256(8) == 0x10000000000000000);
    let ea = be_bytes(1, 1);
    let eb = spec_enc_pc_principal(p);
    let ec = spec_enc_asset_info(a);
    let ed = be_bytes(spec_fungible_code_tag(c) as int, 1);
    let ee = be_bytes(amt as int, 8);
    codec::lemma_be_bytes_len(1, 1);
    codec::lemma_be_bytes_len(spec_fungible_code_tag(c) as int, 1);
    codec::lemma_be_bytes_len(amt as int, 8);
    codec::lemma_bytes_at_concat(b, pos, ea + eb + ec + ed, ee);
    codec::lemma_bytes_at_concat(b, pos, ea + eb + ec, ed);
    codec::lemma_bytes_at_concat(b, pos, ea + eb, ec);
    codec::lemma_bytes_at_concat(b, pos, ea, eb);
    codec::lemma_read_be_bytes_at(b, pos, 1, 1);
    lemma_read_enc_pc_principal(p, b, pos + 1);
    lemma_read_enc_asset_info(a, b, pos + 1 + eb.len());
    codec::lemma_read_be_bytes_at(
        b,
        pos + 1 + eb.len() + ec.len(),
        spec_fungible_code_tag(c) as int,
        1,
    );
    codec::lemma_read_be_bytes_at(b, pos + 2 + eb.len() + ec.len(), amt as int, 8);
}

/// An encoded non-fungible post-condition reads back as itself.
#[verifier::rlimit(100)]
proof fn lemma_read_enc_pc_nonfungible(
    p: PostConditionPrincipalV,
    a: AssetInfoV,
    v: Seq<u8>,
    c: NonfungibleConditionCode,
    b: Seq<u8>,
    pos: int,
)
    requires
        p.wf(),
        a.wf(),
        lp_bytes_wf(v),
        bytes_at(
            b,
            pos,
            spec_enc_post_condition(TransactionPostConditionV::Nonfungible(p, a, v, c)),
        ),
    ensures
        spec_read_post_condition(b, pos) == Some(
            (
                TransactionPostConditionV::Nonfungible(p, a, v, c),
                pos + spec_enc_post_condition(
                    TransactionPostConditionV::Nonfungible(p, a, v, c),
                ).len(),
            ),
        ),
{
    assert(codec::pow256(0) == 1);
    assert(codec::pow256(1) == 256);
    assert(codec::pow256(2) == 0x10000);
    assert(codec::pow256(3) == 0x1000000);
    assert(codec::pow256(4) == 0x100000000);
    let ea = be_bytes(2, 1);
    let eb = spec_enc_pc_principal(p);
    let ec = spec_enc_asset_info(a);
    let ed = spec_enc_lp_bytes(v);
    let ee = be_bytes(spec_nonfungible_code_tag(c) as int, 1);
    codec::lemma_be_bytes_len(2, 1);
    codec::lemma_be_bytes_len(spec_nonfungible_code_tag(c) as int, 1);
    codec::lemma_be_bytes_len(v.len() as int, 4);
    codec::lemma_bytes_at_concat(b, pos, ea + eb + ec + ed, ee);
    codec::lemma_bytes_at_concat(b, pos, ea + eb + ec, ed);
    codec::lemma_bytes_at_concat(b, pos, ea + eb, ec);
    codec::lemma_bytes_at_concat(b, pos, ea, eb);
    codec::lemma_read_be_bytes_at(b, pos, 2, 1);
    lemma_read_enc_pc_principal(p, b, pos + 1);
    lemma_read_enc_asset_info(a, b, pos + 1 + eb.len());
    crate::clarity::lemma_read_enc_lp_bytes(v, b, pos + 1 + eb.len() + ec.len());
    codec::lemma_read_be_bytes_at(
        b,
        pos + 1 + eb.len() + ec.len() + ed.len(),
        spec_nonfungible_code_tag(c) as int,
        1,
    );
}

/// An encoded post-condition reads back as itself.
pub proof fn lemma_read_enc_post_condition(pc: TransactionPostConditionV, b: Seq<u8>, pos: int)
    requires
        pc.wf(),
        bytes_at(b, pos, spec_enc_post_condition(pc)),
    ensures
        spec_read_post_condition(b, pos) == Some((pc, pos + spec_enc_post_condition(pc).len())),
{
    match pc {
        TransactionPostConditionV::STX(p, c, amt) => {
            lemma_read_enc_pc_stx(p, c, amt, b, pos);
        },
        TransactionPostConditionV::Fungible(p, a, c, amt) => {
            lemma_read_enc_pc_fungible(p, a, c, amt, b, pos);
        },
        TransactionPostConditionV::Nonfungible(p, a, v, c) => {
            lemma_read_enc_pc_nonfungible(p, a, v, c, b, pos);
        },
    }
}

impl TransactionPostCondition {
    /// Structural validity of the held parts.
    pub open spec fn wf(&self) -> bool {
        self@.wf()
    }

    /// Appends the canonical encoding of the post-condition.
    #[verifier::rlimit(100)]
    pub fn encode_to(&self, out: &mut Vec<u8>)
        ensures
            final(out)@ == old(out)@ + spec_enc_post_condition(self@),
    {
        match self {
            TransactionPostCondition::STX(p, c, amt) => {
                codec::push_be(out, 0, 1);
                p.encode_to(out);
                codec::push_be(out, c.to_u8() as u64, 1);
                codec::push_be(out, *amt, 8);
            },
            TransactionPostCondition::Fungible(p, a, c, amt) => {
                codec::push_be(out, 1, 1);
                p.encode_to(out);
                a.encode_to(out);
                codec::push_be(out, c.to_u8() as u64, 1);
                codec::push_be(out, *amt, 8);
            },
            TransactionPostCondition::Nonfungible(p, a, v, c) => {
                codec::push_be(out, 2, 1);
                p.encode_to(out);
                a.encode_to(out);
                encode_lp_bytes_to(out, &v.0);
                codec::push_be(out, c.to_u8() as u64, 1);
            },
        }
        proof {
            assert(out@ =~= old(out)@ + spec_enc_post_condition(self@));
        }
    }

    /// Reads a post-condition at `pos`; fails exactly on a truncated buffer
    /// or an undefined tag.
    pub fn read_from(buf: &Vec<u8>, pos: usize) -> (r: Option<(TransactionPostCondition, usize)>)
        ensures
            opt_view(r) == spec_read_post_condition(buf@, pos as int),
            r matches Some((v, end)) ==> v.wf() && pos <= end <= buf@.len(),
    {
        proof {
            assert(codec::pow256(0) == 1);
            assert(codec::pow256(1) == 256);
        }
        let (t, p1) = match codec::read_be(buf, pos, 1) {
            Some(x) => x,
            None => {
                return None;
            },
        };
        if t == 0 {
            let (p, p2) = match PostConditionPrincipal::read_from(buf, p1) {
                Some(x) => x,
                None => {
                    return None;
                },
            };
            let (ct, p3) = match codec::read_be(buf, p2, 1) {
                Some(x) => x,
                None => {
                    return None;
                },
            };
            let c = match FungibleConditionCode::from_u8(ct as u8) {
                Some(c) => c,
                None => {
                    return None;
                },
            };
            match codec::read_be(buf, p3, 8) {
                Some((amt, p4)) => Some((TransactionPostCondition::STX(p, c, amt), p4)),
                None => None,
            }
        } else if t == 1 {
            let (p, p2) = match PostConditionPrincipal::read_from(buf, p1) {
                Some(x) => x,
                None => {
                    return None;
                },
            };
            let (a, p3) = match AssetInfo::read_from(buf, p2) {
                Some(x) => x,
                None => {
                    return None;
                },
            };
            let (ct, p4) = match codec::read_be(buf, p3, 1) {
                Some(x) => x,
                None => {
                    return None;
                },
            };
            let c = match FungibleConditionCode::from_u8(ct as u8) {
                Some(c) => c,
                None => {
                    return None;
                },
            };
            match codec::read_be(buf, p4, 8) {
                Some((amt, p5)) => Some((TransactionPostCondition::Fungible(p, a, c, amt), p5)),
                None => None,
            }
        } else if t == 2 {
            let (p, p2) = match PostConditionPrincipal::read_from(buf, p1) {
                Some(x) => x,
                None => {
                    return None;
                },
            };
            let (a, p3) = match AssetInfo::read_from(buf, p2) {
                Some(x) => x,
                None => {
                    return None;
                },
            };
            let (v, p4) = match read_lp_bytes_from(buf, p3) {
                Some(x) => x,
                None => {
                    return None;
                },
            };
            let (ct, p5) = match codec::read_be(buf, p4, 1) {
                Some(x) => x,
                None => {
                    return None;
                },
            };
            match NonfungibleConditionCode::from_u8(ct as u8) {
                Some(c) => Some(
                    (TransactionPostCondition::Nonfungible(p, a, ClarityValue(v), c), p5),
                ),
                None => None,
            }
        } else {
            None
        }
    }
}

/// Whether unmentioned asset movements are permitted (`Allow`) or forbidden
/// (`Deny`).
#[derive(Clone, Copy, Debug, PartialEq, Eq, Structural)]
pub enum TransactionPostConditionMode {
    Allow,
    Deny,
}

/// The wire tag of a post-condition mode.
pub open spec fn spec_pc_mode_tag(m: TransactionPostConditionMode) -> u8 {
    match m {
        TransactionPostConditionMode::Allow => 0x01,
        TransactionPostConditionMode::Deny => 0x02,
    }
}

/// The post-condition mode a wire tag denotes, if any.
pub open spec fn spec_pc_mode_from_u8(b: u8) -> Option<TransactionPostConditionMode> {
    if b == 0x01 {
        Some(TransactionPostConditionMode::Allow)
    } else if b == 0x02 {
        Some(TransactionPostConditionMode::Deny)
    } else {
        None
    }
}

impl TransactionPostConditionMode {
    /// The mode a wire tag denotes; other tags are rejected.
    pub fn from_u8(b: u8) -> (r: Option<TransactionPostConditionMode>)
        ensures
            r == spec_pc_mode_from_u8(b),
    {
        match b {
            0x01 => Some(TransactionPostConditionMode::Allow),
            0x02 => Some(TransactionPostConditionMode::Deny),
            _ => None,
        }
    }

    /// The wire tag of this mode.
    pub fn to_u8(&self) -> (r: u8)
        ensures
            r == spec_pc_mode_tag(*self),
    {
        match *self {
            TransactionPostConditionMode::Allow => 0x01,
            TransactionPostConditionMode::Deny => 0x02,
        }
    }
}


/// STX observed to have been sent by one principal.
#[derive(Clone, Debug, PartialEq, Eq)]
pub struct StxMovement {
    pub principal: PrincipalData,
    pub amount_sent: u128,
}

/// Ghost model of an STX movement.
pub struct StxMovementV {
    pub principal: PrincipalDataV,
    pub amount_sent: u128,
}

impl View for StxMovement {
    type V = StxMovementV;

    open spec fn view(&self) -> StxMovementV {
        StxMovementV { principal: self.principal@, amount_sent: self.amount_sent }
    }
}

/// Units of one fungible asset observed to have been sent by one principal.
#[derive(Clone, Debug, PartialEq, Eq)]
pub struct FungibleMovement {
    pub principal: PrincipalData,
    pub asset: AssetInfo,
    pub amount_sent: u128,
}

/// Ghost model of a fungible-asset movement.
pub struct FungibleMovementV {
    pub principal: PrincipalDataV,
    pub asset: AssetInfoV,
    pub amount_sent: u128,
}

impl View for FungibleMovement {
    type V = FungibleMovementV;

    open spec fn view(&self) -> FungibleMovementV {
        FungibleMovementV {
            principal: self.principal@,
            asset: self.asset@,
            amount_sent: self.amount_sent,
        }
    }
}

/// The values of one non-fungible asset observed to have left one principal.
#[derive(Clone, Debug, PartialEq, Eq)]
pub struct NonfungibleMovement {
    pub principal: PrincipalData,
    pub asset: AssetInfo,
    pub values_sent: Vec<ClarityValue>,
}

/// Ghost model of a non-fungible-asset movement.
pub struct NonfungibleMovementV {
    pub principal: PrincipalDataV,
    pub asset: AssetInfoV,
    pub values_sent: Seq<Seq<u8>>,
}

impl View for NonfungibleMovement {
    type V = NonfungibleMovementV;

    open spec fn view(&self) -> NonfungibleMovementV {
        NonfungibleMovementV {
            principal: self.principal@,
            asset: self.asset@,
            values_sent: value_views(self.values_sent@),
        }
    }
}

/// The asset movements the execution collaborator observed while running a
/// payload: STX deltas, fungible deltas, and non-fungible transfer events,
/// each keyed by the sending principal (and asset).
#[derive(Clone, Debug, PartialEq, Eq)]
pub struct AssetMovements {
    pub stx: Vec<StxMovement>,
    pub fungible: Vec<FungibleMovement>,
    pub nonfungible: Vec<NonfungibleMovement>,
}

/// The models of the movement lists.
pub open spec fn stx_views(ms: Seq<StxMovement>) -> Seq<StxMovementV> {
    ms.map_values(|m: StxMovement| m@)
}

/// The models of the fungible movement list.
pub open spec fn ft_views(ms: Seq<FungibleMovement>) -> Seq<FungibleMovementV> {
    ms.map_values(|m: FungibleMovement| m@)
}

/// The models of the non-fungible movement list.
pub open spec fn nft_views(ms: Seq<NonfungibleMovement>) -> Seq<NonfungibleMovementV> {
    ms.map_values(|m: NonfungibleMovement| m@)
}

/// Ghost model of the observed movements.
pub struct AssetMovementsV {
    pub stx: Seq<StxMovementV>,
    pub fungible: Seq<FungibleMovementV>,
    pub nonfungible: Seq<NonfungibleMovementV>,
}

impl View for AssetMovements {
    type V = AssetMovementsV;

    open spec fn view(&self) -> AssetMovementsV {
        AssetMovementsV {
            stx: stx_views(self.stx@),
            fungible: ft_views(self.fungible@),
            nonfungible: nft_views(self.nonfungible@),
        }
    }
}

/// The STX amount the first matching entry says the principal sent, or zero
/// where no entry matches.
pub open spec fn spec_stx_sent(ms: Seq<StxMovementV>, p: PrincipalDataV) -> u128
    decreases ms.len(),
{
    if ms.len() == 0 {
        0
    } else if ms[0].principal == p {
        ms[0].amount_sent
    } else {
        spec_stx_sent(ms.skip(1), p)
    }
}

/// The fungible amount the first matching entry says the principal sent of
/// the asset, or zero where no entry matches.
pub open spec fn spec_ft_sent(ms: Seq<FungibleMovementV>, p: PrincipalDataV, a: AssetInfoV) -> u128
    decreases ms.len(),
{
    if ms.len() == 0 {
        0
    } else if ms[0].principal == p && ms[0].asset == a {
        ms[0].amount_sent
    } else {
        spec_ft_sent(ms.skip(1), p, a)
    }
}

/// The values the first matching entry says left the principal for the
/// asset, or none where no entry matches.
pub open spec fn spec_nft_sent(
    ms: Seq<NonfungibleMovementV>,
    p: PrincipalDataV,
    a: AssetInfoV,
) -> Seq<Seq<u8>>
    decreases ms.len(),
{
    if ms.len() == 0 {
        Seq::empty()
    } else if ms[0].principal == p && ms[0].asset == a {
        ms[0].values_sent
    } else {
        spec_nft_sent(ms.skip(1), p, a)
    }
}

/// Whether one declared post-condition holds of the observed movements.
pub open spec fn spec_pc_holds(
    pc: TransactionPostConditionV,
    origin: PrincipalDataV,
    mv: AssetMovementsV,
) -> bool {
    match pc {
        TransactionPostConditionV::STX(p, c, amt) => spec_fungible_check(
            c,
            amt as u128,
            spec_stx_sent(mv.stx, spec_resolve_principal(p, origin)),
        ),
        TransactionPostConditionV::Fungible(p, a, c, amt) => spec_fungible_check(
            c,
            amt as u128,
            spec_ft_sent(mv.fungible, spec_resolve_principal(p, origin), a),
        ),
        TransactionPostConditionV::Nonfungible(p, a, v, c) => spec_nonfungible_check(
            c,
            v,
            spec_nft_sent(mv.nonfungible, spec_resolve_principal(p, origin), a),
        ),
    }
}

/// The models of a list of post-conditions.
pub open spec fn pc_views(pcs: Seq<TransactionPostCondition>) -> Seq<TransactionPostConditionV> {
    pcs.map_values(|pc: TransactionPostCondition| pc@)
}

/// Whether some declared condition constrains STX sent by the principal.
pub open spec fn spec_stx_covered(
    pcs: Seq<TransactionPostConditionV>,
    origin: PrincipalDataV,
    p: PrincipalDataV,
) -> bool {
    exists|i: int|
        {
            &&& 0 <= i < pcs.len()
            &&& (#[trigger] pcs[i]) matches TransactionPostConditionV::STX(pp, _, _)
            &&& spec_resolve_principal(pp, origin) == p
        }
}

/// Whether some declared condition constrains the fungible asset sent by the
/// principal.
pub open spec fn spec_ft_covered(
    pcs: Seq<TransactionPostConditionV>,
    origin: PrincipalDataV,
    p: PrincipalDataV,
    a: AssetInfoV,
) -> bool {
    exists|i: int|
        {
            &&& 0 <= i < pcs.len()
            &&& (#[trigger] pcs[i]) matches TransactionPostConditionV::Fungible(pp, aa, _, _)
            &&& spec_resolve_principal(pp, origin) == p
            &&& aa == a
        }
}

/// Whether some declared condition constrains the non-fungible asset sent by
/// the principal.
pub open spec fn spec_nft_covered(
    pcs: Seq<TransactionPostConditionV>,
    origin: PrincipalDataV,
    p: PrincipalDataV,
    a: AssetInfoV,
) -> bool {
    exists|i: int|
        {
            &&& 0 <= i < pcs.len()
            &&& (#[trigger] pcs[i]) matches TransactionPostConditionV::Nonfungible(pp, aa, _, _)
            &&& spec_resolve_principal(pp, origin) == p
            &&& aa == a
        }
}

/// Whether every observed movement is covered by some declared condition on
/// its principal (and asset).  An entry that moved nothing needs no cover.
pub open spec fn spec_movements_covered(
    pcs: Seq<TransactionPostConditionV>,
    origin: PrincipalDataV,
    mv: AssetMovementsV,
) -> bool {
    &&& forall|i: int|
        0 <= i < mv.stx.len() && (#[trigger] mv.stx[i]).amount_sent > 0 ==> spec_stx_covered(
            pcs,
            origin,
            mv.stx[i].principal,
        )
    &&& forall|i: int|
        0 <= i < mv.fungible.len() && (#[trigger] mv.fungible[i]).amount_sent > 0
            ==> spec_ft_covered(pcs, origin, mv.fungible[i].principal, mv.fungible[i].asset)
    &&& forall|i: int|
        0 <= i < mv.nonfungible.len() && (#[trigger] mv.nonfungible[i]).values_sent.len() > 0
            ==> spec_nft_covered(
            pcs,
            origin,
            mv.nonfungible[i].principal,
            mv.nonfungible[i].asset,
        )
}

/// Whether evaluation succeeds: every declared condition holds, and under
/// `Deny` mode every observed movement is covered.  Under `Allow`, uncovered
/// movements are permitted.
pub open spec fn spec_eval_ok(
    mode: TransactionPostConditionMode,
    pcs: Seq<TransactionPostConditionV>,
    origin: PrincipalDataV,
    mv: AssetMovementsV,
) -> bool {
    &&& forall|i: int| 0 <= i < pcs.len() ==> spec_pc_holds(#[trigger] pcs[i], origin, mv)
    &&& (mode is Deny ==> spec_movements_covered(pcs, origin, mv))
}

/// The STX amount the first matching entry says the principal sent.
fn stx_sent(ms: &Vec<StxMovement>, p: &PrincipalData) -> (r: u128)
    ensures
        r == spec_stx_sent(stx_views(ms@), p@),
{
    let ghost all = stx_views(ms@);
    proof {
        assert(all.skip(0) =~= all);
    }
    let mut i: usize = 0;
    while i < ms.len()
        invariant
            i <= ms@.len(),
            all == stx_views(ms@),
            spec_stx_sent(all, p@) == spec_stx_sent(all.skip(i as int), p@),
        decreases ms@.len() - i,
    {
        proof {
            assert(all.skip(i as int)[0] == all[i as int]);
            assert(all.skip(i as int).skip(1) =~= all.skip(i as int + 1));
        }
        if ms[i].principal.eq_principal(p) {
            return ms[i].amount_sent;
        }
        i = i + 1;
    }
    proof {
        assert(all.skip(ms@.len() as int) =~= Seq::<StxMovementV>::empty());
    }
    0
}

/// The fungible amount the first matching entry says the principal sent of
/// the asset.
fn ft_sent(ms: &Vec<FungibleMovement>, p: &PrincipalData, a: &AssetInfo) -> (r: u128)
    ensures
        r == spec_ft_sent(ft_views(ms@), p@, a@),
{
    let ghost all = ft_views(ms@);
    proof {
        assert(all.skip(0) =~= all);
    }
    let mut i: usize = 0;
    while i < ms.len()
        invariant
            i <= ms@.len(),
            all == ft_views(ms@),
            spec_ft_sent(all, p@, a@) == spec_ft_sent(all.skip(i as int), p@, a@),
        decreases ms@.len() - i,
    {
        proof {
            assert(all.skip(i as int)[0] == all[i as int]);
            assert(all.skip(i as int).skip(1) =~= all.skip(i as int + 1));
        }
        if ms[i].principal.eq_principal(p) && ms[i].asset.eq_asset(a) {
            return ms[i].amount_sent;
        }
        i = i + 1;
    }
    proof {
        assert(all.skip(ms@.len() as int) =~= Seq::<FungibleMovementV>::empty());
    }
    0
}

/// Checks the membership constraint of a non-fungible condition against the
/// values the first matching entry says left the principal.
fn nft_check(
    ms: &Vec<NonfungibleMovement>,
    p: &PrincipalData,
    a: &AssetInfo,
    v: &ClarityValue,
    c: NonfungibleConditionCode,
) -> (r: bool)
    ensures
        r == spec_nonfungible_check(c, v@, spec_nft_sent(nft_views(ms@), p@, a@)),
{
    let ghost all = nft_views(ms@);
    proof {
        assert(all.skip(0) =~= all);
    }
    let mut i: usize = 0;
    while i < ms.len()
        invariant
            i <= ms@.len(),
            all == nft_views(ms@),
            spec_nft_sent(all, p@, a@) == spec_nft_sent(all.skip(i as int), p@, a@),
        decreases ms@.len() - i,
    {
        proof {
            assert(all.skip(i as int)[0] == all[i as int]);
            assert(all.skip(i as int).skip(1) =~= all.skip(i as int + 1));
        }
        if ms[i].principal.eq_principal(p) && ms[i].asset.eq_asset(a) {
            return c.check(v, &ms[i].values_sent);
        }
        i = i + 1;
    }
    proof {
        assert(all.skip(ms@.len() as int) =~= Seq::<NonfungibleMovementV>::empty());
        assert(!spec_was_sent(v@, Seq::<Seq<u8>>::empty()));
    }
    match c {
        NonfungibleConditionCode::Sent => false,
        NonfungibleConditionCode::NotSent => true,
    }
}

/// Whether one declared post-condition holds of the observed movements.
fn pc_holds(
    pc: &TransactionPostCondition,
    origin: &PrincipalData,
    movements: &AssetMovements,
) -> (r: bool)
    ensures
        r == spec_pc_holds(pc@, origin@, movements@),
{
    match pc {
        TransactionPostCondition::STX(p, c, amt) => {
            let rp = p.to_principal_data(origin);
            let sent = stx_sent(&movements.stx, &rp);
            c.check(*amt as u128, sent)
        },
        TransactionPostCondition::Fungible(p, a, c, amt) => {
            let rp = p.to_principal_data(origin);
            let sent = ft_sent(&movements.fungible, &rp, a);
            c.check(*amt as u128, sent)
        },
        TransactionPostCondition::Nonfungible(p, a, v, c) => {
            let rp = p.to_principal_data(origin);
            nft_check(&movements.nonfungible, &rp, a, v, *c)
        },
    }
}

/// Whether some declared condition constrains STX sent by the principal.
fn stx_covered(
    pcs: &Vec<TransactionPostCondition>,
    origin: &PrincipalData,
    p: &PrincipalData,
) -> (r: bool)
    ensures
        r == spec_stx_covered(pc_views(pcs@), origin@, p@),
{
    let mut i: usize = 0;
    while i < pcs.len()
        invariant
            i <= pcs@.len(),
            forall|j: int|
                0 <= j < i ==> !((#[trigger] pc_views(pcs@)[j])
                    matches TransactionPostConditionV::STX(pp, _, _) && spec_resolve_principal(
                    pp,
                    origin@,
                ) == p@),
        decreases pcs@.len() - i,
    {
        match &pcs[i] {
            TransactionPostCondition::STX(pp, _, _) => {
                let rp = pp.to_principal_data(origin);
                if rp.eq_principal(p) {
                    proof {
                        assert(pc_views(pcs@)[i as int]
                            matches TransactionPostConditionV::STX(ppv, _, _)
                            && spec_resolve_principal(ppv, origin@) == p@);
                    }
                    return true;
                }
            },
            _ => {},
        }
        i = i + 1;
    }
    false
}

/// Whether some declared condition constrains the fungible asset sent by the
/// principal.
fn ft_covered(
    pcs: &Vec<TransactionPostCondition>,
    origin: &PrincipalData,
    p: &PrincipalData,
    a: &AssetInfo,
) -> (r: bool)
    ensures
        r == spec_ft_covered(pc_views(pcs@), origin@, p@, a@),
{
    let mut i: usize = 0;
    while i < pcs.len()
        invariant
            i <= pcs@.len(),
            forall|j: int|
                0 <= j < i ==> !((#[trigger] pc_views(pcs@)[j])
                    matches TransactionPostConditionV::Fungible(pp, aa, _, _)
                    && spec_resolve_principal(pp, origin@) == p@ && aa == a@),
        decreases pcs@.len() - i,
    {
        match &pcs[i] {
            TransactionPostCondition::Fungible(pp, aa, _, _) => {
                let rp = pp.to_principal_data(origin);
                if rp.eq_principal(p) && aa.eq_asset(a) {
                    proof {
                        assert(pc_views(pcs@)[i as int]
                            matches TransactionPostConditionV::Fungible(ppv, aav, _, _)
                            && spec_resolve_principal(ppv, origin@) == p@ && aav == a@);
                    }
                    return true;
                }
            },
            _ => {},
        }
        i = i + 1;
    }
    false
}

/// Whether some declared condition constrains the non-fungible asset sent by
/// the principal.
fn nft_covered(
    pcs: &Vec<TransactionPostCondition>,
    origin: &PrincipalData,
    p: &PrincipalData,
    a: &AssetInfo,
) -> (r: bool)
    ensures
        r == spec_nft_covered(pc_views(pcs@), origin@, p@, a@),
{
    let mut i: usize = 0;
    while i < pcs.len()
        invariant
            i <= pcs@.len(),
            forall|j: int|
                0 <= j < i ==> !((#[trigger] pc_views(pcs@)[j])
                    matches TransactionPostConditionV::Nonfungible(pp, aa, _, _)
                    && spec_resolve_principal(pp, origin@) == p@ && aa == a@),
        decreases pcs@.len() - i,
    {
        match &pcs[i] {
            TransactionPostCondition::Nonfungible(pp, aa, _, _) => {
                let rp = pp.to_principal_data(origin);
                if rp.eq_principal(p) && aa.eq_asset(a) {
                    proof {
                        assert(pc_views(pcs@)[i as int]
                            matches TransactionPostConditionV::Nonfungible(ppv, aav, _, _)
                            && spec_resolve_principal(ppv, origin@) == p@ && aav == a@);
                    }
                    return true;
                }
            },
            _ => {},
        }
        i = i + 1;
    }
    false
}

/// A diagnostic naming the list position of the first violation.
fn indexed_message(prefix: &str, index: usize, suffix: &str) -> String {
    let mut msg = String::from_str(prefix);
    msg.append(index.to_string().as_str());
    msg.append(suffix);
    msg
}

/// Evaluates the declared post-conditions against the observed movements.
/// Evaluation is conjunctive: succeeds exactly when every declared condition
/// holds and, under `Deny` mode, every observed movement is covered by a
/// declared condition on its principal and asset.  Fails fast with one
/// `PostConditionFailed` naming the first violation; no state is touched.
pub fn evaluate_post_conditions(
    mode: TransactionPostConditionMode,
    origin: &PrincipalData,
    post_conditions: &Vec<TransactionPostCondition>,
    movements: &AssetMovements,
) -> (r: Result<(), Error>)
    ensures
        r is Ok <==> spec_eval_ok(mode, pc_views(post_conditions@), origin@, movements@),
        r matches Err(e) ==> e is PostConditionFailed,
{
    let mut i: usize = 0;
    while i < post_conditions.len()
        invariant
            i <= post_conditions@.len(),
            forall|j: int|
                0 <= j < i ==> spec_pc_holds(
                    #[trigger] pc_views(post_conditions@)[j],
                    origin@,
                    movements@,
                ),
        decreases post_conditions@.len() - i,
    {
        if !pc_holds(&post_conditions[i], origin, movements) {
            proof {
                assert(!spec_pc_holds(pc_views(post_conditions@)[i as int], origin@, movements@));
            }
            return Err(
                Error::PostConditionFailed(
                    indexed_message("the declared post-condition at index ", i, " does not hold"),
                ),
            );
        }
        i = i + 1;
    }
    let deny = match mode {
        TransactionPostConditionMode::Deny => true,
        TransactionPostConditionMode::Allow => false,
    };
    if deny {
        let mut k: usize = 0;
        while k < movements.stx.len()
            invariant
                mode is Deny,
                k <= movements.stx@.len(),
                forall|j: int|
                    0 <= j < post_conditions@.len() ==> spec_pc_holds(
                        #[trigger] pc_views(post_conditions@)[j],
                        origin@,
                        movements@,
                    ),
                forall|j: int|
                    0 <= j < k && (#[trigger] stx_views(movements.stx@)[j]).amount_sent > 0
                        ==> spec_stx_covered(
                        pc_views(post_conditions@),
                        origin@,
                        stx_views(movements.stx@)[j].principal,
                    ),
            decreases movements.stx@.len() - k,
        {
            if movements.stx[k].amount_sent > 0 && !stx_covered(
                post_conditions,
                origin,
                &movements.stx[k].principal,
            ) {
                proof {
                    assert((stx_views(movements.stx@)[k as int]).amount_sent > 0);
                    assert(!spec_movements_covered(
                        pc_views(post_conditions@),
                        origin@,
                        movements@,
                    ));
                }
                return Err(
                    Error::PostConditionFailed(
                        indexed_message(
                            "the STX movement at index ",
                            k,
                            " is not covered by any post-condition",
                        ),
                    ),
                );
            }
            k = k + 1;
        }
        let mut k: usize = 0;
        while k < movements.fungible.len()
            invariant
                mode is Deny,
                k <= movements.fungible@.len(),
                forall|j: int|
                    0 <= j < post_conditions@.len() ==> spec_pc_holds(
                        #[trigger] pc_views(post_conditions@)[j],
                        origin@,
                        movements@,
                    ),
                forall|j: int|
                    0 <= j < movements.stx@.len() && (#[trigger] stx_views(
                        movements.stx@,
                    )[j]).amount_sent > 0 ==> spec_stx_covered(
                        pc_views(post_conditions@),
                        origin@,
                        stx_views(movements.stx@)[j].principal,
                    ),
                forall|j: int|
                    0 <= j < k && (#[trigger] ft_views(movements.fungible@)[j]).amount_sent > 0
                        ==> spec_ft_covered(
                        pc_views(post_conditions@),
                        origin@,
                        ft_views(movements.fungible@)[j].principal,
                        ft_views(movements.fungible@)[j].asset,
                    ),
            decreases movements.fungible@.len() - k,
        {
            if movements.fungible[k].amount_sent > 0 && !ft_covered(
                post_conditions,
                origin,
                &movements.fungible[k].principal,
                &movements.fungible[k].asset,
            ) {
                proof {
                    assert((ft_views(movements.fungible@)[k as int]).amount_sent > 0);
                    assert(!spec_movements_covered(
                        pc_views(post_conditions@),
                        origin@,
                        movements@,
                    ));
                }
                return Err(
                    Error::PostConditionFailed(
                        indexed_message(
                            "the fungible-asset movement at index ",
                            k,
                            " is not covered by any post-condition",
                        ),
                    ),
                );
            }
            k = k + 1;
        }
        let mut k: usize = 0;
        while k < movements.nonfungible.len()
            invariant
                mode is Deny,
                k <= movements.nonfungible@.len(),
                forall|j: int|
                    0 <= j < post_conditions@.len() ==> spec_pc_holds(
                        #[trigger] pc_views(post_conditions@)[j],
                        origin@,
                        movements@,
                    ),
                forall|j: int|
                    0 <= j < movements.stx@.len() && (#[trigger] stx_views(
                        movements.stx@,
                    )[j]).amount_sent > 0 ==> spec_stx_covered(
                        pc_views(post_conditions@),
                        origin@,
                        stx_views(movements.stx@)[j].principal,
                    ),
                forall|j: int|
                    0 <= j < movements.fungible@.len() && (#[trigger] ft_views(
                        movements.fungible@,
                    )[j]).amount_sent > 0 ==> spec_ft_covered(
                        pc_views(post_conditions@),
                        origin@,
                        ft_views(movements.fungible@)[j].principal,
                        ft_views(movements.fungible@)[j].asset,
                    ),
                forall|j: int|
                    0 <= j < k && (#[trigger] nft_views(movements.nonfungible@)[j]).values_sent.len()
                        > 0 ==> spec_nft_covered(
                        pc_views(post_conditions@),
                        origin@,
                        nft_views(movements.nonfungible@)[j].principal,
                        nft_views(movements.nonfungible@)[j].asset,
                    ),
            decreases movements.nonfungible@.len() - k,
        {
            if movements.nonfungible[k].values_sent.len() > 0 && !nft_covered(
                post_conditions,
                origin,
                &movements.nonfungible[k].principal,
                &movements.nonfungible[k].asset,
            ) {
                proof {
                    assert((nft_views(movements.nonfungible@)[k as int]).values_sent.len() > 0);
                    assert(!spec_movements_covered(
                        pc_views(post_conditions@),
                        origin@,
                        movements@,
                    ));
                }
                return Err(
                    Error::PostConditionFailed(
                        indexed_message(
                            "the non-fungible-asset movement at index ",
                            k,
                            " is not covered by any post-condition",
                        ),
                    ),
                );
            }
            k = k + 1;
        }
    }
    Ok(())
}

} // verus!
