//! Transaction payloads, the transaction itself, and its validity rules.
//!
//! A payload is one of five kinds of on-chain intent; `Coinbase` and
//! `PoisonMicroblock` payloads are anchor-mode-restricted to anchored blocks,
//! and that gate is checked before any signature work.  A poison-microblock
//! payload is a self-contained proof of equivocation: two well-formed
//! headers with the same sequence and different content.

use vstd::prelude::*;
use crate::address::{spec_enc_address, spec_read_address, StacksAddress};
use crate::auth::{spec_enc_auth, spec_read_auth, TransactionAuth, TransactionAuthV};
use crate::auth_verify::spec_auth_ok;
use crate::block::{
    spec_enc_microblock_header, spec_read_microblock_header, StacksMicroblockHeader,
    StacksMicroblockHeaderV,
};
use crate::clarity::{
    name_wf, lp_bytes_wf, spec_enc_lp_bytes, spec_enc_name, spec_read_lp_bytes, spec_read_name,
    encode_lp_bytes_to, encode_name_to, read_lp_bytes_from, read_name_from, ClarityName,
    ClarityValue, ContractName, StacksString,
};

use crate::codec;
use crate::codec::{bytes_at, be_bytes, opt_view, spec_read_be, spec_read_bytes};
use crate::crypto;
use crate::error::Error;
use crate::hashes::Txid;
use crate::post::{
    pc_views, spec_enc_post_condition, spec_read_post_condition, TransactionPostCondition,
    TransactionPostConditionMode, TransactionPostConditionV, spec_pc_mode_tag,
    spec_pc_mode_from_u8,
};

verus! {

/// The network a transaction is valid on.
#[derive(Clone, Copy, Debug, PartialEq, Eq, Structural)]
pub enum TransactionVersion {
    Mainnet,
    Testnet,
}

/// The wire tag of a transaction version.
pub open spec fn spec_tx_version_tag(v: TransactionVersion) -> u8 {
    match v {
        TransactionVersion::Mainnet => 0x00,
        TransactionVersion::Testnet => 0x80,
    }
}

/// The transaction version a wire tag denotes, if any.
pub open spec fn spec_tx_version_from_u8(b: u8) -> Option<TransactionVersion> {
    if b == 0x00 {
        Some(TransactionVersion::Mainnet)
    } else if b == 0x80 {
        Some(TransactionVersion::Testnet)
    } else {
        None
    }
}

/// Which container may carry a transaction: an anchored block, a microblock,
/// or either.
#[derive(Clone, Copy, Debug, PartialEq, Eq, Structural)]
pub enum TransactionAnchorMode {
    OnChainOnly,
    OffChainOnly,
    Any,
}

/// The wire tag of an anchor mode.
pub open spec fn spec_anchor_mode_tag(m: TransactionAnchorMode) -> u8 {
    match m {
        TransactionAnchorMode::OnChainOnly => 1,
        TransactionAnchorMode::OffChainOnly => 2,
        TransactionAnchorMode::Any => 3,
    }
}

/// The anchor mode a wire tag denotes, if any.
pub open spec fn spec_anchor_mode_from_u8(b: u8) -> Option<TransactionAnchorMode> {
    if b == 1 {
        Some(TransactionAnchorMode::OnChainOnly)
    } else if b == 2 {
        Some(TransactionAnchorMode::OffChainOnly)
    } else if b == 3 {
        Some(TransactionAnchorMode::Any)
    } else {
        None
    }
}

impl TransactionAnchorMode {
    /// The anchor mode a wire tag denotes; other tags are rejected.
    pub fn from_u8(b: u8) -> (r: Option<TransactionAnchorMode>)
        ensures
            r == spec_anchor_mode_from_u8(b),
    {
        match b {
            1 => Some(TransactionAnchorMode::OnChainOnly),
            2 => Some(TransactionAnchorMode::OffChainOnly),
            3 => Some(TransactionAnchorMode::Any),
            _ => None,
        }
    }
}

/// The wire tags of the five payload kinds.
#[derive(Clone, Copy, Debug, PartialEq, Eq, Structural)]
pub enum TransactionPayloadID {
    TokenTransfer,
    SmartContract,
    ContractCall,
    PoisonMicroblock,
    Coinbase,
}

/// The wire tag of a payload kind.
pub open spec fn spec_payload_id_tag(id: TransactionPayloadID) -> u8 {
    match id {
        TransactionPayloadID::TokenTransfer => 0,
        TransactionPayloadID::SmartContract => 1,
        TransactionPayloadID::ContractCall => 2,
        TransactionPayloadID::PoisonMicroblock => 3,
        TransactionPayloadID::Coinbase => 4,
    }
}

/// Number of bytes in a token-transfer memo.
pub const TOKEN_TRANSFER_MEMO_LENGTH: usize = 34;

/// Number of bytes a coinbase payload commits to.
pub const COINBASE_PAYLOAD_ENCODED_SIZE: u32 = 32;

/// The 34-byte memo attached to a token transfer.
#[derive(Clone, Debug, PartialEq, Eq)]
pub struct TokenTransferMemo(pub Vec<u8>);

impl View for TokenTransferMemo {
    type V = Seq<u8>;

    open spec fn view(&self) -> Seq<u8> {
        self.0@
    }
}

impl TokenTransferMemo {
    /// Structural validity: exactly 34 bytes.
    pub open spec fn wf(&self) -> bool {
        self@.len() == 34
    }

    /// Accepts exactly 34 bytes; any other length is rejected.
    pub fn from_bytes(bytes: Vec<u8>) -> (r: Option<Self>)
        ensures
            bytes@.len() == 34 ==> (r matches Some(m) && m@ == bytes@ && m.wf()),
            bytes@.len() != 34 ==> r is None,
    {
        if bytes.len() == 34 {
            Some(TokenTransferMemo(bytes))
        } else {
            None
        }
    }
}

/// The 32 bytes of control-plane information a coinbase commits to.
#[derive(Clone, Debug, PartialEq, Eq)]
pub struct CoinbasePayload(pub Vec<u8>);

impl View for CoinbasePayload {
    type V = Seq<u8>;

    open spec fn view(&self) -> Seq<u8> {
        self.0@
    }
}

impl CoinbasePayload {
    /// Structural validity: exactly 32 bytes.
    pub open spec fn wf(&self) -> bool {
        self@.len() == 32
    }

    /// Accepts exactly 32 bytes; any other length is rejected.
    pub fn from_bytes(bytes: Vec<u8>) -> (r: Option<Self>)
        ensures
            bytes@.len() == 32 ==> (r matches Some(m) && m@ == bytes@ && m.wf()),
            bytes@.len() != 32 ==> r is None,
    {
        if bytes.len() == 32 {
            Some(CoinbasePayload(bytes))
        } else {
            None
        }
    }
}

/// The byte strings of a list of values.
pub open spec fn arg_views(vs: Seq<ClarityValue>) -> Seq<Seq<u8>> {
    vs.map_values(|v: ClarityValue| v@)
}

/// Canonical encoding of a run of length-prefixed values, in order.
pub open spec fn spec_enc_values(vs: Seq<Seq<u8>>) -> Seq<u8>
    decreases vs.len(),
{
    if vs.len() == 0 {
        Seq::empty()
    } else {
        spec_enc_lp_bytes(vs[0]) + spec_enc_values(vs.skip(1))
    }
}

/// Appending a value appends its encoding.
pub proof fn lemma_enc_values_snoc(vs: Seq<Seq<u8>>, v: Seq<u8>)
    ensures
        spec_enc_values(vs.push(v)) == spec_enc_values(vs) + spec_enc_lp_bytes(v),
    decreases vs.len(),
{
    if vs.len() == 0 {
        assert(vs.push(v)[0] == v);
        assert(vs.push(v).skip(1) =~= Seq::<Seq<u8>>::empty());
        assert(spec_enc_values(Seq::<Seq<u8>>::empty()) =~= Seq::<u8>::empty());
        assert(spec_enc_values(vs.push(v)) =~= spec_enc_values(vs) + spec_enc_lp_bytes(v));
    } else {
        assert(vs.push(v).skip(1) =~= vs.skip(1).push(v));
        lemma_enc_values_snoc(vs.skip(1), v);
        assert(spec_enc_lp_bytes(vs[0]) + (spec_enc_values(vs.skip(1)) + spec_enc_lp_bytes(v))
            =~= (spec_enc_lp_bytes(vs[0]) + spec_enc_values(vs.skip(1))) + spec_enc_lp_bytes(v));
    }
}

/// Reading `n` length-prefixed values at `pos`.
pub open spec fn spec_read_values(b: Seq<u8>, pos: int, n: nat) -> Option<(Seq<Seq<u8>>, int)>
    decreases n,
{
    if n == 0 {
        Some((Seq::empty(), pos))
    } else {
        match spec_read_lp_bytes(b, pos) {
            None => None,
            Some((v, p1)) => match spec_read_values(b, p1, (n - 1) as nat) {
                None => None,
                Some((vs, p2)) => Some((seq![v] + vs, p2)),
            },
        }
    }
}

/// An encoded run of values reads back as itself.
pub proof fn lemma_read_enc_values(vs: Seq<Seq<u8>>, b: Seq<u8>, pos: int)
    requires
        forall|i: int| 0 <= i < vs.len() ==> lp_bytes_wf(#[trigger] vs[i]),
        bytes_at(b, pos, spec_enc_values(vs)),
    ensures
        spec_read_values(b, pos, vs.len()) == Some((vs, pos + spec_enc_values(vs).len())),
    decreases vs.len(),
{
    if vs.len() > 0 {
        codec::lemma_bytes_at_concat(b, pos, spec_enc_lp_bytes(vs[0]), spec_enc_values(vs.skip(1)));
        crate::clarity::lemma_read_enc_lp_bytes(vs[0], b, pos);
        assert(forall|i: int| 0 <= i < vs.skip(1).len() ==> lp_bytes_wf(#[trigger] vs.skip(1)[i]));
        lemma_read_enc_values(vs.skip(1), b, pos + spec_enc_lp_bytes(vs[0]).len());
        assert(seq![vs[0]] + vs.skip(1) =~= vs);
    }
}

/// Continuing a partial value read: prepends the values already read.
pub open spec fn spec_values_cont(acc: Seq<Seq<u8>>, rest: Option<(Seq<Seq<u8>>, int)>) -> Option<
    (Seq<Seq<u8>>, int),
> {
    match rest {
        None => None,
        Some((vs, p)) => Some((acc + vs, p)),
    }
}

/// Appends the canonical encodings of the values, in order.
pub fn encode_values(out: &mut Vec<u8>, values: &Vec<ClarityValue>)
    ensures
        final(out)@ == old(out)@ + spec_enc_values(arg_views(values@)),
{
    let mut i: usize = 0;
    while i < values.len()
        invariant
            i <= values@.len(),
            out@ =~= old(out)@ + spec_enc_values(arg_views(values@).take(i as int)),
        decreases values@.len() - i,
    {
        let ghost pre = arg_views(values@).take(i as int);
        encode_lp_bytes_to(out, &values[i].0);
        proof {
            lemma_enc_values_snoc(pre, values@[i as int]@);
            assert(pre.push(values@[i as int]@) =~= arg_views(values@).take(i + 1));
            assert(out@ =~= old(out)@ + spec_enc_values(arg_views(values@).take(i + 1)));
        }
        i = i + 1;
    }
    proof {
        assert(arg_views(values@).take(values@.len() as int) =~= arg_views(values@));
    }
}

/// Reads `n` length-prefixed values at `pos`.
pub fn read_values(buf: &Vec<u8>, pos: usize, n: u32) -> (r: Option<(Vec<ClarityValue>, usize)>)
    requires
        pos <= buf@.len(),
    ensures
        (match r {
            Some((v, end)) => Some((arg_views(v@), end as int)),
            None => None::<(Seq<Seq<u8>>, int)>,
        }) == spec_read_values(buf@, pos as int, n as nat),
        r matches Some((v, end)) ==> pos <= end <= buf@.len() && v@.len() == n && forall|i: int|
            0 <= i < v@.len() ==> lp_bytes_wf((#[trigger] v@[i])@),
{
    let mut out: Vec<ClarityValue> = Vec::new();
    let mut cur: usize = pos;
    let mut i: u32 = 0;
    while i < n
        invariant
            i <= n,
            pos <= cur <= buf@.len(),
            out@.len() == i,
            forall|j: int| 0 <= j < out@.len() ==> lp_bytes_wf((#[trigger] out@[j])@),
            spec_read_values(buf@, pos as int, n as nat) == spec_values_cont(
                arg_views(out@),
                spec_read_values(buf@, cur as int, (n - i) as nat),
            ),
        decreases n - i,
    {
        let ghost acc0 = arg_views(out@);
        let (v, nxt) = match read_lp_bytes_from(buf, cur) {
            Some(x) => x,
            None => {
                return None;
            },
        };
        let val = ClarityValue(v);
        out.push(val);
        proof {
            assert(arg_views(out@) =~= acc0.push(out@[out@.len() - 1]@));
            let rest = spec_read_values(buf@, nxt as int, (n - i - 1) as nat);
            match rest {
                Some((vs, p)) => {
                    assert(acc0 + (seq![out@[out@.len() - 1]@] + vs) =~= acc0.push(
                        out@[out@.len() - 1]@,
                    ) + vs);
                },
                None => {},
            }
        }
        cur = nxt;
        i = i + 1;
    }
    proof {
        assert(arg_views(out@) + Seq::<Seq<u8>>::empty() =~= arg_views(out@));
    }
    Some((out, cur))
}

/// A call into a deployed contract: the contract, the function, and its
/// arguments.
#[derive(Clone, Debug, PartialEq, Eq)]
pub struct TransactionContractCall {
    pub address: StacksAddress,
    pub contract_name: ContractName,
    pub function_name: ClarityName,
    pub function_args: Vec<ClarityValue>,
}

/// Ghost model of a contract call.
pub struct TransactionContractCallV {
    pub address: crate::address::StacksAddressV,
    pub contract_name: Seq<u8>,
    pub function_name: Seq<u8>,
    pub function_args: Seq<Seq<u8>>,
}

impl TransactionContractCallV {
    /// Structural validity of the address, names, and arguments.
    pub open spec fn wf(&self) -> bool {
        &&& self.address.wf()
        &&& name_wf(self.contract_name)
        &&& name_wf(self.function_name)
        &&& self.function_args.len() < 0x100000000
        &&& forall|i: int|
            0 <= i < self.function_args.len() ==> lp_bytes_wf(#[trigger] self.function_args[i])
    }
}

impl View for TransactionContractCall {
    type V = TransactionContractCallV;

    open spec fn view(&self) -> TransactionContractCallV {
        TransactionContractCallV {
            address: self.address@,
            contract_name: self.contract_name@,
            function_name: self.function_name@,
            function_args: arg_views(self.function_args@),
        }
    }
}

/// A contract instantiation: the new contract's name and code body.
#[derive(Clone, Debug, PartialEq, Eq)]
pub struct TransactionSmartContract {
    pub name: ContractName,
    pub code_body: StacksString,
}

/// Ghost model of a contract instantiation.
pub struct TransactionSmartContractV {
    pub name: Seq<u8>,
    pub code_body: Seq<u8>,
}

impl TransactionSmartContractV {
    /// Structural validity of the name and body.
    pub open spec fn wf(&self) -> bool {
        &&& name_wf(self.name)
        &&& lp_bytes_wf(self.code_body)
    }
}

impl View for TransactionSmartContract {
    type V = TransactionSmartContractV;

    open spec fn view(&self) -> TransactionSmartContractV {
        TransactionSmartContractV { name: self.name@, code_body: self.code_body@ }
    }
}

/// The five kinds of on-chain intent a transaction can carry.  A
/// poison-microblock payload carries two conflicting microblock headers as
/// fork-accountability evidence.
#[derive(Clone, Debug, PartialEq, Eq)]
pub enum TransactionPayload {
    TokenTransfer(StacksAddress, u64, TokenTransferMemo),
    ContractCall(TransactionContractCall),
    SmartContract(TransactionSmartContract),
    PoisonMicroblock(StacksMicroblockHeader, StacksMicroblockHeader),
    Coinbase(CoinbasePayload),
}

/// Ghost model of a payload.
pub enum TransactionPayloadV {
    TokenTransfer(crate::address::StacksAddressV, u64, Seq<u8>),
    ContractCall(TransactionContractCallV),
    SmartContract(TransactionSmartContractV),
    PoisonMicroblock(StacksMicroblockHeaderV, StacksMicroblockHeaderV),
    Coinbase(Seq<u8>),
}

impl TransactionPayloadV {
    /// Structural validity of the held parts.
    pub open spec fn wf(&self) -> bool {
        match self {
            TransactionPayloadV::TokenTransfer(a, _, m) => a.wf() && m.len() == 34,
            TransactionPayloadV::ContractCall(cc) => cc.wf(),
            TransactionPayloadV::SmartContract(sc) => sc.wf(),
            TransactionPayloadV::PoisonMicroblock(h1, h2) => h1.wf() && h2.wf(),
            TransactionPayloadV::Coinbase(p) => p.len() == 32,
        }
    }
}

impl View for TransactionPayload {
    type V = TransactionPayloadV;

    open spec fn view(&self) -> TransactionPayloadV {
        match self {
            TransactionPayload::TokenTransfer(a, amt, m) => TransactionPayloadV::TokenTransfer(
                a@,
                *amt,
                m@,
            ),
            TransactionPayload::ContractCall(cc) => TransactionPayloadV::ContractCall(cc@),
            TransactionPayload::SmartContract(sc) => TransactionPayloadV::SmartContract(sc@),
            TransactionPayload::PoisonMicroblock(h1, h2) => TransactionPayloadV::PoisonMicroblock(
                h1@,
                h2@,
            ),
            TransactionPayload::Coinbase(p) => TransactionPayloadV::Coinbase(p@),
        }
    }
}

/// Canonical encoding of a payload: a kind tag, then its parts.
pub open spec fn spec_enc_payload(p: TransactionPayloadV) -> Seq<u8> {
    match p {
        TransactionPayloadV::TokenTransfer(a, amt, m) => be_bytes(0, 1) + spec_enc_address(a)
            + be_bytes(amt as int, 8) + m,
        TransactionPayloadV::SmartContract(sc) => be_bytes(1, 1) + spec_enc_name(sc.name)
            + spec_enc_lp_bytes(sc.code_body),
        TransactionPayloadV::ContractCall(cc) => be_bytes(2, 1) + spec_enc_address(cc.address)
            + spec_enc_name(cc.contract_name) + spec_enc_name(cc.function_name) + be_bytes(
            cc.function_args.len() as int,
            4,
        ) + spec_enc_values(cc.function_args),
        TransactionPayloadV::PoisonMicroblock(h1, h2) => be_bytes(3, 1)
            + spec_enc_microblock_header(h1) + spec_enc_microblock_header(h2),
        TransactionPayloadV::Coinbase(pl) => be_bytes(4, 1) + pl,
    }
}

/// Reading a payload at `pos`.
pub open spec fn spec_read_payload(b: Seq<u8>, pos: int) -> Option<(TransactionPayloadV, int)> {
    match spec_read_be(b, pos, 1) {
        None => None,
        Some((t, p1)) => {
            if t == 0 {
                match spec_read_address(b, p1) {
                    None => None,
                    Some((a, p2)) => match spec_read_be(b, p2, 8) {
                        None => None,
                        Some((amt, p3)) => match spec_read_bytes(b, p3, 34) {
                            None => None,
                            Some((m, p4)) => Some(
                                (TransactionPayloadV::TokenTransfer(a, amt as u64, m), p4),
                            ),
                        },
                    },
                }
            } else if t == 1 {
                match spec_read_name(b, p1) {
                    None => None,
                    Some((n, p2)) => match spec_read_lp_bytes(b, p2) {
                        None => None,
                        Some((body, p3)) => Some(
                            (
                                TransactionPayloadV::SmartContract(
                                    TransactionSmartContractV { name: n, code_body: body },
                                ),
                                p3,
                            ),
                        ),
                    },
                }
            } else if t == 2 {
                match spec_read_address(b, p1) {
                    None => None,
                    Some((a, p2)) => match spec_read_name(b, p2) {
                        None => None,
                        Some((cn, p3)) => match spec_read_name(b, p3) {
                            None => None,
                            Some((fnm, p4)) => match spec_read_be(b, p4, 4) {
                                None => None,
                                Some((n, p5)) => match spec_read_values(b, p5, n as nat) {
                                    None => None,
                                    Some((args, p6)) => Some(
                                        (
                                            TransactionPayloadV::ContractCall(
                                                TransactionContractCallV {
                                                    address: a,
                                                    contract_name: cn,
                                                    function_name: fnm,
                                                    function_args: args,
                                                },
                                            ),
                                            p6,
                                        ),
                                    ),
                                },
                            },
                        },
                    },
                }
            } else if t == 3 {
                match spec_read_microblock_header(b, p1) {
                    None => None,
                    Some((h1, p2)) => match spec_read_microblock_header(b, p2) {
                        None => None,
                        Some((h2, p3)) => Some(
                            (TransactionPayloadV::PoisonMicroblock(h1, h2), p3),
                        ),
                    },
                }
            } else if t == 4 {
                match spec_read_bytes(b, p1, 32) {
                    None => None,
                    Some((pl, p2)) => Some((TransactionPayloadV::Coinbase(pl), p2)),
                }
            } else {
                None
            }
        },
    }
}

/// An encoded payload reads back as itself.
#[verifier::rlimit(100)]
pub proof fn lemma_read_enc_payload(p: TransactionPayloadV, b: Seq<u8>, pos: int)
    requires
        p.wf(),
        bytes_at(b, pos, spec_enc_payload(p)),
    ensures
        spec_read_payload(b, pos) == Some((p, pos + spec_enc_payload(p).len())),
{
    assert(codec::pow256(0) == 1);
    assert(codec::pow256(1) == 256);
    assert(codec::pow256(2) == 0x10000);
    assert(codec::pow256(3) == 0x1000000);
    assert(codec::pow256(4) == 0x100000000);
    assert(codec::pow256(5) == 0x10000000000);
    assert(codec::pow256(6) == 0x1000000000000);
    assert(codec::pow256(7) == 0x100000000000000);
    assert(codec::pow256(8) == 0x10000000000000000);
    match p {
        TransactionPayloadV::TokenTransfer(a, amt, m) => {
            let ea = be_bytes(0, 1);
            let eb = spec_enc_address(a);
            let ec = be_bytes(amt as int, 8);
            codec::lemma_be_bytes_len(0, 1);
            codec::lemma_be_bytes_len(a.version as int, 1);
            codec::lemma_be_bytes_len(amt as int, 8);
            codec::lemma_bytes_at_concat(b, pos, ea + eb + ec, m);
            codec::lemma_bytes_at_concat(b, pos, ea + eb, ec);
            codec::lemma_bytes_at_concat(b, pos, ea, eb);
            codec::lemma_read_be_bytes_at(b, pos, 0, 1);
            crate::address::lemma_read_enc_address(a, b, pos + 1);
            codec::lemma_read_be_bytes_at(b, pos + 22, amt as int, 8);
        },
        TransactionPayloadV::SmartContract(sc) => {
            let ea = be_bytes(1, 1);
            let eb = spec_enc_name(sc.name);
            let ec = spec_enc_lp_bytes(sc.code_body);
            codec::lemma_be_bytes_len(1, 1);
            codec::lemma_be_bytes_len(sc.name.len() as int, 1);
            codec::lemma_bytes_at_concat(b, pos, ea + eb, ec);
            codec::lemma_bytes_at_concat(b, pos, ea, eb);
            codec::lemma_read_be_bytes_at(b, pos, 1, 1);
            crate::clarity::lemma_read_enc_name(sc.name, b, pos + 1);
            crate::clarity::lemma_read_enc_lp_bytes(sc.code_body, b, pos + 1 + eb.len());
        },
        TransactionPayloadV::ContractCall(cc) => {
            let ea = be_bytes(2, 1);
            let eb = spec_enc_address(cc.address);
            let ec = spec_enc_name(cc.contract_name);
            let ed = spec_enc_name(cc.function_name);
            let ee = be_bytes(cc.function_args.len() as int, 4);
            let ef = spec_enc_values(cc.function_args);
            codec::lemma_be_bytes_len(2, 1);
            codec::lemma_be_bytes_len(cc.address.version as int, 1);
            codec::lemma_be_bytes_len(cc.contract_name.len() as int, 1);
            codec::lemma_be_bytes_len(cc.function_name.len() as int, 1);
            codec::lemma_be_bytes_len(cc.function_args.len() as int, 4);
            codec::lemma_bytes_at_concat(b, pos, ea + eb + ec + ed + ee, ef);
            codec::lemma_bytes_at_concat(b, pos, ea + eb + ec + ed, ee);
            codec::lemma_bytes_at_concat(b, pos, ea + eb + ec, ed);
            codec::lemma_bytes_at_concat(b, pos, ea + eb, ec);
            codec::lemma_bytes_at_concat(b, pos, ea, eb);
            codec::lemma_read_be_bytes_at(b, pos, 2, 1);
            crate::address::lemma_read_enc_address(cc.address, b, pos + 1);
            crate::clarity::lemma_read_enc_name(cc.contract_name, b, pos + 22);
            crate::clarity::lemma_read_enc_name(cc.function_name, b, pos + 22 + ec.len());
            codec::lemma_read_be_bytes_at(
                b,
                pos + 22 + ec.len() + ed.len(),
                cc.function_args.len() as int,
                4,
            );
            lemma_read_enc_values(cc.function_args, b, pos + 26 + ec.len() + ed.len());
        },
        TransactionPayloadV::PoisonMicroblock(h1, h2) => {
            let ea = be_bytes(3, 1);
            let eb = spec_enc_microblock_header(h1);
            let ec = spec_enc_microblock_header(h2);
            codec::lemma_be_bytes_len(3, 1);
            codec::lemma_be_bytes_len(h1.version as int, 1);
            codec::lemma_be_bytes_len(h1.sequence as int, 2);
            codec::lemma_be_bytes_len(h2.version as int, 1);
            codec::lemma_be_bytes_len(h2.sequence as int, 2);
            codec::lemma_bytes_at_concat(b, pos, ea + eb, ec);
            codec::lemma_bytes_at_concat(b, pos, ea, eb);
            codec::lemma_read_be_bytes_at(b, pos, 3, 1);
            crate::block::lemma_read_enc_microblock_header(h1, b, pos + 1);
            crate::block::lemma_read_enc_microblock_header(h2, b, pos + 1 + eb.len());
        },
        TransactionPayloadV::Coinbase(pl) => {
            codec::lemma_be_bytes_len(4, 1);
            codec::lemma_bytes_at_concat(b, pos, be_bytes(4, 1), pl);
            codec::lemma_read_be_bytes_at(b, pos, 4, 1);
        },
    }
}

impl TransactionPayload {
    /// Structural validity of the held parts.
    pub open spec fn wf(&self) -> bool {
        self@.wf()
    }

    /// Appends the canonical encoding of the payload.
    #[verifier::rlimit(100)]
    pub fn encode_to(&self, out: &mut Vec<u8>)
        ensures
            final(out)@ == old(out)@ + spec_enc_payload(self@),
    {
        match self {
            TransactionPayload::TokenTransfer(a, amt, m) => {
                codec::push_be(out, 0, 1);
                a.encode_to(out);
                codec::push_be(out, *amt, 8);
                codec::push_bytes(out, &m.0);
            },
            TransactionPayload::SmartContract(sc) => {
                codec::push_be(out, 1, 1);
                encode_name_to(out, &sc.name.0);
                encode_lp_bytes_to(out, &sc.code_body.0);
            },
            TransactionPayload::ContractCall(cc) => {
                codec::push_be(out, 2, 1);
                cc.address.encode_to(out);
                encode_name_to(out, &cc.contract_name.0);
                encode_name_to(out, &cc.function_name.0);
                codec::push_be(out, cc.function_args.len() as u64, 4);
                encode_values(out, &cc.function_args);
            },
            TransactionPayload::PoisonMicroblock(h1, h2) => {
                codec::push_be(out, 3, 1);
                h1.encode_to(out);
                h2.encode_to(out);
            },
            TransactionPayload::Coinbase(pl) => {
                codec::push_be(out, 4, 1);
                codec::push_bytes(out, &pl.0);
            },
        }
        proof {
            assert(out@ =~= old(out)@ + spec_enc_payload(self@));
        }
    }

    /// Reads a payload at `pos`; fails exactly on a truncated buffer or an
    /// undefined tag.
    pub fn read_from(buf: &Vec<u8>, pos: usize) -> (r: Option<(TransactionPayload, usize)>)
        ensures
            opt_view(r) == spec_read_payload(buf@, pos as int),
            r matches Some((v, end)) ==> v.wf() && pos <= end <= buf@.len(),
    {
        proof {
            assert(codec::pow256(0) == 1);
            assert(codec::pow256(1) == 256);
            assert(codec::pow256(2) == 0x10000);
            assert(codec::pow256(3) == 0x1000000);
            assert(codec::pow256(4) == 0x100000000);
        }
        let (t, p1) = match codec::read_be(buf, pos, 1) {
            Some(x) => x,
            None => {
                return None;
            },
        };
        if t == 0 {
            let (a, p2) = match StacksAddress::read_from(buf, p1) {
                Some(x) => x,
                None => {
                    return None;
                },
            };
            let (amt, p3) = match codec::read_be(buf, p2, 8) {
                Some(x) => x,
                None => {
                    return None;
                },
            };
            match codec::read_bytes(buf, p3, 34) {
                Some((m, p4)) => Some(
                    (TransactionPayload::TokenTransfer(a, amt, TokenTransferMemo(m)), p4),
                ),
                None => None,
            }
        } else if t == 1 {
            let (n, p2) = match read_name_from(buf, p1) {
                Some(x) => x,
                None => {
                    return None;
                },
            };
            match read_lp_bytes_from(buf, p2) {
                Some((body, p3)) => Some(
                    (
                        TransactionPayload::SmartContract(
                            TransactionSmartContract {
                                name: ContractName(n),
                                code_body: StacksString(body),
                            },
                        ),
                        p3,
                    ),
                ),
                None => None,
            }
        } else if t == 2 {
            let (a, p2) = match StacksAddress::read_from(buf, p1) {
                Some(x) => x,
                None => {
                    return None;
                },
            };
            let (cn, p3) = match read_name_from(buf, p2) {
                Some(x) => x,
                None => {
                    return None;
                },
            };
            let (fnm, p4) = match read_name_from(buf, p3) {
                Some(x) => x,
                None => {
                    return None;
                },
            };
            let (n, p5) = match codec::read_be(buf, p4, 4) {
                Some(x) => x,
                None => {
                    return None;
                },
            };
            match read_values(buf, p5, n as u32) {
                Some((args, p6)) => Some(
                    (
                        TransactionPayload::ContractCall(
                            TransactionContractCall {
                                address: a,
                                contract_name: ContractName(cn),
                                function_name: ClarityName(fnm),
                                function_args: args,
                            },
                        ),
                        p6,
                    ),
                ),
                None => None,
            }
        } else if t == 3 {
            let (h1, p2) = match StacksMicroblockHeader::read_from(buf, p1) {
                Some(x) => x,
                None => {
                    return None;
                },
            };
            match StacksMicroblockHeader::read_from(buf, p2) {
                Some((h2, p3)) => Some((TransactionPayload::PoisonMicroblock(h1, h2), p3)),
                None => None,
            }
        } else if t == 4 {
            match codec::read_bytes(buf, p1, 32) {
                Some((pl, p2)) => Some((TransactionPayload::Coinbase(CoinbasePayload(pl)), p2)),
                None => None,
            }
        } else {
            None
        }
    }
}


/// Canonical encoding of a run of post-conditions, in order.
pub open spec fn spec_enc_post_conditions(pcs: Seq<TransactionPostConditionV>) -> Seq<u8>
    decreases pcs.len(),
{
    if pcs.len() == 0 {
        Seq::empty()
    } else {
        spec_enc_post_condition(pcs[0]) + spec_enc_post_conditions(pcs.skip(1))
    }
}

/// Appending a post-condition appends its encoding.
pub proof fn lemma_enc_post_conditions_snoc(
    pcs: Seq<TransactionPostConditionV>,
    pc: TransactionPostConditionV,
)
    ensures
        spec_enc_post_conditions(pcs.push(pc)) == spec_enc_post_conditions(pcs)
            + spec_enc_post_condition(pc),
    decreases pcs.len(),
{
    if pcs.len() == 0 {
        assert(pcs.push(pc)[0] == pc);
        assert(pcs.push(pc).skip(1) =~= Seq::<TransactionPostConditionV>::empty());
        assert(spec_enc_post_conditions(Seq::<TransactionPostConditionV>::empty())
            =~= Seq::<u8>::empty());
        assert(spec_enc_post_conditions(pcs.push(pc)) =~= spec_enc_post_conditions(pcs)
            + spec_enc_post_condition(pc));
    } else {
        assert(pcs.push(pc).skip(1) =~= pcs.skip(1).push(pc));
        lemma_enc_post_conditions_snoc(pcs.skip(1), pc);
        assert(spec_enc_post_condition(pcs[0]) + (spec_enc_post_conditions(pcs.skip(1))
            + spec_enc_post_condition(pc)) =~= (spec_enc_post_condition(pcs[0])
            + spec_enc_post_conditions(pcs.skip(1))) + spec_enc_post_condition(pc));
    }
}

/// Reading `n` post-conditions at `pos`.
pub open spec fn spec_read_post_conditions(b: Seq<u8>, pos: int, n: nat) -> Option<(
    Seq<TransactionPostConditionV>,
    int,
)>
    decreases n,
{
    if n == 0 {
        Some((Seq::empty(), pos))
    } else {
        match spec_read_post_condition(b, pos) {
            None => None,
            Some((pc, p1)) => match spec_read_post_conditions(b, p1, (n - 1) as nat) {
                None => None,
                Some((pcs, p2)) => Some((seq![pc] + pcs, p2)),
            },
        }
    }
}

/// An encoded run of post-conditions reads back as itself.
#[verifier::rlimit(100)]
pub proof fn lemma_read_enc_post_conditions(
    pcs: Seq<TransactionPostConditionV>,
    b: Seq<u8>,
    pos: int,
)
    requires
        forall|i: int| 0 <= i < pcs.len() ==> (#[trigger] pcs[i]).wf(),
        bytes_at(b, pos, spec_enc_post_conditions(pcs)),
    ensures
        spec_read_post_conditions(b, pos, pcs.len()) == Some(
            (pcs, pos + spec_enc_post_conditions(pcs).len()),
        ),
    decreases pcs.len(),
{
    if pcs.len() > 0 {
        codec::lemma_bytes_at_concat(
            b,
            pos,
            spec_enc_post_condition(pcs[0]),
            spec_enc_post_conditions(pcs.skip(1)),
        );
        crate::post::lemma_read_enc_post_condition(pcs[0], b, pos);
        assert(forall|i: int| 0 <= i < pcs.skip(1).len() ==> (#[trigger] pcs.skip(1)[i]).wf());
        lemma_read_enc_post_conditions(pcs.skip(1), b, pos + spec_enc_post_condition(pcs[0]).len());
        assert(seq![pcs[0]] + pcs.skip(1) =~= pcs);
    }
}

/// Continuing a partial post-condition read: prepends those already read.
pub open spec fn spec_pcs_cont(
    acc: Seq<TransactionPostConditionV>,
    rest: Option<(Seq<TransactionPostConditionV>, int)>,
) -> Option<(Seq<TransactionPostConditionV>, int)> {
    match rest {
        None => None,
        Some((pcs, p)) => Some((acc + pcs, p)),
    }
}

/// Appends the canonical encodings of the post-conditions, in order.
pub fn encode_post_conditions(out: &mut Vec<u8>, pcs: &Vec<TransactionPostCondition>)
    ensures
        final(out)@ == old(out)@ + spec_enc_post_conditions(pc_views(pcs@)),
{
    let mut i: usize = 0;
    while i < pcs.len()
        invariant
            i <= pcs@.len(),
            out@ =~= old(out)@ + spec_enc_post_conditions(pc_views(pcs@).take(i as int)),
        decreases pcs@.len() - i,
    {
        let ghost pre = pc_views(pcs@).take(i as int);
        pcs[i].encode_to(out);
        proof {
            lemma_enc_post_conditions_snoc(pre, pcs@[i as int]@);
            assert(pre.push(pcs@[i as int]@) =~= pc_views(pcs@).take(i + 1));
            assert(out@ =~= old(out)@ + spec_enc_post_conditions(pc_views(pcs@).take(i + 1)));
        }
        i = i + 1;
    }
    proof {
        assert(pc_views(pcs@).take(pcs@.len() as int) =~= pc_views(pcs@));
    }
}

/// Reads `n` post-conditions at `pos`.
pub fn read_post_conditions(buf: &Vec<u8>, pos: usize, n: u32) -> (r: Option<
    (Vec<TransactionPostCondition>, usize),
>)
    requires
        pos <= buf@.len(),
    ensures
        (match r {
            Some((v, end)) => Some((pc_views(v@), end as int)),
            None => None::<(Seq<TransactionPostConditionV>, int)>,
        }) == spec_read_post_conditions(buf@, pos as int, n as nat),
        r matches Some((v, end)) ==> pos <= end <= buf@.len() && v@.len() == n && forall|i: int|
            0 <= i < v@.len() ==> (#[trigger] v@[i]).wf(),
{
    let mut out: Vec<TransactionPostCondition> = Vec::new();
    let mut cur: usize = pos;
    let mut i: u32 = 0;
    while i < n
        invariant
            i <= n,
            pos <= cur <= buf@.len(),
            out@.len() == i,
            forall|j: int| 0 <= j < out@.len() ==> (#[trigger] out@[j]).wf(),
            spec_read_post_conditions(buf@, pos as int, n as nat) == spec_pcs_cont(
                pc_views(out@),
                spec_read_post_conditions(buf@, cur as int, (n - i) as nat),
            ),
        decreases n - i,
    {
        let ghost acc0 = pc_views(out@);
        let (pc, nxt) = match TransactionPostCondition::read_from(buf, cur) {
            Some(x) => x,
            None => {
                return None;
            },
        };
        out.push(pc);
        proof {
            assert(pc_views(out@) =~= acc0.push(out@[out@.len() - 1]@));
            let rest = spec_read_post_conditions(buf@, nxt as int, (n - i - 1) as nat);
            match rest {
                Some((pcs, p)) => {
                    assert(acc0 + (seq![out@[out@.len() - 1]@] + pcs) =~= acc0.push(
                        out@[out@.len() - 1]@,
                    ) + pcs);
                },
                None => {},
            }
        }
        cur = nxt;
        i = i + 1;
    }
    proof {
        assert(pc_views(out@) + Seq::<TransactionPostConditionV>::empty() =~= pc_views(out@));
    }
    Some((out, cur))
}

/// A transaction: its network version, chain identifier, authorization,
/// anchor mode, post-condition mode and list, and payload.
#[derive(Clone, Debug, PartialEq, Eq)]
pub struct StacksTransaction {
    pub version: TransactionVersion,
    pub chain_id: u32,
    pub auth: TransactionAuth,
    pub anchor_mode: TransactionAnchorMode,
    pub post_condition_mode: TransactionPostConditionMode,
    pub post_conditions: Vec<TransactionPostCondition>,
    pub payload: TransactionPayload,
}

/// Ghost model of a transaction.
pub struct StacksTransactionV {
    pub version: TransactionVersion,
    pub chain_id: u32,
    pub auth: TransactionAuthV,
    pub anchor_mode: TransactionAnchorMode,
    pub post_condition_mode: TransactionPostConditionMode,
    pub post_conditions: Seq<TransactionPostConditionV>,
    pub payload: TransactionPayloadV,
}

impl StacksTransactionV {
    /// Structural validity of the held parts.
    pub open spec fn wf(&self) -> bool {
        &&& self.auth.wf()
        &&& self.payload.wf()
        &&& self.post_conditions.len() < 0x100000000
        &&& forall|i: int|
            0 <= i < self.post_conditions.len() ==> (#[trigger] self.post_conditions[i]).wf()
    }
}

impl View for StacksTransaction {
    type V = StacksTransactionV;

    open spec fn view(&self) -> StacksTransactionV {
        StacksTransactionV {
            version: self.version,
            chain_id: self.chain_id,
            auth: self.auth@,
            anchor_mode: self.anchor_mode,
            post_condition_mode: self.post_condition_mode,
            post_conditions: pc_views(self.post_conditions@),
            payload: self.payload@,
        }
    }
}

/// The encoding of a transaction's tail: anchor mode onward.
pub open spec fn spec_enc_tx_tail(t: StacksTransactionV) -> Seq<u8> {
    be_bytes(spec_anchor_mode_tag(t.anchor_mode) as int, 1) + be_bytes(
        spec_pc_mode_tag(t.post_condition_mode) as int,
        1,
    ) + be_bytes(t.post_conditions.len() as int, 4) + spec_enc_post_conditions(t.post_conditions)
        + spec_enc_payload(t.payload)
}

/// Canonical encoding of a transaction.
pub open spec fn spec_enc_tx(t: StacksTransactionV) -> Seq<u8> {
    be_bytes(spec_tx_version_tag(t.version) as int, 1) + be_bytes(t.chain_id as int, 4)
        + spec_enc_auth(t.auth) + spec_enc_tx_tail(t)
}

/// Reading the tail of a transaction (anchor mode onward) at `pos`.
pub open spec fn spec_read_tx_tail(b: Seq<u8>, pos: int) -> Option<(
    (
        TransactionAnchorMode,
        TransactionPostConditionMode,
        Seq<TransactionPostConditionV>,
        TransactionPayloadV,
    ),
    int,
)> {
    match spec_read_be(b, pos, 1) {
        None => None,
        Some((am, p4)) => match spec_anchor_mode_from_u8(am as u8) {
            None => None,
            Some(anchor) => match spec_read_be(b, p4, 1) {
                None => None,
                Some((pm, p5)) => match spec_pc_mode_from_u8(pm as u8) {
                    None => None,
                    Some(mode) => match spec_read_be(b, p5, 4) {
                        None => None,
                        Some((n, p6)) => match spec_read_post_conditions(b, p6, n as nat) {
                            None => None,
                            Some((pcs, p7)) => match spec_read_payload(b, p7) {
                                None => None,
                                Some((pl, p8)) => Some(((anchor, mode, pcs, pl), p8)),
                            },
                        },
                    },
                },
            },
        },
    }
}

/// Reading a transaction at `pos`.
pub open spec fn spec_read_tx(b: Seq<u8>, pos: int) -> Option<(StacksTransactionV, int)> {
    match spec_read_be(b, pos, 1) {
        None => None,
        Some((vt, p1)) => match spec_tx_version_from_u8(vt as u8) {
            None => None,
            Some(ver) => match spec_read_be(b, p1, 4) {
                None => None,
                Some((cid, p2)) => match spec_read_auth(b, p2) {
                    None => None,
                    Some((auth, p3)) => match spec_read_tx_tail(b, p3) {
                        None => None,
                        Some(((anchor, mode, pcs, pl), p8)) => Some(
                            (
                                StacksTransactionV {
                                    version: ver,
                                    chain_id: cid as u32,
                                    auth: auth,
                                    anchor_mode: anchor,
                                    post_condition_mode: mode,
                                    post_conditions: pcs,
                                    payload: pl,
                                },
                                p8,
                            ),
                        ),
                    },
                },
            },
        },
    }
}

/// An encoded transaction tail reads back as itself.
#[verifier::rlimit(100)]
pub proof fn lemma_read_enc_tx_tail(t: StacksTransactionV, b: Seq<u8>, pos: int)
    requires
        t.wf(),
        bytes_at(b, pos, spec_enc_tx_tail(t)),
    ensures
        spec_read_tx_tail(b, pos) == Some(
            (
                (t.anchor_mode, t.post_condition_mode, t.post_conditions, t.payload),
                pos + spec_enc_tx_tail(t).len(),
            ),
        ),
{
    let ed = be_bytes(spec_anchor_mode_tag(t.anchor_mode) as int, 1);
    let ee = be_bytes(spec_pc_mode_tag(t.post_condition_mode) as int, 1);
    let ef = be_bytes(t.post_conditions.len() as int, 4);
    let eg = spec_enc_post_conditions(t.post_conditions);
    let eh = spec_enc_payload(t.payload);
    assert(codec::pow256(0) == 1);
    assert(codec::pow256(1) == 256);
    assert(codec::pow256(2) == 0x10000);
    assert(codec::pow256(3) == 0x1000000);
    assert(codec::pow256(4) == 0x100000000);
    codec::lemma_be_bytes_len(spec_anchor_mode_tag(t.anchor_mode) as int, 1);
    codec::lemma_be_bytes_len(spec_pc_mode_tag(t.post_condition_mode) as int, 1);
    codec::lemma_be_bytes_len(t.post_conditions.len() as int, 4);
    codec::lemma_bytes_at_concat(b, pos, ed + ee + ef + eg, eh);
    codec::lemma_bytes_at_concat(b, pos, ed + ee + ef, eg);
    codec::lemma_bytes_at_concat(b, pos, ed + ee, ef);
    codec::lemma_bytes_at_concat(b, pos, ed, ee);
    codec::lemma_read_be_bytes_at(b, pos, spec_anchor_mode_tag(t.anchor_mode) as int, 1);
    codec::lemma_read_be_bytes_at(b, pos + 1, spec_pc_mode_tag(t.post_condition_mode) as int, 1);
    codec::lemma_read_be_bytes_at(b, pos + 2, t.post_conditions.len() as int, 4);
    lemma_read_enc_post_conditions(t.post_conditions, b, pos + 6);
    lemma_read_enc_payload(t.payload, b, pos + 6 + eg.len());
}

/// An encoded transaction reads back as itself.
#[verifier::rlimit(100)]
#[verifier::spinoff_prover]
pub proof fn lemma_read_enc_tx(t: StacksTransactionV, b: Seq<u8>, pos: int)
    requires
        t.wf(),
        bytes_at(b, pos, spec_enc_tx(t)),
    ensures
        spec_read_tx(b, pos) == Some((t, pos + spec_enc_tx(t).len())),
{
    let ea = be_bytes(spec_tx_version_tag(t.version) as int, 1);
    let eb = be_bytes(t.chain_id as int, 4);
    let ec = spec_enc_auth(t.auth);
    let tail = spec_enc_tx_tail(t);
    assert(codec::pow256(0) == 1);
    assert(codec::pow256(1) == 256);
    assert(codec::pow256(2) == 0x10000);
    assert(codec::pow256(3) == 0x1000000);
    assert(codec::pow256(4) == 0x100000000);
    codec::lemma_be_bytes_len(spec_tx_version_tag(t.version) as int, 1);
    codec::lemma_be_bytes_len(t.chain_id as int, 4);
    codec::lemma_bytes_at_concat(b, pos, ea + eb + ec, tail);
    codec::lemma_bytes_at_concat(b, pos, ea + eb, ec);
    codec::lemma_bytes_at_concat(b, pos, ea, eb);
    codec::lemma_read_be_bytes_at(b, pos, spec_tx_version_tag(t.version) as int, 1);
    codec::lemma_read_be_bytes_at(b, pos + 1, t.chain_id as int, 4);
    crate::auth::lemma_read_enc_auth(t.auth, b, pos + 5);
    lemma_read_enc_tx_tail(t, b, pos + 5 + ec.len());
    assert(spec_read_be(b, pos, 1) == Some((spec_tx_version_tag(t.version) as int, pos + 1)));
    assert(spec_read_be(b, pos + 1, 4) == Some((t.chain_id as int, pos + 5)));
    assert(spec_read_auth(b, pos + 5) == Some((t.auth, pos + 5 + ec.len())));
    assert(spec_read_tx_tail(b, pos + 5 + ec.len()) == Some(
        (
            (t.anchor_mode, t.post_condition_mode, t.post_conditions, t.payload),
            pos + 5 + ec.len() + tail.len(),
        ),
    ));
    assert(spec_enc_tx(t).len() == 5 + ec.len() + tail.len());
}

/// Whether the payload accepts the declared anchor mode: coinbase and
/// poison-microblock payloads are valid only on-chain; every other payload
/// accepts any anchor mode.
pub open spec fn spec_anchor_mode_ok(p: TransactionPayloadV, m: TransactionAnchorMode) -> bool {
    (p is PoisonMicroblock || p is Coinbase) ==> m is OnChainOnly
}

/// Whether two microblock headers form a valid poison proof: both
/// well-formed, the same sequence, and different content.
pub open spec fn spec_poison_valid(h1: StacksMicroblockHeaderV, h2: StacksMicroblockHeaderV) -> bool {
    &&& h1.wf()
    &&& h2.wf()
    &&& h1.sequence == h2.sequence
    &&& h1 != h2
}

/// Whether the payload is structurally valid on its own: a poison payload
/// must carry a valid equivocation proof; every other payload is valid.
pub open spec fn spec_payload_valid(p: TransactionPayloadV) -> bool {
    match p {
        TransactionPayloadV::PoisonMicroblock(h1, h2) => spec_poison_valid(h1, h2),
        _ => true,
    }
}

/// Whether two microblock headers form a valid poison proof: a
/// self-contained, independently checkable witness that a leader signed two
/// different microblocks at the same stream position.
pub fn check_poison_microblock(
    h1: &StacksMicroblockHeader,
    h2: &StacksMicroblockHeader,
) -> (r: bool)
    ensures
        r == spec_poison_valid(h1@, h2@),
{
    let wf = h1.prev_block.0.len() == 32 && h1.tx_merkle_root.0.len() == 32
        && h1.signature.0.len() == 65 && h2.prev_block.0.len() == 32
        && h2.tx_merkle_root.0.len() == 32 && h2.signature.0.len() == 65;
    if !wf {
        return false;
    }
    h1.sequence == h2.sequence && !h1.eq_header(h2)
}

/// The bytes the initial sighash is computed over: the transaction's
/// canonical encoding with the authorization left out, so that signatures
/// commit to everything except themselves.
pub open spec fn spec_tx_sighash_input(t: StacksTransactionV) -> Seq<u8> {
    be_bytes(spec_tx_version_tag(t.version) as int, 1) + be_bytes(t.chain_id as int, 4) + be_bytes(
        spec_anchor_mode_tag(t.anchor_mode) as int,
        1,
    ) + be_bytes(spec_pc_mode_tag(t.post_condition_mode) as int, 1) + be_bytes(
        t.post_conditions.len() as int,
        4,
    ) + spec_enc_post_conditions(t.post_conditions) + spec_enc_payload(t.payload)
}

/// The initial sighash of a transaction: the canonical digest of its
/// encoding with the authorization left out.
pub open spec fn spec_tx_sighash(t: StacksTransactionV) -> Seq<u8> {
    crypto::sha512_256_of(spec_tx_sighash_input(t))
}

impl StacksTransaction {
    /// Structural validity of the held parts.
    pub open spec fn wf(&self) -> bool {
        self@.wf()
    }

    /// Appends the canonical encoding of the transaction.
    #[verifier::rlimit(100)]
    pub fn encode_to(&self, out: &mut Vec<u8>)
        requires
            self@.auth.wf(),
        ensures
            final(out)@ == old(out)@ + spec_enc_tx(self@),
    {
        codec::push_be(out, self.tx_version_tag() as u64, 1);
        codec::push_be(out, self.chain_id as u64, 4);
        self.auth.encode_to(out);
        codec::push_be(out, self.anchor_mode_tag() as u64, 1);
        codec::push_be(out, self.post_condition_mode.to_u8() as u64, 1);
        codec::push_be(out, self.post_conditions.len() as u64, 4);
        encode_post_conditions(out, &self.post_conditions);
        self.payload.encode_to(out);
        proof {
            assert(out@ =~= old(out)@ + spec_enc_tx(self@));
        }
    }

    /// The canonical encoding of the transaction as a fresh buffer.
    pub fn encode(&self) -> (r: Vec<u8>)
        requires
            self@.auth.wf(),
        ensures
            r@ == spec_enc_tx(self@),
    {
        let mut out: Vec<u8> = Vec::new();
        self.encode_to(&mut out);
        proof {
            assert(out@ =~= spec_enc_tx(self@));
        }
        out
    }

    /// The wire tag of the transaction's version.
    pub fn tx_version_tag(&self) -> (r: u8)
        ensures
            r == spec_tx_version_tag(self.version),
    {
        match self.version {
            TransactionVersion::Mainnet => 0x00,
            TransactionVersion::Testnet => 0x80,
        }
    }

    /// The wire tag of the transaction's anchor mode.
    pub fn anchor_mode_tag(&self) -> (r: u8)
        ensures
            r == spec_anchor_mode_tag(self.anchor_mode),
    {
        match self.anchor_mode {
            TransactionAnchorMode::OnChainOnly => 1,
            TransactionAnchorMode::OffChainOnly => 2,
            TransactionAnchorMode::Any => 3,
        }
    }

    /// Reads a transaction at `pos`; fails exactly on a truncated buffer or
    /// an undefined tag.
    pub fn read_from(buf: &Vec<u8>, pos: usize) -> (r: Option<(StacksTransaction, usize)>)
        ensures
            opt_view(r) == spec_read_tx(buf@, pos as int),
            r matches Some((v, end)) ==> v.wf() && pos <= end <= buf@.len(),
    {
        proof {
            assert(codec::pow256(0) == 1);
            assert(codec::pow256(1) == 256);
            assert(codec::pow256(2) == 0x10000);
            assert(codec::pow256(3) == 0x1000000);
            assert(codec::pow256(4) == 0x100000000);
        }
        let (vt, p1) = match codec::read_be(buf, pos, 1) {
            Some(x) => x,
            None => {
                return None;
            },
        };
        let ver = if vt == 0x00 {
            TransactionVersion::Mainnet
        } else if vt == 0x80 {
            TransactionVersion::Testnet
        } else {
            return None;
        };
        let (cid, p2) = match codec::read_be(buf, p1, 4) {
            Some(x) => x,
            None => {
                return None;
            },
        };
        let (auth, p3) = match TransactionAuth::read_from(buf, p2) {
            Some(x) => x,
            None => {
                return None;
            },
        };
        let (am, p4) = match codec::read_be(buf, p3, 1) {
            Some(x) => x,
            None => {
                return None;
            },
        };
        let anchor = match TransactionAnchorMode::from_u8(am as u8) {
            Some(a) => a,
            None => {
                return None;
            },
        };
        let (pm, p5) = match codec::read_be(buf, p4, 1) {
            Some(x) => x,
            None => {
                return None;
            },
        };
        let mode = match TransactionPostConditionMode::from_u8(pm as u8) {
            Some(m) => m,
            None => {
                return None;
            },
        };
        let (n, p6) = match codec::read_be(buf, p5, 4) {
            Some(x) => x,
            None => {
                return None;
            },
        };
        let (pcs, p7) = match read_post_conditions(buf, p6, n as u32) {
            Some(x) => x,
            None => {
                return None;
            },
        };
        let (pl, p8) = match TransactionPayload::read_from(buf, p7) {
            Some(x) => x,
            None => {
                return None;
            },
        };
        Some(
            (
                StacksTransaction {
                    version: ver,
                    chain_id: cid as u32,
                    auth,
                    anchor_mode: anchor,
                    post_condition_mode: mode,
                    post_conditions: pcs,
                    payload: pl,
                },
                p8,
            ),
        )
    }

    /// Decodes a whole buffer as one transaction.  Fails with a structural
    /// error, never a panic, on a truncated or over-long buffer or an
    /// undefined tag.
    pub fn decode(buf: &Vec<u8>) -> (r: Result<StacksTransaction, Error>)
        ensures
            (match r {
                Ok(t) => spec_read_tx(buf@, 0) == Some((t@, buf@.len() as int)) && t.wf(),
                Err(e) => e is InvalidStacksTransaction && !(spec_read_tx(buf@, 0) matches Some(
                    (_, end),
                ) && end == buf@.len()),
            }),
    {
        match StacksTransaction::read_from(buf, 0) {
            Some((t, end)) => {
                if end == buf.len() {
                    Ok(t)
                } else {
                    Err(
                        Error::InvalidStacksTransaction(
                            "trailing bytes after transaction".to_string(),
                        ),
                    )
                }
            },
            None => Err(Error::InvalidStacksTransaction("malformed transaction".to_string())),
        }
    }

    /// The transaction's canonical identifier: the digest of its encoding.
    pub fn txid(&self) -> (r: Txid)
        requires
            self@.auth.wf(),
        ensures
            r@ == crypto::sha512_256_of(spec_enc_tx(self@)),
            r.wf(),
    {
        let bytes = self.encode();
        Txid::from_stacks_tx(&bytes)
    }

    /// Whether the payload accepts the declared anchor mode.
    pub fn check_anchor_mode(&self) -> (r: bool)
        ensures
            r == spec_anchor_mode_ok(self@.payload, self@.anchor_mode),
    {
        match &self.payload {
            TransactionPayload::PoisonMicroblock(_, _) => match self.anchor_mode {
                TransactionAnchorMode::OnChainOnly => true,
                _ => false,
            },
            TransactionPayload::Coinbase(_) => match self.anchor_mode {
                TransactionAnchorMode::OnChainOnly => true,
                _ => false,
            },
            _ => true,
        }
    }

    /// The initial sighash: the canonical digest of the transaction's
    /// encoding with the authorization left out.
    pub fn sighash(&self) -> (r: Txid)
        ensures
            r@ == spec_tx_sighash(self@),
            r.wf(),
    {
        let mut out: Vec<u8> = Vec::new();
        codec::push_be(&mut out, self.tx_version_tag() as u64, 1);
        codec::push_be(&mut out, self.chain_id as u64, 4);
        codec::push_be(&mut out, self.anchor_mode_tag() as u64, 1);
        codec::push_be(&mut out, self.post_condition_mode.to_u8() as u64, 1);
        codec::push_be(&mut out, self.post_conditions.len() as u64, 4);
        encode_post_conditions(&mut out, &self.post_conditions);
        self.payload.encode_to(&mut out);
        proof {
            assert(out@ =~= spec_tx_sighash_input(self@));
        }
        Txid::from_sighash_bytes(&out)
    }

    /// Verifies the transaction: the anchor-mode gate and the payload's own
    /// validity are checked first, before any signature work, and a
    /// transaction that fails them is rejected without its authorization
    /// ever being consulted; only then is the authorization verified against
    /// the transaction's initial sighash.
    pub fn verify(&self) -> (r: Result<(), Error>)
        requires
            self.wf(),
        ensures
            r is Ok <==> (spec_anchor_mode_ok(self@.payload, self@.anchor_mode)
                && spec_payload_valid(self@.payload) && spec_auth_ok(
                self@.auth,
                spec_tx_sighash(self@),
            )),
            !spec_anchor_mode_ok(self@.payload, self@.anchor_mode) ==> (r matches Err(e)
                && e is InvalidStacksTransaction),
            (spec_anchor_mode_ok(self@.payload, self@.anchor_mode) && !spec_payload_valid(
                self@.payload,
            )) ==> (r matches Err(e) && e is InvalidStacksTransaction),
            r matches Err(e) ==> (e is InvalidStacksTransaction
                || e is IncompatibleSpendingConditionError),
    {
        if !self.check_anchor_mode() {
            return Err(
                Error::InvalidStacksTransaction(
                    "payload is not allowed in the declared anchor mode".to_string(),
                ),
            );
        }
        let payload_ok = match &self.payload {
            TransactionPayload::PoisonMicroblock(h1, h2) => check_poison_microblock(h1, h2),
            _ => true,
        };
        if !payload_ok {
            return Err(
                Error::InvalidStacksTransaction(
                    "poison-microblock payload is not a valid equivocation proof".to_string(),
                ),
            );
        }
        let sighash = self.sighash();
        self.auth.verify(&sighash)
    }
}

/// The mutable cursor used while signing a transaction: the transaction as
/// signed so far and the sighash the next signature must be computed over.
#[derive(Clone, Debug)]
pub struct StacksTransactionSigner {
    pub tx: StacksTransaction,
    pub sighash: Txid,
    pub origin_done: bool,
    pub check_oversign: bool,
    pub check_overlap: bool,
}

impl StacksTransactionSigner {
    /// Starts a signing session at the transaction's initial sighash, with
    /// the origin still to sign and overlap and oversign checks on.
    pub fn new(tx: StacksTransaction) -> (r: StacksTransactionSigner)
        ensures
            r.tx@ == tx@,
            r.sighash@ == spec_tx_sighash(tx@),
            !r.origin_done,
            r.check_oversign,
            r.check_overlap,
    {
        let sighash = tx.sighash();
        StacksTransactionSigner {
            tx,
            sighash,
            origin_done: false,
            check_oversign: true,
            check_overlap: true,
        }
    }
}

} // verus!
