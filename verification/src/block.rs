//! Block and microblock headers: chain linkage, Merkle commitments, the
//! leader's VRF proof, and the cumulative work score.

use vstd::prelude::*;
use crate::codec;
use crate::codec::{bytes_at, be_bytes, opt_view, spec_read_be, spec_read_bytes};
use crate::crypto;
use crate::hashes::{
    bytes_eq, BlockHeaderHash, Hash160, MessageSignature, Sha512Trunc256Sum, TrieHash, VRFProof,
};

verus! {

/// Version byte of an anchored block produced by this core.
pub const STACKS_BLOCK_VERSION: u8 = 0;

/// Version byte of a microblock produced by this core.
pub const STACKS_MICROBLOCK_VERSION: u8 = 0;

/// How much work has gone into a chain tip: burn tokens destroyed and the
/// length of the fork.
#[derive(Clone, Copy, Debug, PartialEq, Eq, Structural)]
pub struct StacksWorkScore {
    pub burn: u64,
    pub work: u64,
}

/// Canonical encoding of a work score: burn, then work.
pub open spec fn spec_enc_work_score(w: StacksWorkScore) -> Seq<u8> {
    be_bytes(w.burn as int, 8) + be_bytes(w.work as int, 8)
}

/// Reading a work score at `pos`.
pub open spec fn spec_read_work_score(b: Seq<u8>, pos: int) -> Option<(StacksWorkScore, int)> {
    match spec_read_be(b, pos, 8) {
        None => None,
        Some((burn, p1)) => match spec_read_be(b, p1, 8) {
            None => None,
            Some((work, p2)) => Some(
                (StacksWorkScore { burn: burn as u64, work: work as u64 }, p2),
            ),
        },
    }
}

/// An encoded work score reads back as itself.
pub proof fn lemma_read_enc_work_score(w: StacksWorkScore, b: Seq<u8>, pos: int)
    requires
        bytes_at(b, pos, spec_enc_work_score(w)),
    ensures
        spec_read_work_score(b, pos) == Some((w, pos + 16)),
{
    assert(codec::pow256(0) == 1);
    assert(codec::pow256(1) == 256);
    assert(codec::pow256(2) == 0x10000);
    assert(codec::pow256(3) == 0x1000000);
    assert(codec::pow256(4) == 0x100000000);
    assert(codec::pow256(5) == 0x10000000000);
    assert(codec::pow256(6) == 0x1000000000000);
    assert(codec::pow256(7) == 0x100000000000000);
    assert(codec::pow256(8) == 0x10000000000000000);
    codec::lemma_be_bytes_len(w.burn as int, 8);
    codec::lemma_be_bytes_len(w.work as int, 8);
    codec::lemma_bytes_at_concat(b, pos, be_bytes(w.burn as int, 8), be_bytes(w.work as int, 8));
    codec::lemma_read_be_bytes_at(b, pos, w.burn as int, 8);
    codec::lemma_read_be_bytes_at(b, pos + 8, w.work as int, 8);
}

impl StacksWorkScore {
    /// Appends the canonical encoding of the work score.
    pub fn encode_to(&self, out: &mut Vec<u8>)
        ensures
            final(out)@ == old(out)@ + spec_enc_work_score(*self),
    {
        codec::push_be(out, self.burn, 8);
        codec::push_be(out, self.work, 8);
        proof {
            assert(out@ =~= old(out)@ + spec_enc_work_score(*self));
        }
    }

    /// Reads a work score at `pos`; fails exactly when fewer than 16 bytes
    /// remain.
    pub fn read_from(buf: &Vec<u8>, pos: usize) -> (r: Option<(StacksWorkScore, usize)>)
        ensures
            opt_view(r) == spec_read_work_score(buf@, pos as int),
            r matches Some((v, end)) ==> pos <= end <= buf@.len(),
    {
        let (burn, p1) = match codec::read_be(buf, pos, 8) {
            Some(x) => x,
            None => {
                return None;
            },
        };
        let (work, p2) = match codec::read_be(buf, p1, 8) {
            Some(x) => x,
            None => {
                return None;
            },
        };
        Some((StacksWorkScore { burn, work }, p2))
    }
}

impl View for StacksWorkScore {
    type V = StacksWorkScore;

    open spec fn view(&self) -> StacksWorkScore {
        *self
    }
}

/// The header of an anchored block: chain linkage (parent block and parent
/// microblock pointer), the Merkle commitment to the transactions, the
/// commitment to the post-execution state, the leader's VRF proof, the
/// cumulative work of the parent tip, and the hash identifying who may
/// extend the block with microblocks.  Immutable once sealed.
#[derive(Clone, Debug, PartialEq, Eq)]
pub struct StacksBlockHeader {
    pub version: u8,
    pub total_work: StacksWorkScore,
    pub proof: VRFProof,
    pub parent_block: BlockHeaderHash,
    pub parent_microblock: BlockHeaderHash,
    pub parent_microblock_sequence: u16,
    pub tx_merkle_root: Sha512Trunc256Sum,
    pub state_index_root: TrieHash,
    pub microblock_pubkey_hash: Hash160,
}

/// Ghost model of an anchored block header.
pub struct StacksBlockHeaderV {
    pub version: u8,
    pub total_work: StacksWorkScore,
    pub proof: Seq<u8>,
    pub parent_block: Seq<u8>,
    pub parent_microblock: Seq<u8>,
    pub parent_microblock_sequence: u16,
    pub tx_merkle_root: Seq<u8>,
    pub state_index_root: Seq<u8>,
    pub microblock_pubkey_hash: Seq<u8>,
}

impl StacksBlockHeaderV {
    /// Structural validity: each fixed-size field has its exact length.
    pub open spec fn wf(&self) -> bool {
        &&& self.proof.len() == 80
        &&& self.parent_block.len() == 32
        &&& self.parent_microblock.len() == 32
        &&& self.tx_merkle_root.len() == 32
        &&& self.state_index_root.len() == 32
        &&& self.microblock_pubkey_hash.len() == 20
    }
}

impl View for StacksBlockHeader {
    type V = StacksBlockHeaderV;

    open spec fn view(&self) -> StacksBlockHeaderV {
        StacksBlockHeaderV {
            version: self.version,
            total_work: self.total_work,
            proof: self.proof@,
            parent_block: self.parent_block@,
            parent_microblock: self.parent_microblock@,
            parent_microblock_sequence: self.parent_microblock_sequence,
            tx_merkle_root: self.tx_merkle_root@,
            state_index_root: self.state_index_root@,
            microblock_pubkey_hash: self.microblock_pubkey_hash@,
        }
    }
}

/// Canonical encoding of an anchored block header.
pub open spec fn spec_enc_block_header(h: StacksBlockHeaderV) -> Seq<u8> {
    be_bytes(h.version as int, 1) + spec_enc_work_score(h.total_work) + h.proof + h.parent_block
        + h.parent_microblock + be_bytes(h.parent_microblock_sequence as int, 2)
        + h.tx_merkle_root + h.state_index_root + h.microblock_pubkey_hash
}

/// Reading an anchored block header at `pos`.
pub open spec fn spec_read_block_header(b: Seq<u8>, pos: int) -> Option<(StacksBlockHeaderV, int)> {
    match spec_read_be(b, pos, 1) {
        None => None,
        Some((v, p1)) => match spec_read_work_score(b, p1) {
            None => None,
            Some((w, p2)) => match spec_read_bytes(b, p2, 80) {
                None => None,
                Some((proof, p3)) => match spec_read_bytes(b, p3, 32) {
                    None => None,
                    Some((pb, p4)) => match spec_read_bytes(b, p4, 32) {
                        None => None,
                        Some((pm, p5)) => match spec_read_be(b, p5, 2) {
                            None => None,
                            Some((seqn, p6)) => match spec_read_bytes(b, p6, 32) {
                                None => None,
                                Some((mr, p7)) => match spec_read_bytes(b, p7, 32) {
                                    None => None,
                                    Some((sr, p8)) => match spec_read_bytes(b, p8, 20) {
                                        None => None,
                                        Some((ph, p9)) => Some(
                                            (
                                                StacksBlockHeaderV {
                                                    version: v as u8,
                                                    total_work: w,
                                                    proof: proof,
                                                    parent_block: pb,
                                                    parent_microblock: pm,
                                                    parent_microblock_sequence: seqn as u16,
                                                    tx_merkle_root: mr,
                                                    state_index_root: sr,
                                                    microblock_pubkey_hash: ph,
                                                },
                                                p9,
                                            ),
                                        ),
                                    },
                                },
                            },
                        },
                    },
                },
            },
        },
    }
}

/// An encoded anchored block header reads back as itself.
#[verifier::rlimit(100)]
pub proof fn lemma_read_enc_block_header(h: StacksBlockHeaderV, b: Seq<u8>, pos: int)
    requires
        h.wf(),
        bytes_at(b, pos, spec_enc_block_header(h)),
    ensures
        spec_read_block_header(b, pos) == Some((h, pos + spec_enc_block_header(h).len())),
{
    let ea = be_bytes(h.version as int, 1);
    let eb = spec_enc_work_score(h.total_work);
    let ec = h.proof;
    let ed = h.parent_block;
    let ee = h.parent_microblock;
    let ef = be_bytes(h.parent_microblock_sequence as int, 2);
    let eg = h.tx_merkle_root;
    let eh = h.state_index_root;
    let ei = h.microblock_pubkey_hash;
    assert(codec::pow256(0) == 1);
    assert(codec::pow256(1) == 256);
    assert(codec::pow256(2) == 0x10000);
    assert(codec::pow256(3) == 0x1000000);
    assert(codec::pow256(4) == 0x100000000);
    assert(codec::pow256(5) == 0x10000000000);
    assert(codec::pow256(6) == 0x1000000000000);
    assert(codec::pow256(7) == 0x100000000000000);
    assert(codec::pow256(8) == 0x10000000000000000);
    codec::lemma_be_bytes_len(h.version as int, 1);
    codec::lemma_be_bytes_len(h.total_work.burn as int, 8);
    codec::lemma_be_bytes_len(h.total_work.work as int, 8);
    codec::lemma_be_bytes_len(h.parent_microblock_sequence as int, 2);
    codec::lemma_bytes_at_concat(b, pos, ea + eb + ec + ed + ee + ef + eg + eh, ei);
    codec::lemma_bytes_at_concat(b, pos, ea + eb + ec + ed + ee + ef + eg, eh);
    codec::lemma_bytes_at_concat(b, pos, ea + eb + ec + ed + ee + ef, eg);
    codec::lemma_bytes_at_concat(b, pos, ea + eb + ec + ed + ee, ef);
    codec::lemma_bytes_at_concat(b, pos, ea + eb + ec + ed, ee);
    codec::lemma_bytes_at_concat(b, pos, ea + eb + ec, ed);
    codec::lemma_bytes_at_concat(b, pos, ea + eb, ec);
    codec::lemma_bytes_at_concat(b, pos, ea, eb);
    codec::lemma_read_be_bytes_at(b, pos, h.version as int, 1);
    lemma_read_enc_work_score(h.total_work, b, pos + 1);
    codec::lemma_read_be_bytes_at(b, pos + 161, h.parent_microblock_sequence as int, 2);
}

impl StacksBlockHeader {
    /// Structural validity of the carried bytes.
    pub open spec fn wf(&self) -> bool {
        self@.wf()
    }

    /// Appends the canonical encoding of the header.
    pub fn encode_to(&self, out: &mut Vec<u8>)
        ensures
            final(out)@ == old(out)@ + spec_enc_block_header(self@),
    {
        codec::push_be(out, self.version as u64, 1);
        self.total_work.encode_to(out);
        codec::push_bytes(out, &self.proof.0);
        codec::push_bytes(out, &self.parent_block.0);
        codec::push_bytes(out, &self.parent_microblock.0);
        codec::push_be(out, self.parent_microblock_sequence as u64, 2);
        codec::push_bytes(out, &self.tx_merkle_root.0);
        codec::push_bytes(out, &self.state_index_root.0);
        codec::push_bytes(out, &self.microblock_pubkey_hash.0);
        proof {
            assert(out@ =~= old(out)@ + spec_enc_block_header(self@));
        }
    }

    /// The canonical encoding of the header as a fresh buffer.
    pub fn encode(&self) -> (r: Vec<u8>)
        ensures
            r@ == spec_enc_block_header(self@),
    {
        let mut out: Vec<u8> = Vec::new();
        self.encode_to(&mut out);
        proof {
            assert(out@ =~= spec_enc_block_header(self@));
        }
        out
    }

    /// Reads an anchored block header at `pos`; fails exactly on a truncated
    /// buffer.
    pub fn read_from(buf: &Vec<u8>, pos: usize) -> (r: Option<(StacksBlockHeader, usize)>)
        ensures
            opt_view(r) == spec_read_block_header(buf@, pos as int),
            r matches Some((v, end)) ==> v.wf() && pos <= end <= buf@.len(),
    {
        proof {
            assert(codec::pow256(0) == 1);
            assert(codec::pow256(1) == 256);
            assert(codec::pow256(2) == 0x10000);
        }
        let (v, p1) = match codec::read_be(buf, pos, 1) {
            Some(x) => x,
            None => {
                return None;
            },
        };
        let (w, p2) = match StacksWorkScore::read_from(buf, p1) {
            Some(x) => x,
            None => {
                return None;
            },
        };
        let (proof_bytes, p3) = match codec::read_bytes(buf, p2, 80) {
            Some(x) => x,
            None => {
                return None;
            },
        };
        let (pb, p4) = match codec::read_bytes(buf, p3, 32) {
            Some(x) => x,
            None => {
                return None;
            },
        };
        let (pm, p5) = match codec::read_bytes(buf, p4, 32) {
            Some(x) => x,
            None => {
                return None;
            },
        };
        let (seqn, p6) = match codec::read_be(buf, p5, 2) {
            Some(x) => x,
            None => {
                return None;
            },
        };
        let (mr, p7) = match codec::read_bytes(buf, p6, 32) {
            Some(x) => x,
            None => {
                return None;
            },
        };
        let (sr, p8) = match codec::read_bytes(buf, p7, 32) {
            Some(x) => x,
            None => {
                return None;
            },
        };
        let (ph, p9) = match codec::read_bytes(buf, p8, 20) {
            Some(x) => x,
            None => {
                return None;
            },
        };
        Some(
            (
                StacksBlockHeader {
                    version: v as u8,
                    total_work: w,
                    proof: VRFProof(proof_bytes),
                    parent_block: BlockHeaderHash(pb),
                    parent_microblock: BlockHeaderHash(pm),
                    parent_microblock_sequence: seqn as u16,
                    tx_merkle_root: Sha512Trunc256Sum(mr),
                    state_index_root: TrieHash(sr),
                    microblock_pubkey_hash: Hash160(ph),
                },
                p9,
            ),
        )
    }

    /// The hash identifying this header: the canonical hash of its encoding.
    pub fn block_hash(&self) -> (r: BlockHeaderHash)
        ensures
            r@ == crypto::sha512_256_of(spec_enc_block_header(self@)),
            r.wf(),
    {
        let bytes = self.encode();
        BlockHeaderHash(crypto::sha512_256(&bytes))
    }
}

/// The header of a microblock: its position in the stream (`sequence`), the
/// hash of its predecessor, the Merkle commitment to its transactions, and
/// the leader's signature.  Two well-formed headers with equal sequence and
/// different content are the poison-microblock condition.
#[derive(Clone, Debug, PartialEq, Eq)]
pub struct StacksMicroblockHeader {
    pub version: u8,
    pub sequence: u16,
    pub prev_block: BlockHeaderHash,
    pub tx_merkle_root: Sha512Trunc256Sum,
    pub signature: MessageSignature,
}

/// Ghost model of a microblock header.
pub struct StacksMicroblockHeaderV {
    pub version: u8,
    pub sequence: u16,
    pub prev_block: Seq<u8>,
    pub tx_merkle_root: Seq<u8>,
    pub signature: Seq<u8>,
}

impl StacksMicroblockHeaderV {
    /// Structural validity: each fixed-size field has its exact length.
    pub open spec fn wf(&self) -> bool {
        &&& self.prev_block.len() == 32
        &&& self.tx_merkle_root.len() == 32
        &&& self.signature.len() == 65
    }
}

impl View for StacksMicroblockHeader {
    type V = StacksMicroblockHeaderV;

    open spec fn view(&self) -> StacksMicroblockHeaderV {
        StacksMicroblockHeaderV {
            version: self.version,
            sequence: self.sequence,
            prev_block: self.prev_block@,
            tx_merkle_root: self.tx_merkle_root@,
            signature: self.signature@,
        }
    }
}

/// Canonical encoding of a microblock header.
pub open spec fn spec_enc_microblock_header(h: StacksMicroblockHeaderV) -> Seq<u8> {
    be_bytes(h.version as int, 1) + be_bytes(h.sequence as int, 2) + h.prev_block
        + h.tx_merkle_root + h.signature
}

/// Reading a microblock header at `pos`.
pub open spec fn spec_read_microblock_header(b: Seq<u8>, pos: int) -> Option<(
    StacksMicroblockHeaderV,
    int,
)> {
    match spec_read_be(b, pos, 1) {
        None => None,
        Some((v, p1)) => match spec_read_be(b, p1, 2) {
            None => None,
            Some((seqn, p2)) => match spec_read_bytes(b, p2, 32) {
                None => None,
                Some((pb, p3)) => match spec_read_bytes(b, p3, 32) {
                    None => None,
                    Some((mr, p4)) => match spec_read_bytes(b, p4, 65) {
                        None => None,
                        Some((sig, p5)) => Some(
                            (
                                StacksMicroblockHeaderV {
                                    version: v as u8,
                                    sequence: seqn as u16,
                                    prev_block: pb,
                                    tx_merkle_root: mr,
                                    signature: sig,
                                },
                                p5,
                            ),
                        ),
                    },
                },
            },
        },
    }
}

/// An encoded microblock header reads back as itself.
pub proof fn lemma_read_enc_microblock_header(h: StacksMicroblockHeaderV, b: Seq<u8>, pos: int)
    requires
        h.wf(),
        bytes_at(b, pos, spec_enc_microblock_header(h)),
    ensures
        spec_read_microblock_header(b, pos) == Some(
            (h, pos + spec_enc_microblock_header(h).len()),
        ),
{
    let ea = be_bytes(h.version as int, 1);
    let eb = be_bytes(h.sequence as int, 2);
    let ec = h.prev_block;
    let ed = h.tx_merkle_root;
    let ee = h.signature;
    assert(codec::pow256(0) == 1);
    assert(codec::pow256(1) == 256);
    assert(codec::pow256(2) == 0x10000);
    codec::lemma_be_bytes_len(h.version as int, 1);
    codec::lemma_be_bytes_len(h.sequence as int, 2);
    codec::lemma_bytes_at_concat(b, pos, ea + eb + ec + ed, ee);
    codec::lemma_bytes_at_concat(b, pos, ea + eb + ec, ed);
    codec::lemma_bytes_at_concat(b, pos, ea + eb, ec);
    codec::lemma_bytes_at_concat(b, pos, ea, eb);
    codec::lemma_read_be_bytes_at(b, pos, h.version as int, 1);
    codec::lemma_read_be_bytes_at(b, pos + 1, h.sequence as int, 2);
}

impl StacksMicroblockHeader {
    /// Structural validity of the carried bytes.
    pub open spec fn wf(&self) -> bool {
        self@.wf()
    }

    /// Appends the canonical encoding of the header.
    pub fn encode_to(&self, out: &mut Vec<u8>)
        ensures
            final(out)@ == old(out)@ + spec_enc_microblock_header(self@),
    {
        codec::push_be(out, self.version as u64, 1);
        codec::push_be(out, self.sequence as u64, 2);
        codec::push_bytes(out, &self.prev_block.0);
        codec::push_bytes(out, &self.tx_merkle_root.0);
        codec::push_bytes(out, &self.signature.0);
        proof {
            assert(out@ =~= old(out)@ + spec_enc_microblock_header(self@));
        }
    }

    /// The canonical encoding of the header as a fresh buffer.
    pub fn encode(&self) -> (r: Vec<u8>)
        ensures
            r@ == spec_enc_microblock_header(self@),
    {
        let mut out: Vec<u8> = Vec::new();
        self.encode_to(&mut out);
        proof {
            assert(out@ =~= spec_enc_microblock_header(self@));
        }
        out
    }

    /// Reads a microblock header at `pos`; fails exactly on a truncated
    /// buffer.
    pub fn read_from(buf: &Vec<u8>, pos: usize) -> (r: Option<(StacksMicroblockHeader, usize)>)
        ensures
            opt_view(r) == spec_read_microblock_header(buf@, pos as int),
            r matches Some((v, end)) ==> v.wf() && pos <= end <= buf@.len(),
    {
        proof {
            assert(codec::pow256(0) == 1);
            assert(codec::pow256(1) == 256);
            assert(codec::pow256(2) == 0x10000);
        }
        let (v, p1) = match codec::read_be(buf, pos, 1) {
            Some(x) => x,
            None => {
                return None;
            },
        };
        let (seqn, p2) = match codec::read_be(buf, p1, 2) {
            Some(x) => x,
            None => {
                return None;
            },
        };
        let (pb, p3) = match codec::read_bytes(buf, p2, 32) {
            Some(x) => x,
            None => {
                return None;
            },
        };
        let (mr, p4) = match codec::read_bytes(buf, p3, 32) {
            Some(x) => x,
            None => {
                return None;
            },
        };
        let (sig, p5) = match codec::read_bytes(buf, p4, 65) {
            Some(x) => x,
            None => {
                return None;
            },
        };
        Some(
            (
                StacksMicroblockHeader {
                    version: v as u8,
                    sequence: seqn as u16,
                    prev_block: BlockHeaderHash(pb),
                    tx_merkle_root: Sha512Trunc256Sum(mr),
                    signature: MessageSignature(sig),
                },
                p5,
            ),
        )
    }

    /// The hash identifying this header: the canonical hash of its encoding.
    pub fn block_hash(&self) -> (r: BlockHeaderHash)
        ensures
            r@ == crypto::sha512_256_of(spec_enc_microblock_header(self@)),
            r.wf(),
    {
        let bytes = self.encode();
        BlockHeaderHash(crypto::sha512_256(&bytes))
    }

    /// Copies the header.
    pub fn dup(&self) -> (r: StacksMicroblockHeader)
        ensures
            r@ == self@,
    {
        StacksMicroblockHeader {
            version: self.version,
            sequence: self.sequence,
            prev_block: BlockHeaderHash(codec::dup_bytes(&self.prev_block.0)),
            tx_merkle_root: Sha512Trunc256Sum(codec::dup_bytes(&self.tx_merkle_root.0)),
            signature: MessageSignature(codec::dup_bytes(&self.signature.0)),
        }
    }

    /// Compares two headers for structural equality of every field.
    pub fn eq_header(&self, other: &StacksMicroblockHeader) -> (r: bool)
        ensures
            r == (self@ == other@),
    {
        let r = self.version == other.version && self.sequence == other.sequence && bytes_eq(
            &self.prev_block.0,
            &other.prev_block.0,
        ) && bytes_eq(&self.tx_merkle_root.0, &other.tx_merkle_root.0) && bytes_eq(
            &self.signature.0,
            &other.signature.0,
        );
        proof {
            if r {
                assert(self@ == other@);
            }
        }
        r
    }
}


/// An anchored block: a sealed header and the transactions it commits to.
#[derive(Clone, Debug, PartialEq, Eq)]
pub struct StacksBlock {
    pub header: StacksBlockHeader,
    pub txs: Vec<crate::tx::StacksTransaction>,
}

/// A microblock: a signed header and the transactions it commits to, tied to
/// an anchored block through its header's predecessor hash.
#[derive(Clone, Debug, PartialEq, Eq)]
pub struct StacksMicroblock {
    pub header: StacksMicroblockHeader,
    pub txs: Vec<crate::tx::StacksTransaction>,
}

} // verus!
