//! The incremental block builder: one assembly session per miner attempt.
//!
//! Transactions are appended under hard byte budgets; a rejected append
//! leaves the accumulated state untouched.  Sealing the anchored block fixes
//! its Merkle commitment, and each sealed microblock chains to its
//! predecessor with a strictly incrementing sequence.  A builder is owned by
//! one miner and never shared.

use vstd::prelude::*;
use crate::block::{
    spec_enc_block_header, spec_enc_microblock_header, StacksBlock, StacksBlockHeader,
    StacksMicroblock, StacksMicroblockHeader, StacksMicroblockHeaderV, STACKS_BLOCK_VERSION,
    STACKS_MICROBLOCK_VERSION,
};
use crate::codec;
use crate::crypto;
use crate::error::Error;
use crate::hashes::{BlockHeaderHash, BurnchainHeaderHash, Hash160, MessageSignature,
    Sha512Trunc256Sum, TrieHash, Txid, VRFProof};
use crate::keys::StacksPrivateKey;
use crate::address::StacksAddress;
use crate::tx::{spec_anchor_mode_ok, spec_enc_tx, StacksTransaction, TransactionAnchorMode};

verus! {

/// Hard byte budget of one epoch (anchored block plus its microblock
/// stream): 2 MiB, a protocol invariant.
pub const MAX_EPOCH_SIZE: u32 = 2097152;

/// Hard byte budget of one microblock: 64 KiB, a protocol invariant.
pub const MAX_MICROBLOCK_SIZE: u32 = 65536;

/// What the storage collaborator supplies about the parent chain tip the
/// builder starts from.
#[derive(Clone, Debug, PartialEq, Eq)]
pub struct StacksHeaderInfo {
    pub anchored_header: StacksBlockHeader,
    pub block_height: u64,
    pub burn_header_hash: BurnchainHeaderHash,
}

/// One payout owed to a miner for an assembled block.
#[derive(Clone, Debug, PartialEq, Eq)]
pub struct MinerReward {
    pub address: StacksAddress,
    pub coinbase: u128,
}

/// A byte string of `n` zeros.
pub fn zero_bytes(n: usize) -> (r: Vec<u8>)
    ensures
        r@.len() == n,
        forall|i: int| 0 <= i < n ==> r@[i] == 0u8,
{
    let mut out: Vec<u8> = Vec::new();
    let mut k: usize = 0;
    while k < n
        invariant
            k <= n,
            out@.len() == k,
            forall|i: int| 0 <= i < k ==> out@[i] == 0u8,
        decreases n - k,
    {
        out.push(0u8);
        k = k + 1;
    }
    out
}

/// The byte strings of a list of hashes.
pub open spec fn hash_views(hs: Seq<Vec<u8>>) -> Seq<Seq<u8>> {
    hs.map_values(|h: Vec<u8>| h@)
}

/// The combined hash of two sibling nodes in the Merkle tree.
pub open spec fn spec_merkle_parent(l: Seq<u8>, r: Seq<u8>) -> Seq<u8> {
    crypto::sha512_256_of(seq![1u8] + l + r)
}

/// One level up the Merkle tree: adjacent hashes pair up; an odd last hash
/// pairs with itself.
pub open spec fn spec_merkle_level(h: Seq<Seq<u8>>) -> Seq<Seq<u8>> {
    Seq::new(((h.len() + 1) / 2) as nat, |i: int|
        if 2 * i + 1 < h.len() {
            spec_merkle_parent(h[2 * i], h[2 * i + 1])
        } else {
            spec_merkle_parent(h[2 * i], h[2 * i])
        })
}

/// The Merkle root of a list of leaf hashes: all zeros for an empty list,
/// the single hash for one leaf, otherwise the root of the next level.
pub open spec fn spec_merkle_root(h: Seq<Seq<u8>>) -> Seq<u8>
    decreases h.len(),
{
    if h.len() == 0 {
        Seq::new(32, |i: int| 0u8)
    } else if h.len() == 1 {
        h[0]
    } else {
        spec_merkle_root(spec_merkle_level(h))
    }
}

/// The leaf hash of a transaction: a leaf tag over its canonical encoding.
pub open spec fn spec_tx_leaf(t: crate::tx::StacksTransactionV) -> Seq<u8> {
    crypto::sha512_256_of(seq![0u8] + spec_enc_tx(t))
}

/// The models of a list of transactions.
pub open spec fn tx_views(ts: Seq<StacksTransaction>) -> Seq<crate::tx::StacksTransactionV> {
    ts.map_values(|t: StacksTransaction| t@)
}

/// The leaf hashes of a list of transactions, in inclusion order.
pub open spec fn spec_tx_leaves(ts: Seq<crate::tx::StacksTransactionV>) -> Seq<Seq<u8>> {
    ts.map_values(|t: crate::tx::StacksTransactionV| spec_tx_leaf(t))
}

/// The Merkle root committing to a list of transactions in inclusion order.
pub open spec fn spec_tx_merkle_root(ts: Seq<crate::tx::StacksTransactionV>) -> Seq<u8> {
    spec_merkle_root(spec_tx_leaves(ts))
}

/// Computes the Merkle root of the given leaf hashes.
pub fn merkle_root(hashes: &Vec<Vec<u8>>) -> (r: Vec<u8>)
    requires
        forall|i: int| 0 <= i < hashes@.len() ==> (#[trigger] hashes@[i])@.len() == 32,
    ensures
        r@ == spec_merkle_root(hash_views(hashes@)),
        r@.len() == 32,
{
    if hashes.len() == 0 {
        let z = zero_bytes(32);
        proof {
            assert(z@ =~= Seq::new(32, |i: int| 0u8));
        }
        return z;
    }
    let mut cur: Vec<Vec<u8>> = Vec::new();
    let mut k: usize = 0;
    while k < hashes.len()
        invariant
            k <= hashes@.len(),
            cur@.len() == k,
            forall|i: int| 0 <= i < k ==> (#[trigger] cur@[i])@ == hashes@[i]@,
        decreases hashes@.len() - k,
    {
        cur.push(codec::dup_bytes(&hashes[k]));
        k = k + 1;
    }
    proof {
        assert(hash_views(cur@) =~= hash_views(hashes@));
    }
    while cur.len() > 1
        invariant
            cur@.len() >= 1,
            cur@.len() <= usize::MAX,
            forall|i: int| 0 <= i < cur@.len() ==> (#[trigger] cur@[i])@.len() == 32,
            spec_merkle_root(hash_views(cur@)) == spec_merkle_root(hash_views(hashes@)),
        decreases cur@.len(),
    {
        let ghost level_in = hash_views(cur@);
        let half: usize = cur.len() / 2 + cur.len() % 2;
        proof {
            assert(half == (cur@.len() + 1) / 2);
        }
        let mut next: Vec<Vec<u8>> = Vec::new();
        let mut i: usize = 0;
        while i < half
            invariant
                i <= half,
                half == (cur@.len() + 1) / 2,
                cur@.len() >= 2,
                cur@.len() <= usize::MAX,
                level_in == hash_views(cur@),
                next@.len() == i,
                forall|j: int| 0 <= j < cur@.len() ==> (#[trigger] cur@[j])@.len() == 32,
                forall|j: int| 0 <= j < i ==> (#[trigger] next@[j])@.len() == 32,
                forall|j: int|
                    0 <= j < i ==> (#[trigger] next@[j])@ == spec_merkle_level(level_in)[j],
            decreases half - i,
        {
            proof {
                assert(2 * half <= cur@.len() + 1);
                assert(2 * i + 1 <= cur@.len());
            }
            let mut buf: Vec<u8> = Vec::new();
            buf.push(1u8);
            codec::push_bytes(&mut buf, &cur[2 * i]);
            if 2 * i + 1 < cur.len() {
                codec::push_bytes(&mut buf, &cur[2 * i + 1]);
                proof {
                    assert(buf@ =~= seq![1u8] + level_in[2 * i as int] + level_in[2 * i + 1]);
                }
            } else {
                codec::push_bytes(&mut buf, &cur[2 * i]);
                proof {
                    assert(buf@ =~= seq![1u8] + level_in[2 * i as int] + level_in[2 * i as int]);
                }
            }
            let parent = crypto::sha512_256(&buf);
            next.push(parent);
            i = i + 1;
        }
        proof {
            assert(hash_views(next@) =~= spec_merkle_level(level_in));
        }
        cur = next;
        proof {
            assert((level_in.len() + 1) / 2 >= 1);
            assert((level_in.len() + 1) / 2 < level_in.len());
        }
    }
    proof {
        let hv = hash_views(cur@);
        assert(spec_merkle_root(hv) == hv[0]);
    }
    codec::dup_bytes(&cur[0])
}

/// Computes the Merkle root committing to the given transactions in
/// inclusion order.
pub fn tx_merkle_root(txs: &Vec<StacksTransaction>) -> (r: Vec<u8>)
    requires
        forall|i: int| 0 <= i < txs@.len() ==> (#[trigger] txs@[i]).wf(),
    ensures
        r@ == spec_tx_merkle_root(tx_views(txs@)),
        r@.len() == 32,
{
    let mut leaves: Vec<Vec<u8>> = Vec::new();
    let mut k: usize = 0;
    while k < txs.len()
        invariant
            k <= txs@.len(),
            forall|i: int| 0 <= i < txs@.len() ==> (#[trigger] txs@[i]).wf(),
            leaves@.len() == k,
            forall|i: int| 0 <= i < k ==> (#[trigger] leaves@[i])@.len() == 32,
            forall|i: int|
                0 <= i < k ==> (#[trigger] leaves@[i])@ == spec_tx_leaf(txs@[i]@),
        decreases txs@.len() - k,
    {
        let mut buf: Vec<u8> = Vec::new();
        buf.push(0u8);
        txs[k].encode_to(&mut buf);
        proof {
            assert(buf@ =~= seq![0u8] + spec_enc_tx(txs@[k as int]@));
        }
        let leaf = crypto::sha512_256(&buf);
        leaves.push(leaf);
        k = k + 1;
    }
    let r = merkle_root(&leaves);
    proof {
        assert(hash_views(leaves@) =~= spec_tx_leaves(tx_views(txs@)));
    }
    r
}

/// Incrementally assembles one anchored block and its microblock stream for
/// one miner.  Appends are checked against the hard byte budgets and the
/// anchor-mode gate, and a rejected append leaves the state untouched.
#[derive(Clone, Debug)]
pub struct StacksBlockBuilder {
    pub chain_tip: StacksHeaderInfo,
    pub header: StacksBlockHeader,
    pub txs: Vec<StacksTransaction>,
    pub micro_txs: Vec<StacksTransaction>,
    pub anchored_done: bool,
    pub made_first_microblock: bool,
    pub bytes_so_far: u64,
    pub micro_bytes: u64,
    pub prev_microblock_header: StacksMicroblockHeader,
    pub miner_privkey: StacksPrivateKey,
    pub miner_payouts: Option<Vec<MinerReward>>,
    pub miner_id: usize,
}

impl StacksBlockBuilder {
    /// The builder's internal invariant: budgets respected and every held
    /// part structurally valid.
    pub open spec fn wf(&self) -> bool {
        &&& self.bytes_so_far <= MAX_EPOCH_SIZE
        &&& self.micro_bytes <= MAX_MICROBLOCK_SIZE
        &&& self.header@.wf()
        &&& self.prev_microblock_header@.wf()
        &&& self.miner_privkey.wf()
        &&& forall|i: int| 0 <= i < self.txs@.len() ==> (#[trigger] self.txs@[i]).wf()
        &&& forall|i: int| 0 <= i < self.micro_txs@.len() ==> (#[trigger] self.micro_txs@[i]).wf()
    }

    /// Starts an assembly session on the given parent chain tip: an empty
    /// builder whose header-in-progress carries the parent's cumulative
    /// work, links to the parent block, and names who may extend the block
    /// with microblocks.
    pub fn new(
        chain_tip: StacksHeaderInfo,
        proof: VRFProof,
        microblock_pubkey_hash: Hash160,
        miner_privkey: StacksPrivateKey,
        miner_id: usize,
    ) -> (r: StacksBlockBuilder)
        requires
            proof.wf(),
            microblock_pubkey_hash.wf(),
            miner_privkey.wf(),
        ensures
            r.wf(),
            r.header@.version == STACKS_BLOCK_VERSION,
            r.header@.total_work == chain_tip.anchored_header@.total_work,
            r.header@.proof == proof@,
            r.header@.parent_block == crypto::sha512_256_of(
                spec_enc_block_header(chain_tip.anchored_header@),
            ),
            r.header@.microblock_pubkey_hash == microblock_pubkey_hash@,
            r.txs@.len() == 0,
            r.micro_txs@.len() == 0,
            r.bytes_so_far == 0,
            r.micro_bytes == 0,
            !r.anchored_done,
            !r.made_first_microblock,
            r.miner_privkey@ == miner_privkey@,
            r.miner_id == miner_id,
    {
        let parent_hash = chain_tip.anchored_header.block_hash();
        let header = StacksBlockHeader {
            version: STACKS_BLOCK_VERSION,
            total_work: chain_tip.anchored_header.total_work,
            proof,
            parent_block: parent_hash,
            parent_microblock: BlockHeaderHash(zero_bytes(32)),
            parent_microblock_sequence: 0,
            tx_merkle_root: Sha512Trunc256Sum(zero_bytes(32)),
            state_index_root: TrieHash(zero_bytes(32)),
            microblock_pubkey_hash,
        };
        let prev_microblock_header = StacksMicroblockHeader {
            version: STACKS_MICROBLOCK_VERSION,
            sequence: 0,
            prev_block: BlockHeaderHash(zero_bytes(32)),
            tx_merkle_root: Sha512Trunc256Sum(zero_bytes(32)),
            signature: MessageSignature(zero_bytes(65)),
        };
        StacksBlockBuilder {
            chain_tip,
            header,
            txs: Vec::new(),
            micro_txs: Vec::new(),
            anchored_done: false,
            made_first_microblock: false,
            bytes_so_far: 0,
            micro_bytes: 0,
            prev_microblock_header,
            miner_privkey,
            miner_payouts: None,
            miner_id,
        }
    }

    /// How many bytes of the epoch budget are used so far.
    pub fn bytes_so_far(&self) -> (r: u64)
        ensures
            r == self.bytes_so_far,
    {
        self.bytes_so_far
    }

    /// Whether a transaction may be placed in the anchored block: the
    /// payload must accept the declared anchor mode, and the mode must not
    /// demand a microblock.
    pub open spec fn spec_anchored_acceptable(t: crate::tx::StacksTransactionV) -> bool {
        &&& spec_anchor_mode_ok(t.payload, t.anchor_mode)
        &&& !(t.anchor_mode is OffChainOnly)
    }

    /// Whether a transaction may be placed in the microblock stream: the
    /// payload must accept the declared anchor mode, and the mode must not
    /// demand the anchored block.
    pub open spec fn spec_microblock_acceptable(t: crate::tx::StacksTransactionV) -> bool {
        &&& spec_anchor_mode_ok(t.payload, t.anchor_mode)
        &&& !(t.anchor_mode is OnChainOnly)
    }

    /// Appends a transaction to the anchored block.  Rejected — with the
    /// builder unchanged — when the anchor-mode gate refuses it, or when its
    /// encoded size would push the epoch past `MAX_EPOCH_SIZE`.
    pub fn try_mine_tx(&mut self, tx: StacksTransaction) -> (r: Result<(), Error>)
        requires
            old(self).wf(),
            tx.wf(),
        ensures
            final(self).wf(),
            !Self::spec_anchored_acceptable(tx@) ==> (r matches Err(e)
                && e is InvalidStacksTransaction && *final(self) == *old(self)),
            (Self::spec_anchored_acceptable(tx@) && old(self).bytes_so_far + spec_enc_tx(
                tx@,
            ).len() > MAX_EPOCH_SIZE) ==> (r matches Err(e) && e is BlockTooBigError && *final(self) == *old(self)),
            (Self::spec_anchored_acceptable(tx@) && old(self).bytes_so_far + spec_enc_tx(
                tx@,
            ).len() <= MAX_EPOCH_SIZE) ==> (r is Ok && final(self).txs@ == old(self).txs@.push(tx)
                && final(self).bytes_so_far == old(self).bytes_so_far + spec_enc_tx(tx@).len()
                && final(self).micro_txs@ == old(self).micro_txs@ && final(self).header
                == old(self).header && final(self).micro_bytes == old(self).micro_bytes),
    {
        let gate_ok = tx.check_anchor_mode();
        let dest_ok = match tx.anchor_mode {
            TransactionAnchorMode::OffChainOnly => false,
            _ => true,
        };
        if !(gate_ok && dest_ok) {
            return Err(
                Error::InvalidStacksTransaction(
                    "transaction may not be placed in an anchored block".to_string(),
                ),
            );
        }
        let bytes = tx.encode();
        let len = bytes.len() as u64;
        let total = match self.bytes_so_far.checked_add(len) {
            Some(t) => t,
            None => {
                return Err(Error::BlockTooBigError);
            },
        };
        if total > MAX_EPOCH_SIZE as u64 {
            return Err(Error::BlockTooBigError);
        }
        self.bytes_so_far = total;
        self.txs.push(tx);
        Ok(())
    }

    /// Appends a transaction to the microblock stream.  Rejected — with the
    /// builder unchanged — when the anchor-mode gate refuses it, when the
    /// epoch budget would be exceeded (`BlockTooBigError`), or when the
    /// accumulating microblock would pass `MAX_MICROBLOCK_SIZE`
    /// (`MicroblockStreamTooLongError`).
    pub fn try_mine_microblock_tx(&mut self, tx: StacksTransaction) -> (r: Result<(), Error>)
        requires
            old(self).wf(),
            tx.wf(),
        ensures
            final(self).wf(),
            !Self::spec_microblock_acceptable(tx@) ==> (r matches Err(e)
                && e is InvalidStacksTransaction && *final(self) == *old(self)),
            (Self::spec_microblock_acceptable(tx@) && old(self).bytes_so_far + spec_enc_tx(
                tx@,
            ).len() > MAX_EPOCH_SIZE) ==> (r matches Err(e) && e is BlockTooBigError && *final(self) == *old(self)),
            (Self::spec_microblock_acceptable(tx@) && old(self).bytes_so_far + spec_enc_tx(
                tx@,
            ).len() <= MAX_EPOCH_SIZE && old(self).micro_bytes + spec_enc_tx(tx@).len()
                > MAX_MICROBLOCK_SIZE) ==> (r matches Err(e) && e is MicroblockStreamTooLongError
                && *final(self) == *old(self)),
            (Self::spec_microblock_acceptable(tx@) && old(self).bytes_so_far + spec_enc_tx(
                tx@,
            ).len() <= MAX_EPOCH_SIZE && old(self).micro_bytes + spec_enc_tx(tx@).len()
                <= MAX_MICROBLOCK_SIZE) ==> (r is Ok && final(self).micro_txs@ == old(self).micro_txs@.push(tx) && final(self).bytes_so_far == old(self).bytes_so_far
                + spec_enc_tx(tx@).len() && final(self).micro_bytes == old(self).micro_bytes
                + spec_enc_tx(tx@).len() && final(self).txs@ == old(self).txs@ && final(self).header == old(self).header),
    {
        let gate_ok = tx.check_anchor_mode();
        let dest_ok = match tx.anchor_mode {
            TransactionAnchorMode::OnChainOnly => false,
            _ => true,
        };
        if !(gate_ok && dest_ok) {
            return Err(
                Error::InvalidStacksTransaction(
                    "transaction may not be placed in a microblock".to_string(),
                ),
            );
        }
        let bytes = tx.encode();
        let len = bytes.len() as u64;
        let total = match self.bytes_so_far.checked_add(len) {
            Some(t) => t,
            None => {
                return Err(Error::BlockTooBigError);
            },
        };
        if total > MAX_EPOCH_SIZE as u64 {
            return Err(Error::BlockTooBigError);
        }
        let micro_total = match self.micro_bytes.checked_add(len) {
            Some(t) => t,
            None => {
                return Err(Error::MicroblockStreamTooLongError);
            },
        };
        if micro_total > MAX_MICROBLOCK_SIZE as u64 {
            return Err(Error::MicroblockStreamTooLongError);
        }
        self.bytes_so_far = total;
        self.micro_bytes = micro_total;
        self.micro_txs.push(tx);
        Ok(())
    }

    /// Seals the anchored block: fixes the header's Merkle commitment over
    /// the accumulated transactions in inclusion order and the supplied
    /// state-commitment root, marks the anchored phase done, and hands the
    /// block out.  The sealed header is thereafter immutable.
    pub fn mine_anchored_block(&mut self, state_index_root: TrieHash) -> (r: StacksBlock)
        requires
            old(self).wf(),
            state_index_root.wf(),
        ensures
            final(self).wf(),
            final(self).anchored_done,
            r.header@.tx_merkle_root == spec_tx_merkle_root(tx_views(old(self).txs@)),
            r.header@.state_index_root == state_index_root@,
            r.header@.version == old(self).header@.version,
            r.header@.total_work == old(self).header@.total_work,
            r.header@.proof == old(self).header@.proof,
            r.header@.parent_block == old(self).header@.parent_block,
            r.txs@ == old(self).txs@,
            final(self).txs@.len() == 0,
            final(self).header@ == r.header@,
            final(self).micro_txs@ == old(self).micro_txs@,
            final(self).bytes_so_far == old(self).bytes_so_far,
    {
        let root = tx_merkle_root(&self.txs);
        self.header.tx_merkle_root = Sha512Trunc256Sum(root);
        self.header.state_index_root = state_index_root;
        self.anchored_done = true;
        let mut txs: Vec<StacksTransaction> = Vec::new();
        core::mem::swap(&mut txs, &mut self.txs);
        let header = StacksBlockHeader {
            version: self.header.version,
            total_work: self.header.total_work,
            proof: VRFProof(codec::dup_bytes(&self.header.proof.0)),
            parent_block: BlockHeaderHash(codec::dup_bytes(&self.header.parent_block.0)),
            parent_microblock: BlockHeaderHash(codec::dup_bytes(&self.header.parent_microblock.0)),
            parent_microblock_sequence: self.header.parent_microblock_sequence,
            tx_merkle_root: Sha512Trunc256Sum(codec::dup_bytes(&self.header.tx_merkle_root.0)),
            state_index_root: TrieHash(codec::dup_bytes(&self.header.state_index_root.0)),
            microblock_pubkey_hash: Hash160(codec::dup_bytes(&self.header.microblock_pubkey_hash.0)),
        };
        StacksBlock { header, txs }
    }

    /// A microblock header before signing: the same header with an all-zero
    /// signature, whose encoding the leader signs.
    pub open spec fn spec_unsigned(h: StacksMicroblockHeaderV) -> StacksMicroblockHeaderV {
        StacksMicroblockHeaderV {
            version: h.version,
            sequence: h.sequence,
            prev_block: h.prev_block,
            tx_merkle_root: h.tx_merkle_root,
            signature: Seq::new(65, |i: int| 0u8),
        }
    }

    /// The digest a microblock header's signature is computed over: the
    /// canonical digest of the header's encoding with a zeroed signature.
    pub open spec fn spec_microblock_sighash(h: StacksMicroblockHeaderV) -> Seq<u8> {
        crypto::sha512_256_of(spec_enc_microblock_header(Self::spec_unsigned(h)))
    }

    /// Seals the next microblock of the stream.  Refused — with the builder
    /// unchanged — before the anchored block is sealed, and when the
    /// sequence numbers are exhausted.  The sealed header chains to its
    /// predecessor: the first microblock's predecessor is the sealed
    /// anchored block, each later one the previous microblock header, and
    /// the sequence starts at zero and strictly increments.
    pub fn mine_next_microblock(&mut self) -> (r: Result<StacksMicroblock, Error>)
        requires
            old(self).wf(),
        ensures
            final(self).wf(),
            !old(self).anchored_done ==> (r matches Err(e) && e is InvalidStacksMicroblock
                && *final(self) == *old(self)),
            (old(self).anchored_done && old(self).made_first_microblock && old(self).prev_microblock_header.sequence == 0xffff) ==> (r matches Err(e)
                && e is MicroblockStreamTooLongError && *final(self) == *old(self)),
            (old(self).anchored_done && (!old(self).made_first_microblock || old(
                self,
            ).prev_microblock_header.sequence < 0xffff) && crypto::pubkey_of(
                old(self).miner_privkey@,
            ) is Some) ==> r is Ok,
            r matches Ok(mb) ==> {
                &&& mb.header@.version == STACKS_MICROBLOCK_VERSION
                &&& mb.header@.sequence == (if old(self).made_first_microblock {
                    old(self).prev_microblock_header.sequence + 1
                } else {
                    0int
                })
                &&& mb.header@.prev_block == (if old(self).made_first_microblock {
                    crypto::sha512_256_of(
                        spec_enc_microblock_header(old(self).prev_microblock_header@),
                    )
                } else {
                    crypto::sha512_256_of(spec_enc_block_header(old(self).header@))
                })
                &&& mb.header@.tx_merkle_root == spec_tx_merkle_root(
                    tx_views(old(self).micro_txs@),
                )
                &&& mb.header@.signature == crypto::signature_of(
                    old(self).miner_privkey@,
                    Self::spec_microblock_sighash(mb.header@),
                )
                &&& mb.txs@ == old(self).micro_txs@
                &&& final(self).micro_txs@.len() == 0
                &&& final(self).micro_bytes == 0
                &&& final(self).made_first_microblock
                &&& final(self).prev_microblock_header@ == mb.header@
                &&& final(self).txs@ == old(self).txs@
                &&& final(self).header == old(self).header
                &&& final(self).bytes_so_far == old(self).bytes_so_far
            },
    {
        if !self.anchored_done {
            return Err(
                Error::InvalidStacksMicroblock(
                    "the anchored block is not sealed yet".to_string(),
                    BlockHeaderHash(zero_bytes(32)),
                ),
            );
        }
        let sequence: u16 = if !self.made_first_microblock {
            0
        } else {
            if self.prev_microblock_header.sequence == 0xffff {
                return Err(Error::MicroblockStreamTooLongError);
            }
            self.prev_microblock_header.sequence + 1
        };
        let prev_block: BlockHeaderHash = if !self.made_first_microblock {
            self.header.block_hash()
        } else {
            self.prev_microblock_header.block_hash()
        };
        let root = tx_merkle_root(&self.micro_txs);
        let mut unsigned = StacksMicroblockHeader {
            version: STACKS_MICROBLOCK_VERSION,
            sequence,
            prev_block,
            tx_merkle_root: Sha512Trunc256Sum(root),
            signature: MessageSignature(zero_bytes(65)),
        };
        proof {
            assert(unsigned@.signature =~= Seq::new(65, |i: int| 0u8));
        }
        let enc = unsigned.encode();
        let sighash = Txid::from_sighash_bytes(&enc);
        let signature = match self.miner_privkey.sign(&sighash) {
            Some(s) => s,
            None => {
                return Err(
                    Error::InvalidStacksMicroblock(
                        "the miner key cannot sign".to_string(),
                        BlockHeaderHash(zero_bytes(32)),
                    ),
                );
            },
        };
        let header = StacksMicroblockHeader {
            version: unsigned.version,
            sequence: unsigned.sequence,
            prev_block: unsigned.prev_block,
            tx_merkle_root: unsigned.tx_merkle_root,
            signature,
        };
        proof {
            assert(Self::spec_unsigned(header@).signature == unsigned@.signature);
            assert(Self::spec_unsigned(header@) == unsigned@);
        }
        let mut txs: Vec<StacksTransaction> = Vec::new();
        core::mem::swap(&mut txs, &mut self.micro_txs);
        self.micro_bytes = 0;
        self.made_first_microblock = true;
        self.prev_microblock_header = header.dup();
        Ok(StacksMicroblock { header, txs })
    }
}

} // verus!
