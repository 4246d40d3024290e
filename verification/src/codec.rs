//! Primitives of the canonical byte encoding.
//!
//! Every structure of the library has one canonical encoding, built from
//! big-endian fixed-width integers and raw byte runs.  The `spec` functions
//! here define those primitives; the executable readers and writers are
//! proved against them, and every composite encoding in the crate is a
//! concatenation of these parts.

use vstd::prelude::*;
use vstd::arithmetic::div_mod::lemma_fundamental_div_mod;

verus! {

/// 256 raised to `n`.
pub open spec fn pow256(n: nat) -> int
    decreases n,
{
    if n == 0 {
        1
    } else {
        256 * pow256((n - 1) as nat)
    }
}

pub proof fn lemma_pow256_pos(n: nat)
    ensures
        pow256(n) >= 1,
    decreases n,
{
    if n > 0 {
        lemma_pow256_pos((n - 1) as nat);
    }
}

pub proof fn lemma_pow256_mono(m: nat, n: nat)
    requires
        m <= n,
    ensures
        pow256(m) <= pow256(n),
    decreases n,
{
    lemma_pow256_pos(m);
    if m < n {
        lemma_pow256_mono(m, (n - 1) as nat);
        lemma_pow256_pos((n - 1) as nat);
    }
}

/// `x` written as `n` big-endian bytes (most significant first); bits above
/// the `n`-th byte are discarded.
pub open spec fn be_bytes(x: int, n: nat) -> Seq<u8>
    decreases n,
{
    if n == 0 {
        Seq::empty()
    } else {
        be_bytes(x / 256, (n - 1) as nat) + seq![(x % 256) as u8]
    }
}

/// The integer a big-endian byte string denotes.
pub open spec fn be_val(b: Seq<u8>) -> int
    decreases b.len(),
{
    if b.len() == 0 {
        0
    } else {
        be_val(b.drop_last()) * 256 + b.last()
    }
}

pub proof fn lemma_be_bytes_len(x: int, n: nat)
    ensures
        be_bytes(x, n).len() == n,
    decreases n,
{
    if n > 0 {
        lemma_be_bytes_len(x / 256, (n - 1) as nat);
    }
}

pub proof fn lemma_be_val_bounds(b: Seq<u8>)
    ensures
        0 <= be_val(b) < pow256(b.len()),
    decreases b.len(),
{
    if b.len() > 0 {
        lemma_be_val_bounds(b.drop_last());
    }
}

/// Reading back the big-endian bytes of `x` yields `x`, provided `x` fits
/// in `n` bytes.
pub proof fn lemma_be_val_be_bytes(x: int, n: nat)
    requires
        0 <= x < pow256(n),
    ensures
        be_val(be_bytes(x, n)) == x,
    decreases n,
{
    if n == 0 {
    } else {
        let m = (n - 1) as nat;
        lemma_pow256_pos(m);
        assert(x / 256 < pow256(m)) by (nonlinear_arith)
            requires
                x < 256 * pow256(m),
                pow256(m) >= 1,
                x >= 0,
        {
        }
        lemma_be_val_be_bytes(x / 256, m);
        let bs = be_bytes(x, n);
        lemma_be_bytes_len(x / 256, m);
        assert(bs.drop_last() =~= be_bytes(x / 256, m));
        lemma_fundamental_div_mod(x, 256);
    }
}

/// A one-byte big-endian encoding is the byte itself.
pub proof fn lemma_be_bytes_one(x: int)
    requires
        0 <= x < 256,
    ensures
        be_bytes(x, 1) =~= seq![x as u8],
{
    assert(be_bytes(x / 256, 0) =~= Seq::<u8>::empty());
    assert(x % 256 == x);
}

/// True when the byte string `e` occurs in `b` starting at `pos`.
pub open spec fn bytes_at(b: Seq<u8>, pos: int, e: Seq<u8>) -> bool {
    &&& 0 <= pos
    &&& pos + e.len() <= b.len()
    &&& b.subrange(pos, pos + e.len()) == e
}

/// A concatenation occurs at `pos` exactly when its parts occur in order.
pub proof fn lemma_bytes_at_concat(b: Seq<u8>, pos: int, e1: Seq<u8>, e2: Seq<u8>)
    requires
        bytes_at(b, pos, e1 + e2),
    ensures
        bytes_at(b, pos, e1),
        bytes_at(b, pos + e1.len(), e2),
{
    let e = e1 + e2;
    assert forall|j: int| 0 <= j < e.len() implies b[pos + j] == e[j] by {
        assert(b.subrange(pos, pos + e.len() as int)[j] == e[j]);
    }
    assert(b.subrange(pos, pos + e1.len() as int) =~= e1);
    assert forall|k: int|
        0 <= k < e2.len() implies b.subrange(pos + e1.len(), pos + e.len() as int)[k] == e2[k] by {
        assert(b[pos + (e1.len() + k)] == e[e1.len() + k]);
    }
    assert(b.subrange(pos + e1.len(), pos + e.len() as int) =~= e2);
}

/// Reading `n` big-endian bytes at `pos`: the denoted value and the position
/// after it, or `None` when fewer than `n` bytes remain.
pub open spec fn spec_read_be(b: Seq<u8>, pos: int, n: nat) -> Option<(int, int)> {
    if 0 <= pos && pos + n <= b.len() {
        Some((be_val(b.subrange(pos, pos + n)), pos + n))
    } else {
        None
    }
}

/// Reading `n` raw bytes at `pos`, or `None` when fewer than `n` remain.
pub open spec fn spec_read_bytes(b: Seq<u8>, pos: int, n: nat) -> Option<(Seq<u8>, int)> {
    if 0 <= pos && pos + n <= b.len() {
        Some((b.subrange(pos, pos + n), pos + n))
    } else {
        None
    }
}

/// Where the big-endian bytes of `x` occur at `pos`, reading them back
/// yields `x`.
pub proof fn lemma_read_be_bytes_at(b: Seq<u8>, pos: int, x: int, n: nat)
    requires
        0 <= x < pow256(n),
        bytes_at(b, pos, be_bytes(x, n)),
    ensures
        spec_read_be(b, pos, n) == Some((x, pos + n)),
{
    lemma_be_bytes_len(x, n);
    lemma_be_val_be_bytes(x, n);
}

/// The ghost pair a successful read denotes: the value's model and the
/// position after it.
pub open spec fn opt_view<T: View>(r: Option<(T, usize)>) -> Option<(T::V, int)> {
    match r {
        Some((v, end)) => Some((v@, end as int)),
        None => None,
    }
}

/// Appends a copy of `data`.
pub fn push_bytes(out: &mut Vec<u8>, data: &Vec<u8>)
    ensures
        final(out)@ == old(out)@ + data@,
{
    let mut k: usize = 0;
    while k < data.len()
        invariant
            k <= data@.len(),
            out@ =~= old(out)@ + data@.subrange(0, k as int),
        decreases data@.len() - k,
    {
        out.push(data[k]);
        proof {
            assert(out@ =~= old(out)@ + data@.subrange(0, k + 1));
        }
        k = k + 1;
    }
    proof {
        assert(data@.subrange(0, data@.len() as int) =~= data@);
    }
}

/// Copies a byte string.
pub fn dup_bytes(data: &Vec<u8>) -> (r: Vec<u8>)
    ensures
        r@ == data@,
{
    let mut out: Vec<u8> = Vec::new();
    push_bytes(&mut out, data);
    out
}

/// Appends the `n` big-endian bytes of `x`.
pub fn push_be(out: &mut Vec<u8>, x: u64, n: usize)
    ensures
        final(out)@ == old(out)@ + be_bytes(x as int, n as nat),
    decreases n,
{
    if n > 0 {
        push_be(out, x / 256, n - 1);
        out.push((x % 256) as u8);
        proof {
            assert(out@ =~= old(out)@ + be_bytes(x as int, n as nat));
        }
    } else {
        proof {
            assert(out@ =~= old(out)@ + be_bytes(x as int, 0));
        }
    }
}

/// Reads `n` big-endian bytes at `pos` as an integer.
pub fn read_be(buf: &Vec<u8>, pos: usize, n: usize) -> (r: Option<(u64, usize)>)
    requires
        n <= 8,
    ensures
        match r {
            Some((v, end)) => {
                &&& spec_read_be(buf@, pos as int, n as nat) == Some((v as int, end as int))
                &&& end == pos + n
                &&& end <= buf@.len()
                &&& v < pow256(n as nat)
            },
            None => spec_read_be(buf@, pos as int, n as nat) is None,
        },
{
    if pos > buf.len() || n > buf.len() - pos {
        return None;
    }
    proof {
        lemma_pow256_mono(n as nat, 8);
        assert(pow256(0) == 1);
        assert(pow256(1) == 256);
        assert(pow256(2) == 0x10000);
        assert(pow256(3) == 0x1000000);
        assert(pow256(4) == 0x100000000);
        assert(pow256(5) == 0x10000000000);
        assert(pow256(6) == 0x1000000000000);
        assert(pow256(7) == 0x100000000000000);
        assert(pow256(8) == 0x10000000000000000);
    }
    let end: usize = pos + n;
    let mut val: u64 = 0;
    let mut idx: usize = pos;
    while idx < end
        invariant
            pos <= idx <= end,
            end == pos + n,
            n <= 8,
            end <= buf@.len(),
            val == be_val(buf@.subrange(pos as int, idx as int)),
            0 <= val < pow256((idx - pos) as nat),
            pow256(n as nat) <= pow256(8),
            pow256(8) == 0x10000000000000000,
        decreases end - idx,
    {
        proof {
            lemma_pow256_mono((idx - pos + 1) as nat, n as nat);
            let cur = buf@.subrange(pos as int, idx as int);
            let next = buf@.subrange(pos as int, idx + 1);
            assert(next.drop_last() =~= cur);
            assert(next.last() == buf@[idx as int]);
        }
        val = val * 256 + (buf[idx] as u64);
        idx = idx + 1;
    }
    proof {
        lemma_be_val_bounds(buf@.subrange(pos as int, pos + n));
    }
    Some((val, end))
}

/// Reads `n` raw bytes at `pos`.
pub fn read_bytes(buf: &Vec<u8>, pos: usize, n: usize) -> (r: Option<(Vec<u8>, usize)>)
    ensures
        match r {
            Some((v, end)) => {
                &&& spec_read_bytes(buf@, pos as int, n as nat) == Some((v@, end as int))
                &&& end == pos + n
                &&& end <= buf@.len()
                &&& v@.len() == n
            },
            None => spec_read_bytes(buf@, pos as int, n as nat) is None,
        },
{
    if pos > buf.len() || n > buf.len() - pos {
        return None;
    }
    let end: usize = pos + n;
    let mut v: Vec<u8> = Vec::new();
    let mut idx: usize = pos;
    while idx < end
        invariant
            pos <= idx <= end,
            end == pos + n,
            end <= buf@.len(),
            v@ =~= buf@.subrange(pos as int, idx as int),
        decreases end - idx,
    {
        v.push(buf[idx]);
        proof {
            assert(v@ =~= buf@.subrange(pos as int, idx + 1));
        }
        idx = idx + 1;
    }
    Some((v, end))
}

} // verus!
