//! Little-endian integers read from and written to byte sequences.
use vstd::prelude::*;

verus! {

/// The integer that the bytes of `s` encode, least significant byte first.
pub open spec fn from_le(s: Seq<u8>) -> nat
    decreases s.len(),
{
    if s.len() == 0 {
        0
    } else {
        s[0] as nat + 256 * from_le(s.drop_first())
    }
}

/// The `n` bytes that encode `v` modulo `256^n`, least significant byte first.
pub open spec fn le_bytes(v: nat, n: nat) -> Seq<u8>
    decreases n,
{
    if n == 0 {
        Seq::empty()
    } else {
        seq![(v % 256) as u8] + le_bytes(v / 256, (n - 1) as nat)
    }
}

/// Reads the `u32` stored little-endian at `off`.
pub fn read_u32_le(s: &[u8], off: usize) -> (r: u32)
    requires
        off + 4 <= s@.len(),
    ensures
        r as nat == from_le(s@.subrange(off as int, off + 4)),
{
    let b0 = s[off] as u32;
    let b1 = s[off + 1] as u32;
    let b2 = s[off + 2] as u32;
    let b3 = s[off + 3] as u32;
    proof {
        let w = s@.subrange(off as int, off + 4);
        reveal_with_fuel(from_le, 5);
        assert(w.drop_first().drop_first().drop_first().drop_first().len() == 0);
        assert(w.drop_first()[0] == w[1]);
        assert(w.drop_first().drop_first()[0] == w[2]);
        assert(w.drop_first().drop_first().drop_first()[0] == w[3]);
    }
    b0 + 256 * b1 + 65536 * b2 + 16777216 * b3
}

/// Reads the `u64` stored little-endian at `off`.
pub fn read_u64_le(s: &[u8], off: usize) -> (r: u64)
    requires
        off + 8 <= s@.len(),
    ensures
        r as nat == from_le(s@.subrange(off as int, off + 8)),
{
    // The slice's length is a `usize`, so `off + 4` cannot overflow.
    let _len = s.len();
    let lo = read_u32_le(s, off) as u64;
    let hi = read_u32_le(s, off + 4) as u64;
    proof {
        reveal_with_fuel(pow256, 5);
        lemma_from_le_split(s@.subrange(off as int, off + 8), 4);
        assert(s@.subrange(off as int, off + 8).subrange(0, 4) == s@.subrange(off as int, off + 4));
        assert(s@.subrange(off as int, off + 8).subrange(4, 8) == s@.subrange(off + 4, off + 8));
    }
    lo + 4294967296 * hi
}

/// Appends the four little-endian bytes of `v`.
pub fn push_u32_le(out: &mut Vec<u8>, v: u32)
    ensures
        final(out)@ == old(out)@ + le_bytes(v as nat, 4),
{
    let b0 = (v % 256) as u8;
    let v1 = v / 256;
    let b1 = (v1 % 256) as u8;
    let v2 = v1 / 256;
    let b2 = (v2 % 256) as u8;
    let v3 = v2 / 256;
    let b3 = (v3 % 256) as u8;
    out.push(b0);
    out.push(b1);
    out.push(b2);
    out.push(b3);
    proof {
        reveal_with_fuel(le_bytes, 5);
        assert(le_bytes(v as nat, 4) =~= seq![b0, b1, b2, b3]);
    }
}

/// Splitting a little-endian sequence at `k`: the high part is scaled by `256^k`.
pub proof fn lemma_from_le_split(s: Seq<u8>, k: nat)
    requires
        k <= s.len(),
    ensures
        from_le(s) == from_le(s.subrange(0, k as int)) + pow256(k) * from_le(
            s.subrange(k as int, s.len() as int),
        ),
    decreases k,
{
    if k == 0 {
        assert(s.subrange(0, s.len() as int) =~= s);
        assert(from_le(s.subrange(0, 0)) == 0);
        let whole = from_le(s);
        assert(pow256(0) * whole == whole) by (nonlinear_arith)
            requires
                pow256(0) == 1,
        ;
    } else {
        let t = s.drop_first();
        lemma_from_le_split(t, (k - 1) as nat);
        assert(t.subrange(0, k - 1) == s.subrange(0, k as int).drop_first());
        assert(t.subrange(k - 1, t.len() as int) == s.subrange(k as int, s.len() as int));
        assert(s.subrange(0, k as int)[0] == s[0]);
        let hi = from_le(s.subrange(k as int, s.len() as int));
        let lo = from_le(t.subrange(0, k - 1));
        assert(from_le(s) == s[0] as nat + 256 * from_le(t));
        assert(from_le(s.subrange(0, k as int)) == s[0] as nat + 256 * lo);
        assert(from_le(t) == lo + pow256((k - 1) as nat) * hi);
        assert(256 * (lo + pow256((k - 1) as nat) * hi) == 256 * lo + pow256(k) * hi)
            by (nonlinear_arith)
            requires
                pow256(k) == 256 * pow256((k - 1) as nat),
        ;
        assert(from_le(s) == s[0] as nat + 256 * lo + pow256(k) * hi);
        assert(from_le(s) == from_le(s.subrange(0, k as int)) + pow256(k) * hi);
    }
}

/// `256^k`.
pub open spec fn pow256(k: nat) -> nat
    decreases k,
{
    if k == 0 {
        1
    } else {
        256 * pow256((k - 1) as nat)
    }
}

} // verus!
