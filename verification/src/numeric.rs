//! Interpretation of byte sequences as unsigned numbers, in both byte
//! orders, with the lemmas the decoders and the laws need.

use vstd::prelude::*;

verus! {

/// 256 to the power `n`: the number of values `n` bytes can hold.
pub open spec fn pow256(n: nat) -> nat
    decreases n,
{
    if n == 0 {
        1
    } else {
        256 * pow256((n - 1) as nat)
    }
}

/// The number the bytes `s` denote with the least-significant byte first.
pub open spec fn le_digits(s: Seq<u8>) -> nat
    decreases s.len(),
{
    if s.len() == 0 {
        0
    } else {
        (s[0] + 256 * le_digits(s.skip(1))) as nat
    }
}

/// The number the bytes `s` denote with the most-significant byte first.
pub open spec fn be_digits(s: Seq<u8>) -> nat
    decreases s.len(),
{
    if s.len() == 0 {
        0
    } else {
        (256 * be_digits(s.drop_last()) + s.last()) as nat
    }
}

/// The `w` bytes of `v` with the least-significant byte first.
pub open spec fn le_bytes(v: nat, w: nat) -> Seq<u8>
    decreases w,
{
    if w == 0 {
        Seq::empty()
    } else {
        seq![(v % 256) as u8] + le_bytes(v / 256, (w - 1) as nat)
    }
}

/// The `w` bytes of `v` with the most-significant byte first.
pub open spec fn be_bytes(v: nat, w: nat) -> Seq<u8>
    decreases w,
{
    if w == 0 {
        Seq::empty()
    } else {
        be_bytes(v / 256, (w - 1) as nat).push((v % 256) as u8)
    }
}

/// A sequence of bytes denotes a number below 256 to the power of its
/// length, in either byte order.
pub proof fn lemma_digits_bound(s: Seq<u8>)
    ensures
        le_digits(s) < pow256(s.len()),
        be_digits(s) < pow256(s.len()),
    decreases s.len(),
{
    if s.len() > 0 {
        lemma_digits_bound(s.skip(1));
        lemma_digits_bound(s.drop_last());
        assert(s[0] < 256);
        assert(s.last() < 256);
        assert(s.skip(1).len() == s.len() - 1);
        assert(s.drop_last().len() == s.len() - 1);
    }
}

/// Reading back the little-endian bytes of `v` yields `v`, when `v` fits in
/// `w` bytes.
pub proof fn lemma_le_roundtrip(v: nat, w: nat)
    requires
        v < pow256(w),
    ensures
        le_bytes(v, w).len() == w,
        le_digits(le_bytes(v, w)) == v,
    decreases w,
{
    if w == 0 {
    } else {
        let rest = v / 256;
        assert(rest < pow256((w - 1) as nat)) by {
            assert(v < 256 * pow256((w - 1) as nat));
            assert(v / 256 < pow256((w - 1) as nat)) by (nonlinear_arith)
                requires
                    v < 256 * pow256((w - 1) as nat),
            ;
        }
        lemma_le_roundtrip(rest, (w - 1) as nat);
        let s = le_bytes(v, w);
        assert(s[0] == (v % 256) as u8);
        assert(s.skip(1) =~= le_bytes(rest, (w - 1) as nat));
        assert(v == (v % 256) + 256 * (v / 256)) by (nonlinear_arith);
    }
}

/// Reading back the big-endian bytes of `v` yields `v`, when `v` fits in
/// `w` bytes.
pub proof fn lemma_be_roundtrip(v: nat, w: nat)
    requires
        v < pow256(w),
    ensures
        be_bytes(v, w).len() == w,
        be_digits(be_bytes(v, w)) == v,
    decreases w,
{
    if w == 0 {
    } else {
        let rest = v / 256;
        assert(rest < pow256((w - 1) as nat)) by {
            assert(v < 256 * pow256((w - 1) as nat));
            assert(v / 256 < pow256((w - 1) as nat)) by (nonlinear_arith)
                requires
                    v < 256 * pow256((w - 1) as nat),
            ;
        }
        lemma_be_roundtrip(rest, (w - 1) as nat);
        let s = be_bytes(v, w);
        assert(s.drop_last() =~= be_bytes(rest, (w - 1) as nat));
        assert(s.last() == (v % 256) as u8);
        assert(v == (v % 256) + 256 * (v / 256)) by (nonlinear_arith);
    }
}

/// Combines bytes into the number they denote with the most-significant
/// byte first.
pub fn combine_be(bytes: &Vec<u8>) -> (r: u128)
    requires
        bytes@.len() <= 16,
    ensures
        r as nat == be_digits(bytes@),
{
    let n = bytes.len();
    let mut acc: u128 = 0;
    let mut i: usize = 0;
    while i < n
        invariant
            0 <= i <= n,
            n == bytes@.len() <= 16,
            acc as nat == be_digits(bytes@.take(i as int)),
        decreases n - i,
    {
        proof {
            lemma_digits_bound(bytes@.take(i as int));
            lemma_pow256_mono(i as nat, 15);
            assert(pow256(15) * 256 == pow256(16));
            assert(pow256(16) == 0x100000000000000000000000000000000) by {
                reveal_with_fuel(pow256, 17);
            }
            assert(acc * 256 + 255 < pow256(16)) by (nonlinear_arith)
                requires
                    acc < pow256(i as nat),
                    pow256(i as nat) <= pow256(15),
                    pow256(15) * 256 == pow256(16),
            ;
        }
        let b = bytes[i];
        acc = acc * 256 + (b as u128);
        proof {
            let t = bytes@.take(i + 1);
            assert(t.drop_last() =~= bytes@.take(i as int));
            assert(t.last() == bytes@[i as int]);
        }
        i += 1;
    }
    proof {
        assert(bytes@.take(n as int) =~= bytes@);
    }
    acc
}

/// Combines bytes into the number they denote with the least-significant
/// byte first.
pub fn combine_le(bytes: &Vec<u8>) -> (r: u128)
    requires
        bytes@.len() <= 16,
    ensures
        r as nat == le_digits(bytes@),
{
    let n = bytes.len();
    let mut acc: u128 = 0;
    let mut i: usize = n;
    while i > 0
        invariant
            0 <= i <= n,
            n == bytes@.len() <= 16,
            acc as nat == le_digits(bytes@.skip(i as int)),
        decreases i,
    {
        proof {
            lemma_digits_bound(bytes@.skip(i as int));
            assert(bytes@.skip(i as int).len() == n - i);
            lemma_pow256_mono((n - i) as nat, 15);
            assert(pow256(15) * 256 == pow256(16));
            assert(pow256(16) == 0x100000000000000000000000000000000) by {
                reveal_with_fuel(pow256, 17);
            }
            assert(acc * 256 + 255 < pow256(16)) by (nonlinear_arith)
                requires
                    acc < pow256((n - i) as nat),
                    pow256((n - i) as nat) <= pow256(15),
                    pow256(15) * 256 == pow256(16),
            ;
        }
        let b = bytes[i - 1];
        acc = acc * 256 + (b as u128);
        proof {
            let t = bytes@.skip(i - 1);
            assert(t[0] == bytes@[i - 1]);
            assert(t.skip(1) =~= bytes@.skip(i as int));
        }
        i -= 1;
    }
    proof {
        assert(bytes@.skip(0) =~= bytes@);
    }
    acc
}

/// `pow256` grows with its argument.
pub proof fn lemma_pow256_mono(a: nat, b: nat)
    requires
        a <= b,
    ensures
        pow256(a) <= pow256(b),
    decreases b,
{
    if a < b {
        lemma_pow256_mono(a, (b - 1) as nat);
        assert(pow256((b - 1) as nat) >= 1) by {
            lemma_pow256_pos((b - 1) as nat);
        }
    }
}

/// `pow256` is positive.
pub proof fn lemma_pow256_pos(n: nat)
    ensures
        pow256(n) >= 1,
    decreases n,
{
    if n > 0 {
        lemma_pow256_pos((n - 1) as nat);
    }
}

} // verus!
