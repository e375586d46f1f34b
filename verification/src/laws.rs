//! The engine's laws, stated and proved over the specification functions
//! that the decode contracts use.

use vstd::prelude::*;

use crate::binread::BinRead;
use crate::binread::after_seq;
use crate::binread::prepend_models;
use crate::binread::read_seq;
use crate::endian::Endian;
use crate::error::Error;
use crate::error::IoErrorKind;
use crate::io::StreamView;
use crate::numeric::be_bytes;
use crate::numeric::be_digits;
use crate::numeric::le_bytes;
use crate::numeric::le_digits;
use crate::numeric::lemma_be_roundtrip;
use crate::numeric::lemma_le_roundtrip;
use crate::numeric::pow256;
use crate::primitives::lemma_read_seq_u8;
use crate::primitives::prim_read;
use crate::sequences::VecArgs;

verus! {

/// For every value that fits in `w` bytes — and so for every value of each
/// fixed-width numeric type, at its own width — decoding the big-endian
/// byte pattern of the value and decoding the little-endian byte pattern
/// of the value yield the same value back.
pub proof fn lemma_endian_patterns_agree(v: nat, w: nat)
    requires
        v < pow256(w),
    ensures
        be_bytes(v, w).len() == w,
        le_bytes(v, w).len() == w,
        be_digits(be_bytes(v, w)) == v,
        le_digits(le_bytes(v, w)) == v,
        be_digits(be_bytes(v, w)) == le_digits(le_bytes(v, w)),
{
    lemma_be_roundtrip(v, w);
    lemma_le_roundtrip(v, w);
}

/// The previous law at a concrete type: every 32-bit value decodes back
/// from its big-endian pattern under the big-endian order and from its
/// little-endian pattern under the little-endian order, four bytes
/// consumed either way.
pub proof fn lemma_u32_decode_patterns(v: u32)
    ensures
        <u32 as BinRead>::spec_read(
            StreamView { data: le_bytes(v as nat, 4), pos: 0 },
            Endian::Little,
            (),
        ) == Ok::<(u32, int), Error>((v, 4)),
        <u32 as BinRead>::spec_read(
            StreamView { data: be_bytes(v as nat, 4), pos: 0 },
            Endian::Big,
            (),
        ) == Ok::<(u32, int), Error>((v, 4)),
{
    assert(pow256(4) == 0x100000000) by {
        reveal_with_fuel(pow256, 5);
    }
    lemma_endian_patterns_agree(v as nat, 4);
    let sl = StreamView { data: le_bytes(v as nat, 4), pos: 0 };
    let sb = StreamView { data: be_bytes(v as nat, 4), pos: 0 };
    assert(sl.data.subrange(0, 4) =~= sl.data);
    assert(sb.data.subrange(0, 4) =~= sb.data);
    assert(prim_read(sl, Endian::Little, 4) == Ok::<(nat, int), Error>((v as nat, 4)));
    assert(prim_read(sb, Endian::Big, 4) == Ok::<(nat, int), Error>((v as nat, 4)));
}

/// The round-trip law at a signed type: every 16-bit signed value decodes
/// back from the patterns of its two's-complement bit pattern, under
/// either byte order.
pub proof fn lemma_i16_decode_patterns(v: i16)
    ensures
        <i16 as BinRead>::spec_read(
            StreamView { data: le_bytes((v as u16) as nat, 2), pos: 0 },
            Endian::Little,
            (),
        ) == Ok::<(i16, int), Error>((v, 2)),
        <i16 as BinRead>::spec_read(
            StreamView { data: be_bytes((v as u16) as nat, 2), pos: 0 },
            Endian::Big,
            (),
        ) == Ok::<(i16, int), Error>((v, 2)),
{
    assert(pow256(2) == 0x10000) by {
        reveal_with_fuel(pow256, 3);
    }
    let u = v as u16;
    lemma_endian_patterns_agree(u as nat, 2);
    let sl = StreamView { data: le_bytes(u as nat, 2), pos: 0 };
    let sb = StreamView { data: be_bytes(u as nat, 2), pos: 0 };
    assert(sl.data.subrange(0, 2) =~= sl.data);
    assert(sb.data.subrange(0, 2) =~= sb.data);
    assert(prim_read(sl, Endian::Little, 2) == Ok::<(nat, int), Error>((u as nat, 2)));
    assert(prim_read(sb, Endian::Big, 2) == Ok::<(nat, int), Error>((u as nat, 2)));
    assert(v as u16 as i16 == v) by (bit_vector);
}

/// A fixed-width read on a stream with fewer bytes left than the width
/// fails with a short read; together with the decode contract of each
/// primitive (`restores_on_failure`), the stream position is then exactly
/// what it was before the attempt.
pub proof fn lemma_prim_short_read(s: StreamView, endian: Endian, width: nat)
    requires
        s.pos + width > s.data.len() || s.pos < 0,
    ensures
        prim_read(s, endian, width) == Err::<(nat, int), Error>(
            Error::Io(IoErrorKind::UnexpectedEof),
        ),
        <u8 as BinRead>::restores_on_failure(),
        <u16 as BinRead>::restores_on_failure(),
        <u32 as BinRead>::restores_on_failure(),
        <u64 as BinRead>::restores_on_failure(),
        <u128 as BinRead>::restores_on_failure(),
        <i8 as BinRead>::restores_on_failure(),
        <i16 as BinRead>::restores_on_failure(),
        <i32 as BinRead>::restores_on_failure(),
        <i64 as BinRead>::restores_on_failure(),
        <i128 as BinRead>::restores_on_failure(),
        <char as BinRead>::restores_on_failure(),
{
}

/// Decoding a declared count of trivially-decodable elements from a stream
/// that holds at least that many of their one-byte encodings succeeds and
/// yields exactly that many elements, in stream order.
pub proof fn lemma_sequence_count(s: StreamView, endian: Endian, c: nat)
    requires
        0 <= s.pos,
        s.pos + c <= s.data.len(),
    ensures
        read_seq::<u8>(s, endian, (), c) == Ok::<(Seq<u8>, int), Error>((
            s.data.subrange(s.pos, s.pos + c),
            s.pos + c,
        )),
        s.data.subrange(s.pos, s.pos + c).len() == c,
{
    if c == 0 {
        lemma_read_seq_u8(s, endian, c);
        assert(s.data.subrange(s.pos, s.pos) =~= Seq::<u8>::empty());
    } else {
        lemma_read_seq_u8(s, endian, c);
    }
}

/// The byte-sequence fast path (one bulk read of `count` bytes) and the
/// generic element-by-element path yield byte-identical results: the
/// element-wise sequence decode of raw bytes — which is exactly what the
/// collection decoder's specification unfolds to at the raw-byte element
/// type — is the bulk read's closed form, under every byte order.
pub proof fn lemma_byte_paths_identical(s: StreamView, endian: Endian, args: VecArgs<()>)
    requires
        0 <= s.pos,
    ensures
        <Vec<u8> as BinRead>::spec_read(s, endian, args) == read_seq::<u8>(
            s,
            endian,
            (),
            args.count as nat,
        ),
        s.pos + args.count <= s.data.len() ==> read_seq::<u8>(s, endian, (), args.count as nat)
            == Ok::<(Seq<u8>, int), Error>((
            s.data.subrange(s.pos, s.pos + args.count),
            s.pos + args.count,
        )),
        args.count > 0 && s.pos + args.count > s.data.len() ==> read_seq::<u8>(
            s,
            endian,
            (),
            args.count as nat,
        ) == Err::<(Seq<u8>, int), Error>(Error::Io(IoErrorKind::UnexpectedEof)),
{
    lemma_read_seq_u8(s, endian, args.count as nat);
    if args.count == 0 {
        assert(s.pos <= s.data.len() ==> s.data.subrange(s.pos, s.pos) =~= Seq::<u8>::empty());
    }
}

/// When the first `k` elements of a sequence decode and the next one
/// fails, the whole sequence decode of any larger count surfaces that very
/// element failure, unchanged.
pub proof fn lemma_element_failure_propagates<B: BinRead>(
    s: StreamView,
    endian: Endian,
    args: B::Args,
    n: nat,
    k: nat,
    e0: Error,
)
    requires
        k < n,
        read_seq::<B>(s, endian, args, k) matches Ok(mp) && B::spec_read(
            StreamView { data: s.data, pos: mp.1 },
            endian,
            args,
        ) == Err::<(B::Model, int), Error>(e0),
    ensures
        read_seq::<B>(s, endian, args, n) == Err::<(Seq<B::Model>, int), Error>(e0),
    decreases k,
{
    if k == 0 {
        let mp = read_seq::<B>(s, endian, args, 0)->Ok_0;
        assert(mp.1 == s.pos);
        assert(StreamView { data: s.data, pos: s.pos } == s);
    } else {
        match B::spec_read(s, endian, args) {
            Ok((m, p)) => {
                let s1 = StreamView { data: s.data, pos: p };
                let rest = read_seq::<B>(s1, endian, args, (k - 1) as nat);
                assert(rest is Ok);
                assert(read_seq::<B>(s, endian, args, k)->Ok_0.1 == rest->Ok_0.1);
                lemma_element_failure_propagates::<B>(
                    s1,
                    endian,
                    args,
                    (n - 1) as nat,
                    (k - 1) as nat,
                    e0,
                );
            },
            Err(_) => {
                assert(false);
            },
        }
    }
}

/// The previous law at the fixed-size sequence decoder: a decode failure
/// at any element surfaces the same error the element decoder itself
/// raises standalone at that stream position. The decode contract then
/// guarantees that no completed fixed-size sequence is returned.
pub proof fn lemma_array_element_failure<B: BinRead, const N: usize>(
    s: StreamView,
    endian: Endian,
    args: B::Args,
    k: nat,
    e0: Error,
)
    requires
        k < N,
        read_seq::<B>(s, endian, args, k) matches Ok(mp) && B::spec_read(
            StreamView { data: s.data, pos: mp.1 },
            endian,
            args,
        ) == Err::<(B::Model, int), Error>(e0),
    ensures
        <[B; N] as BinRead>::spec_read(s, endian, args) == Err::<(Seq<B::Model>, int), Error>(e0),
{
    lemma_element_failure_propagates::<B>(s, endian, args, N as nat, k, e0);
}

/// The finalize pass touches every element exactly once, in the original
/// element order, threading the stream position from each element to the
/// next: for element types whose finalize step is a no-op, the pass leaves
/// all element models and the stream position unchanged.
pub proof fn lemma_finalize_noop_elements<B: BinRead>(
    ms: Seq<B::Model>,
    s: StreamView,
    endian: Endian,
    args: B::Args,
)
    requires
        forall|m: B::Model, s2: StreamView| #[trigger] B::spec_after(m, s2, endian, args)
            == Ok::<(B::Model, int), Error>((m, s2.pos)),
    ensures
        after_seq::<B>(ms, s, endian, args) == Ok::<(Seq<B::Model>, int), Error>((ms, s.pos)),
    decreases ms.len(),
{
    if ms.len() == 0 {
        assert(after_seq::<B>(ms, s, endian, args) == Ok::<(Seq<B::Model>, int), Error>((
            Seq::<B::Model>::empty(),
            s.pos,
        )));
        assert(ms =~= Seq::<B::Model>::empty());
    } else {
        lemma_finalize_noop_elements::<B>(ms.skip(1), s, endian, args);
        assert(after_seq::<B>(ms, s, endian, args) == prepend_models(
            seq![ms[0]],
            after_seq::<B>(ms.skip(1), StreamView { data: s.data, pos: s.pos }, endian, args),
        ));
        assert(StreamView { data: s.data, pos: s.pos } == s);
        assert(seq![ms[0]] + ms.skip(1) =~= ms);
    }
}

} // verus!
