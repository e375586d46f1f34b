//! Decoders for homogeneous variable-length sequences and fixed-size
//! sequences, and the generic element-by-element machinery they share.

use vstd::prelude::*;

use crate::binread::BinRead;
use crate::binread::CloneArgs;
use crate::binread::after_seq;
use crate::binread::lemma_prepend_assoc;
use crate::binread::prepend_models;
use crate::binread::read_seq;
use crate::binread::vec_models;
use crate::endian::Endian;
use crate::error::BinResult;
use crate::error::Error;
use crate::io::Cursor;
use crate::io::StreamView;
use crate::options::ReadOptions;

verus! {

/// Arguments of the variable-length sequence decoder.
pub struct VecArgs<B> {
    /// The number of elements to read.
    pub count: usize,
    /// Arguments handed (as a duplicate) to every element decode.
    pub inner: B,
}

impl<B: CloneArgs> CloneArgs for VecArgs<B> {
    fn clone_args(&self) -> (r: VecArgs<B>) {
        VecArgs { count: self.count, inner: self.inner.clone_args() }
    }
}

/// The generic element-by-element sequence decode: exactly `count` element
/// decodes in stream order, each with a duplicate of `args`, stopping at
/// the first failure.
pub fn read_vec<B: BinRead>(
    reader: &mut Cursor,
    options: &ReadOptions,
    count: usize,
    args: B::Args,
) -> (r: BinResult<Vec<B>>)
    requires
        options.wf(),
    ensures
        final(reader)@.data == old(reader)@.data,
        match (read_seq::<B>(old(reader)@, options.spec_endian(), args, count as nat), r) {
            (Ok((ms, p)), Ok(v)) => vec_models::<B>(v@) == ms && final(reader)@.pos == p,
            (Err(e), Err(e2)) => e2 == e,
            _ => false,
        },
{
    let mut list: Vec<B> = Vec::with_capacity(count);
    let mut i: usize = 0;
    let ghost s0 = reader@;
    let ghost e = options.spec_endian();
    proof {
        match read_seq::<B>(s0, e, args, count as nat) {
            Ok((ms, p)) => {
                assert(Seq::<B::Model>::empty() + ms =~= ms);
            },
            Err(_) => {},
        }
        assert(vec_models::<B>(list@) =~= Seq::<B::Model>::empty());
    }
    while i < count
        invariant
            0 <= i <= count,
            options.wf(),
            options.spec_endian() == e,
            s0 == old(reader)@,
            reader@.data == s0.data,
            vec_models::<B>(list@).len() == i,
            read_seq::<B>(s0, e, args, count as nat) == prepend_models(
                vec_models::<B>(list@),
                read_seq::<B>(reader@, e, args, (count - i) as nat),
            ),
        decreases count - i,
    {
        let ghost cur = reader@;
        let elem = match B::read_options(reader, options, args.clone_args()) {
            Ok(v) => v,
            Err(err) => {
                proof {
                    assert(read_seq::<B>(cur, e, args, (count - i) as nat) == Err::<
                        (Seq<B::Model>, int),
                        Error,
                    >(err));
                }
                return Err(err);
            },
        };
        proof {
            let mp = B::spec_read(cur, e, args);
            let m = mp->Ok_0.0;
            let p = mp->Ok_0.1;
            assert(reader@ == StreamView { data: cur.data, pos: p });
            assert(read_seq::<B>(cur, e, args, (count - i) as nat) == prepend_models(
                seq![m],
                read_seq::<B>(reader@, e, args, (count - i - 1) as nat),
            ));
            lemma_prepend_assoc(
                vec_models::<B>(list@),
                m,
                read_seq::<B>(reader@, e, args, (count - i - 1) as nat),
            );
            assert(vec_models::<B>(list@.push(elem)) =~= vec_models::<B>(list@).push(
                elem.model(),
            ));
        }
        list.push(elem);
        i += 1;
    }
    proof {
        match read_seq::<B>(reader@, e, args, 0) {
            Ok((ms, p)) => {
                assert(vec_models::<B>(list@) + ms =~= vec_models::<B>(list@));
            },
            Err(_) => {
                assert(false);
            },
        }
    }
    Ok(list)
}

/// The finalize pass of a sequence: every element's finalize step, in the
/// original element order, each with a duplicate of `args`, stopping at the
/// first failure.
pub fn finalize_vec<B: BinRead>(
    list: Vec<B>,
    reader: &mut Cursor,
    options: &ReadOptions,
    args: B::Args,
) -> (r: BinResult<Vec<B>>)
    requires
        options.wf(),
    ensures
        final(reader)@.data == old(reader)@.data,
        match (after_seq::<B>(
            vec_models::<B>(list@),
            old(reader)@,
            options.spec_endian(),
            args,
        ), r) {
            (Ok((ms, p)), Ok(v)) => vec_models::<B>(v@) == ms && final(reader)@.pos == p,
            (Err(e), Err(e2)) => e2 == e,
            _ => false,
        },
{
    let mut rest = list;
    let mut out: Vec<B> = Vec::new();
    let ghost s0 = reader@;
    let ghost e = options.spec_endian();
    let ghost all = vec_models::<B>(rest@);
    proof {
        match after_seq::<B>(all, s0, e, args) {
            Ok((ms, p)) => {
                assert(Seq::<B::Model>::empty() + ms =~= ms);
            },
            Err(_) => {},
        }
        assert(vec_models::<B>(out@) =~= Seq::<B::Model>::empty());
    }
    while rest.len() > 0
        invariant
            options.wf(),
            options.spec_endian() == e,
            s0 == old(reader)@,
            all == vec_models::<B>(list@),
            reader@.data == s0.data,
            after_seq::<B>(all, s0, e, args) == prepend_models(
                vec_models::<B>(out@),
                after_seq::<B>(vec_models::<B>(rest@), reader@, e, args),
            ),
        decreases rest.len(),
    {
        let ghost cur = reader@;
        let ghost rest0 = rest@;
        let x = rest.remove(0);
        proof {
            assert(rest@ =~= rest0.skip(1));
            assert(vec_models::<B>(rest@) =~= vec_models::<B>(rest0).skip(1));
            assert(vec_models::<B>(rest0)[0] == x.model());
        }
        let y = match x.after_parse(reader, options, args.clone_args()) {
            Ok(y) => y,
            Err(err) => {
                proof {
                    assert(after_seq::<B>(vec_models::<B>(rest0), cur, e, args) == Err::<
                        (Seq<B::Model>, int),
                        Error,
                    >(err));
                }
                return Err(err);
            },
        };
        proof {
            let mp = B::spec_after(x.model(), cur, e, args);
            let m2 = mp->Ok_0.0;
            let p = mp->Ok_0.1;
            assert(reader@ == StreamView { data: cur.data, pos: p });
            assert(after_seq::<B>(vec_models::<B>(rest0), cur, e, args) == prepend_models(
                seq![m2],
                after_seq::<B>(vec_models::<B>(rest@), reader@, e, args),
            ));
            lemma_prepend_assoc(
                vec_models::<B>(out@),
                m2,
                after_seq::<B>(vec_models::<B>(rest@), reader@, e, args),
            );
            assert(vec_models::<B>(out@.push(y)) =~= vec_models::<B>(out@).push(y.model()));
        }
        out.push(y);
    }
    proof {
        assert(vec_models::<B>(rest@) =~= Seq::<B::Model>::empty());
        match after_seq::<B>(Seq::<B::Model>::empty(), reader@, e, args) {
            Ok((ms, p)) => {
                assert(vec_models::<B>(out@) + ms =~= vec_models::<B>(out@));
            },
            Err(_) => {
                assert(false);
            },
        }
    }
    Ok(out)
}

impl<B: BinRead> BinRead for Vec<B> {
    type Args = VecArgs<B::Args>;

    type Model = Seq<B::Model>;

    open spec fn model(self) -> Seq<B::Model> {
        vec_models::<B>(self@)
    }

    open spec fn spec_read(s: StreamView, endian: Endian, args: VecArgs<B::Args>) -> Result<
        (Seq<B::Model>, int),
        Error,
    > {
        read_seq::<B>(s, endian, args.inner, args.count as nat)
    }

    open spec fn spec_after(
        m: Seq<B::Model>,
        s: StreamView,
        endian: Endian,
        args: VecArgs<B::Args>,
    ) -> Result<(Seq<B::Model>, int), Error> {
        after_seq::<B>(m, s, endian, args.inner)
    }

    open spec fn restores_on_failure() -> bool {
        false
    }

    fn read_options(reader: &mut Cursor, options: &ReadOptions, args: VecArgs<B::Args>) -> (r:
        BinResult<Vec<B>>) {
        let VecArgs { count, inner } = args;
        let r = read_vec::<B>(reader, options, count, inner);
        proof {
            assert(!Self::restores_on_failure());
            if r is Ok {
                assert(r->Ok_0.model() == vec_models::<B>(r->Ok_0@));
            }
        }
        r
    }

    fn after_parse(self, reader: &mut Cursor, options: &ReadOptions, args: VecArgs<B::Args>) -> (r:
        BinResult<Vec<B>>) {
        finalize_vec::<B>(self, reader, options, args.inner)
    }
}

/// Relies on std's `TryFrom<Vec<T>>` implementation for `[T; N]`: the
/// conversion succeeds exactly when the vector holds `N` elements, and the
/// array then holds the vector's elements in the same order.
#[verifier::external_body]
fn vec_into_array<T, const N: usize>(v: Vec<T>) -> (r: [T; N])
    requires
        v@.len() == N,
    ensures
        r@ == v@,
{
    <[T; N]>::try_from(v).ok().unwrap()
}

/// Relies on std's `From<[T; N]>` implementation for `Vec<T>`: the vector
/// holds the array's elements in order.
#[verifier::external_body]
fn array_into_vec<T, const N: usize>(a: [T; N]) -> (r: Vec<T>)
    ensures
        r@ == a@,
{
    Vec::from(a)
}

/// A successful sequence decode yields exactly as many element models as
/// were asked for.
pub proof fn lemma_read_seq_len<B: BinRead>(s: StreamView, endian: Endian, args: B::Args, count: nat)
    ensures
        read_seq::<B>(s, endian, args, count) matches Ok(mp) ==> mp.0.len() == count,
    decreases count,
{
    if count > 0 {
        match B::spec_read(s, endian, args) {
            Ok((m, p)) => {
                lemma_read_seq_len::<B>(
                    StreamView { data: s.data, pos: p },
                    endian,
                    args,
                    (count - 1) as nat,
                );
            },
            Err(_) => {},
        }
    }
}

/// A successful finalize pass yields exactly as many element models as it
/// was given: every element is finalized exactly once.
pub proof fn lemma_after_seq_len<B: BinRead>(
    ms: Seq<B::Model>,
    s: StreamView,
    endian: Endian,
    args: B::Args,
)
    ensures
        after_seq::<B>(ms, s, endian, args) matches Ok(mp) ==> mp.0.len() == ms.len(),
    decreases ms.len(),
{
    if ms.len() > 0 {
        match B::spec_after(ms[0], s, endian, args) {
            Ok((m2, p)) => {
                lemma_after_seq_len::<B>(
                    ms.skip(1),
                    StreamView { data: s.data, pos: p },
                    endian,
                    args,
                );
            },
            Err(_) => {},
        }
    }
}

impl<B: BinRead, const N: usize> BinRead for [B; N] {
    type Args = B::Args;

    type Model = Seq<B::Model>;

    open spec fn model(self) -> Seq<B::Model> {
        vec_models::<B>(self@)
    }

    open spec fn spec_read(s: StreamView, endian: Endian, args: B::Args) -> Result<
        (Seq<B::Model>, int),
        Error,
    > {
        read_seq::<B>(s, endian, args, N as nat)
    }

    open spec fn spec_after(m: Seq<B::Model>, s: StreamView, endian: Endian, args: B::Args) -> Result<
        (Seq<B::Model>, int),
        Error,
    > {
        after_seq::<B>(m, s, endian, args)
    }

    open spec fn restores_on_failure() -> bool {
        false
    }

    fn read_options(reader: &mut Cursor, options: &ReadOptions, args: B::Args) -> (r: BinResult<
        [B; N],
    >) {
        let list = match read_vec::<B>(reader, options, N, args) {
            Ok(v) => v,
            Err(e) => {
                proof {
                    assert(!Self::restores_on_failure());
                    assert(Self::spec_read(old(reader)@, options.spec_endian(), args)
                        == read_seq::<B>(old(reader)@, options.spec_endian(), args, N as nat));
                }
                return Err(e);
            },
        };
        proof {
            lemma_read_seq_len::<B>(old(reader)@, options.spec_endian(), args, N as nat);
            assert(list@.len() == vec_models::<B>(list@).len());
        }
        let arr = vec_into_array::<B, N>(list);
        proof {
            assert(vec_models::<B>(arr@) =~= vec_models::<B>(list@));
        }
        Ok(arr)
    }

    fn after_parse(self, reader: &mut Cursor, options: &ReadOptions, args: B::Args) -> (r:
        BinResult<[B; N]>) {
        let ghost m0 = vec_models::<B>(self@);
        let list = array_into_vec::<B, N>(self);
        proof {
            assert(vec_models::<B>(list@) =~= m0);
        }
        let out = match finalize_vec::<B>(list, reader, options, args) {
            Ok(v) => v,
            Err(e) => {
                return Err(e);
            },
        };
        proof {
            lemma_after_seq_len::<B>(m0, old(reader)@, options.spec_endian(), args);
            assert(out@.len() == vec_models::<B>(out@).len());
        }
        let arr = vec_into_array::<B, N>(out);
        proof {
            assert(vec_models::<B>(arr@) =~= vec_models::<B>(out@));
        }
        Ok(arr)
    }
}

} // verus!
