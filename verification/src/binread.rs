//! The core decode contract: the capability every decodable type implements,
//! and the convenience surface for one-shot decodes.

use vstd::prelude::*;

use crate::endian::Endian;
use crate::endian::endian_resolves_to;
use crate::error::BinResult;
use crate::error::Error;
use crate::io::Cursor;
use crate::io::StreamView;
use crate::options::ReadOptions;

verus! {

/// Arguments of a decodable type must support duplication without loss,
/// because a collection decode hands one duplicate to every element and the
/// two construction phases each receive one.
pub trait CloneArgs: Sized {
    /// An exact copy of the argument value.
    fn clone_args(&self) -> (r: Self)
        ensures
            r == *self,
    ;
}

impl CloneArgs for () {
    fn clone_args(&self) -> (r: ()) {
    }
}

/// Argument types with a default value, enabling the zero-argument
/// convenience entry points.
pub trait DefaultArgs: Sized {
    /// The default argument value.
    spec fn spec_default() -> Self;

    /// The default argument value.
    fn default_args() -> (r: Self)
        ensures
            r == Self::spec_default(),
    ;
}

impl DefaultArgs for () {
    open spec fn spec_default() -> () {
        ()
    }

    fn default_args() -> (r: ()) {
    }
}

/// The capability every decodable type implements: a primary decode that
/// reads the bytes of one value from the current stream position forward,
/// and a finalize step run once the whole surrounding value tree has
/// finished its primary phase.
pub trait BinRead: Sized {
    /// The type-specific construction arguments the decode needs beyond the
    /// raw bytes. Types with no such needs use `()`.
    type Args: CloneArgs;

    /// The mathematical model of a decoded value, which the contracts speak
    /// of: a number for a numeric type, a sequence of element models for a
    /// collection.
    type Model;

    /// The model of this value.
    spec fn model(self) -> Self::Model;

    /// What a primary decode yields on the given stream, under the given
    /// resolved byte order and arguments: model and new position, or the
    /// error raised.
    spec fn spec_read(s: StreamView, endian: Endian, args: Self::Args) -> Result<
        (Self::Model, int),
        Error,
    >;

    /// What the finalize phase does to the model of an already-built value:
    /// the new model and the stream position it leaves, or the error raised.
    spec fn spec_after(m: Self::Model, s: StreamView, endian: Endian, args: Self::Args) -> Result<
        (Self::Model, int),
        Error,
    >;

    /// Whether a failed primary decode leaves the stream position exactly
    /// where it was. The fixed-width primitives promise this; composite
    /// types do not, and a caller must reposition the stream after their
    /// failure before using it again.
    spec fn restores_on_failure() -> bool;

    /// Reads one value from the current stream position forward, honoring
    /// the byte order of `options` and using `args` for type-specific
    /// construction parameters. On success the stream stands just past the
    /// consumed bytes; the decoded value, the new position and any error
    /// are exactly the ones `spec_read` gives.
    fn read_options(reader: &mut Cursor, options: &ReadOptions, args: Self::Args) -> (r: BinResult<
        Self,
    >)
        requires
            options.wf(),
        ensures
            final(reader)@.data == old(reader)@.data,
            match (Self::spec_read(old(reader)@, options.spec_endian(), args), r) {
                (Ok((m, p)), Ok(v)) => v.model() == m && final(reader)@.pos == p,
                (Err(e), Err(e2)) => e2 == e && (Self::restores_on_failure()
                    ==> final(reader)@.pos == old(reader)@.pos),
                _ => false,
            },
    ;

    /// Runs the post-processing phase of this value, once the whole value
    /// tree it belongs to has finished its primary decode. Composite values
    /// finalize their children in the order the primary decode built them,
    /// each child observing the stream position the previous one left.
    fn after_parse(self, reader: &mut Cursor, options: &ReadOptions, args: Self::Args) -> (r:
        BinResult<Self>)
        requires
            options.wf(),
        ensures
            final(reader)@.data == old(reader)@.data,
            match (Self::spec_after(
                self.model(),
                old(reader)@,
                options.spec_endian(),
                args,
            ), r) {
                (Ok((m, p)), Ok(v)) => v.model() == m && final(reader)@.pos == p,
                (Err(e), Err(e2)) => e2 == e,
                _ => false,
            },
    ;

    /// Reads one value using default options and default arguments.
    fn read(reader: &mut Cursor) -> (r: BinResult<Self>) where Self::Args: DefaultArgs
        ensures
            final(reader)@.data == old(reader)@.data,
            exists|e: Endian|
                #[trigger] endian_resolves_to(Endian::Native, e) && match (Self::spec_read(
                    old(reader)@,
                    e,
                    Self::Args::spec_default(),
                ), r) {
                    (Ok((m, p)), Ok(v)) => v.model() == m && final(reader)@.pos == p,
                    (Err(err), Err(e2)) => e2 == err,
                    _ => false,
                },
    {
        let options = ReadOptions::default();
        let r = Self::read_options(reader, &options, Self::Args::default_args());
        proof {
            let e = options.spec_endian();
            assert(endian_resolves_to(Endian::Native, e) && match (Self::spec_read(
                old(reader)@,
                e,
                Self::Args::spec_default(),
            ), r) {
                (Ok((m, p)), Ok(v)) => v.model() == m && reader@.pos == p,
                (Err(err), Err(e2)) => e2 == err,
                _ => false,
            });
        }
        r
    }

    /// Reads one value using default options and the given arguments.
    fn read_args(reader: &mut Cursor, args: Self::Args) -> (r: BinResult<Self>)
        ensures
            final(reader)@.data == old(reader)@.data,
            exists|e: Endian|
                #[trigger] endian_resolves_to(Endian::Native, e) && match (Self::spec_read(
                    old(reader)@,
                    e,
                    args,
                ), r) {
                    (Ok((m, p)), Ok(v)) => v.model() == m && final(reader)@.pos == p,
                    (Err(err), Err(e2)) => e2 == err,
                    _ => false,
                },
    {
        let options = ReadOptions::default();
        let r = Self::read_options(reader, &options, args);
        proof {
            let e = options.spec_endian();
            assert(endian_resolves_to(Endian::Native, e) && match (Self::spec_read(
                old(reader)@,
                e,
                args,
            ), r) {
                (Ok((m, p)), Ok(v)) => v.model() == m && reader@.pos == p,
                (Err(err), Err(e2)) => e2 == err,
                _ => false,
            });
        }
        r
    }
}

/// A sequence of `count` primary decodes of `B`, each on the position the
/// previous one left: the models in stream order and the final position, or
/// the first element failure, surfaced unchanged. Both the homogeneous
/// collection and the fixed-size sequence decoders are specified by it.
pub open spec fn read_seq<B: BinRead>(
    s: StreamView,
    endian: Endian,
    args: B::Args,
    count: nat,
) -> Result<(Seq<B::Model>, int), Error>
    decreases count,
{
    if count == 0 {
        Ok((Seq::empty(), s.pos))
    } else {
        match B::spec_read(s, endian, args) {
            Ok((m, p)) => prepend_models(
                seq![m],
                read_seq::<B>(
                    StreamView { data: s.data, pos: p },
                    endian,
                    args,
                    (count - 1) as nat,
                ),
            ),
            Err(e) => Err(e),
        }
    }
}

/// One finalize pass over element models in their original order, each on
/// the position the previous one left; the specification of the finalize
/// phase of both sequence decoders.
pub open spec fn after_seq<B: BinRead>(
    ms: Seq<B::Model>,
    s: StreamView,
    endian: Endian,
    args: B::Args,
) -> Result<(Seq<B::Model>, int), Error>
    decreases ms.len(),
{
    if ms.len() == 0 {
        Ok((Seq::empty(), s.pos))
    } else {
        match B::spec_after(ms[0], s, endian, args) {
            Ok((m2, p)) => prepend_models(
                seq![m2],
                after_seq::<B>(ms.skip(1), StreamView { data: s.data, pos: p }, endian, args),
            ),
            Err(e) => Err(e),
        }
    }
}

/// Puts already-processed element models in front of the outcome of the
/// remaining ones.
pub open spec fn prepend_models<M>(
    prefix: Seq<M>,
    rest: Result<(Seq<M>, int), Error>,
) -> Result<(Seq<M>, int), Error> {
    match rest {
        Ok((ms, p)) => Ok((prefix + ms, p)),
        Err(e) => Err(e),
    }
}

/// The models of the elements a vector holds.
pub open spec fn vec_models<B: BinRead>(v: Seq<B>) -> Seq<B::Model> {
    v.map_values(|b: B| b.model())
}

/// Joining a processed prefix to a result element by element or all at once
/// comes to the same.
pub proof fn lemma_prepend_assoc<M>(prefix: Seq<M>, m: M, rest: Result<(Seq<M>, int), Error>)
    ensures
        prepend_models(prefix, prepend_models(seq![m], rest)) == prepend_models(
            prefix.push(m),
            rest,
        ),
{
    match rest {
        Ok((ms, p)) => {
            assert(prefix + (seq![m] + ms) =~= prefix.push(m) + ms);
        },
        Err(_) => {},
    }
}

/// Both phases run back to back, as the one-shot entry points do: primary
/// decode from `pre`, then finalize on the result, each failure surfacing
/// unchanged.
pub open spec fn spec_read_and_finalize<T: BinRead>(
    pre: StreamView,
    endian: Endian,
    args: T::Args,
) -> Result<(T::Model, int), Error> {
    match T::spec_read(pre, endian, args) {
        Err(e) => Err(e),
        Ok((m, p)) => T::spec_after(m, StreamView { data: pre.data, pos: p }, endian, args),
    }
}

/// Relates the result of a one-shot decode (both phases) and the stream
/// after it to their specification: the finished value, the final position
/// and any error are exactly the ones `spec_read_and_finalize` gives.
pub open spec fn read_finalize_post<T: BinRead>(
    pre: StreamView,
    post: StreamView,
    endian: Endian,
    args: T::Args,
    r: Result<T, Error>,
) -> bool {
    &&& post.data == pre.data
    &&& match (spec_read_and_finalize::<T>(pre, endian, args), r) {
        (Ok((m, p)), Ok(v)) => v.model() == m && post.pos == p,
        (Err(e), Err(e2)) => e2 == e,
        _ => false,
    }
}

/// Extension methods for reading decodable values directly off a stream:
/// each runs both construction phases and hands back the finished value.
pub trait BinReaderExt: View<V = StreamView> + Sized {
    /// Reads `T` with the given byte order and arguments, running both
    /// phases.
    fn read_type_args<T: BinRead>(&mut self, endian: Endian, args: T::Args) -> (r: BinResult<T>)
        ensures
            exists|e: Endian|
                #[trigger] endian_resolves_to(endian, e) && read_finalize_post::<T>(
                    old(self)@,
                    final(self)@,
                    e,
                    args,
                    r,
                ),
    ;

    /// Reads `T` with the given byte order and default arguments.
    fn read_type<T: BinRead>(&mut self, endian: Endian) -> (r: BinResult<T>) where
        T::Args: DefaultArgs

        ensures
            exists|e: Endian|
                #[trigger] endian_resolves_to(endian, e) && read_finalize_post::<T>(
                    old(self)@,
                    final(self)@,
                    e,
                    T::Args::spec_default(),
                    r,
                ),
    ;

    /// Reads `T` in big-endian byte order with default arguments.
    fn read_be<T: BinRead>(&mut self) -> (r: BinResult<T>) where T::Args: DefaultArgs
        ensures
            read_finalize_post::<T>(
                old(self)@,
                final(self)@,
                Endian::Big,
                T::Args::spec_default(),
                r,
            ),
    ;

    /// Reads `T` in little-endian byte order with default arguments.
    fn read_le<T: BinRead>(&mut self) -> (r: BinResult<T>) where T::Args: DefaultArgs
        ensures
            read_finalize_post::<T>(
                old(self)@,
                final(self)@,
                Endian::Little,
                T::Args::spec_default(),
                r,
            ),
    ;

    /// Reads `T` in the host's byte order with default arguments.
    fn read_ne<T: BinRead>(&mut self) -> (r: BinResult<T>) where T::Args: DefaultArgs
        ensures
            exists|e: Endian|
                #[trigger] endian_resolves_to(Endian::Native, e) && read_finalize_post::<T>(
                    old(self)@,
                    final(self)@,
                    e,
                    T::Args::spec_default(),
                    r,
                ),
    ;

    /// Reads `T` in big-endian byte order with the given arguments.
    fn read_be_args<T: BinRead>(&mut self, args: T::Args) -> (r: BinResult<T>)
        ensures
            read_finalize_post::<T>(old(self)@, final(self)@, Endian::Big, args, r),
    ;

    /// Reads `T` in little-endian byte order with the given arguments.
    fn read_le_args<T: BinRead>(&mut self, args: T::Args) -> (r: BinResult<T>)
        ensures
            read_finalize_post::<T>(old(self)@, final(self)@, Endian::Little, args, r),
    ;

    /// Reads `T` in the host's byte order with the given arguments.
    fn read_ne_args<T: BinRead>(&mut self, args: T::Args) -> (r: BinResult<T>)
        ensures
            exists|e: Endian|
                #[trigger] endian_resolves_to(Endian::Native, e) && read_finalize_post::<T>(
                    old(self)@,
                    final(self)@,
                    e,
                    args,
                    r,
                ),
    ;
}

impl BinReaderExt for Cursor {
    fn read_type_args<T: BinRead>(&mut self, endian: Endian, args: T::Args) -> (r: BinResult<T>) {
        let options = ReadOptions::default().with_endian(endian);
        let ghost e = options.spec_endian();
        let ghost pre = self@;
        let res = match T::read_options(self, &options, args.clone_args()) {
            Ok(v) => v,
            Err(err) => {
                proof {
                    assert(endian_resolves_to(endian, e) && read_finalize_post::<T>(
                        pre,
                        self@,
                        e,
                        args,
                        Err::<T, Error>(err),
                    ));
                }
                return Err(err);
            },
        };
        let res = match res.after_parse(self, &options, args) {
            Ok(v) => v,
            Err(err) => {
                proof {
                    assert(endian_resolves_to(endian, e) && read_finalize_post::<T>(
                        pre,
                        self@,
                        e,
                        args,
                        Err::<T, Error>(err),
                    ));
                }
                return Err(err);
            },
        };
        proof {
            assert(endian_resolves_to(endian, e) && read_finalize_post::<T>(
                pre,
                self@,
                e,
                args,
                Ok::<T, Error>(res),
            ));
        }
        Ok(res)
    }

    fn read_type<T: BinRead>(&mut self, endian: Endian) -> (r: BinResult<T>) where
        T::Args: DefaultArgs
    {
        self.read_type_args::<T>(endian, T::Args::default_args())
    }

    fn read_be<T: BinRead>(&mut self) -> (r: BinResult<T>) where T::Args: DefaultArgs {
        let r = self.read_type::<T>(Endian::Big);
        proof {
            let e = choose|e: Endian|
                #[trigger] endian_resolves_to(Endian::Big, e) && read_finalize_post::<T>(
                    old(self)@,
                    self@,
                    e,
                    T::Args::spec_default(),
                    r,
                );
            assert(e == Endian::Big);
        }
        r
    }

    fn read_le<T: BinRead>(&mut self) -> (r: BinResult<T>) where T::Args: DefaultArgs {
        let r = self.read_type::<T>(Endian::Little);
        proof {
            let e = choose|e: Endian|
                #[trigger] endian_resolves_to(Endian::Little, e) && read_finalize_post::<T>(
                    old(self)@,
                    self@,
                    e,
                    T::Args::spec_default(),
                    r,
                );
            assert(e == Endian::Little);
        }
        r
    }

    fn read_ne<T: BinRead>(&mut self) -> (r: BinResult<T>) where T::Args: DefaultArgs {
        self.read_type::<T>(Endian::Native)
    }

    fn read_be_args<T: BinRead>(&mut self, args: T::Args) -> (r: BinResult<T>) {
        let r = self.read_type_args::<T>(Endian::Big, args);
        proof {
            let e = choose|e: Endian|
                #[trigger] endian_resolves_to(Endian::Big, e) && read_finalize_post::<T>(
                    old(self)@,
                    self@,
                    e,
                    args,
                    r,
                );
            assert(e == Endian::Big);
        }
        r
    }

    fn read_le_args<T: BinRead>(&mut self, args: T::Args) -> (r: BinResult<T>) {
        let r = self.read_type_args::<T>(Endian::Little, args);
        proof {
            let e = choose|e: Endian|
                #[trigger] endian_resolves_to(Endian::Little, e) && read_finalize_post::<T>(
                    old(self)@,
                    self@,
                    e,
                    args,
                    r,
                );
            assert(e == Endian::Little);
        }
        r
    }

    fn read_ne_args<T: BinRead>(&mut self, args: T::Args) -> (r: BinResult<T>) {
        self.read_type_args::<T>(Endian::Native, args)
    }
}

} // verus!
