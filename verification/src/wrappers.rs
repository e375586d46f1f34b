//! Decoders for wrapper and zero-sized values: optional values, boxed
//! values, tuples, markers and the empty value.

use vstd::prelude::*;

use core::marker::PhantomData;

use crate::binread::BinRead;
use crate::endian::Endian;
use crate::error::BinResult;
use crate::error::Error;
use crate::io::Cursor;
use crate::io::StreamView;
use crate::options::ReadOptions;

verus! {

impl BinRead for () {
    type Args = ();

    type Model = ();

    open spec fn model(self) -> () {
        ()
    }

    /// The empty value consumes no bytes.
    open spec fn spec_read(s: StreamView, endian: Endian, args: ()) -> Result<((), int), Error> {
        Ok(((), s.pos))
    }

    open spec fn spec_after(m: (), s: StreamView, endian: Endian, args: ()) -> Result<
        ((), int),
        Error,
    > {
        Ok(((), s.pos))
    }

    open spec fn restores_on_failure() -> bool {
        true
    }

    fn read_options(reader: &mut Cursor, options: &ReadOptions, args: ()) -> (r: BinResult<()>) {
        Ok(())
    }

    fn after_parse(self, reader: &mut Cursor, options: &ReadOptions, args: ()) -> (r: BinResult<
        (),
    >) {
        Ok(())
    }
}

impl<T> BinRead for PhantomData<T> {
    type Args = ();

    type Model = ();

    open spec fn model(self) -> () {
        ()
    }

    /// A marker value consumes no bytes and produces the single possible
    /// instance; it only carries compile-time type information.
    open spec fn spec_read(s: StreamView, endian: Endian, args: ()) -> Result<((), int), Error> {
        Ok(((), s.pos))
    }

    open spec fn spec_after(m: (), s: StreamView, endian: Endian, args: ()) -> Result<
        ((), int),
        Error,
    > {
        Ok(((), s.pos))
    }

    open spec fn restores_on_failure() -> bool {
        true
    }

    fn read_options(reader: &mut Cursor, options: &ReadOptions, args: ()) -> (r: BinResult<
        PhantomData<T>,
    >) {
        Ok(PhantomData)
    }

    fn after_parse(self, reader: &mut Cursor, options: &ReadOptions, args: ()) -> (r: BinResult<
        PhantomData<T>,
    >) {
        Ok(self)
    }
}

impl<T: BinRead> BinRead for Option<T> {
    type Args = T::Args;

    type Model = Option<T::Model>;

    open spec fn model(self) -> Option<T::Model> {
        match self {
            Some(v) => Some(v.model()),
            None => None,
        }
    }

    /// Decoding always produces a present value by decoding the wrapped
    /// type; an intentionally absent value is the concern of layers above
    /// this one.
    open spec fn spec_read(s: StreamView, endian: Endian, args: T::Args) -> Result<
        (Option<T::Model>, int),
        Error,
    > {
        match T::spec_read(s, endian, args) {
            Ok((m, p)) => Ok((Some(m), p)),
            Err(e) => Err(e),
        }
    }

    open spec fn spec_after(
        m: Option<T::Model>,
        s: StreamView,
        endian: Endian,
        args: T::Args,
    ) -> Result<(Option<T::Model>, int), Error> {
        match m {
            Some(im) => match T::spec_after(im, s, endian, args) {
                Ok((m2, p)) => Ok((Some(m2), p)),
                Err(e) => Err(e),
            },
            None => Ok((None, s.pos)),
        }
    }

    open spec fn restores_on_failure() -> bool {
        T::restores_on_failure()
    }

    fn read_options(reader: &mut Cursor, options: &ReadOptions, args: T::Args) -> (r: BinResult<
        Option<T>,
    >) {
        proof {
            assert(Self::restores_on_failure() == T::restores_on_failure());
        }
        match T::read_options(reader, options, args) {
            Ok(v) => {
                let res = Some(v);
                proof {
                    assert(res.model() == Some(v.model()));
                }
                Ok(res)
            },
            Err(e) => Err(e),
        }
    }

    fn after_parse(self, reader: &mut Cursor, options: &ReadOptions, args: T::Args) -> (r:
        BinResult<Option<T>>) {
        match self {
            Some(v) => match v.after_parse(reader, options, args) {
                Ok(y) => Ok(Some(y)),
                Err(e) => Err(e),
            },
            None => Ok(None),
        }
    }
}

impl<T: BinRead> BinRead for Box<T> {
    type Args = T::Args;

    type Model = T::Model;

    open spec fn model(self) -> T::Model {
        (*self).model()
    }

    /// Decodes the wrapped value and takes sole ownership of it behind the
    /// indirection.
    open spec fn spec_read(s: StreamView, endian: Endian, args: T::Args) -> Result<
        (T::Model, int),
        Error,
    > {
        T::spec_read(s, endian, args)
    }

    open spec fn spec_after(m: T::Model, s: StreamView, endian: Endian, args: T::Args) -> Result<
        (T::Model, int),
        Error,
    > {
        T::spec_after(m, s, endian, args)
    }

    open spec fn restores_on_failure() -> bool {
        T::restores_on_failure()
    }

    fn read_options(reader: &mut Cursor, options: &ReadOptions, args: T::Args) -> (r: BinResult<
        Box<T>,
    >) {
        proof {
            assert(Self::restores_on_failure() == T::restores_on_failure());
        }
        match T::read_options(reader, options, args) {
            Ok(v) => {
                let res = Box::new(v);
                proof {
                    assert(res.model() == v.model());
                }
                Ok(res)
            },
            Err(e) => Err(e),
        }
    }

    fn after_parse(self, reader: &mut Cursor, options: &ReadOptions, args: T::Args) -> (r:
        BinResult<Box<T>>) {
        let inner = *self;
        match inner.after_parse(reader, options, args) {
            Ok(y) => Ok(Box::new(y)),
            Err(e) => Err(e),
        }
    }
}

} // verus!
