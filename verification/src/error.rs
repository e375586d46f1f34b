//! The unified error type of the decode engine.

use vstd::prelude::*;

verus! {

/// The kind of an I/O-origin failure.
#[derive(Clone, Copy, PartialEq, Eq, Structural, Debug)]
pub enum IoErrorKind {
    /// The stream ended before enough bytes were available.
    UnexpectedEof,
}

/// An error raised during a decode.
///
/// The engine itself only ever raises the I/O-origin kind ([`Error::Io`]);
/// the semantic kinds exist for decoders layered on top of the engine (for
/// example a generated decoder that finds no matching enum variant), whose
/// errors the engine propagates unchanged.
#[derive(Clone, PartialEq, Eq, Debug)]
pub enum Error {
    /// An I/O-origin failure, such as a short read.
    Io(IoErrorKind),
    /// A semantic failure: a value-level assertion of a layered decoder did
    /// not hold at stream position `pos`. Never raised by the engine itself.
    AssertFail { pos: u64, message: String },
    /// A semantic failure: no variant of a layered enum decoder matched at
    /// stream position `pos`. Never raised by the engine itself.
    NoVariantMatch { pos: u64 },
}

/// The result type of every decode operation.
pub type BinResult<T> = Result<T, Error>;

/// The error reported when the stream ends before enough bytes were
/// available. The ignored parameter lets the function stand where an error
/// mapper is expected, whatever the mapped value is.
pub fn not_enough_bytes<T>(_ignored: T) -> (r: Error)
    ensures
        r == Error::Io(IoErrorKind::UnexpectedEof),
{
    Error::Io(IoErrorKind::UnexpectedEof)
}

} // verus!
