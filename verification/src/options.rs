//! Cross-cutting decode configuration.

use vstd::prelude::*;

use crate::endian::Endian;
use crate::endian::endian_resolves_to;
use crate::endian::resolve_endian;

verus! {

/// An immutable snapshot of the configuration of one decode pass, currently
/// the active byte order. It is built once, immediately before the top-level
/// decode call, and threaded unchanged through the whole recursion.
///
/// The byte order it holds is always a concrete one: a request for
/// [`Endian::Native`] is resolved to the host's order when the snapshot is
/// built, so a whole pass never sees an ambiguous order.
#[derive(Clone, Copy)]
pub struct ReadOptions {
    endian: Endian,
}

impl ReadOptions {
    /// The active byte order.
    pub closed spec fn spec_endian(&self) -> Endian {
        self.endian
    }

    /// Holds of every snapshot the constructors build: the stored byte order
    /// is concrete.
    pub open spec fn wf(&self) -> bool {
        self.spec_endian() == Endian::Big || self.spec_endian() == Endian::Little
    }

    /// The active byte order.
    pub fn endian(&self) -> (e: Endian)
        ensures
            e == self.spec_endian(),
    {
        self.endian
    }

    /// A copy of this snapshot with the given byte order, `Native` resolved
    /// to the host's order.
    pub fn with_endian(self, endian: Endian) -> (r: ReadOptions)
        ensures
            r.wf(),
            endian_resolves_to(endian, r.spec_endian()),
    {
        ReadOptions { endian: resolve_endian(endian) }
    }
}

impl Default for ReadOptions {
    /// The default configuration: the host's byte order.
    fn default() -> (r: ReadOptions)
        ensures
            r.wf(),
            endian_resolves_to(Endian::Native, r.spec_endian()),
    {
        ReadOptions { endian: resolve_endian(Endian::Native) }
    }
}

} // verus!
