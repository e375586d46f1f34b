//! Byte orders and their resolution to the host's order.

use vstd::prelude::*;

verus! {

/// The byte order used to interpret multi-byte numeric values.
///
/// `Native` stands for the byte order of the machine the program runs on.
/// It is resolved to `Big` or `Little` when a [`crate::options::ReadOptions`]
/// value is built, so that a whole decode pass interprets every value under
/// one concrete order.
#[derive(Clone, Copy, PartialEq, Eq, Structural, Debug)]
pub enum Endian {
    /// Most-significant byte first.
    Big,
    /// Least-significant byte first.
    Little,
    /// The byte order of the host machine.
    Native,
}

/// Holds when asking for the byte order `requested` may yield the concrete
/// order `resolved`: `Big` and `Little` resolve to themselves, `Native` to
/// either, depending on the host.
pub open spec fn endian_resolves_to(requested: Endian, resolved: Endian) -> bool {
    match requested {
        Endian::Big => resolved == Endian::Big,
        Endian::Little => resolved == Endian::Little,
        Endian::Native => resolved == Endian::Big || resolved == Endian::Little,
    }
}

/// Relies on `u16::from_ne_bytes`: it interprets the two bytes in the host's
/// byte order, so the probe value is 1 on a little-endian host and 256 on a
/// big-endian one.
#[verifier::external_body]
fn host_order_probe() -> (r: u16)
    ensures
        r == 1 || r == 256,
{
    u16::from_ne_bytes([1u8, 0u8])
}

/// The byte order of the host machine, as a concrete (non-`Native`) order.
pub fn native_byte_order() -> (r: Endian)
    ensures
        r == Endian::Big || r == Endian::Little,
{
    if host_order_probe() == 1 {
        Endian::Little
    } else {
        Endian::Big
    }
}

/// Resolves a requested byte order to a concrete one: `Native` becomes the
/// host's order, the two concrete orders stay as they are.
pub fn resolve_endian(requested: Endian) -> (r: Endian)
    ensures
        endian_resolves_to(requested, r),
{
    match requested {
        Endian::Big => Endian::Big,
        Endian::Little => Endian::Little,
        Endian::Native => native_byte_order(),
    }
}

} // verus!
