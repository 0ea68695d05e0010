//! The failure kinds shared by every layer of the crate.

use vstd::prelude::*;

verus! {

/// Why a bounds check, a load or a parse step failed.
#[derive(Debug, Clone, Copy, PartialEq, Eq, Structural)]
pub enum Error {
    /// A failure that fits no other kind.
    Other,
    /// A requested range reaches past the end of the buffer.
    OutOfBounds,
    /// A header view could not be built, for a reason not told apart further.
    TypeFromBytes,
    /// The discriminating field names no protocol that will ever be handled.
    UnknownProtocol,
    /// The protocol that is present is not the one that was asked for.
    WrongProtocol,
    /// A load from the buffer was refused.
    LoadFailed,
    /// The discriminating field names a protocol that is not handled yet; the
    /// number is kept for the caller.
    UnimplementedProtocol(u32),
    /// The bounds check passed but the address is null.
    NullPtr,
    /// The address of a typed load is not a multiple of the type's alignment.
    Unaligned,
}

pub type Result<T> = core::result::Result<T, Error>;

} // verus!
