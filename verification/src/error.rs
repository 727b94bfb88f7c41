use vstd::prelude::*;

verus! {

/// The ways a decode can fail. Every error is fatal to the current decode
/// call: there is no retry, no partial result, and no resynchronization.
#[derive(Debug, Clone, Copy, PartialEq, Eq, Structural)]
pub enum Error {
    /// The byte source ran out before a fixed-width read completed, or a
    /// seek target could not be represented.
    IoFailure,
    /// The first 4 bytes are not one of the recognized magic values; the
    /// offending value is carried verbatim.
    InvalidMagic(u32),
    /// A load command's declared size violates the minimum-8 or the
    /// alignment-to-bit-width rule; subsequent offsets are unrecoverable.
    InvalidLoadCommandSize(u32),
    /// A 16-byte name slot holds bytes that are not NUL-padded ASCII text,
    /// or a logical name cannot be encoded into such a slot.
    InvalidFixedString,
}

} // verus!
