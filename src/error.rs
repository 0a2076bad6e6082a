use vstd::prelude::*;

verus! {

/// What went wrong while decoding a font file or one of its tables.
#[derive(Debug, Clone, Copy, PartialEq, Eq, Structural)]
pub enum Error {
    /// Fewer bytes are left than a fixed-width field requires.
    Truncated,
    /// A computed offset or length reaches past the end of the buffer.
    OutOfBounds,
    /// The leading magic number or version of a file is not recognised.
    UnsupportedFormat,
    /// A format or version number matches none of the known values; the
    /// payload is the byte offset of that field in the decoded slice.
    InvalidDiscriminant(usize),
    /// A structural rule of the format is broken.
    MalformedInvariant,
    /// The bytes of a table do not sum to the checksum its record holds.
    ChecksumMismatch,
}

} // verus!
