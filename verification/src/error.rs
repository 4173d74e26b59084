use vstd::prelude::*;

verus! {

/// Every way a structural decode can fail. Each variant carries enough
/// context (byte offset and/or offending byte) for a caller to print an
/// actionable diagnostic. Errors are returned, never raised as a fault: the
/// first failure anywhere aborts the whole decode and no partial module is
/// ever produced.
#[derive(Debug, Clone, Copy, PartialEq, Eq, Structural)]
pub enum DecodeError {
    /// Fewer than 8 bytes in all: the preamble cannot be decoded.
    TooShort { found: usize },
    /// The 4 magic bytes are not valid text.
    InvalidMagic,
    /// A fixed or variable-length read ran past the end of the buffer.
    UnexpectedEof { offset: usize },
    /// A variable-length integer did not terminate within the remaining
    /// bytes, or overflowed 64 bits.
    InvalidVarint { offset: usize },
    /// A byte at a section-code position matches no known section code.
    UnknownSectionCode { code: u8 },
    /// A function-type record did not begin with the required 0x60 marker.
    InvalidTypeMarker { byte: u8, offset: usize },
    /// A value-type byte is outside the recognized set {0x7f, 0x7e}.
    InvalidValueType { byte: u8 },
}

} // verus!
