//! The errors the library reports.
use vstd::prelude::*;

verus! {

/// Why a read or a parse did not succeed.
#[derive(Debug, Clone, Copy, PartialEq, Eq, Structural)]
pub enum PeError {
    /// No section holds the relative virtual address.
    RvaNotMapped,
    /// The bytes asked for run past the end of the image.
    OutOfRange,
    /// An offset does not fit in a signed pointer-sized integer.
    OffsetTooLarge,
    /// A C string has no NUL terminator before the end of the image.
    MissingNul,
    /// The image has no exception directory.
    NoExceptionDirectory,
    /// The image imports nothing from the named library.
    DllNotFound,
    /// The library imports no function of that name or ordinal.
    FunctionNotFound,
}

} // verus!
