//! The DOS header of an image.
use vstd::prelude::*;

use crate::raw::RawStruct;
use crate::windows_types::IMAGE_DOS_HEADER;

verus! {

/// The DOS header at the start of an image, as it was read.
#[derive(Debug)]
pub struct DosHeader {
    raw: IMAGE_DOS_HEADER,
}

impl View for DosHeader {
    type V = IMAGE_DOS_HEADER;

    closed spec fn view(&self) -> IMAGE_DOS_HEADER {
        self.raw
    }
}

impl core::ops::Deref for DosHeader {
    type Target = IMAGE_DOS_HEADER;

    fn deref(&self) -> (r: &IMAGE_DOS_HEADER)
        ensures
            *r == self@,
    {
        &self.raw
    }
}

impl DosHeader {
    /// The DOS header at the start of `bytes`; bytes too short to hold one are not handled.
    pub fn from_bytes(bytes: &[u8]) -> (r: Self)
        requires
            bytes@.len() >= 64,
        ensures
            r@ == IMAGE_DOS_HEADER::spec_read(bytes@, 0),
    {
        let raw = IMAGE_DOS_HEADER::read(bytes, 0);

        Self { raw }
    }
}

} // verus!
