//! The NT headers of an AMD64 image.
use vstd::prelude::*;

use crate::arch::MACHINE_AMD64;
use crate::raw::RawStruct;
use crate::windows_types::{IMAGE_FILE_HEADER, IMAGE_NT_HEADERS64, IMAGE_OPTIONAL_HEADER64};

verus! {

/// The NT headers at `e_lfanew`, read with the PE32+ layout.
pub open spec fn spec_nt_headers_at(s: Seq<u8>, e_lfanew: int) -> IMAGE_NT_HEADERS64 {
    IMAGE_NT_HEADERS64::spec_read(s, e_lfanew)
}

/// The NT headers of an image, as they were read.
#[derive(Debug)]
pub struct NtHeader {
    raw: IMAGE_NT_HEADERS64,
}

impl View for NtHeader {
    type V = IMAGE_NT_HEADERS64;

    closed spec fn view(&self) -> IMAGE_NT_HEADERS64 {
        self.raw
    }
}

impl core::ops::Deref for NtHeader {
    type Target = IMAGE_NT_HEADERS64;

    fn deref(&self) -> (r: &IMAGE_NT_HEADERS64)
        ensures
            *r == self@,
    {
        &self.raw
    }
}

impl NtHeader {
    /// The NT headers at `e_lfanew`. Headers outside the bytes, or of a machine
    /// other than AMD64, are not handled.
    pub fn from_bytes(bytes: &[u8], e_lfanew: u32) -> (r: Self)
        requires
            e_lfanew + 264 <= bytes@.len(),
            spec_nt_headers_at(bytes@, e_lfanew as int).file_header.machine == MACHINE_AMD64,
        ensures
            r@ == spec_nt_headers_at(bytes@, e_lfanew as int),
    {
        let raw = IMAGE_NT_HEADERS64::read(bytes, e_lfanew as usize);

        Self { raw }
    }

    /// The NT headers stored at `offset`, whatever their machine.
    pub(crate) fn read_at(bytes: &[u8], offset: usize) -> (r: Self)
        requires
            offset + 264 <= bytes@.len(),
        ensures
            r@ == spec_nt_headers_at(bytes@, offset as int),
    {
        Self { raw: IMAGE_NT_HEADERS64::read(bytes, offset) }
    }

    pub fn get_signature(&self) -> (r: u32)
        ensures
            r == self@.signature,
    {
        self.raw.signature
    }

    pub fn get_file_header(&self) -> (r: &IMAGE_FILE_HEADER)
        ensures
            *r == self@.file_header,
    {
        &self.raw.file_header
    }

    pub fn get_optional_header(&self) -> (r: &IMAGE_OPTIONAL_HEADER64)
        ensures
            *r == self@.optional_header,
    {
        &self.raw.optional_header
    }
}

} // verus!
