//! The COFF file header of an image.
use vstd::prelude::*;

use crate::arch::{Architecture, is_known_machine, spec_architecture};
use crate::windows_types::IMAGE_FILE_HEADER;

verus! {

/// The file header, kept as it was read.
#[derive(Debug)]
pub struct FileHeader(IMAGE_FILE_HEADER);

impl View for FileHeader {
    type V = IMAGE_FILE_HEADER;

    closed spec fn view(&self) -> IMAGE_FILE_HEADER {
        self.0
    }
}

impl FileHeader {
    pub fn new(raw: IMAGE_FILE_HEADER) -> (r: Self)
        ensures
            r@ == raw,
    {
        Self { 0: raw }
    }

    /// The raw header.
    pub fn raw(&self) -> (r: IMAGE_FILE_HEADER)
        ensures
            r == self@,
    {
        self.0
    }

    pub fn number_of_sections(&self) -> (r: usize)
        ensures
            r == self@.number_of_sections,
    {
        self.0.number_of_sections as usize
    }

    /// The architecture of the machine field; other machines are not handled.
    pub fn arch(&self) -> (r: Architecture)
        requires
            is_known_machine(self@.machine),
        ensures
            r == spec_architecture(self@.machine),
    {
        match Architecture::try_from(self.0.machine) {
            Ok(a) => a,
            Err(_) => Architecture::X64,
        }
    }

    pub fn size_of_optional_header(&self) -> (r: usize)
        ensures
            r == self@.size_of_optional_header,
    {
        self.0.size_of_optional_header as usize
    }
}

} // verus!
