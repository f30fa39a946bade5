//! The optional header of PE32 and PE32+ images.
use vstd::prelude::*;

use crate::pe::Va;
use crate::windows_types::{IMAGE_DATA_DIRECTORY, IMAGE_OPTIONAL_HEADER32, IMAGE_OPTIONAL_HEADER64};

verus! {

/// The magic of a PE32 optional header.
pub const MAGIC_PE32: u16 = 0x10b;

/// The magic of a PE32+ optional header.
pub const MAGIC_PE32_PLUS: u16 = 0x20b;

/// The magics of the formats the library reads.
pub open spec fn is_amd_intel_magic(magic: u16) -> bool {
    magic == MAGIC_PE32 || magic == MAGIC_PE32_PLUS
}

/// What both kinds of optional header offer.
pub trait OptionalHeader {
    spec fn spec_magic(&self) -> u16;

    /// The preferred load address, as stored.
    spec fn spec_image_base(&self) -> int;

    spec fn spec_data_directory(&self) -> Seq<IMAGE_DATA_DIRECTORY>;

    /// `va` can be stored as the image base.
    spec fn spec_base_fits(&self, va: Va) -> bool;

    fn magic(&self) -> (r: u16)
        ensures
            r == self.spec_magic(),
    ;

    /// The image base; one that does not fit in an address is not handled.
    fn image_base(&self) -> (r: Va)
        requires
            self.spec_image_base() <= usize::MAX,
        ensures
            r == self.spec_image_base(),
    ;

    /// Stores a new image base; one that the header cannot hold is not handled.
    fn set_image_base(&mut self, new_image_base: Va)
        requires
            old(self).spec_base_fits(new_image_base),
        ensures
            final(self).spec_image_base() == new_image_base,
            final(self).spec_magic() == old(self).spec_magic(),
            final(self).spec_data_directory() == old(self).spec_data_directory(),
    ;

    /// The header is that of a PE32 or a PE32+ image.
    fn is_amd_intel(&self) -> (r: bool)
        ensures
            r == is_amd_intel_magic(self.spec_magic()),
    {
        let magic = self.magic();

        if magic != 0x20b && magic != 0x10b {
            false
        } else {
            true
        }
    }

    fn data_directory(&self) -> (r: &[IMAGE_DATA_DIRECTORY; 16])
        ensures
            r@ == self.spec_data_directory(),
    ;
}

/// The optional header of a PE32 image.
#[derive(Debug)]
pub struct OptionalHeader32(IMAGE_OPTIONAL_HEADER32);

impl View for OptionalHeader32 {
    type V = IMAGE_OPTIONAL_HEADER32;

    closed spec fn view(&self) -> IMAGE_OPTIONAL_HEADER32 {
        self.0
    }
}

impl OptionalHeader32 {
    /// What the header offers is what its raw header holds.
    pub proof fn lemma_view(&self)
        ensures
            self.spec_magic() == self@.magic,
            self.spec_image_base() == self@.image_base as int,
            self.spec_data_directory() == self@.data_directory@,
    {
    }

    /// The raw header.
    pub fn raw(&self) -> (r: IMAGE_OPTIONAL_HEADER32)
        ensures
            r == self@,
    {
        self.0
    }

    pub fn new(raw: IMAGE_OPTIONAL_HEADER32) -> (r: Self)
        ensures
            r@ == raw,
    {
        Self { 0: raw }
    }
}

impl OptionalHeader for OptionalHeader32 {
    closed spec fn spec_magic(&self) -> u16 {
        self.0.magic
    }

    closed spec fn spec_image_base(&self) -> int {
        self.0.image_base as int
    }

    closed spec fn spec_data_directory(&self) -> Seq<IMAGE_DATA_DIRECTORY> {
        self.0.data_directory@
    }

    closed spec fn spec_base_fits(&self, va: Va) -> bool {
        va <= u32::MAX
    }

    fn magic(&self) -> (r: u16) {
        self.0.magic
    }

    fn image_base(&self) -> (r: Va) {
        self.0.image_base as Va
    }

    fn set_image_base(&mut self, new_image_base: Va) {
        self.0.image_base = new_image_base as u32;
    }

    fn data_directory(&self) -> (r: &[IMAGE_DATA_DIRECTORY; 16]) {
        &self.0.data_directory
    }
}

/// The optional header of a PE32+ image.
#[derive(Debug)]
pub struct OptionalHeader64(IMAGE_OPTIONAL_HEADER64);

impl View for OptionalHeader64 {
    type V = IMAGE_OPTIONAL_HEADER64;

    closed spec fn view(&self) -> IMAGE_OPTIONAL_HEADER64 {
        self.0
    }
}

impl OptionalHeader64 {
    /// What the header offers is what its raw header holds.
    pub proof fn lemma_view(&self)
        ensures
            self.spec_magic() == self@.magic,
            self.spec_image_base() == self@.image_base as int,
            self.spec_data_directory() == self@.data_directory@,
    {
    }

    /// The raw header.
    pub fn raw(&self) -> (r: IMAGE_OPTIONAL_HEADER64)
        ensures
            r == self@,
    {
        self.0
    }

    pub fn new(raw: IMAGE_OPTIONAL_HEADER64) -> (r: Self)
        ensures
            r@ == raw,
    {
        Self { 0: raw }
    }
}

impl OptionalHeader for OptionalHeader64 {
    closed spec fn spec_magic(&self) -> u16 {
        self.0.magic
    }

    closed spec fn spec_image_base(&self) -> int {
        self.0.image_base as int
    }

    closed spec fn spec_data_directory(&self) -> Seq<IMAGE_DATA_DIRECTORY> {
        self.0.data_directory@
    }

    closed spec fn spec_base_fits(&self, va: Va) -> bool {
        true
    }

    fn magic(&self) -> (r: u16) {
        self.0.magic
    }

    fn image_base(&self) -> (r: Va) {
        self.0.image_base as Va
    }

    fn set_image_base(&mut self, new_image_base: Va) {
        self.0.image_base = new_image_base as u64;
    }

    fn data_directory(&self) -> (r: &[IMAGE_DATA_DIRECTORY; 16]) {
        &self.0.data_directory
    }
}

} // verus!
