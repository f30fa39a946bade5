//! One section of an image: its header and its data.
use vstd::prelude::*;

use crate::cstr::read_cstr_lossy;
use crate::image::Image;
use crate::section::section_header::{section_data_in, spec_section_data, spec_section_name};
use crate::windows_types::IMAGE_SECTION_HEADER;

verus! {

/// A section: its raw header, its name and a copy of its data, as they were read,
/// and where its data lies in the image's bytes.
#[derive(Debug)]
pub struct SectionHeader {
    raw: IMAGE_SECTION_HEADER,
    name: String,
    section_bytes: Vec<u8>,
    start: usize,
    len: usize,
}

impl core::ops::Deref for SectionHeader {
    type Target = IMAGE_SECTION_HEADER;

    fn deref(&self) -> (r: &IMAGE_SECTION_HEADER)
        ensures
            *r == self.spec_raw(),
    {
        &self.raw
    }
}

impl SectionHeader {
    pub closed spec fn spec_raw(&self) -> IMAGE_SECTION_HEADER {
        self.raw
    }

    pub closed spec fn spec_name(&self) -> Seq<char> {
        self.name@
    }

    pub closed spec fn spec_bytes(&self) -> Seq<u8> {
        self.section_bytes@
    }

    /// Where the data lies in the image's bytes: its offset and its length.
    pub closed spec fn spec_window(&self) -> (usize, usize) {
        (self.start, self.len)
    }

    /// The section described by `raw`, with its data taken from the image bytes.
    /// Data outside the bytes is not handled.
    pub fn from_bytes(raw: IMAGE_SECTION_HEADER, bytes: &[u8]) -> (r: Self)
        requires
            section_data_in(raw, bytes@),
        ensures
            r.spec_raw() == raw,
            r.spec_name() == spec_section_name(raw),
            r.spec_bytes() == spec_section_data(raw, bytes@),
            r.spec_window() == (raw.pointer_to_raw_data as usize, raw.size_of_raw_data as usize),
    {
        assert(bytes@.len() == bytes.len());
        let pointer_to_raw_data = raw.pointer_to_raw_data as usize;
        let size_of_raw_data = raw.size_of_raw_data as usize;

        let section_bytes = vstd::slice::slice_to_vec(
            vstd::slice::slice_subrange(bytes, pointer_to_raw_data, pointer_to_raw_data + size_of_raw_data),
        );
        let name = read_cstr_lossy(&raw.name, 0);

        Self { raw, name, section_bytes, start: pointer_to_raw_data, len: size_of_raw_data }
    }

    /// The section described by `raw`, with its data taken from the bytes at
    /// `start`, `len` bytes long: where the section was found when its image was
    /// read.
    pub fn from_window(raw: IMAGE_SECTION_HEADER, bytes: &[u8], start: usize, len: usize) -> (r: Self)
        requires
            start + len <= bytes@.len(),
        ensures
            r.spec_raw() == raw,
            r.spec_name() == spec_section_name(raw),
            r.spec_bytes() == bytes@.subrange(start as int, start + len),
            r.spec_window() == (start, len),
    {
        assert(bytes@.len() == bytes.len());
        let section_bytes = vstd::slice::slice_to_vec(vstd::slice::slice_subrange(bytes, start, start + len));
        let name = read_cstr_lossy(&raw.name, 0);

        Self { raw, name, section_bytes, start, len }
    }

    /// The name: the name field up to its first NUL.
    pub fn name(&self) -> (r: &str)
        ensures
            r@ == self.spec_name(),
    {
        self.name.as_str()
    }

    pub fn get_bytes(&self) -> (r: &[u8])
        ensures
            r@ == self.spec_bytes(),
    {
        self.section_bytes.as_slice()
    }

    /// The section's data in `image`, to change in place. A window that does not
    /// lie in the image's bytes is not handled.
    pub fn get_bytes_mut<'a>(&self, image: &'a mut Image) -> (r: &'a mut [u8])
        requires
            self.spec_window().0 + self.spec_window().1 <= old(image).spec_bytes().len(),
        ensures
            r@ == old(image).spec_bytes().subrange(
                self.spec_window().0 as int,
                self.spec_window().0 + self.spec_window().1,
            ),
            final(image).spec_bytes() == old(image).spec_bytes().subrange(0, self.spec_window().0 as int)
                + final(r)@ + old(image).spec_bytes().subrange(
                self.spec_window().0 + self.spec_window().1,
                old(image).spec_bytes().len() as int,
            ),
            final(image).same_parts(old(image)),
    {
        image.window_mut(self.start, self.len)
    }
}

} // verus!
