//! One section: its raw header, its name and its raw data.
use vstd::prelude::*;

use crate::cstr::{cstr_at, read_cstr_lossy};
use crate::error::PeError;
use crate::windows_types::IMAGE_SECTION_HEADER;

verus! {

/// The name of a section: its name field up to the first NUL.
pub open spec fn spec_section_name(raw: IMAGE_SECTION_HEADER) -> Seq<char> {
    cstr_at(raw.name@, 0)
}

/// The raw data of a section lies in the image bytes.
pub open spec fn section_data_in(raw: IMAGE_SECTION_HEADER, image: Seq<u8>) -> bool {
    raw.pointer_to_raw_data as int + raw.size_of_raw_data as int <= image.len()
}

/// The raw data of a section.
pub open spec fn spec_section_data(raw: IMAGE_SECTION_HEADER, image: Seq<u8>) -> Seq<u8> {
    image.subrange(
        raw.pointer_to_raw_data as int,
        raw.pointer_to_raw_data as int + raw.size_of_raw_data as int,
    )
}

/// What every section offers.
pub trait SectionHeader {
    spec fn spec_raw(&self) -> IMAGE_SECTION_HEADER;

    spec fn spec_name(&self) -> Seq<char>;

    spec fn spec_bytes(&self) -> Seq<u8>;

    fn raw(&self) -> (r: &IMAGE_SECTION_HEADER)
        ensures
            *r == self.spec_raw(),
    ;

    fn name(&self) -> (r: &str)
        ensures
            r@ == self.spec_name(),
    ;

    fn bytes(&self) -> (r: &[u8])
        ensures
            r@ == self.spec_bytes(),
    ;
}

/// A section that owns a copy of its data.
pub struct SectionHeaderOwned {
    name: String,
    raw: IMAGE_SECTION_HEADER,
    section_bytes: Vec<u8>,
}

impl SectionHeaderOwned {
    /// The section described by `raw_header`, with its data copied out of the
    /// image. Data that does not lie in the image is not handled.
    pub fn from_binary(raw_header: IMAGE_SECTION_HEADER, binary_bytes: &[u8]) -> (r: Result<Self, PeError>)
        requires
            section_data_in(raw_header, binary_bytes@),
        ensures
            r matches Ok(s) && s.spec_raw() == raw_header && s.spec_name() == spec_section_name(
                raw_header,
            ) && s.spec_bytes() == spec_section_data(raw_header, binary_bytes@),
    {
        assert(binary_bytes@.len() == binary_bytes.len());
        let start = raw_header.pointer_to_raw_data as usize;
        let end = start + raw_header.size_of_raw_data as usize;
        let bytes = vstd::slice::slice_to_vec(vstd::slice::slice_subrange(binary_bytes, start, end));

        let name: String = read_cstr_lossy(&raw_header.name, 0);

        Ok(Self::new(name, raw_header, bytes))
    }

    pub fn new(name: String, raw_header: IMAGE_SECTION_HEADER, section_bytes: Vec<u8>) -> (r: Self)
        ensures
            r.spec_name() == name@,
            r.spec_raw() == raw_header,
            r.spec_bytes() == section_bytes@,
    {
        Self { name, raw: raw_header, section_bytes }
    }
}

impl SectionHeader for SectionHeaderOwned {
    closed spec fn spec_raw(&self) -> IMAGE_SECTION_HEADER {
        self.raw
    }

    closed spec fn spec_name(&self) -> Seq<char> {
        self.name@
    }

    closed spec fn spec_bytes(&self) -> Seq<u8> {
        self.section_bytes@
    }

    fn raw(&self) -> (r: &IMAGE_SECTION_HEADER) {
        &self.raw
    }

    fn name(&self) -> (r: &str) {
        self.name.as_str()
    }

    fn bytes(&self) -> (r: &[u8]) {
        self.section_bytes.as_slice()
    }
}

/// A section whose data is borrowed from the image bytes.
pub struct SectionHeaderRef<'a> {
    name: String,
    raw: IMAGE_SECTION_HEADER,
    section_bytes: &'a [u8],
}

impl<'a> SectionHeaderRef<'a> {
    /// The section described by `raw_header`, with its data borrowed from the
    /// image. Data that does not lie in the image is not handled.
    pub fn from_binary(raw_header: IMAGE_SECTION_HEADER, binary_bytes: &'a [u8]) -> (r: Result<Self, PeError>)
        requires
            section_data_in(raw_header, binary_bytes@),
        ensures
            r matches Ok(s) && s.spec_raw() == raw_header && s.spec_name() == spec_section_name(
                raw_header,
            ) && s.spec_bytes() == spec_section_data(raw_header, binary_bytes@),
    {
        assert(binary_bytes@.len() == binary_bytes.len());
        let start = raw_header.pointer_to_raw_data as usize;
        let end = start + raw_header.size_of_raw_data as usize;
        let bytes = vstd::slice::slice_subrange(binary_bytes, start, end);

        let name: String = read_cstr_lossy(&raw_header.name, 0);

        Ok(Self::new(name, raw_header, bytes))
    }

    pub fn new(name: String, raw_header: IMAGE_SECTION_HEADER, section_bytes: &'a [u8]) -> (r: Self)
        ensures
            r.spec_name() == name@,
            r.spec_raw() == raw_header,
            r.spec_bytes() == section_bytes@,
    {
        Self { name, raw: raw_header, section_bytes }
    }

    /// The same section, owning a copy of its data.
    pub fn to_owned(self) -> (r: SectionHeaderOwned)
        ensures
            r.spec_name() == self.spec_name(),
            r.spec_raw() == self.spec_raw(),
            r.spec_bytes() == self.spec_bytes(),
    {
        SectionHeaderOwned::new(self.name, self.raw, vstd::slice::slice_to_vec(self.section_bytes))
    }
}

impl<'a> SectionHeader for SectionHeaderRef<'a> {
    closed spec fn spec_raw(&self) -> IMAGE_SECTION_HEADER {
        self.raw
    }

    closed spec fn spec_name(&self) -> Seq<char> {
        self.name@
    }

    closed spec fn spec_bytes(&self) -> Seq<u8> {
        self.section_bytes@
    }

    fn raw(&self) -> (r: &IMAGE_SECTION_HEADER) {
        &self.raw
    }

    fn name(&self) -> (r: &str) {
        self.name.as_str()
    }

    fn bytes(&self) -> (r: &[u8]) {
        self.section_bytes
    }
}

/// A section's name is the C string its 8-byte name field holds, and its data
/// are the `SizeOfRawData` bytes from its `PointerToRawData` on.
pub proof fn law_section_name_and_data(raw: IMAGE_SECTION_HEADER, image: Seq<u8>)
    ensures
        spec_section_name(raw) == cstr_at(raw.name@, 0),
        raw.name@.len() == 8,
        spec_section_data(raw, image) == image.subrange(
            raw.pointer_to_raw_data as int,
            raw.pointer_to_raw_data as int + raw.size_of_raw_data as int,
        ),
{
}

} // verus!
