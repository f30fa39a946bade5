//! The NT headers: the signature, the file header and the optional header.
use vstd::prelude::*;

use super::file_header::FileHeader;
use super::optional_header::{OptionalHeader, OptionalHeader32, OptionalHeader64};
use crate::arch::{Architecture, is_known_machine};
use crate::pe::Va;
use crate::windows_types::{IMAGE_DATA_DIRECTORY, IMAGE_FILE_HEADER, IMAGE_NT_HEADERS32, IMAGE_NT_HEADERS64};

verus! {

/// The size of the optional header of a PE32 image.
pub const OPTIONAL_HEADER32_SIZE: usize = 224;

/// The size of the optional header of a PE32+ image.
pub const OPTIONAL_HEADER64_SIZE: usize = 240;

/// The size the optional header must have for the machine.
pub open spec fn expected_optional_size(machine: u16) -> nat {
    if machine == crate::arch::MACHINE_I386 {
        OPTIONAL_HEADER32_SIZE as nat
    } else {
        OPTIONAL_HEADER64_SIZE as nat
    }
}

/// What both kinds of NT headers offer.
pub trait NtHeader {
    type Optional: OptionalHeader;

    spec fn spec_file_header(&self) -> IMAGE_FILE_HEADER;

    spec fn spec_optional_header(&self) -> Self::Optional;

    /// The size of the raw headers.
    spec fn spec_size(&self) -> nat;

    /// The bytes of the raw headers.
    spec fn spec_bytes(&self) -> Seq<u8>;

    fn file_header(&self) -> (r: &FileHeader)
        ensures
            r@ == self.spec_file_header(),
    ;

    fn optional_header(&self) -> (r: &Self::Optional)
        ensures
            *r == self.spec_optional_header(),
    ;

    fn size(&self) -> (r: usize)
        ensures
            r == self.spec_size(),
    ;

    /// The raw headers as they are stored.
    fn to_bytes(&self) -> (r: Vec<u8>)
        ensures
            r@ == self.spec_bytes(),
    ;

    /// The optional header's size is not the one its machine calls for.
    fn is_optional_invalid_size(&self) -> (r: bool)
        requires
            is_known_machine(self.spec_file_header().machine),
        ensures
            r == (self.spec_file_header().size_of_optional_header != expected_optional_size(
                self.spec_file_header().machine,
            )),
    {
        let file_header = self.file_header();

        match self.file_header().arch() {
            Architecture::X32 => {
                file_header.size_of_optional_header() != OPTIONAL_HEADER32_SIZE
            },
            Architecture::X64 => {
                file_header.size_of_optional_header() != OPTIONAL_HEADER64_SIZE
            },
        }
    }
}

/// The NT headers of a PE32 image.
#[derive(Debug)]
pub struct NtHeaders32 {
    raw: IMAGE_NT_HEADERS32,
    file_header: FileHeader,
    optional_header: OptionalHeader32,
}

impl NtHeaders32 {
    /// The raw headers: the signature as read, and the current file and optional headers.
    pub closed spec fn spec_raw(&self) -> IMAGE_NT_HEADERS32 {
        IMAGE_NT_HEADERS32 {
            signature: self.raw.signature,
            file_header: self.file_header@,
            optional_header: self.optional_header@,
        }
    }

    /// The file and optional headers are those of the raw headers.
    pub proof fn lemma_raw(&self)
        ensures
            self.spec_file_header() == self.spec_raw().file_header,
            self.spec_optional_header()@ == self.spec_raw().optional_header,
    {
    }

    /// The stored bytes are those of the raw headers.
    pub proof fn lemma_bytes(&self)
        ensures
            self.spec_bytes() == self.spec_raw().spec_bytes(),
            self.spec_size() == 248,
    {
    }

    pub fn new(raw: IMAGE_NT_HEADERS32) -> (r: Self)
        ensures
            r.spec_raw() == raw,
    {
        let file_header = FileHeader::new(raw.file_header);
        let optional_header = OptionalHeader32::new(raw.optional_header);

        Self { raw, file_header, optional_header }
    }
}

impl NtHeader for NtHeaders32 {
    type Optional = OptionalHeader32;

    closed spec fn spec_file_header(&self) -> IMAGE_FILE_HEADER {
        self.file_header@
    }

    closed spec fn spec_optional_header(&self) -> OptionalHeader32 {
        self.optional_header
    }

    closed spec fn spec_size(&self) -> nat {
        248
    }

    closed spec fn spec_bytes(&self) -> Seq<u8> {
        self.spec_raw().spec_bytes()
    }

    fn file_header(&self) -> (r: &FileHeader) {
        &self.file_header
    }

    fn optional_header(&self) -> (r: &OptionalHeader32) {
        &self.optional_header
    }

    fn size(&self) -> (r: usize) {
        248
    }

    fn to_bytes(&self) -> (r: Vec<u8>) {
        let raw = IMAGE_NT_HEADERS32 {
            signature: self.raw.signature,
            file_header: self.file_header.raw(),
            optional_header: self.optional_header.raw(),
        };
        raw.to_le_bytes()
    }
}

/// The NT headers of a PE32+ image.
#[derive(Debug)]
pub struct NtHeaders64 {
    raw: IMAGE_NT_HEADERS64,
    file_header: FileHeader,
    optional_header: OptionalHeader64,
}

impl NtHeaders64 {
    /// The raw headers: the signature as read, and the current file and optional headers.
    pub closed spec fn spec_raw(&self) -> IMAGE_NT_HEADERS64 {
        IMAGE_NT_HEADERS64 {
            signature: self.raw.signature,
            file_header: self.file_header@,
            optional_header: self.optional_header@,
        }
    }

    /// The file and optional headers are those of the raw headers.
    pub proof fn lemma_raw(&self)
        ensures
            self.spec_file_header() == self.spec_raw().file_header,
            self.spec_optional_header()@ == self.spec_raw().optional_header,
    {
    }

    /// The stored bytes are those of the raw headers.
    pub proof fn lemma_bytes(&self)
        ensures
            self.spec_bytes() == self.spec_raw().spec_bytes(),
            self.spec_size() == 264,
    {
    }

    pub fn new(raw: IMAGE_NT_HEADERS64) -> (r: Self)
        ensures
            r.spec_raw() == raw,
    {
        let file_header = FileHeader::new(raw.file_header);
        let optional_header = OptionalHeader64::new(raw.optional_header);

        Self { raw, file_header, optional_header }
    }
}

impl NtHeader for NtHeaders64 {
    type Optional = OptionalHeader64;

    closed spec fn spec_file_header(&self) -> IMAGE_FILE_HEADER {
        self.file_header@
    }

    closed spec fn spec_optional_header(&self) -> OptionalHeader64 {
        self.optional_header
    }

    closed spec fn spec_size(&self) -> nat {
        264
    }

    closed spec fn spec_bytes(&self) -> Seq<u8> {
        self.spec_raw().spec_bytes()
    }

    fn file_header(&self) -> (r: &FileHeader) {
        &self.file_header
    }

    fn optional_header(&self) -> (r: &OptionalHeader64) {
        &self.optional_header
    }

    fn size(&self) -> (r: usize) {
        264
    }

    fn to_bytes(&self) -> (r: Vec<u8>) {
        let raw = IMAGE_NT_HEADERS64 {
            signature: self.raw.signature,
            file_header: self.file_header.raw(),
            optional_header: self.optional_header.raw(),
        };
        raw.to_le_bytes()
    }
}

/// The NT headers of an image of either kind; its optional header is reached
/// through the same value.
#[derive(Debug)]
pub enum NtHeadersKind {
    X32(NtHeaders32),
    X64(NtHeaders64),
}

impl NtHeader for NtHeadersKind {
    type Optional = NtHeadersKind;

    open spec fn spec_file_header(&self) -> IMAGE_FILE_HEADER {
        match self {
            NtHeadersKind::X32(h) => h.spec_file_header(),
            NtHeadersKind::X64(h) => h.spec_file_header(),
        }
    }

    open spec fn spec_optional_header(&self) -> NtHeadersKind {
        *self
    }

    open spec fn spec_size(&self) -> nat {
        match self {
            NtHeadersKind::X32(h) => h.spec_size(),
            NtHeadersKind::X64(h) => h.spec_size(),
        }
    }

    open spec fn spec_bytes(&self) -> Seq<u8> {
        match self {
            NtHeadersKind::X32(h) => h.spec_bytes(),
            NtHeadersKind::X64(h) => h.spec_bytes(),
        }
    }

    fn file_header(&self) -> (r: &FileHeader) {
        match self {
            NtHeadersKind::X32(h) => h.file_header(),
            NtHeadersKind::X64(h) => h.file_header(),
        }
    }

    fn optional_header(&self) -> (r: &NtHeadersKind) {
        assert(*self == self.spec_optional_header());
        self
    }

    fn size(&self) -> (r: usize) {
        match self {
            NtHeadersKind::X32(h) => h.size(),
            NtHeadersKind::X64(h) => h.size(),
        }
    }

    fn to_bytes(&self) -> (r: Vec<u8>) {
        match self {
            NtHeadersKind::X32(h) => h.to_bytes(),
            NtHeadersKind::X64(h) => h.to_bytes(),
        }
    }
}

impl OptionalHeader for NtHeadersKind {
    open spec fn spec_magic(&self) -> u16 {
        match self {
            NtHeadersKind::X32(h) => h.spec_optional_header().spec_magic(),
            NtHeadersKind::X64(h) => h.spec_optional_header().spec_magic(),
        }
    }

    open spec fn spec_image_base(&self) -> int {
        match self {
            NtHeadersKind::X32(h) => h.spec_optional_header().spec_image_base(),
            NtHeadersKind::X64(h) => h.spec_optional_header().spec_image_base(),
        }
    }

    open spec fn spec_data_directory(&self) -> Seq<IMAGE_DATA_DIRECTORY> {
        match self {
            NtHeadersKind::X32(h) => h.spec_optional_header().spec_data_directory(),
            NtHeadersKind::X64(h) => h.spec_optional_header().spec_data_directory(),
        }
    }

    open spec fn spec_base_fits(&self, va: Va) -> bool {
        match self {
            NtHeadersKind::X32(h) => h.spec_optional_header().spec_base_fits(va),
            NtHeadersKind::X64(h) => h.spec_optional_header().spec_base_fits(va),
        }
    }

    fn magic(&self) -> (r: u16) {
        match self {
            NtHeadersKind::X32(h) => h.optional_header().magic(),
            NtHeadersKind::X64(h) => h.optional_header().magic(),
        }
    }

    fn image_base(&self) -> (r: Va) {
        match self {
            NtHeadersKind::X32(h) => h.optional_header().image_base(),
            NtHeadersKind::X64(h) => h.optional_header().image_base(),
        }
    }

    fn set_image_base(&mut self, new_image_base: Va) {
        match self {
            NtHeadersKind::X32(h) => {
                h.optional_header.set_image_base(new_image_base);
            },
            NtHeadersKind::X64(h) => {
                h.optional_header.set_image_base(new_image_base);
            },
        }
    }

    fn data_directory(&self) -> (r: &[IMAGE_DATA_DIRECTORY; 16]) {
        match self {
            NtHeadersKind::X32(h) => h.optional_header().data_directory(),
            NtHeadersKind::X64(h) => h.optional_header().data_directory(),
        }
    }
}

} // verus!
