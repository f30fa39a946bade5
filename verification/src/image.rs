//! An image held in memory with its parsed headers and tables; values can be read
//! from it, and written into it, by file offset, relative or virtual address.
use vstd::prelude::*;

use crate::cstr::{cstr_at, cstr_len_at, cstr_len, has_nul, lemma_cstr_len, read_cstr_lossy};
use crate::dos_header::DosHeader;
use crate::error::PeError;
use crate::nt_header::NtHeader;
use crate::pe::{section_end, section_holds, spec_rva_to_fo, rva_to_fo_from};
use crate::raw::{RawEncode, RawStruct, le_u64, lemma_read_after_write, lemma_read_other_window, splice, write_bytes};
use crate::section_table::SectionTable;
use crate::section::section_header::{section_data_in, spec_section_name};
use crate::section::section_table::{section_table_readable, spec_raw_section};
use crate::nt_header::spec_nt_headers_at;
use crate::arch::MACHINE_AMD64;
use crate::readable::tables_readable_check;
use crate::exception_table::{
    ExceptionTable, exception_entries_readable, spec_directory, spec_entries_at, spec_exception_entries,
};
use crate::exports::export_table::{ExportTable, export_directory_readable};
use crate::exports::export_table::{
    IMAGE_EXPORT_DIRECTORY_INDEX, lemma_exports_upto_same, spec_export_count, spec_export_directory,
    spec_exports_upto,
};
use crate::exception_table::IMAGE_EXCEPTION_DIRECTORY_INDEX;
use crate::imports::ImportSimple;
use crate::imports::import_table::{
    ImportTable, IMAGE_IMPORT_DIRECTORY_INDEX, import_directory_readable, iats_within, lemma_dlls_iats_within,
    lemma_dlls_upto_same, lemma_iat_update_len, spec_descriptor_count, spec_dlls_upto, spec_iat_update,
};
use crate::load_configuration::IMAGE_LOAD_CONFIG_DIRECTORY_INDEX;
use crate::reloc::relocation_table::{
    IMAGE_RELOCATION_DIRECTORY_INDEX, lemma_reloc_blocks_same, spec_reloc_blocks_from,
};
use crate::tls::{IMAGE_TLS_DIRECTORY_INDEX, spec_first_callback, spec_tls_raw};
use crate::load_configuration::{LoadConfigDirectory, load_config_directory_readable};
use crate::reloc::{apply_relocs, law_relocs_undo, relocs_fit, slots_disjoint};
use crate::reloc::relocation_table::{RelocationTable, relocation_directory_readable};
use crate::tls::{TlsDirectory, tls_directory_readable};
use crate::windows_types::{
    IMAGE_DOS_HEADER, IMAGE_EXPORT_DIRECTORY, IMAGE_NT_HEADERS64, IMAGE_SECTION_HEADER, IMAGE_TLS_DIRECTORY64,
};

verus! {

/// An offset into the file.
pub type Fo = usize;

/// An address relative to the image base.
pub type Rva = usize;

/// A virtual address.
pub type Va = usize;

/// Some section holds `rva`, and the lookup overflows no address: every section
/// it reaches ends within the address range, and so does the offset it finds.
pub open spec fn rva_resolvable(secs: Seq<IMAGE_SECTION_HEADER>, rva: int) -> bool {
    &&& spec_rva_to_fo(secs, rva) matches Some(fo) && 0 <= fo <= usize::MAX
    &&& forall|j: int|
        0 <= j < secs.len() && (forall|k: int| 0 <= k < j ==> !section_holds(secs[k], rva))
            ==> section_end(#[trigger] secs[j]) <= usize::MAX
}

/// The file offset of a resolvable `rva`.
pub open spec fn spec_fo(secs: Seq<IMAGE_SECTION_HEADER>, rva: int) -> int {
    spec_rva_to_fo(secs, rva).unwrap()
}

/// The two images hold the same bytes, NT headers and section headers.
pub open spec fn same_content(a: &Image, b: &Image) -> bool {
    &&& a.spec_bytes() == b.spec_bytes()
    &&& a.spec_nt_header() == b.spec_nt_header()
    &&& a.spec_sections() == b.spec_sections()
}

/// The DOS header at the start of `s`.
pub open spec fn spec_dos_of(s: Seq<u8>) -> IMAGE_DOS_HEADER {
    IMAGE_DOS_HEADER::spec_read(s, 0)
}

/// The NT headers of `s`, where the DOS header points.
pub open spec fn spec_nt_of(s: Seq<u8>) -> IMAGE_NT_HEADERS64 {
    spec_nt_headers_at(s, spec_dos_of(s).e_lfanew as int)
}

/// Where the section table of `s` starts: after the NT signature, the file header
/// and the optional header.
pub open spec fn spec_table_start_of(s: Seq<u8>) -> int {
    spec_dos_of(s).e_lfanew + 4 + 20 + spec_nt_of(s).file_header.size_of_optional_header
}

/// The raw section headers of `s`.
pub open spec fn spec_sections_of(s: Seq<u8>) -> Seq<IMAGE_SECTION_HEADER> {
    Seq::new(
        spec_nt_of(s).file_header.number_of_sections as nat,
        |i: int| spec_raw_section(s, spec_table_start_of(s), i),
    )
}

/// The headers of `s` can be read: a DOS header, NT headers of an AMD64 image
/// where it points, and a section table whose sections' data lie in `s`.
pub open spec fn headers_readable(s: Seq<u8>) -> bool {
    &&& s.len() >= 64
    &&& spec_dos_of(s).e_lfanew >= 0
    &&& spec_dos_of(s).e_lfanew + 264 <= s.len()
    &&& spec_nt_of(s).file_header.machine == MACHINE_AMD64
    &&& section_table_readable(
        s,
        spec_nt_of(s).file_header.number_of_sections as int,
        spec_table_start_of(s),
    )
}

/// Every directory of the image can be read: imports, exports, exceptions, base
/// relocations, thread-local storage and load configuration.
pub open spec fn tables_readable(image: &Image) -> bool {
    &&& import_directory_readable(image)
    &&& export_directory_readable(image)
    &&& exception_entries_readable(image)
    &&& relocation_directory_readable(image)
    &&& tls_directory_readable(image)
    &&& load_config_directory_readable(image)
}

/// The directory `idx` of the image is empty.
pub open spec fn directory_empty(image: &Image, idx: int) -> bool {
    spec_directory(image, idx).virtual_address == 0 || spec_directory(image, idx).size == 0
}

/// Each table of the image is the one its directory describes, and is absent
/// exactly where the directory is empty.
pub open spec fn tables_read(image: &Image) -> bool {
    &&& match image.spec_import_table() {
        None => directory_empty(image, IMAGE_IMPORT_DIRECTORY_INDEX as int),
        Some(t) => !directory_empty(image, IMAGE_IMPORT_DIRECTORY_INDEX as int) && t.spec_dlls()
            == spec_dlls_upto(image, spec_descriptor_count(image)),
    }
    &&& match image.spec_export_table() {
        None => directory_empty(image, IMAGE_EXPORT_DIRECTORY_INDEX as int),
        Some(t) => {
            &&& !directory_empty(image, IMAGE_EXPORT_DIRECTORY_INDEX as int)
            &&& t.spec_raw() == spec_export_directory(image)
            &&& t.spec_fo() == spec_fo(
                image.spec_sections(),
                spec_directory(image, IMAGE_EXPORT_DIRECTORY_INDEX as int).virtual_address as int,
            )
            &&& t.spec_exports() == spec_exports_upto(
                image,
                spec_export_count(spec_export_directory(image)),
            )
        },
    }
    &&& match image.spec_exception_table() {
        None => directory_empty(image, IMAGE_EXCEPTION_DIRECTORY_INDEX as int),
        Some(t) => {
            &&& !directory_empty(image, IMAGE_EXCEPTION_DIRECTORY_INDEX as int)
            &&& t.spec_fo() == spec_fo(
                image.spec_sections(),
                spec_directory(image, IMAGE_EXCEPTION_DIRECTORY_INDEX as int).virtual_address as int,
            )
            &&& t.spec_entrys() == spec_exception_entries(image)
        },
    }
    &&& match image.spec_relocation_table() {
        None => directory_empty(image, IMAGE_RELOCATION_DIRECTORY_INDEX as int),
        Some(t) => !directory_empty(image, IMAGE_RELOCATION_DIRECTORY_INDEX as int)
            && t.spec_blocks() == spec_reloc_blocks_from(
            image,
            spec_directory(image, IMAGE_RELOCATION_DIRECTORY_INDEX as int).size as int,
            0,
        ),
    }
    &&& match image.spec_tls_directory() {
        None => directory_empty(image, IMAGE_TLS_DIRECTORY_INDEX as int),
        Some(t) => {
            &&& !directory_empty(image, IMAGE_TLS_DIRECTORY_INDEX as int)
            &&& t@ == spec_tls_raw(image)
            &&& t.spec_fo() == spec_fo(
                image.spec_sections(),
                spec_directory(image, IMAGE_TLS_DIRECTORY_INDEX as int).virtual_address as int,
            )
            &&& t.spec_has_callbacks() == (spec_first_callback(image) > 0)
        },
    }
    &&& match image.spec_load_config_directory() {
        None => directory_empty(image, IMAGE_LOAD_CONFIG_DIRECTORY_INDEX as int),
        Some(d) => !directory_empty(image, IMAGE_LOAD_CONFIG_DIRECTORY_INDEX as int)
            && d.spec_fo() == spec_fo(
            image.spec_sections(),
            spec_directory(image, IMAGE_LOAD_CONFIG_DIRECTORY_INDEX as int).virtual_address as int,
        ),
    }
}

/// The bytes `s` make an image whose headers and directories can all be read.
pub open spec fn image_readable(s: Seq<u8>) -> bool {
    &&& headers_readable(s)
    &&& forall|image: Image| #[trigger] image.read_from(s) ==> tables_readable(&image)
}

/// Whether the data of each of the `count` sections of the table at `start` lies
/// in `bytes`.
fn sections_fit(bytes: &[u8], start: usize, count: usize) -> (r: bool)
    requires
        start + 40 * count <= bytes@.len(),
    ensures
        r == (forall|k: int|
            0 <= k < count ==> section_data_in(#[trigger] spec_raw_section(bytes@, start as int, k), bytes@)),
{
    assert(bytes@.len() == bytes.len());
    let mut i: usize = 0;
    while i < count
        invariant
            0 <= i <= count,
            bytes@.len() <= usize::MAX,
            start + 40 * count <= bytes@.len(),
            forall|k: int|
                0 <= k < i ==> section_data_in(#[trigger] spec_raw_section(bytes@, start as int, k), bytes@),
        decreases count - i,
    {
        let raw = IMAGE_SECTION_HEADER::read(bytes, start + 40 * i);
        if raw.pointer_to_raw_data as u64 + raw.size_of_raw_data as u64 > bytes.len() as u64 {
            assert(!section_data_in(spec_raw_section(bytes@, start as int, i as int), bytes@));
            return false;
        }
        i = i + 1;
    }
    true
}

/// Whether the headers of `bytes` can be read (see `headers_readable`): the test
/// to make before `Image::from_bytes`, together with the directories' own.
#[verifier::rlimit(30)]
pub fn headers_readable_check(bytes: &[u8]) -> (r: bool)
    ensures
        r == headers_readable(bytes@),
{
    let ghost s = bytes@;
    assert(bytes@.len() == bytes.len());
    let len = bytes.len();
    if len < 64 {
        return false;
    }
    let dos = IMAGE_DOS_HEADER::read(bytes, 0);
    if dos.e_lfanew < 0 {
        return false;
    }
    let e = dos.e_lfanew as usize;
    if e > len || len - e < 264 {
        return false;
    }
    let nt = IMAGE_NT_HEADERS64::read(bytes, e);
    assert(nt == spec_nt_of(s));
    if nt.file_header.machine != MACHINE_AMD64 {
        return false;
    }
    let count = nt.file_header.number_of_sections as usize;
    let start = e + 24 + nt.file_header.size_of_optional_header as usize;
    assert(start as int == spec_table_start_of(s));
    if start > len || (len - start) / 40 < count {
        assert(!section_table_readable(s, count as int, start as int)) by {
            if start <= len {
                assert(40 * count > len - start) by (nonlinear_arith)
                    requires
                        (len - start) / 40 < count,
                        start <= len,
                ;
            }
        }
        return false;
    }
    assert(start + 40 * count <= len) by (nonlinear_arith)
        requires
            start <= len,
            count <= (len - start) / 40,
    ;
    sections_fit(bytes, start, count)
}

/// Where the data of each of the `count` sections of the table at `start` lies:
/// its file offset and its length.
fn read_windows(bytes: &[u8], start: usize, count: usize) -> (r: Vec<(usize, usize)>)
    requires
        section_table_readable(bytes@, count as int, start as int),
    ensures
        r@.len() == count,
        forall|k: int|
            0 <= k < count ==> #[trigger] r@[k] == (
                spec_raw_section(bytes@, start as int, k).pointer_to_raw_data as usize,
                spec_raw_section(bytes@, start as int, k).size_of_raw_data as usize,
            ),
        forall|k: int| 0 <= k < count ==> #[trigger] r@[k].0 + r@[k].1 <= bytes@.len(),
{
    assert(bytes@.len() == bytes.len());
    let mut windows: Vec<(usize, usize)> = Vec::new();
    let mut i: usize = 0;
    while i < count
        invariant
            0 <= i <= count,
            bytes@.len() <= usize::MAX,
            section_table_readable(bytes@, count as int, start as int),
            windows@.len() == i,
            forall|k: int|
                0 <= k < i ==> #[trigger] windows@[k] == (
                    spec_raw_section(bytes@, start as int, k).pointer_to_raw_data as usize,
                    spec_raw_section(bytes@, start as int, k).size_of_raw_data as usize,
                ),
            forall|k: int| 0 <= k < i ==> #[trigger] windows@[k].0 + windows@[k].1 <= bytes@.len(),
        decreases count - i,
    {
        assert(section_data_in(spec_raw_section(bytes@, start as int, i as int), bytes@));
        let raw = IMAGE_SECTION_HEADER::read(bytes, start + 40 * i);
        windows.push((raw.pointer_to_raw_data as usize, raw.size_of_raw_data as usize));
        i = i + 1;
    }
    windows
}

/// An image: its bytes, where its NT headers and section table lie, where each
/// section's data lay when it was read, and the tables read from its directories.
/// The headers, and the export, exception and TLS records, are read from the
/// bytes as they are now.
pub struct Image {
    bytes: Vec<u8>,
    nt_offset: usize,
    table_start: usize,
    section_count: usize,
    section_windows: Vec<(usize, usize)>,
    import_table: Option<ImportTable>,
    export_table: Option<ExportTable>,
    exception_table: Option<ExceptionTable>,
    relocation_table: Option<RelocationTable>,
    tls_directory: Option<TlsDirectory>,
    load_config_directory: Option<LoadConfigDirectory>,
}

impl Image {
    /// Every imported library's address table lies in the bytes.
    pub open spec fn iats_fit(&self) -> bool {
        self.spec_import_table() matches Some(t) ==> iats_within(
            t.spec_dlls(),
            self.spec_bytes().len() as int,
        )
    }

    /// The bytes are `s`, and the NT headers and the section table lie where
    /// the headers of `s` place them.
    pub open spec fn read_from(&self, s: Seq<u8>) -> bool {
        &&& self.spec_bytes() == s
        &&& self.spec_nt_offset() == spec_dos_of(s).e_lfanew
        &&& self.spec_table_start() == spec_table_start_of(s)
        &&& self.spec_section_count() == spec_nt_of(s).file_header.number_of_sections
    }

    /// What `from_bytes` gives for `s`: the image read from `s`, its headers,
    /// sections and tables those `s` holds.
    pub open spec fn parsed_from(&self, s: Seq<u8>) -> bool {
        &&& self.read_from(s)
        &&& self.wf()
        &&& self.spec_dos_header() == spec_dos_of(s)
        &&& self.spec_nt_header() == spec_nt_of(s)
        &&& self.spec_sections() == spec_sections_of(s)
        &&& forall|i: int|
            0 <= i < self.spec_section_count() ==> #[trigger] self.spec_windows()[i] == (
                spec_sections_of(s)[i].pointer_to_raw_data as usize,
                spec_sections_of(s)[i].size_of_raw_data as usize,
            )
        &&& tables_read(self)
        &&& self.tables_fit()
        &&& self.iats_fit()
    }

    /// The file offset of the NT headers.
    pub closed spec fn spec_nt_offset(&self) -> int {
        self.nt_offset as int
    }

    /// The file offset of the section table.
    pub closed spec fn spec_table_start(&self) -> int {
        self.table_start as int
    }

    /// The number of sections.
    pub closed spec fn spec_section_count(&self) -> int {
        self.section_count as int
    }

    /// Where each section's data lay, as file offset and length, when the image was read.
    pub closed spec fn spec_windows(&self) -> Seq<(usize, usize)> {
        self.section_windows@
    }

    /// The DOS and NT headers lie in the bytes.
    pub open spec fn headers_in_bytes(&self) -> bool {
        &&& 64 <= self.spec_bytes().len()
        &&& 0 <= self.spec_nt_offset()
        &&& self.spec_nt_offset() + 264 <= self.spec_bytes().len()
    }

    /// The section table lies in the bytes.
    pub open spec fn sections_in_bytes(&self) -> bool {
        &&& 0 <= self.spec_table_start()
        &&& 0 <= self.spec_section_count()
        &&& self.spec_table_start() + 40 * self.spec_section_count() <= self.spec_bytes().len()
    }

    /// There is one data window per section, and each lies in the bytes.
    pub open spec fn windows_in_bytes(&self) -> bool {
        &&& self.spec_windows().len() == self.spec_section_count()
        &&& forall|i: int|
            0 <= i < self.spec_windows().len() ==> #[trigger] self.spec_windows()[i].0
                + self.spec_windows()[i].1 <= self.spec_bytes().len()
    }

    /// The headers, the section table and the sections' data lie in the bytes.
    pub open spec fn wf(&self) -> bool {
        &&& self.headers_in_bytes()
        &&& self.sections_in_bytes()
        &&& self.windows_in_bytes()
    }

    /// The records of the export, exception and TLS directories lie in the bytes,
    /// where they were found when the image was read.
    pub open spec fn tables_fit(&self) -> bool {
        &&& (self.spec_export_table() matches Some(t) ==> t.spec_fo() + 40
            <= self.spec_bytes().len())
        &&& (self.spec_exception_table() matches Some(t) ==> t.spec_fo() + 12
            * t.spec_entrys().len() <= self.spec_bytes().len())
        &&& (self.spec_tls_directory() matches Some(t) ==> t.spec_fo() + 40
            <= self.spec_bytes().len())
    }

    /// Where the headers end: after the NT headers and after the section table.
    pub open spec fn headers_end(&self) -> int {
        if self.spec_nt_offset() + 264 < self.spec_table_start() + 40 * self.spec_section_count() {
            self.spec_table_start() + 40 * self.spec_section_count()
        } else {
            self.spec_nt_offset() + 264
        }
    }

    /// The import table, if the image has one.
    pub closed spec fn spec_import_table(&self) -> Option<ImportTable> {
        self.import_table
    }

    /// The export table, if the image has one.
    pub closed spec fn spec_export_table(&self) -> Option<ExportTable> {
        self.export_table
    }

    /// The exception table, if the image has one.
    pub closed spec fn spec_exception_table(&self) -> Option<ExceptionTable> {
        self.exception_table
    }

    /// The base relocation table, if the image has one.
    pub closed spec fn spec_relocation_table(&self) -> Option<RelocationTable> {
        self.relocation_table
    }

    /// The thread-local storage directory, if the image has one.
    pub closed spec fn spec_tls_directory(&self) -> Option<TlsDirectory> {
        self.tls_directory
    }

    /// The load configuration directory, if the image has one.
    pub closed spec fn spec_load_config_directory(&self) -> Option<LoadConfigDirectory> {
        self.load_config_directory
    }

    pub closed spec fn spec_bytes(&self) -> Seq<u8> {
        self.bytes@
    }

    /// The DOS header, as the bytes hold it now.
    #[verifier::opaque]
    pub open spec fn spec_dos_header(&self) -> IMAGE_DOS_HEADER {
        IMAGE_DOS_HEADER::spec_read(self.spec_bytes(), 0)
    }

    /// The NT headers, as the bytes hold them now.
    #[verifier::opaque]
    pub open spec fn spec_nt_header(&self) -> IMAGE_NT_HEADERS64 {
        spec_nt_headers_at(self.spec_bytes(), self.spec_nt_offset())
    }

    /// The raw headers of the sections, as the bytes hold them now; none where the
    /// table does not lie in the bytes.
    pub open spec fn spec_sections(&self) -> Seq<IMAGE_SECTION_HEADER> {
        if self.sections_in_bytes() {
            Seq::new(
                self.spec_section_count() as nat,
                |i: int| spec_raw_section(self.spec_bytes(), self.spec_table_start(), i),
            )
        } else {
            Seq::empty()
        }
    }

    /// Everything but the bytes is the same in both images.
    pub closed spec fn same_parts(&self, other: &Image) -> bool {
        &&& self.nt_offset == other.nt_offset
        &&& self.table_start == other.table_start
        &&& self.section_count == other.section_count
        &&& self.section_windows@ == other.section_windows@
        &&& self.import_table == other.import_table
        &&& self.export_table == other.export_table
        &&& self.exception_table == other.exception_table
        &&& self.relocation_table == other.relocation_table
        &&& self.tls_directory == other.tls_directory
        &&& self.load_config_directory == other.load_config_directory
    }

    /// The preferred load address.
    pub open spec fn spec_image_base(&self) -> int {
        self.spec_nt_header().optional_header.image_base as int
    }

    /// Reads an image from its bytes: the DOS header, the NT headers it points to,
    /// the section table after them, then each directory's table. Bytes whose
    /// headers or directories cannot be read (see `image_readable`) are not handled.
    #[verifier::rlimit(100)]
    pub fn from_bytes(buf: Vec<u8>) -> (r: Self)
        requires
            image_readable(buf@),
        ensures
            r.read_from(buf@),
            r.wf(),
            r.spec_dos_header() == spec_dos_of(buf@),
            r.spec_nt_header() == spec_nt_of(buf@),
            r.spec_sections() == spec_sections_of(buf@),
            forall|i: int|
                0 <= i < r.spec_section_count() ==> #[trigger] r.spec_windows()[i] == (
                    spec_sections_of(buf@)[i].pointer_to_raw_data as usize,
                    spec_sections_of(buf@)[i].size_of_raw_data as usize,
                ),
            tables_read(&r),
            r.tables_fit(),
            r.iats_fit(),
    {
        let base = Self::base_of(buf);
        assert(tables_readable(&base));
        Self::with_tables(base)
    }

    /// Reads an image from its bytes as `from_bytes` does, where it can be read
    /// (see `image_readable`), and gives `None` where its headers or one of its
    /// directories cannot be read.
    pub fn try_from_bytes(buf: Vec<u8>) -> (r: Option<Self>)
        ensures
            r is None ==> !image_readable(buf@),
            r matches Some(img) ==> img.parsed_from(buf@),
    {
        if !headers_readable_check(buf.as_slice()) {
            return None;
        }
        let ghost s = buf@;
        let base = Self::base_of(buf);
        if !tables_readable_check(&base) {
            assert(!image_readable(s)) by {
                assert(base.read_from(s));
            }
            return None;
        }
        Some(Self::with_tables(base))
    }

    /// The image read from `buf` with its headers and sections, and no tables yet.
    fn base_of(buf: Vec<u8>) -> (r: Self)
        requires
            headers_readable(buf@),
        ensures
            r.read_from(buf@),
            r.wf(),
            r.spec_dos_header() == spec_dos_of(buf@),
            r.spec_nt_header() == spec_nt_of(buf@),
            r.spec_sections() == spec_sections_of(buf@),
            forall|i: int|
                0 <= i < r.spec_section_count() ==> #[trigger] r.spec_windows()[i] == (
                    spec_sections_of(buf@)[i].pointer_to_raw_data as usize,
                    spec_sections_of(buf@)[i].size_of_raw_data as usize,
                ),
    {
        let ghost s = buf@;
        assert(buf@.len() == buf.len());
        let dos_header = DosHeader::from_bytes(buf.as_slice());
        let e_lfanew = dos_header.e_lfanew;
        let nt_header = NtHeader::from_bytes(buf.as_slice(), e_lfanew as u32);
        let file_header = nt_header.get_file_header();
        let start = e_lfanew as usize + 4 + 20 + file_header.size_of_optional_header as usize;
        let count = file_header.number_of_sections as usize;
        let windows = read_windows(buf.as_slice(), start, count);
        let base = Self {
            bytes: buf,
            nt_offset: e_lfanew as usize,
            table_start: start,
            section_count: count,
            section_windows: windows,
            import_table: None,
            export_table: None,
            exception_table: None,
            relocation_table: None,
            tls_directory: None,
            load_config_directory: None,
        };
        proof {
            lemma_headers_read(&base, s);
            assert(base.read_from(s));
            assert(base.spec_sections() =~= spec_sections_of(s));
        }
        base

    }

    /// `base` with the tables of its directories read.
    fn with_tables(base: Self) -> (r: Self)
        requires
            base.read_from(base.spec_bytes()),
            base.wf(),
            base.spec_dos_header() == spec_dos_of(base.spec_bytes()),
            base.spec_nt_header() == spec_nt_of(base.spec_bytes()),
            base.spec_sections() == spec_sections_of(base.spec_bytes()),
            forall|i: int|
                0 <= i < base.spec_section_count() ==> #[trigger] base.spec_windows()[i] == (
                    spec_sections_of(base.spec_bytes())[i].pointer_to_raw_data as usize,
                    spec_sections_of(base.spec_bytes())[i].size_of_raw_data as usize,
                ),
            headers_readable(base.spec_bytes()),
            tables_readable(&base),
        ensures
            r.read_from(base.spec_bytes()),
            r.wf(),
            r.spec_dos_header() == spec_dos_of(base.spec_bytes()),
            r.spec_nt_header() == spec_nt_of(base.spec_bytes()),
            r.spec_sections() == spec_sections_of(base.spec_bytes()),
            forall|i: int|
                0 <= i < r.spec_section_count() ==> #[trigger] r.spec_windows()[i] == (
                    spec_sections_of(base.spec_bytes())[i].pointer_to_raw_data as usize,
                    spec_sections_of(base.spec_bytes())[i].size_of_raw_data as usize,
                ),
            tables_read(&r),
            r.tables_fit(),
            r.iats_fit(),
    {
        let ghost s = base.spec_bytes();
        let import_table = ImportTable::from_image(&base);
        let export_table = ExportTable::from_image(&base).unwrap();
        let exception_table = ExceptionTable::from_image(&base).unwrap();
        let relocation_table = RelocationTable::from_image(&base).unwrap();
        let tls_directory = TlsDirectory::from_image(&base).unwrap();
        let load_config_directory = LoadConfigDirectory::from_image(&base).unwrap();

        let ghost b = base;
        let Image { bytes, nt_offset, table_start, section_count, section_windows, .. } = base;
        let image = Self {
            bytes,
            nt_offset,
            table_start,
            section_count,
            section_windows,
            import_table,
            export_table,
            exception_table,
            relocation_table,
            tls_directory,
            load_config_directory,
        };
        proof {
            lemma_same_offsets(&b, &image);
            lemma_headers_read(&image, s);
            assert(same_content(&b, &image));
            lemma_dlls_upto_same(&b, &image, spec_descriptor_count(&b));
            if !directory_empty(&b, IMAGE_IMPORT_DIRECTORY_INDEX as int) {
                lemma_dlls_iats_within(&b, spec_descriptor_count(&b));
            }
            lemma_exports_upto_same(&b, &image, spec_export_count(spec_export_directory(&b)));
            lemma_reloc_blocks_same(
                &b,
                &image,
                spec_directory(&b, IMAGE_RELOCATION_DIRECTORY_INDEX as int).size as int,
                0,
            );
        }
        image
    }

    /// The import table, if the image has one.
    pub fn get_import_table(&self) -> (r: &Option<ImportTable>)
        ensures
            *r == self.spec_import_table(),
    {
        &self.import_table
    }

    /// The export table, if the image has one, its directory record read from
    /// the bytes as they are now; the exports are those found when the image was
    /// read. A record that no longer lies in the bytes gives `None`.
    pub fn get_export_table(&self) -> (r: Option<ExportTable>)
        ensures
            match (r, self.spec_export_table()) {
                (Some(t), Some(d)) => {
                    &&& d.spec_fo() + 40 <= self.spec_bytes().len()
                    &&& t.spec_fo() == d.spec_fo()
                    &&& t.spec_exports() == d.spec_exports()
                    &&& t.spec_raw() == IMAGE_EXPORT_DIRECTORY::spec_read(
                        self.spec_bytes(),
                        d.spec_fo() as int,
                    )
                },
                (None, Some(d)) => d.spec_fo() + 40 > self.spec_bytes().len(),
                (None, None) => true,
                (Some(_), None) => false,
            },
    {
        match &self.export_table {
            Some(t) => {
                if t.fo() <= self.bytes.len() && 40 <= self.bytes.len() - t.fo() {
                    Some(t.reread(self.bytes.as_slice()))
                } else {
                    None
                }
            },
            None => None,
        }
    }

    /// The exception table, if the image has one, its entries read from the
    /// bytes as they are now. Entries that no longer lie in the bytes give `None`.
    pub fn get_exception_table(&self) -> (r: Option<ExceptionTable>)
        ensures
            match (r, self.spec_exception_table()) {
                (Some(t), Some(d)) => {
                    &&& d.spec_fo() + 12 * d.spec_entrys().len() <= self.spec_bytes().len()
                    &&& t.spec_fo() == d.spec_fo()
                    &&& t.spec_entrys() == spec_entries_at(
                        self.spec_bytes(),
                        d.spec_fo() as int,
                        d.spec_entrys().len() as int,
                    )
                },
                (None, Some(d)) => d.spec_fo() + 12 * d.spec_entrys().len()
                    > self.spec_bytes().len(),
                (None, None) => true,
                (Some(_), None) => false,
            },
    {
        match &self.exception_table {
            Some(t) => {
                let count = t.get_entrys().len();
                if t.fo() <= self.bytes.len() && count <= (self.bytes.len() - t.fo()) / 12 {
                    Some(t.reread(self.bytes.as_slice()))
                } else {
                    None
                }
            },
            None => None,
        }
    }

    /// The base relocation table, if the image has one.
    pub fn get_relocation_table(&self) -> (r: &Option<RelocationTable>)
        ensures
            *r == self.spec_relocation_table(),
    {
        &self.relocation_table
    }

    /// The thread-local storage directory, if the image has one, its record read
    /// from the bytes as they are now. A record that no longer lies in the bytes
    /// gives `None`.
    pub fn get_tls_directory(&self) -> (r: Option<TlsDirectory>)
        ensures
            match (r, self.spec_tls_directory()) {
                (Some(t), Some(d)) => {
                    &&& d.spec_fo() + 40 <= self.spec_bytes().len()
                    &&& t.spec_fo() == d.spec_fo()
                    &&& t.spec_has_callbacks() == d.spec_has_callbacks()
                    &&& t@ == IMAGE_TLS_DIRECTORY64::spec_read(self.spec_bytes(), d.spec_fo() as int)
                },
                (None, Some(d)) => d.spec_fo() + 40 > self.spec_bytes().len(),
                (None, None) => true,
                (Some(_), None) => false,
            },
    {
        match &self.tls_directory {
            Some(t) => {
                if t.fo() <= self.bytes.len() && 40 <= self.bytes.len() - t.fo() {
                    Some(t.reread(self.bytes.as_slice()))
                } else {
                    None
                }
            },
            None => None,
        }
    }

    /// The load configuration directory, if the image has one.
    pub fn get_load_config_directory(&self) -> (r: &Option<LoadConfigDirectory>)
        ensures
            *r == self.spec_load_config_directory(),
    {
        &self.load_config_directory
    }

    /// Points the import address table slot of the function `function_ident`
    /// imported from `dll_name` at `function_va`, in the image's bytes (see
    /// `ImportTable::update_iat`). An image without imports imports no library.
    pub fn update_iat(&mut self, dll_name: &str, function_ident: ImportSimple, function_va: Va) -> (r: Result<(), PeError>)
        requires
            old(self).iats_fit(),
        ensures
            match old(self).spec_import_table() {
                None => r == Err::<(), PeError>(PeError::DllNotFound) && final(self).spec_bytes()
                    == old(self).spec_bytes(),
                Some(t) => (r, final(self).spec_bytes()) == spec_iat_update(
                    t.spec_dlls(),
                    old(self).spec_bytes(),
                    dll_name@,
                    function_ident@,
                    function_va,
                ),
            },
            final(self).same_parts(old(self)),
            final(self).spec_bytes().len() == old(self).spec_bytes().len(),
    {
        match &self.import_table {
            Some(t) => {
                proof {
                    lemma_iat_update_len(
                        t.spec_dlls(),
                        self.bytes@,
                        dll_name@,
                        function_ident@,
                        function_va,
                    );
                }
                t.update_iat(&mut self.bytes, dll_name, function_ident, function_va)
            },
            None => Err(PeError::DllNotFound),
        }
    }

    /// Moves every address the base relocation table fixes up from
    /// `old_image_base` to `new_image_base` (see `RelocationTable::update_relocs`);
    /// an image without base relocations is left as it is.
    pub fn update_relocs(&mut self, old_image_base: Va, new_image_base: Va)
        requires
            old(self).spec_relocation_table() matches Some(t) ==> relocs_fit(
                old(self).spec_bytes(),
                t.spec_slots(),
                old_image_base as int,
                new_image_base as int,
                t.spec_slots().len() as int,
            ),
        ensures
            final(self).spec_bytes() == match old(self).spec_relocation_table() {
                None => old(self).spec_bytes(),
                Some(t) => apply_relocs(
                    old(self).spec_bytes(),
                    t.spec_slots(),
                    old_image_base as int,
                    new_image_base as int,
                    t.spec_slots().len() as int,
                ),
            },
            final(self).same_parts(old(self)),
    {
        match &self.relocation_table {
            Some(t) => t.update_relocs(&mut self.bytes, old_image_base, new_image_base),
            None => {},
        }
    }

    /// Loading the image into memory is not offered: there is never a result.
    pub fn map_image_to_virtual_memory(&self) -> (r: Option<()>)
        ensures
            r is None,
    {
        None
    }

    pub fn bytes(&self) -> (r: &[u8])
        ensures
            r@ == self.spec_bytes(),
            self.spec_bytes().len() <= usize::MAX,
    {
        assert(self.bytes@.len() == self.bytes.len());
        self.bytes.as_slice()
    }

    pub fn bytes_mut(&mut self) -> (r: &mut [u8])
        ensures
            r@ == old(self).spec_bytes(),
            final(self).spec_bytes() == final(r)@,
            final(self).same_parts(old(self)),
    {
        self.bytes.as_mut_slice()
    }

    /// The `len` bytes from `start` on, to change in place; nothing else changes.
    pub(crate) fn window_mut(&mut self, start: usize, len: usize) -> (r: &mut [u8])
        requires
            start + len <= old(self).spec_bytes().len(),
        ensures
            r@ == old(self).spec_bytes().subrange(start as int, start + len),
            final(self).spec_bytes() == old(self).spec_bytes().subrange(0, start as int) + final(r)@
                + old(self).spec_bytes().subrange(start + len, old(self).spec_bytes().len() as int),
            final(self).same_parts(old(self)),
    {
        let ghost s = self.bytes@;
        let all = self.bytes.as_mut_slice();
        let (head, rest) = all.split_at_mut(start);
        let (w, tail) = rest.split_at_mut(len);
        assert(head@ =~= s.subrange(0, start as int));
        assert(tail@ =~= s.subrange(start + len, s.len() as int));
        assert(w@ =~= s.subrange(start as int, start + len));
        w
    }

    /// The DOS header, read from the bytes as they are now.
    pub fn get_dos_header(&self) -> (r: DosHeader)
        requires
            self.headers_in_bytes(),
        ensures
            r@ == self.spec_dos_header(),
    {
        reveal(Image::spec_dos_header);
        DosHeader::from_bytes(self.bytes.as_slice())
    }

    /// The NT headers, read from the bytes as they are now.
    pub fn get_nt_header(&self) -> (r: NtHeader)
        requires
            self.headers_in_bytes(),
        ensures
            r@ == self.spec_nt_header(),
    {
        reveal(Image::spec_nt_header);
        NtHeader::read_at(self.bytes.as_slice(), self.nt_offset)
    }

    /// The section table, its headers read from the bytes as they are now, each
    /// section's data taken from where it lay when the image was read.
    pub fn get_section_table(&self) -> (r: SectionTable)
        requires
            self.sections_in_bytes(),
            self.windows_in_bytes(),
        ensures
            r.spec_raws() == self.spec_sections(),
            r.spec_headers().len() == self.spec_section_count(),
            forall|i: int|
                0 <= i < self.spec_section_count() ==> {
                    &&& (#[trigger] r.spec_headers()[i]).spec_name() == spec_section_name(
                        self.spec_sections()[i],
                    )
                    &&& r.spec_headers()[i].spec_bytes() == self.spec_bytes().subrange(
                        self.spec_windows()[i].0 as int,
                        self.spec_windows()[i].0 + self.spec_windows()[i].1,
                    )
                    &&& r.spec_headers()[i].spec_window() == self.spec_windows()[i]
                },
    {
        let r = SectionTable::from_windows(self.bytes.as_slice(), self.table_start, &self.section_windows);
        assert(r.spec_raws() =~= self.spec_sections());
        r
    }

    /// The file offset of `rva` where it can be looked up (see `rva_resolvable`),
    /// and `None` where it cannot.
    pub fn rva_to_fo_checked(&self, rva: Rva) -> (r: Option<Fo>)
        requires
            self.sections_in_bytes(),
        ensures
            match r {
                Some(fo) => rva_resolvable(self.spec_sections(), rva as int) && fo == spec_fo(
                    self.spec_sections(),
                    rva as int,
                ),
                None => !rva_resolvable(self.spec_sections(), rva as int),
            },
    {
        let ghost secs = self.spec_sections();
        assert(self.bytes@.len() == self.bytes.len());
        let mut i: usize = 0;
        while i < self.section_count
            invariant
                0 <= i <= self.section_count,
                secs == self.spec_sections(),
                self.sections_in_bytes(),
                self.bytes@.len() <= usize::MAX,
                secs.len() == self.section_count,
                forall|k: int| 0 <= k < i ==> !section_holds(#[trigger] secs[k], rva as int),
                forall|k: int| 0 <= k < i ==> section_end(#[trigger] secs[k]) <= usize::MAX,
                spec_rva_to_fo(secs, rva as int) == rva_to_fo_from(secs, rva as int, i as int),
            decreases self.section_count - i,
        {
            let raw = IMAGE_SECTION_HEADER::read(self.bytes.as_slice(), self.table_start + 40 * i);
            assert(secs[i as int] == raw);
            let end = raw.virtual_address as u64 + raw.virtual_size as u64;
            if end > usize::MAX as u64 {
                return None;
            }
            let header_rva = raw.virtual_address as usize;
            let header_range = end as usize;
            if rva < header_range && rva >= header_rva {
                let fo = (rva - header_rva) as u64 + raw.pointer_to_raw_data as u64;
                if fo > usize::MAX as u64 {
                    return None;
                }
                return Some(fo as usize);
            }
            i = i + 1;
        }
        None
    }

    /// The file offset of `rva`: where the first section that holds it keeps it.
    /// An address no section holds is not handled.
    pub fn rva_to_fo(&self, rva: Rva) -> (r: Option<Fo>)
        requires
            rva_resolvable(self.spec_sections(), rva as int),
        ensures
            r == Some(spec_fo(self.spec_sections(), rva as int) as Fo),
    {
        let ghost secs = self.spec_sections();
        assert(self.sections_in_bytes()) by {
            if !self.sections_in_bytes() {
                assert(secs.len() == 0);
            }
        }
        assert(self.bytes@.len() == self.bytes.len());
        let mut i: usize = 0;
        while i < self.section_count
            invariant
                0 <= i <= self.section_count,
                secs == self.spec_sections(),
                self.sections_in_bytes(),
                self.bytes@.len() <= usize::MAX,
                secs.len() == self.section_count,
                rva_resolvable(secs, rva as int),
                forall|k: int| 0 <= k < i ==> !section_holds(secs[k], rva as int),
                spec_rva_to_fo(secs, rva as int) == rva_to_fo_from(secs, rva as int, i as int),
            decreases self.section_count - i,
        {
            let raw = IMAGE_SECTION_HEADER::read(self.bytes.as_slice(), self.table_start + 40 * i);
            assert(secs[i as int] == raw);
            assert(section_end(secs[i as int]) <= usize::MAX);
            let header_rva = raw.virtual_address as usize;
            let header_vs = raw.virtual_size as usize;
            let header_range = header_rva + header_vs;

            if rva < header_range && rva >= header_rva {
                return Some(rva - header_rva + raw.pointer_to_raw_data as usize);
            }
            i = i + 1;
        }
        assert(false);
        None
    }

    /// The relative address of `va`. A base that does not fit in an address, or an
    /// address below the base, is not handled.
    pub fn va_to_rva(&self, va: Va) -> (r: Rva)
        requires
            self.headers_in_bytes(),
            self.spec_image_base() <= va,
        ensures
            r == va - self.spec_image_base(),
    {
        reveal(Image::spec_nt_header);
        let nt = IMAGE_NT_HEADERS64::read(self.bytes.as_slice(), self.nt_offset);
        va - nt.optional_header.image_base as usize
    }

    /// The file offset of `va`.
    pub fn va_to_fo(&self, va: Va) -> (r: Option<Fo>)
        requires
            self.headers_in_bytes(),
            self.spec_image_base() <= va,
            rva_resolvable(self.spec_sections(), va - self.spec_image_base()),
        ensures
            r == Some(spec_fo(self.spec_sections(), va - self.spec_image_base()) as Fo),
    {
        self.rva_to_fo(self.va_to_rva(va))
    }

    /// The record of type `T` at the virtual address `va`.
    pub fn read_from_va<T: RawStruct>(&self, va: Va) -> (r: T)
        requires
            self.headers_in_bytes(),
            self.spec_image_base() <= va,
            rva_resolvable(self.spec_sections(), va - self.spec_image_base()),
            spec_fo(self.spec_sections(), va - self.spec_image_base()) + T::spec_size()
                <= self.spec_bytes().len(),
        ensures
            r == T::spec_read(
                self.spec_bytes(),
                spec_fo(self.spec_sections(), va - self.spec_image_base()),
            ),
    {
        let fo = self.va_to_fo(va).unwrap();
        self.read_from_fo(fo)
    }

    /// The record of type `T` at `fo`; one that runs past the end is not handled.
    pub fn read_from_fo<T: RawStruct>(&self, fo: Fo) -> (r: T)
        requires
            fo + T::spec_size() <= self.spec_bytes().len(),
        ensures
            r == T::spec_read(self.spec_bytes(), fo as int),
    {
        T::read(self.bytes.as_slice(), fo)
    }

    /// The record of type `T` at `rva`.
    pub fn read_from_rva<T: RawStruct>(&self, rva: Rva) -> (r: T)
        requires
            rva_resolvable(self.spec_sections(), rva as int),
            spec_fo(self.spec_sections(), rva as int) + T::spec_size() <= self.spec_bytes().len(),
        ensures
            r == T::spec_read(self.spec_bytes(), spec_fo(self.spec_sections(), rva as int)),
    {
        let fo = self.rva_to_fo(rva).unwrap();
        self.read_from_fo(fo)
    }

    /// The C string at `fo`, decoded lossily; an error where no NUL ends it.
    pub fn read_cstr_from_fo(&self, fo: Fo) -> (r: Result<String, PeError>)
        requires
            fo <= self.spec_bytes().len(),
        ensures
            has_nul(self.spec_bytes().subrange(fo as int, self.spec_bytes().len() as int)) ==> (r matches Ok(
                s,
            ) && s@ == cstr_at(self.spec_bytes(), fo as int)),
            !has_nul(self.spec_bytes().subrange(fo as int, self.spec_bytes().len() as int)) ==> r
                == Err::<String, PeError>(PeError::MissingNul),
    {
        let bytes = self.bytes.as_slice();
        assert(bytes@.len() == bytes.len());
        let n = cstr_len_at(bytes, fo);
        proof {
            lemma_cstr_len(bytes@.subrange(fo as int, bytes@.len() as int));
        }
        if fo + n == bytes.len() {
            return Err(PeError::MissingNul);
        }
        Ok(read_cstr_lossy(bytes, fo))
    }

    /// Writes `value` at the virtual address `va`.
    pub fn write_to_va<T: RawEncode>(&mut self, va: Va, value: T)
        requires
            old(self).headers_in_bytes(),
            old(self).spec_image_base() <= va,
            rva_resolvable(old(self).spec_sections(), va - old(self).spec_image_base()),
            spec_fo(old(self).spec_sections(), va - old(self).spec_image_base()) + T::spec_size()
                <= old(self).spec_bytes().len(),
        ensures
            final(self).spec_bytes() == splice(
                old(self).spec_bytes(),
                spec_fo(old(self).spec_sections(), va - old(self).spec_image_base()),
                value.spec_bytes(),
            ),
            final(self).same_parts(old(self)),
            final(self).spec_bytes().len() == old(self).spec_bytes().len(),
    {
        let fo = self.va_to_fo(va).unwrap();
        self.write_to_fo(fo, value)
    }

    /// Writes `value` at `fo`; a write that runs past the end is not handled.
    pub fn write_to_fo<T: RawEncode>(&mut self, fo: Fo, value: T)
        requires
            fo + T::spec_size() <= old(self).spec_bytes().len(),
        ensures
            final(self).spec_bytes() == splice(old(self).spec_bytes(), fo as int, value.spec_bytes()),
            final(self).same_parts(old(self)),
            final(self).spec_bytes().len() == old(self).spec_bytes().len(),
    {
        proof {
            T::lemma_roundtrip(value);
        }
        value.write(&mut self.bytes, fo);
    }

    /// Writes `value` at `rva`.
    pub fn write_to_rva<T: RawEncode>(&mut self, rva: Rva, value: T)
        requires
            rva_resolvable(old(self).spec_sections(), rva as int),
            spec_fo(old(self).spec_sections(), rva as int) + T::spec_size() <= old(
                self,
            ).spec_bytes().len(),
        ensures
            final(self).spec_bytes() == splice(
                old(self).spec_bytes(),
                spec_fo(old(self).spec_sections(), rva as int),
                value.spec_bytes(),
            ),
            final(self).same_parts(old(self)),
            final(self).spec_bytes().len() == old(self).spec_bytes().len(),
    {
        let fo = self.rva_to_fo(rva).unwrap();
        self.write_to_fo(fo, value)
    }

    /// Writes the bytes of `value` at the virtual address `va`.
    pub fn write_bytes_to_va(&mut self, va: Va, value: &[u8])
        requires
            old(self).headers_in_bytes(),
            old(self).spec_image_base() <= va,
            rva_resolvable(old(self).spec_sections(), va - old(self).spec_image_base()),
            spec_fo(old(self).spec_sections(), va - old(self).spec_image_base()) + value@.len()
                <= old(self).spec_bytes().len(),
        ensures
            final(self).spec_bytes() == splice(
                old(self).spec_bytes(),
                spec_fo(old(self).spec_sections(), va - old(self).spec_image_base()),
                value@,
            ),
            final(self).same_parts(old(self)),
            final(self).spec_bytes().len() == old(self).spec_bytes().len(),
    {
        let fo = self.va_to_fo(va).unwrap();
        self.write_bytes_to_fo(fo, value)
    }

    /// Writes the bytes of `value` at `fo`; a write that runs past the end is not handled.
    pub fn write_bytes_to_fo(&mut self, fo: Fo, value: &[u8])
        requires
            fo + value@.len() <= old(self).spec_bytes().len(),
        ensures
            final(self).spec_bytes() == splice(old(self).spec_bytes(), fo as int, value@),
            final(self).same_parts(old(self)),
            final(self).spec_bytes().len() == old(self).spec_bytes().len(),
    {
        write_bytes(&mut self.bytes, fo, value);
    }

    /// Writes the bytes of `value` at `rva`.
    pub fn write_bytes_to_rva(&mut self, rva: Rva, value: &[u8])
        requires
            rva_resolvable(old(self).spec_sections(), rva as int),
            spec_fo(old(self).spec_sections(), rva as int) + value@.len() <= old(
                self,
            ).spec_bytes().len(),
        ensures
            final(self).spec_bytes() == splice(
                old(self).spec_bytes(),
                spec_fo(old(self).spec_sections(), rva as int),
                value@,
            ),
            final(self).same_parts(old(self)),
            final(self).spec_bytes().len() == old(self).spec_bytes().len(),
    {
        let fo = self.rva_to_fo(rva).unwrap();
        self.write_bytes_to_fo(fo, value)
    }
}

/// Images with the same parts have the NT headers and the section table at the
/// same places, the same section windows, and the same tables.
pub proof fn lemma_same_parts(a: &Image, b: &Image)
    requires
        a.same_parts(b),
    ensures
        a.spec_nt_offset() == b.spec_nt_offset(),
        a.spec_table_start() == b.spec_table_start(),
        a.spec_section_count() == b.spec_section_count(),
        a.spec_windows() == b.spec_windows(),
        a.spec_import_table() == b.spec_import_table(),
        a.spec_export_table() == b.spec_export_table(),
        a.spec_exception_table() == b.spec_exception_table(),
        a.spec_relocation_table() == b.spec_relocation_table(),
        a.spec_tls_directory() == b.spec_tls_directory(),
        a.spec_load_config_directory() == b.spec_load_config_directory(),
{
}

/// The headers of an image read from `s` are those `s` holds.
proof fn lemma_headers_read(image: &Image, s: Seq<u8>)
    requires
        image.read_from(s),
    ensures
        image.spec_dos_header() == spec_dos_of(s),
        image.spec_nt_header() == spec_nt_of(s),
{
    reveal(Image::spec_dos_header);
    reveal(Image::spec_nt_header);
}

/// Images with the same bytes and the headers at the same places have the same headers.
proof fn lemma_same_offsets(a: &Image, b: &Image)
    requires
        a.spec_bytes() == b.spec_bytes(),
        a.spec_nt_offset() == b.spec_nt_offset(),
        a.spec_table_start() == b.spec_table_start(),
        a.spec_section_count() == b.spec_section_count(),
    ensures
        a.spec_dos_header() == b.spec_dos_header(),
        a.spec_nt_header() == b.spec_nt_header(),
        a.spec_sections() == b.spec_sections(),
{
    reveal(Image::spec_dos_header);
    reveal(Image::spec_nt_header);
}

/// A write past the DOS header leaves it as it was.
proof fn lemma_write_keeps_dos(before: &Image, after: &Image, off: int, t: Seq<u8>)
    requires
        after.spec_bytes() == splice(before.spec_bytes(), off, t),
        64 <= off,
        off + t.len() <= before.spec_bytes().len(),
    ensures
        after.spec_dos_header() == before.spec_dos_header(),
{
    reveal(Image::spec_dos_header);
    lemma_read_other_window::<IMAGE_DOS_HEADER>(before.spec_bytes(), off, t, 0);
}

/// A write past the NT headers leaves them as they were.
proof fn lemma_write_keeps_nt(before: &Image, after: &Image, off: int, t: Seq<u8>)
    requires
        after.spec_nt_offset() == before.spec_nt_offset(),
        after.spec_bytes() == splice(before.spec_bytes(), off, t),
        0 <= before.spec_nt_offset(),
        before.spec_nt_offset() + 264 <= off,
        off + t.len() <= before.spec_bytes().len(),
    ensures
        after.spec_nt_header() == before.spec_nt_header(),
{
    reveal(Image::spec_nt_header);
    lemma_read_other_window::<IMAGE_NT_HEADERS64>(before.spec_bytes(), off, t, before.spec_nt_offset());
}

/// A write of `t` at `off`, past the headers and inside the bytes, leaves the DOS
/// header, the NT headers and the section headers as they were, and the image
/// well formed: `after` is `before` with the write done.
pub proof fn lemma_write_past_headers(before: &Image, after: &Image, off: int, t: Seq<u8>)
    requires
        before.wf(),
        after.same_parts(before),
        after.spec_bytes() == splice(before.spec_bytes(), off, t),
        before.headers_end() <= off,
        off + t.len() <= before.spec_bytes().len(),
    ensures
        after.wf(),
        after.spec_dos_header() == before.spec_dos_header(),
        after.spec_nt_header() == before.spec_nt_header(),
        after.spec_sections() == before.spec_sections(),
{
    let s = before.spec_bytes();
    lemma_same_parts(after, before);
    lemma_write_keeps_dos(before, after, off, t);
    lemma_write_keeps_nt(before, after, off, t);
    assert forall|i: int| 0 <= i < before.spec_section_count() implies #[trigger] spec_raw_section(
        after.spec_bytes(),
        before.spec_table_start(),
        i,
    ) == spec_raw_section(s, before.spec_table_start(), i) by {
        lemma_read_other_window::<IMAGE_SECTION_HEADER>(s, off, t, before.spec_table_start() + 40 * i);
    }
    assert(after.spec_sections() =~= before.spec_sections());
}

/// A value written at a relative address reads back from that address, for any
/// write that leaves the address where it was: `after` is `before` once
/// `write_to_rva(rva, value)` has run, and the lookup of `rva` in `after` gives
/// the offset written.
pub proof fn law_read_after_write_rva_in_place<T: RawEncode>(
    before: &Image,
    after: &Image,
    rva: int,
    value: T,
)
    requires
        rva_resolvable(before.spec_sections(), rva),
        spec_fo(before.spec_sections(), rva) + T::spec_size() <= before.spec_bytes().len(),
        after.spec_bytes() == splice(
            before.spec_bytes(),
            spec_fo(before.spec_sections(), rva),
            value.spec_bytes(),
        ),
        rva_resolvable(after.spec_sections(), rva),
        spec_fo(after.spec_sections(), rva) == spec_fo(before.spec_sections(), rva),
    ensures
        T::spec_read(after.spec_bytes(), spec_fo(after.spec_sections(), rva)) == value,
        after.spec_bytes().len() == before.spec_bytes().len(),
{
    lemma_read_after_write(before.spec_bytes(), spec_fo(before.spec_sections(), rva), value);
}

/// A value written at a relative address reads back from that address: `after`
/// is `before` once `write_to_rva(rva, value)` has run. The write lies past the
/// headers, so the lookup of the address is the same before and after it. (A
/// write over the section table can move the address elsewhere.)
pub proof fn law_read_after_write_rva<T: RawEncode>(before: &Image, after: &Image, rva: int, value: T)
    requires
        before.wf(),
        rva_resolvable(before.spec_sections(), rva),
        before.headers_end() <= spec_fo(before.spec_sections(), rva),
        spec_fo(before.spec_sections(), rva) + T::spec_size() <= before.spec_bytes().len(),
        after.same_parts(before),
        after.spec_bytes() == splice(
            before.spec_bytes(),
            spec_fo(before.spec_sections(), rva),
            value.spec_bytes(),
        ),
    ensures
        after.spec_sections() == before.spec_sections(),
        rva_resolvable(after.spec_sections(), rva),
        T::spec_read(after.spec_bytes(), spec_fo(after.spec_sections(), rva)) == value,
        after.spec_bytes().len() == before.spec_bytes().len(),
{
    T::lemma_roundtrip(value);
    lemma_write_past_headers(before, after, spec_fo(before.spec_sections(), rva), value.spec_bytes());
    lemma_read_after_write(before.spec_bytes(), spec_fo(before.spec_sections(), rva), value);
}

/// A value written at a virtual address reads back from that address: `after`
/// is `before` once `write_to_va(va, value)` has run past the headers.
pub proof fn law_read_after_write_va<T: RawEncode>(before: &Image, after: &Image, va: int, value: T)
    requires
        before.wf(),
        before.spec_image_base() <= va,
        rva_resolvable(before.spec_sections(), va - before.spec_image_base()),
        before.headers_end() <= spec_fo(before.spec_sections(), va - before.spec_image_base()),
        spec_fo(before.spec_sections(), va - before.spec_image_base()) + T::spec_size()
            <= before.spec_bytes().len(),
        after.same_parts(before),
        after.spec_bytes() == splice(
            before.spec_bytes(),
            spec_fo(before.spec_sections(), va - before.spec_image_base()),
            value.spec_bytes(),
        ),
    ensures
        after.spec_image_base() == before.spec_image_base(),
        T::spec_read(
            after.spec_bytes(),
            spec_fo(after.spec_sections(), va - after.spec_image_base()),
        ) == value,
{
    T::lemma_roundtrip(value);
    lemma_write_past_headers(
        before,
        after,
        spec_fo(before.spec_sections(), va - before.spec_image_base()),
        value.spec_bytes(),
    );
    law_read_after_write_rva(before, after, va - before.spec_image_base(), value);
}

/// The virtual address `image_base + rva` has the file offset of `rva`: what
/// `va_to_fo` gives for it is what `rva_to_fo` gives for `rva`.
pub proof fn law_va_to_fo_is_rva_to_fo(image: &Image, rva: int)
    requires
        0 <= rva,
        rva_resolvable(image.spec_sections(), rva),
    ensures
        image.spec_image_base() <= image.spec_image_base() + rva,
        (image.spec_image_base() + rva) - image.spec_image_base() == rva,
        rva_resolvable(image.spec_sections(), (image.spec_image_base() + rva) - image.spec_image_base()),
        spec_fo(image.spec_sections(), (image.spec_image_base() + rva) - image.spec_image_base())
            == spec_fo(image.spec_sections(), rva),
{
}

/// A write at a relative address leaves every record outside the bytes it wrote
/// as it was: `after` is `before` once `write_to_rva(rva, value)` has run.
pub proof fn law_write_frame_rva<T: RawEncode, U: RawStruct>(
    before: &Image,
    after: &Image,
    rva: int,
    value: T,
    at: int,
)
    requires
        rva_resolvable(before.spec_sections(), rva),
        spec_fo(before.spec_sections(), rva) + T::spec_size() <= before.spec_bytes().len(),
        after.same_parts(before),
        after.spec_bytes() == splice(
            before.spec_bytes(),
            spec_fo(before.spec_sections(), rva),
            value.spec_bytes(),
        ),
        0 <= at,
        at + U::spec_size() <= before.spec_bytes().len(),
        at + U::spec_size() <= spec_fo(before.spec_sections(), rva) || spec_fo(
            before.spec_sections(),
            rva,
        ) + T::spec_size() <= at,
    ensures
        U::spec_read(after.spec_bytes(), at) == U::spec_read(before.spec_bytes(), at),
{
    T::lemma_roundtrip(value);
    lemma_read_other_window::<U>(
        before.spec_bytes(),
        spec_fo(before.spec_sections(), rva),
        value.spec_bytes(),
        at,
    );
}

/// Moving an image from `old_image_base` to `new_image_base` and back gives its
/// bytes back, where its relocation slots do not overlap and hold addresses that
/// fit in a `usize`: `moved` is `before` once `update_relocs(old_image_base,
/// new_image_base)` has run, and the move back may then run and restores the bytes.
pub proof fn law_update_relocs_undo(before: &Image, moved: &Image, old_image_base: Va, new_image_base: Va)
    requires
        before.spec_relocation_table() matches Some(t) ==> {
            let slots = t.spec_slots();
            &&& relocs_fit(
                before.spec_bytes(),
                slots,
                old_image_base as int,
                new_image_base as int,
                slots.len() as int,
            )
            &&& slots_disjoint(slots, slots.len() as int)
            &&& forall|i: int|
                0 <= i < slots.len() ==> le_u64(before.spec_bytes(), #[trigger] slots[i] as int)
                    <= usize::MAX
        },
        moved.same_parts(before),
        moved.spec_bytes() == match before.spec_relocation_table() {
            None => before.spec_bytes(),
            Some(t) => apply_relocs(
                before.spec_bytes(),
                t.spec_slots(),
                old_image_base as int,
                new_image_base as int,
                t.spec_slots().len() as int,
            ),
        },
    ensures
        moved.spec_relocation_table() matches Some(t) ==> relocs_fit(
            moved.spec_bytes(),
            t.spec_slots(),
            new_image_base as int,
            old_image_base as int,
            t.spec_slots().len() as int,
        ),
        match moved.spec_relocation_table() {
            None => moved.spec_bytes(),
            Some(t) => apply_relocs(
                moved.spec_bytes(),
                t.spec_slots(),
                new_image_base as int,
                old_image_base as int,
                t.spec_slots().len() as int,
            ),
        } == before.spec_bytes(),
{
    lemma_same_parts(moved, before);
    if let Some(t) = before.spec_relocation_table() {
        law_relocs_undo(
            before.spec_bytes(),
            t.spec_slots(),
            old_image_base as int,
            new_image_base as int,
            t.spec_slots().len() as int,
        );
    }
}

/// Where an image's parts lie in its bytes `s`: the NT headers at the DOS
/// header's `e_lfanew`, the section table right after the signature, the file
/// header and the optional header, and section header `i` 40 bytes after
/// section header `i - 1`, as many as the file header counts.
pub proof fn law_image_layout(s: Seq<u8>)
    ensures
        spec_dos_of(s) == IMAGE_DOS_HEADER::spec_read(s, 0),
        spec_nt_of(s) == IMAGE_NT_HEADERS64::spec_read(s, spec_dos_of(s).e_lfanew as int),
        spec_table_start_of(s) == spec_dos_of(s).e_lfanew + 4 + 20
            + spec_nt_of(s).file_header.size_of_optional_header,
        spec_sections_of(s).len() == spec_nt_of(s).file_header.number_of_sections,
        forall|i: int|
            0 <= i < spec_sections_of(s).len() ==> #[trigger] spec_sections_of(s)[i]
                == IMAGE_SECTION_HEADER::spec_read(s, spec_table_start_of(s) + 40 * i),
{
}

} // verus!
