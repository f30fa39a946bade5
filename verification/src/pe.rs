//! Images read from their bytes, owned or borrowed, and what can be read from them.
use vstd::prelude::*;

use crate::arch::{Architecture, spec_architecture};
use crate::cstr::{cstr_at, read_cstr_lossy};
use crate::error::PeError;
use crate::pe_headers::nt_header::{NtHeader, NtHeadersKind};
use crate::pe_headers::optional_header::OptionalHeader;
use crate::pe_headers::{
    DOS_HEADER_SIZE, DOS_STUB_SIZE, PeHeaders, nt_headers_read_from, nt_headers_wf, pe_headers_readable, spec_dos_header_of,
    spec_machine_of, spec_nt64_of, spec_nt_offset,
};
use crate::raw::RawStruct;
use crate::section::section_header::SectionHeader;
use crate::section::section_table::{
    SectionTable, SectionTableRef, raws_of, section_table_readable, sections_read_from,
};
use crate::windows_types::{IMAGE_DATA_DIRECTORY, IMAGE_SECTION_HEADER};
use crate::section::section_table::{SectionTableOwned, same_sections, spec_raw_section};
use crate::import::{ImportTable, import_result_view, import_table_readable, spec_import_table};
use crate::export::{ExportTable, export_result_view, export_table_readable, spec_export_table};
use crate::exception::{
    ExceptionTable, exception_result_view, exception_table_readable, spec_exception_table,
};
use crate::arch::MACHINE_AMD64;

verus! {

/// An offset into the file.
pub type Fo = usize;

/// An address relative to the image base.
pub type Rva = usize;

/// A virtual address.
pub type Va = usize;

/// The end of a section in memory, as an integer.
pub open spec fn section_end(h: IMAGE_SECTION_HEADER) -> int {
    h.virtual_address as int + h.virtual_size as int
}

/// The section holds the relative virtual address `rva`.
pub open spec fn section_holds(h: IMAGE_SECTION_HEADER, rva: int) -> bool {
    h.virtual_address <= rva < section_end(h)
}

/// The file offset of `rva`, found in the first of the sections from `i` on that holds it.
pub open spec fn rva_to_fo_from(secs: Seq<IMAGE_SECTION_HEADER>, rva: int, i: int) -> Option<int>
    decreases secs.len() - i,
{
    if i < 0 || i >= secs.len() {
        None
    } else if section_holds(secs[i], rva) {
        Some(rva - secs[i].virtual_address + secs[i].pointer_to_raw_data)
    } else {
        rva_to_fo_from(secs, rva, i + 1)
    }
}

/// The file offset of `rva`: where the first section that holds it keeps it in the file.
pub open spec fn spec_rva_to_fo(secs: Seq<IMAGE_SECTION_HEADER>, rva: int) -> Option<int> {
    rva_to_fo_from(secs, rva, 0)
}

/// Looking `rva` up reaches no section whose end overflows a 32-bit address, and
/// the file offset it finds fits in an address.
pub open spec fn rva_lookup_safe(secs: Seq<IMAGE_SECTION_HEADER>, rva: int) -> bool {
    &&& forall|j: int|
        0 <= j < secs.len() && (forall|k: int| 0 <= k < j ==> !section_holds(secs[k], rva))
            ==> section_end(#[trigger] secs[j]) <= u32::MAX
    &&& spec_rva_to_fo(secs, rva) matches Some(fo) ==> 0 <= fo <= usize::MAX
}

/// A relative virtual address that maps, and whose `n` bytes at its file offset lie in `s`.
pub open spec fn rva_in_file(secs: Seq<IMAGE_SECTION_HEADER>, s: Seq<u8>, rva: int, n: int) -> bool {
    spec_rva_to_fo(secs, rva) matches Some(fo) && fo + n <= s.len()
}

/// A relative virtual address that either does not map, or maps to `n` bytes that lie in `s`.
pub open spec fn rva_readable(secs: Seq<IMAGE_SECTION_HEADER>, s: Seq<u8>, rva: int, n: int) -> bool {
    &&& rva_lookup_safe(secs, rva)
    &&& spec_rva_to_fo(secs, rva) is Some ==> rva_in_file(secs, s, rva, n)
}

/// The records of type `T` stored one after another from `fo` on.
pub open spec fn spec_read_array<T: RawStruct>(s: Seq<u8>, fo: int, count: int) -> Seq<T> {
    Seq::new(count as nat, |i: int| T::spec_read(s, fo + i * T::spec_size()))
}

/// What reading `count` records of type `T` at the file offset of `rva` gives.
pub open spec fn spec_read_slice<T: RawStruct>(
    secs: Seq<IMAGE_SECTION_HEADER>,
    s: Seq<u8>,
    rva: int,
    count: int,
) -> Result<Seq<T>, PeError> {
    match spec_rva_to_fo(secs, rva) {
        None => Err(PeError::RvaNotMapped),
        Some(fo) => if fo + count > s.len() {
            Err(PeError::OutOfRange)
        } else {
            Ok(spec_read_array::<T>(s, fo, count))
        },
    }
}

/// Reading `count` records at `rva` does not overflow a lookup or an offset, and
/// where `count` bytes from the file offset of `rva` lie in `s`, so do the
/// records.
pub open spec fn slice_read_safe<T: RawStruct>(
    secs: Seq<IMAGE_SECTION_HEADER>,
    s: Seq<u8>,
    rva: int,
    count: int,
) -> bool {
    &&& rva_lookup_safe(secs, rva)
    &&& spec_rva_to_fo(secs, rva) matches Some(fo) ==> {
        &&& fo + count <= usize::MAX
        &&& fo + count <= s.len() ==> fo + count * T::spec_size() <= s.len()
    }
}

/// What reading the C string at the file offset of `rva` gives.
pub open spec fn spec_read_c_str(secs: Seq<IMAGE_SECTION_HEADER>, s: Seq<u8>, rva: int) -> Result<
    Seq<char>,
    PeError,
> {
    match spec_rva_to_fo(secs, rva) {
        None => Err(PeError::RvaNotMapped),
        Some(fo) => Ok(cstr_at(s, fo)),
    }
}

/// A result holding a vector, seen as one holding its sequence.
pub open spec fn vec_result_view<T>(r: Result<Vec<T>, PeError>) -> Result<Seq<T>, PeError> {
    match r {
        Ok(v) => Ok(v@),
        Err(e) => Err(e),
    }
}

/// A result holding a string, seen as one holding its text.
pub open spec fn string_result_view(r: Result<String, PeError>) -> Result<Seq<char>, PeError> {
    match r {
        Ok(v) => Ok(v@),
        Err(e) => Err(e),
    }
}

/// What every image offers: its bytes, its headers and its section table.
pub trait Image {
    type Table: SectionTable;

    /// The image holds what the accessors hand out.
    spec fn inv(&self) -> bool;

    spec fn spec_bytes(&self) -> Seq<u8>;

    spec fn spec_headers(&self) -> PeHeaders;

    /// The raw headers of the sections.
    spec fn spec_sections(&self) -> Seq<IMAGE_SECTION_HEADER>;

    fn bytes(&self) -> (r: &[u8])
        requires
            self.inv(),
        ensures
            r@ == self.spec_bytes(),
    ;

    fn headers(&self) -> (r: &PeHeaders)
        requires
            self.inv(),
        ensures
            *r == self.spec_headers(),
    ;

    fn section_table(&self) -> (r: &Self::Table)
        requires
            self.inv(),
        ensures
            raws_of(r.spec_headers()) == self.spec_sections(),
    ;

    /// `size` records of type `T` at the file offset of `rva`.
    fn read_slice_from_rva<T: RawStruct>(&self, rva: Rva, size: usize) -> (r: Result<Vec<T>, PeError>)
        requires
            self.inv(),
            slice_read_safe::<T>(self.spec_sections(), self.spec_bytes(), rva as int, size as int),
        ensures
            vec_result_view(r) == spec_read_slice::<T>(
                self.spec_sections(),
                self.spec_bytes(),
                rva as int,
                size as int,
            ),
    {
        let fo = match self.rva_to_fo(rva) {
            Ok(fo) => fo,
            Err(e) => return Err(e),
        };
        let bytes = self.bytes();
        assert(bytes@.len() == bytes.len());
        if fo + size > bytes.len() {
            return Err(PeError::OutOfRange);
        }
        let width = T::size();
        let total = size * width;
        let mut v: Vec<T> = Vec::new();
        let mut i: usize = 0;
        while i < size
            invariant
                0 <= i <= size,
                width == T::spec_size(),
                total == size * width,
                fo + total <= bytes@.len(),
                bytes@.len() <= usize::MAX,
                bytes@ == self.spec_bytes(),
                v@ == spec_read_array::<T>(bytes@, fo as int, i as int),
            decreases size - i,
        {
            assert(i * width + width <= total) by (nonlinear_arith)
                requires
                    i < size,
                    total == size * width,
            ;
            let item = T::read(bytes, fo + i * width);
            v.push(item);
            i = i + 1;
            assert(v@ =~= spec_read_array::<T>(bytes@, fo as int, i as int));
        }
        Ok(v)
    }

    /// The file offset of `rva`, or an error where no section holds it.
    fn rva_to_fo(&self, rva: Rva) -> (r: Result<Fo, PeError>)
        requires
            self.inv(),
            rva_lookup_safe(self.spec_sections(), rva as int),
        ensures
            match spec_rva_to_fo(self.spec_sections(), rva as int) {
                Some(fo) => r matches Ok(x) && x == fo,
                None => r == Err::<Fo, PeError>(PeError::RvaNotMapped),
            },
    {
        let table = self.section_table();
        let section_headers = table.section_headers();
        let ghost secs = self.spec_sections();
        let mut i: usize = 0;
        while i < section_headers.len()
            invariant
                0 <= i <= section_headers@.len(),
                secs == self.spec_sections(),
                secs == raws_of(section_headers@),
                secs.len() == section_headers@.len(),
                rva_lookup_safe(secs, rva as int),
                forall|k: int| 0 <= k < i ==> !section_holds(secs[k], rva as int),
                spec_rva_to_fo(secs, rva as int) == rva_to_fo_from(secs, rva as int, i as int),
            decreases section_headers@.len() - i,
        {
            let raw = section_headers[i].raw();
            assert(secs[i as int] == *raw);
            assert(section_end(secs[i as int]) <= u32::MAX);
            if rva < (raw.virtual_address + raw.virtual_size) as usize && rva
                >= raw.virtual_address as usize {
                assert(section_holds(secs[i as int], rva as int));
                assert(rva_to_fo_from(secs, rva as int, i as int) == Some(
                    rva - raw.virtual_address + raw.pointer_to_raw_data,
                ));
                let fo = rva - raw.virtual_address as usize + raw.pointer_to_raw_data as usize;
                assert(spec_rva_to_fo(self.spec_sections(), rva as int) == Some(fo as int));
                return Ok(fo);
            }
            i = i + 1;
        }

        Err(PeError::RvaNotMapped)
    }

    /// The file offset of the virtual address `va`. A base that does not fit in an
    /// address, or an address below the base, is not handled.
    fn va_to_fo(&self, va: Va) -> (r: Result<Fo, PeError>)
        requires
            self.inv(),
            self.spec_headers().spec_nt_header().spec_image_base() <= va,
            rva_lookup_safe(
                self.spec_sections(),
                va - self.spec_headers().spec_nt_header().spec_image_base(),
            ),
        ensures
            match spec_rva_to_fo(
                self.spec_sections(),
                va - self.spec_headers().spec_nt_header().spec_image_base(),
            ) {
                Some(fo) => r matches Ok(x) && x == fo,
                None => r == Err::<Fo, PeError>(PeError::RvaNotMapped),
            },
    {
        let image_base_va = self.headers().nt_header().optional_header().image_base();

        let rva = va - image_base_va;

        self.rva_to_fo(rva)
    }

    /// The record of type `T` at the file offset of `rva`.
    fn read_from_rva<T: RawStruct>(&self, rva: Rva) -> (r: Result<T, PeError>)
        requires
            self.inv(),
            rva_readable(self.spec_sections(), self.spec_bytes(), rva as int, T::spec_size() as int),
        ensures
            match spec_rva_to_fo(self.spec_sections(), rva as int) {
                Some(fo) => r == Ok::<T, PeError>(T::spec_read(self.spec_bytes(), fo)),
                None => r == Err::<T, PeError>(PeError::RvaNotMapped),
            },
    {
        match self.rva_to_fo(rva) {
            Ok(fo) => Ok(self.read_from_fo::<T>(fo)),
            Err(e) => Err(e),
        }
    }

    /// The C string at the file offset of `rva`.
    fn read_c_str_from_rva(&self, rva: Rva) -> (r: Result<String, PeError>)
        requires
            self.inv(),
            rva_readable(self.spec_sections(), self.spec_bytes(), rva as int, 0),
        ensures
            string_result_view(r) == spec_read_c_str(
                self.spec_sections(),
                self.spec_bytes(),
                rva as int,
            ),
    {
        match self.rva_to_fo(rva) {
            Ok(fo) => self.read_c_str_from_fo(fo),
            Err(e) => Err(e),
        }
    }

    /// The C string at `fo`: its bytes up to a NUL or the end of the image, decoded lossily.
    fn read_c_str_from_fo(&self, fo: Fo) -> (r: Result<String, PeError>)
        requires
            self.inv(),
            fo <= self.spec_bytes().len(),
        ensures
            r matches Ok(s) && s@ == cstr_at(self.spec_bytes(), fo as int),
    {
        let bytes = self.bytes();
        Ok(read_cstr_lossy(bytes, fo))
    }

    /// The record of type `T` at `fo`.
    fn read_from_fo<T: RawStruct>(&self, fo: Fo) -> (r: T)
        requires
            self.inv(),
            fo + T::spec_size() <= self.spec_bytes().len(),
        ensures
            r == T::spec_read(self.spec_bytes(), fo as int),
    {
        T::read(self.bytes(), fo)
    }

    /// `size` bytes at the file offset of `rva`.
    fn read_from_rva_to_buf(&self, rva: Rva, size: usize) -> (r: Result<Vec<u8>, PeError>)
        requires
            self.inv(),
            rva_readable(self.spec_sections(), self.spec_bytes(), rva as int, size as int),
        ensures
            match spec_rva_to_fo(self.spec_sections(), rva as int) {
                Some(fo) => r matches Ok(v) && v@ == self.spec_bytes().subrange(fo, fo + size),
                None => r == Err::<Vec<u8>, PeError>(PeError::RvaNotMapped),
            },
    {
        match self.rva_to_fo(rva) {
            Ok(fo) => Ok(self.read_from_fo_to_buf(fo, size)),
            Err(e) => Err(e),
        }
    }

    /// `size` bytes at `fo`.
    fn read_from_fo_to_buf(&self, fo: Fo, size: usize) -> (r: Vec<u8>)
        requires
            self.inv(),
            fo + size <= self.spec_bytes().len(),
        ensures
            r@ == self.spec_bytes().subrange(fo as int, fo + size),
    {
        let bytes = self.bytes();
        assert(bytes@.len() == bytes.len());
        vstd::slice::slice_to_vec(vstd::slice::slice_subrange(bytes, fo, fo + size))
    }

    /// The architecture of the image.
    fn arch(&self) -> (r: Architecture)
        requires
            self.inv(),
        ensures
            r == spec_architecture(self.spec_headers().spec_nt_header().spec_file_header().machine),
    {
        self.headers().nt_header().file_header().arch()
    }
}

/// Where the section table of an image starts: after PE32+ NT headers at `e_lfanew`.
pub open spec fn spec_section_table_start(s: Seq<u8>) -> int {
    spec_nt_offset(s) + 264
}

/// The number of sections the file header of `s` announces.
pub open spec fn spec_number_of_sections(s: Seq<u8>) -> int {
    spec_nt64_of(s).file_header.number_of_sections as int
}

/// The headers of `s` can be read, and so can its section table and the sections' data.
pub open spec fn image_readable(s: Seq<u8>) -> bool {
    &&& pe_headers_readable(s)
    &&& spec_section_table_start(s) <= isize::MAX ==> section_table_readable(
        s,
        spec_number_of_sections(s),
        spec_section_table_start(s),
    )
}

/// An image whose bytes, and sections' data, are borrowed.
pub struct ImageRef<'a> {
    bytes: &'a [u8],
    headers: Option<PeHeaders>,
    section_table: Option<SectionTableRef<'a>>,
}

impl<'a> ImageRef<'a> {
    pub closed spec fn spec_headers_opt(&self) -> Option<PeHeaders> {
        self.headers
    }

    pub closed spec fn spec_table_opt(&self) -> Option<SectionTableRef<'a>> {
        self.section_table
    }

    pub closed spec fn spec_image_bytes(&self) -> Seq<u8> {
        self.bytes@
    }

    /// Reads the headers and the section table of `bytes`. A section table whose
    /// start does not fit in a signed offset is an error; headers or a table that
    /// cannot be read (see `image_readable`) are not handled.
    pub fn from_binary_bytes(bytes: &'a [u8]) -> (r: Result<Self, PeError>)
        requires
            image_readable(bytes@),
        ensures
            spec_section_table_start(bytes@) > isize::MAX ==> r == Err::<Self, PeError>(
                PeError::OffsetTooLarge,
            ),
            spec_section_table_start(bytes@) <= isize::MAX ==> (r matches Ok(img) && {
                &&& img.inv()
                &&& img.spec_bytes() == bytes@
                &&& img.spec_headers().spec_dos_header() == spec_dos_header_of(bytes@)
                &&& img.spec_headers().spec_dos_stub() == bytes@.subrange(
                    DOS_HEADER_SIZE as int,
                    (DOS_HEADER_SIZE + DOS_STUB_SIZE) as int,
                )
                &&& nt_headers_read_from(img.spec_headers().spec_nt_header(), bytes@)
                &&& sections_read_from(
                    img.spec_table_opt().unwrap().spec_headers(),
                    bytes@,
                    spec_number_of_sections(bytes@),
                    spec_section_table_start(bytes@),
                )
            }),
    {
        let headers = PeHeaders::from_bytes(bytes);

        let nt = headers.nt_header();
        let count = nt.file_header().number_of_sections();
        proof {
            match nt {
                NtHeadersKind::X32(h) => h.lemma_raw(),
                NtHeadersKind::X64(h) => h.lemma_raw(),
            }
        }
        let start = headers.dos_header().e_lfanew as usize + 264;

        let section_table = match SectionTableRef::from_bytes(bytes, count, start) {
            Ok(t) => t,
            Err(e) => return Err(e),
        };

        Ok(Self { bytes, headers: Some(headers), section_table: Some(section_table) })
    }

    /// Takes the section table out, its sections owning copies of their data.
    pub fn section_table_to_owned(&mut self) -> (r: Option<crate::section::section_table::SectionTableOwned>)
        ensures
            final(self).spec_table_opt() is None,
            final(self).spec_headers_opt() == old(self).spec_headers_opt(),
            final(self).spec_image_bytes() == old(self).spec_image_bytes(),
            old(self).spec_table_opt() is None ==> r is None,
            old(self).spec_table_opt() matches Some(t) ==> (r matches Some(o) && same_sections(
                o.spec_headers(),
                t.spec_headers(),
            ) && raws_of(o.spec_headers()) == raws_of(t.spec_headers())),
    {
        if let Some(table) = self.section_table.take() {
            let ghost hs = table.spec_headers();
            let o = table.to_owned();
            assert(raws_of(o.spec_headers()) =~= raws_of(hs));
            Some(o)
        } else {
            None
        }
    }

    /// Takes the headers out.
    pub fn headers_to_owned(&mut self) -> (r: Option<PeHeaders>)
        ensures
            r == old(self).spec_headers_opt(),
            final(self).spec_headers_opt() is None,
            final(self).spec_table_opt() == old(self).spec_table_opt(),
            final(self).spec_image_bytes() == old(self).spec_image_bytes(),
    {
        self.headers.take()
    }
}

impl<'a> Image for ImageRef<'a> {
    type Table = SectionTableRef<'a>;

    closed spec fn inv(&self) -> bool {
        self.headers is Some && self.section_table is Some
    }

    closed spec fn spec_bytes(&self) -> Seq<u8> {
        self.bytes@
    }

    closed spec fn spec_headers(&self) -> PeHeaders {
        self.headers.unwrap()
    }

    closed spec fn spec_sections(&self) -> Seq<IMAGE_SECTION_HEADER> {
        raws_of(self.section_table.unwrap().spec_headers())
    }

    fn bytes(&self) -> (r: &[u8]) {
        self.bytes
    }

    fn headers(&self) -> (r: &PeHeaders) {
        self.headers.as_ref().unwrap()
    }

    fn section_table(&self) -> (r: &SectionTableRef<'a>) {
        self.section_table.as_ref().unwrap()
    }
}

/// The raw section headers of the image in `s`.
pub open spec fn spec_sections_of(s: Seq<u8>) -> Seq<IMAGE_SECTION_HEADER> {
    Seq::new(
        spec_number_of_sections(s) as nat,
        |i: int| spec_raw_section(s, spec_section_table_start(s), i),
    )
}

/// The image in `s` is an AMD64 one.
pub open spec fn spec_is_x64_of(s: Seq<u8>) -> bool {
    spec_machine_of(s) == MACHINE_AMD64
}

/// The `idx`-th data directory of the image in `s`, as its format lays it out.
pub open spec fn spec_data_directory_of(s: Seq<u8>, idx: int) -> IMAGE_DATA_DIRECTORY {
    if spec_is_x64_of(s) {
        spec_nt64_of(s).optional_header.data_directory@[idx]
    } else {
        crate::pe_headers::spec_nt32_of(s).optional_header.data_directory@[idx]
    }
}

/// What the headers read from `s` say of its data directories and machine.
pub proof fn lemma_read_headers(h: PeHeaders, s: Seq<u8>)
    requires
        nt_headers_read_from(h.spec_nt_header(), s),
    ensures
        forall|idx: int|
            #![trigger h.spec_nt_header().spec_data_directory()[idx]]
            0 <= idx < 16 ==> h.spec_nt_header().spec_data_directory()[idx]
                == spec_data_directory_of(s, idx),
        h.spec_nt_header().spec_data_directory().len() == 16,
        (h.spec_nt_header().spec_file_header().machine == MACHINE_AMD64) == spec_is_x64_of(s),
{
    match h.spec_nt_header() {
        NtHeadersKind::X32(n) => {
            n.lemma_raw();
            n.spec_optional_header().lemma_view();
        },
        NtHeadersKind::X64(n) => {
            n.lemma_raw();
            n.spec_optional_header().lemma_view();
        },
    }
}

/// An owned image: its bytes, headers, sections, and the tables read from it.
pub struct ImageOwned {
    bytes: Vec<u8>,
    headers: PeHeaders,
    section_table: SectionTableOwned,
    import_table: Option<ImportTable>,
    exception_table: ExceptionTable,
    export_table: Option<ExportTable>,
}

/// The tables of an owned image, seen as their models.
pub type OwnedTablesModel = (
    Option<Seq<crate::import::ImportDescriptorModel>>,
    Seq<crate::exception::ExceptionEntryModel>,
    Option<(crate::windows_types::IMAGE_EXPORT_DIRECTORY, Seq<crate::export::ExportModel>)>,
);

impl ImageOwned {
    /// The sections, with their names and data.
    pub closed spec fn spec_section_headers(&self) -> Seq<crate::section::section_header::SectionHeaderOwned> {
        self.section_table.spec_headers()
    }

    /// The import, exception and export tables.
    pub closed spec fn spec_tables(&self) -> OwnedTablesModel {
        (
            import_result_view(Ok(self.import_table))->Ok_0,
            self.exception_table.spec_entries(),
            export_result_view(Ok(self.export_table))->Ok_0,
        )
    }

    /// Reads an image and its import, exception and export tables from `bytes`, in
    /// that order; the first error met is returned. An image or a table that cannot
    /// be read (see `owned_image_readable`) is not handled.
    pub fn from_binary(bytes: Vec<u8>) -> (r: Result<Self, PeError>)
        requires
            owned_image_readable(bytes@),
        ensures
            owned_result_view(r) == spec_owned_image(bytes@),
            r matches Ok(img) ==> {
                &&& img.spec_headers().spec_dos_header() == spec_dos_header_of(bytes@)
                &&& img.spec_headers().spec_dos_stub() == bytes@.subrange(
                    DOS_HEADER_SIZE as int,
                    (DOS_HEADER_SIZE + DOS_STUB_SIZE) as int,
                )
                &&& nt_headers_read_from(img.spec_headers().spec_nt_header(), bytes@)
                &&& sections_read_from(
                    img.spec_section_headers(),
                    bytes@,
                    spec_number_of_sections(bytes@),
                    spec_section_table_start(bytes@),
                )
            },
    {
        let ghost s = bytes@;
        let mut image_ref = match ImageRef::from_binary_bytes(bytes.as_slice()) {
            Ok(i) => i,
            Err(e) => return Err(e),
        };
        proof {
            lemma_read_headers(image_ref.spec_headers(), s);
            assert(image_ref.spec_sections() =~= spec_sections_of(s));
        }

        let import_table = match ImportTable::from_image(&image_ref) {
            Ok(t) => t,
            Err(e) => return Err(e),
        };

        let exception_table = match ExceptionTable::from_image(&image_ref) {
            Ok(t) => t,
            Err(e) => return Err(e),
        };

        let export_table = match ExportTable::from_image(&image_ref) {
            Ok(t) => t,
            Err(e) => return Err(e),
        };

        let headers = image_ref.headers_to_owned().unwrap();

        let ghost refs = image_ref.spec_table_opt().unwrap().spec_headers();
        let section_table = image_ref.section_table_to_owned().unwrap();
        proof {
            let hs = section_table.spec_headers();
            assert forall|i: int| 0 <= i < hs.len() implies {
                &&& (#[trigger] hs[i]).spec_raw() == refs[i].spec_raw()
                &&& hs[i].spec_name() == refs[i].spec_name()
                &&& hs[i].spec_bytes() == refs[i].spec_bytes()
            } by {}
        }

        Ok(Self { bytes, headers, section_table, import_table, exception_table, export_table })
    }
}

/// The image in `s` can be read, and so can each of its tables that is reached.
pub open spec fn owned_image_readable(s: Seq<u8>) -> bool {
    &&& image_readable(s)
    &&& spec_section_table_start(s) <= isize::MAX ==> {
        let secs = spec_sections_of(s);
        &&& import_table_readable(secs, s, spec_data_directory_of(s, 1), spec_is_x64_of(s))
        &&& spec_import_table(secs, s, spec_data_directory_of(s, 1), spec_is_x64_of(s)) is Ok ==> {
            &&& exception_table_readable(secs, s, spec_data_directory_of(s, 3))
            &&& spec_exception_table(secs, s, spec_data_directory_of(s, 3)) is Ok
                ==> export_table_readable(secs, s, spec_data_directory_of(s, 0))
        }
    }
}

/// What reading the owned image in `s` gives: its bytes, sections and tables, or
/// the first error met.
pub open spec fn spec_owned_image(s: Seq<u8>) -> Result<
    (Seq<u8>, Seq<IMAGE_SECTION_HEADER>, OwnedTablesModel),
    PeError,
> {
    if spec_section_table_start(s) > isize::MAX {
        Err(PeError::OffsetTooLarge)
    } else {
        let secs = spec_sections_of(s);
        match spec_import_table(secs, s, spec_data_directory_of(s, 1), spec_is_x64_of(s)) {
            Err(e) => Err(e),
            Ok(imports) => match spec_exception_table(secs, s, spec_data_directory_of(s, 3)) {
                Err(e) => Err(e),
                Ok(exceptions) => match spec_export_table(secs, s, spec_data_directory_of(s, 0)) {
                    Err(e) => Err(e),
                    Ok(exports) => Ok((s, secs, (imports, exceptions, exports))),
                },
            },
        }
    }
}

/// An owned image result, seen as its bytes, sections and tables.
pub open spec fn owned_result_view(r: Result<ImageOwned, PeError>) -> Result<
    (Seq<u8>, Seq<IMAGE_SECTION_HEADER>, OwnedTablesModel),
    PeError,
> {
    match r {
        Ok(i) => Ok((i.spec_bytes(), i.spec_sections(), i.spec_tables())),
        Err(e) => Err(e),
    }
}

impl Image for ImageOwned {
    type Table = SectionTableOwned;

    closed spec fn inv(&self) -> bool {
        true
    }

    closed spec fn spec_bytes(&self) -> Seq<u8> {
        self.bytes@
    }

    closed spec fn spec_headers(&self) -> PeHeaders {
        self.headers
    }

    closed spec fn spec_sections(&self) -> Seq<IMAGE_SECTION_HEADER> {
        raws_of(self.section_table.spec_headers())
    }

    fn bytes(&self) -> (r: &[u8]) {
        self.bytes.as_slice()
    }

    fn headers(&self) -> (r: &PeHeaders) {
        &self.headers
    }

    fn section_table(&self) -> (r: &SectionTableOwned) {
        &self.section_table
    }
}

impl<'a> ImageRef<'a> {
    /// The owned image with the same bytes, headers and sections, and the tables given.
    pub fn to_owned(
        self,
        import_table: Option<ImportTable>,
        exception_table: ExceptionTable,
        export_table: Option<ExportTable>,
    ) -> (r: ImageOwned)
        requires
            self.inv(),
        ensures
            r.spec_bytes() == self.spec_bytes(),
            r.spec_headers() == self.spec_headers(),
            r.spec_sections() == self.spec_sections(),
            same_sections(r.spec_section_headers(), self.spec_table_opt().unwrap().spec_headers()),
            r.spec_tables() == (
                import_result_view(Ok(import_table))->Ok_0,
                exception_table.spec_entries(),
                export_result_view(Ok(export_table))->Ok_0,
            ),
    {
        let table = self.section_table.unwrap();
        let ghost hs = table.spec_headers();
        let section_table = table.to_owned();
        assert(raws_of(section_table.spec_headers()) =~= raws_of(hs));
        ImageOwned {
            bytes: vstd::slice::slice_to_vec(self.bytes),
            headers: self.headers.unwrap(),
            section_table,
            import_table,
            exception_table,
            export_table,
        }
    }
}

/// The lookup of `rva` from section `i` on finds nothing exactly where no
/// section from `i` on holds it, and otherwise the offset in the first that does.
proof fn lemma_rva_lookup_from(secs: Seq<IMAGE_SECTION_HEADER>, rva: int, i: int)
    requires
        0 <= i <= secs.len(),
    ensures
        rva_to_fo_from(secs, rva, i) is None <==> forall|j: int|
            i <= j < secs.len() ==> !(#[trigger] secs[j].virtual_address <= rva < secs[j].virtual_address
                + secs[j].virtual_size),
        forall|j: int|
            i <= j < secs.len() && secs[j].virtual_address <= rva < secs[j].virtual_address
                + secs[j].virtual_size && (forall|k: int|
                i <= k < j ==> !(#[trigger] secs[k].virtual_address <= rva < secs[k].virtual_address
                    + secs[k].virtual_size)) ==> rva_to_fo_from(secs, rva, i) == Some(
                rva - #[trigger] secs[j].virtual_address + secs[j].pointer_to_raw_data,
            ),
    decreases secs.len() - i,
{
    if i < secs.len() {
        lemma_rva_lookup_from(secs, rva, i + 1);
    }
}

/// Looking `rva` up finds nothing exactly where no section holds it (from its
/// address up to its address plus its virtual size); otherwise it finds `rva`'s
/// place in the first section that holds it: its offset into that section
/// added to the section's file offset.
pub proof fn law_rva_lookup(secs: Seq<IMAGE_SECTION_HEADER>, rva: int)
    ensures
        spec_rva_to_fo(secs, rva) is None <==> forall|j: int|
            0 <= j < secs.len() ==> !(#[trigger] secs[j].virtual_address <= rva < secs[j].virtual_address
                + secs[j].virtual_size),
        forall|j: int|
            0 <= j < secs.len() && secs[j].virtual_address <= rva < secs[j].virtual_address
                + secs[j].virtual_size && (forall|k: int|
                0 <= k < j ==> !(#[trigger] secs[k].virtual_address <= rva < secs[k].virtual_address
                    + secs[k].virtual_size)) ==> spec_rva_to_fo(secs, rva) == Some(
                rva - #[trigger] secs[j].virtual_address + secs[j].pointer_to_raw_data,
            ),
{
    lemma_rva_lookup_from(secs, rva, 0);
}

/// Reading `count` records of type `T` at `rva`: an error where `rva` does not
/// map, an error where the `count` bytes from its file offset run past the end,
/// and otherwise `count` records, record `i` read `i` record sizes after that
/// offset.
pub proof fn law_read_slice<T: RawStruct>(secs: Seq<IMAGE_SECTION_HEADER>, s: Seq<u8>, rva: int, count: int)
    requires
        0 <= count,
    ensures
        spec_rva_to_fo(secs, rva) is None ==> spec_read_slice::<T>(secs, s, rva, count) == Err::<Seq<T>, PeError>(
            PeError::RvaNotMapped,
        ),
        spec_rva_to_fo(secs, rva) matches Some(fo) ==> (fo + count > s.len() ==> spec_read_slice::<T>(
            secs,
            s,
            rva,
            count,
        ) == Err::<Seq<T>, PeError>(PeError::OutOfRange)),
        spec_rva_to_fo(secs, rva) matches Some(fo) ==> (fo + count <= s.len() ==> (spec_read_slice::<T>(
            secs,
            s,
            rva,
            count,
        ) matches Ok(v) && v.len() == count && forall|i: int|
            0 <= i < count ==> #[trigger] v[i] == T::spec_read(s, fo + i * T::spec_size()))),
{
}

/// Reading a C string at `rva`: an error where `rva` does not map, and the text
/// up to the first NUL at its file offset otherwise.
pub proof fn law_read_c_str(secs: Seq<IMAGE_SECTION_HEADER>, s: Seq<u8>, rva: int)
    ensures
        spec_rva_to_fo(secs, rva) is None ==> spec_read_c_str(secs, s, rva) == Err::<Seq<char>, PeError>(
            PeError::RvaNotMapped,
        ),
        spec_rva_to_fo(secs, rva) matches Some(fo) ==> spec_read_c_str(secs, s, rva) == Ok::<Seq<char>, PeError>(
            cstr_at(s, fo),
        ),
{
}

} // verus!
