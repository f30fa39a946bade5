//! The exception directory of an image: its function entries and their unwind
//! information.
use vstd::prelude::*;

use crate::error::PeError;
use crate::pe::{Image, Rva, rva_readable, spec_rva_to_fo};
use crate::pe_headers::nt_header::NtHeader;
use crate::pe_headers::optional_header::OptionalHeader;
use crate::raw::{RawStruct, le_u16, lemma_le_window, read_u16};
use crate::windows_types::{IMAGE_DATA_DIRECTORY, IMAGE_FUNCTION_ENTRY64, IMAGE_SECTION_HEADER, UNWIND_INFO};

verus! {

/// The index of the exception directory among the data directories.
pub const EXCEPTION_DIRECTORY_TABLE_INDEX: usize = 3;

/// The size of one unwind code.
pub const UNWIND_CODE_SIZE: usize = 2;

/// The size of one function entry.
pub const FUNCTION_ENTRY_SIZE: usize = 12;

/// Unwind information: its fixed head and its unwind codes.
pub type UnwindModel = (UNWIND_INFO, Seq<u16>);

/// The `n` unwind codes stored from `fo` on.
pub open spec fn spec_unwind_codes(s: Seq<u8>, fo: int, n: int) -> Seq<u16> {
    Seq::new(n as nat, |i: int| le_u16(s, fo + UNWIND_CODE_SIZE * i))
}

/// What reading the unwind information at `addr` gives.
pub open spec fn spec_unwind_info(secs: Seq<IMAGE_SECTION_HEADER>, s: Seq<u8>, addr: int) -> Result<
    UnwindModel,
    PeError,
> {
    match spec_rva_to_fo(secs, addr) {
        None => Err(PeError::RvaNotMapped),
        Some(fo) => {
            let raw = UNWIND_INFO::spec_read(s, fo);
            let n = raw.count_of_unwind_codes as int;
            if n <= 0 {
                Ok((raw, Seq::empty()))
            } else {
                match spec_rva_to_fo(secs, addr + 4) {
                    None => Err(PeError::RvaNotMapped),
                    Some(codes) => Ok((raw, spec_unwind_codes(s, codes, n))),
                }
            }
        },
    }
}

/// Reading the unwind information at `addr` stays in the image and overflows
/// no lookup or offset.
pub open spec fn unwind_info_readable(secs: Seq<IMAGE_SECTION_HEADER>, s: Seq<u8>, addr: int) -> bool {
    &&& rva_readable(secs, s, addr, 4)
    &&& spec_rva_to_fo(secs, addr) matches Some(fo) ==> {
        let n = UNWIND_INFO::spec_read(s, fo).count_of_unwind_codes as int;
        n > 0 ==> {
            &&& addr + 4 <= usize::MAX
            &&& rva_readable(secs, s, addr + 4, UNWIND_CODE_SIZE * n)
        }
    }
}

/// A result holding unwind information, seen as its model.
pub open spec fn unwind_result_view(r: Result<UnwindInfo, PeError>) -> Result<UnwindModel, PeError> {
    match r {
        Ok(u) => Ok(u@),
        Err(e) => Err(e),
    }
}

/// The unwind information of one function.
#[derive(Debug)]
pub struct UnwindInfo {
    raw: UNWIND_INFO,
    unwind_codes: Vec<u16>,
}

impl View for UnwindInfo {
    type V = UnwindModel;

    closed spec fn view(&self) -> UnwindModel {
        (self.raw, self.unwind_codes@)
    }
}

impl UnwindInfo {
    /// Reads the unwind information at `unwind_info_address`. Information that
    /// cannot be read (see `unwind_info_readable`) is not handled.
    pub fn from_image<I: Image>(unwind_info_address: Rva, image: &I) -> (r: Result<Self, PeError>)
        requires
            image.inv(),
            unwind_info_readable(image.spec_sections(), image.spec_bytes(), unwind_info_address as int),
        ensures
            unwind_result_view(r) == spec_unwind_info(
                image.spec_sections(),
                image.spec_bytes(),
                unwind_info_address as int,
            ),
    {
        let raw_unwind_info = match image.read_from_rva::<UNWIND_INFO>(unwind_info_address) {
            Ok(u) => u,
            Err(e) => return Err(e),
        };

        let code_count = raw_unwind_info.count_of_unwind_codes as usize;

        if code_count == 0 {
            let r = Self { raw: raw_unwind_info, unwind_codes: Vec::new() };
            assert(r@.1 =~= Seq::<u16>::empty());
            return Ok(r);
        }

        let unwind_codes_raw = match image.read_from_rva_to_buf(
            unwind_info_address + 4,
            code_count * UNWIND_CODE_SIZE,
        ) {
            Ok(b) => b,
            Err(e) => return Err(e),
        };
        let ghost fo = spec_rva_to_fo(image.spec_sections(), unwind_info_address + 4).unwrap();
        let ghost s = image.spec_bytes();

        let mut unwind_codes: Vec<u16> = Vec::new();
        let mut i: usize = 0;
        while i < code_count
            invariant
                0 <= i <= code_count,
                code_count <= 255,
                0 <= fo,
                fo + code_count * UNWIND_CODE_SIZE <= s.len(),
                unwind_codes_raw@.len() == code_count * UNWIND_CODE_SIZE,
                unwind_codes_raw@ == s.subrange(fo, fo + code_count * UNWIND_CODE_SIZE),
                unwind_codes@ == spec_unwind_codes(s, fo, i as int),
            decreases code_count - i,
        {
            let code = read_u16(unwind_codes_raw.as_slice(), UNWIND_CODE_SIZE * i);
            proof {
                let w = unwind_codes_raw@;
                let a = UNWIND_CODE_SIZE * i as int;
                assert forall|k: int| 0 <= k < 2 implies #[trigger] w[a + k] == s[(fo + a) + k] by {}
                lemma_le_window(w, a, s, fo + a, 2);
            }
            unwind_codes.push(code);
            i = i + 1;
            assert(unwind_codes@ =~= spec_unwind_codes(s, fo, i as int));
        }

        Ok(Self { raw: raw_unwind_info, unwind_codes })
    }
}

/// One function entry: the entry and its unwind information.
pub type ExceptionEntryModel = (IMAGE_FUNCTION_ENTRY64, UnwindModel);

/// One entry of the exception table.
#[derive(Debug)]
pub struct ExceptionTableEntry {
    func_entry: IMAGE_FUNCTION_ENTRY64,
    unwind_info: UnwindInfo,
}

impl View for ExceptionTableEntry {
    type V = ExceptionEntryModel;

    closed spec fn view(&self) -> ExceptionEntryModel {
        (self.func_entry, self.unwind_info@)
    }
}

impl ExceptionTableEntry {
    /// The entry of `func_entry`, with its unwind information read.
    pub fn from_image<I: Image>(func_entry: IMAGE_FUNCTION_ENTRY64, image: &I) -> (r: Result<Self, PeError>)
        requires
            image.inv(),
            unwind_info_readable(
                image.spec_sections(),
                image.spec_bytes(),
                func_entry.unwind_info_address as int,
            ),
        ensures
            match spec_unwind_info(
                image.spec_sections(),
                image.spec_bytes(),
                func_entry.unwind_info_address as int,
            ) {
                Ok(u) => r matches Ok(e) && e@ == (func_entry, u),
                Err(err) => r == Err::<Self, PeError>(err),
            },
    {
        let unwind_info = match UnwindInfo::from_image(func_entry.unwind_info_address as Rva, image) {
            Ok(u) => u,
            Err(e) => return Err(e),
        };

        Ok(Self { func_entry, unwind_info })
    }
}

/// The `i`-th function entry stored from `fo` on.
pub open spec fn spec_function_entry(s: Seq<u8>, fo: int, i: int) -> IMAGE_FUNCTION_ENTRY64 {
    IMAGE_FUNCTION_ENTRY64::spec_read(s, fo + FUNCTION_ENTRY_SIZE * i)
}

/// What reading the exception table described by `dir` gives, where every
/// entry's unwind information can be read.
pub open spec fn spec_exception_table(
    secs: Seq<IMAGE_SECTION_HEADER>,
    s: Seq<u8>,
    dir: IMAGE_DATA_DIRECTORY,
) -> Result<Seq<ExceptionEntryModel>, PeError> {
    if dir.virtual_address == 0 && dir.size == 0 {
        Err(PeError::NoExceptionDirectory)
    } else {
        match spec_rva_to_fo(secs, dir.virtual_address as int) {
            None => Err(PeError::RvaNotMapped),
            Some(fo) => Ok(
                Seq::new(
                    dir.size as nat / FUNCTION_ENTRY_SIZE as nat,
                    |i: int|
                        {
                            let fe = spec_function_entry(s, fo, i);
                            (fe, spec_unwind_info(secs, s, fe.unwind_info_address as int)->Ok_0)
                        },
                ),
            ),
        }
    }
}

/// Reading the exception table described by `dir` stays in the image, overflows
/// no lookup or offset, and finds the unwind information of every entry.
pub open spec fn exception_table_readable(
    secs: Seq<IMAGE_SECTION_HEADER>,
    s: Seq<u8>,
    dir: IMAGE_DATA_DIRECTORY,
) -> bool {
    !(dir.virtual_address == 0 && dir.size == 0) ==> {
        &&& rva_readable(secs, s, dir.virtual_address as int, dir.size as int)
        &&& spec_rva_to_fo(secs, dir.virtual_address as int) matches Some(fo) ==> forall|i: int|
            0 <= i < dir.size as int / FUNCTION_ENTRY_SIZE as int ==> {
                let fe = #[trigger] spec_function_entry(s, fo, i);
                &&& unwind_info_readable(secs, s, fe.unwind_info_address as int)
                &&& spec_unwind_info(secs, s, fe.unwind_info_address as int) is Ok
            }
    }
}

/// The exception directory entry of an image.
pub open spec fn spec_exception_directory<I: Image>(image: &I) -> IMAGE_DATA_DIRECTORY {
    image.spec_headers().spec_nt_header().spec_data_directory()[EXCEPTION_DIRECTORY_TABLE_INDEX as int]
}

/// A result holding an exception table, seen as its entries.
pub open spec fn exception_result_view(r: Result<ExceptionTable, PeError>) -> Result<
    Seq<ExceptionEntryModel>,
    PeError,
> {
    match r {
        Ok(t) => Ok(t.spec_entries()),
        Err(e) => Err(e),
    }
}

/// The function entries of an image, with their unwind information.
#[derive(Debug)]
pub struct ExceptionTable {
    entrys: Vec<ExceptionTableEntry>,
}

impl ExceptionTable {
    pub closed spec fn spec_entries(&self) -> Seq<ExceptionEntryModel> {
        self.entrys@.map_values(|e: ExceptionTableEntry| e@)
    }

    /// Reads the exception table of an image; one without an exception directory
    /// is an error. A table that cannot be read, or an entry whose unwind
    /// information cannot be found (see `exception_table_readable`), is not handled.
    pub fn from_image<I: Image>(image: &I) -> (r: Result<Self, PeError>)
        requires
            image.inv(),
            exception_table_readable(
                image.spec_sections(),
                image.spec_bytes(),
                spec_exception_directory(image),
            ),
        ensures
            exception_result_view(r) == spec_exception_table(
                image.spec_sections(),
                image.spec_bytes(),
                spec_exception_directory(image),
            ),
    {
        let ghost secs = image.spec_sections();
        let ghost s = image.spec_bytes();
        let exception_directory_image = image.headers().nt_header().optional_header().data_directory()[EXCEPTION_DIRECTORY_TABLE_INDEX];
        let ghost dir = exception_directory_image;

        if exception_directory_image.virtual_address == 0 && exception_directory_image.size == 0 {
            return Err(PeError::NoExceptionDirectory);
        }

        let exception_table_entrys_bytes = match image.read_from_rva_to_buf(
            exception_directory_image.virtual_address as Rva,
            exception_directory_image.size as usize,
        ) {
            Ok(b) => b,
            Err(e) => return Err(e),
        };
        let ghost fo = spec_rva_to_fo(secs, dir.virtual_address as int).unwrap();

        let count = exception_directory_image.size as usize / FUNCTION_ENTRY_SIZE;
        let ghost expected = spec_exception_table(secs, s, dir)->Ok_0;

        let mut entrys: Vec<ExceptionTableEntry> = Vec::new();
        let mut i: usize = 0;
        while i < count
            invariant
                image.inv(),
                secs == image.spec_sections(),
                s == image.spec_bytes(),
                exception_table_readable(secs, s, dir),
                dir.virtual_address != 0 || dir.size != 0,
                spec_rva_to_fo(secs, dir.virtual_address as int) == Some(fo),
                count == dir.size as int / FUNCTION_ENTRY_SIZE as int,
                exception_table_entrys_bytes@ == s.subrange(fo, fo + dir.size),
                expected == spec_exception_table(secs, s, dir)->Ok_0,
                expected.len() == count,
                0 <= i <= count,
                entrys@.len() == i,
                forall|j: int|
                    0 <= j < i ==> (#[trigger] entrys@[j])@ == expected[j],
            decreases count - i,
        {
            assert(FUNCTION_ENTRY_SIZE * i + FUNCTION_ENTRY_SIZE <= dir.size);
            let entry = IMAGE_FUNCTION_ENTRY64::read(
                exception_table_entrys_bytes.as_slice(),
                FUNCTION_ENTRY_SIZE * i,
            );
            proof {
                let w = exception_table_entrys_bytes@;
                assert forall|k: int| 0 <= k < FUNCTION_ENTRY_SIZE implies #[trigger] w[
                    FUNCTION_ENTRY_SIZE * i + k] == s[(fo + FUNCTION_ENTRY_SIZE * i) + k] by {}
                IMAGE_FUNCTION_ENTRY64::lemma_read_window(
                    w,
                    FUNCTION_ENTRY_SIZE * i as int,
                    s,
                    fo + FUNCTION_ENTRY_SIZE * i,
                );
                assert(entry == spec_function_entry(s, fo, i as int));
            }
            let e = match ExceptionTableEntry::from_image(entry, image) {
                Ok(e) => e,
                Err(_) => return Err(PeError::RvaNotMapped),
            };
            entrys.push(e);
            i = i + 1;
        }

        let t = Self { entrys };
        assert(t.spec_entries() =~= expected);
        Ok(t)
    }
}

/// Unwind information read at `addr` holds the record at the file offset of
/// `addr` and as many unwind codes as its count says, code `i` being the
/// little-endian 16-bit value `2 * i` bytes after the file offset of `addr + 4`.
pub proof fn law_unwind_codes_read(secs: Seq<IMAGE_SECTION_HEADER>, s: Seq<u8>, addr: int)
    requires
        spec_unwind_info(secs, s, addr) is Ok,
    ensures
        spec_unwind_info(secs, s, addr) matches Ok((raw, codes)) && {
            &&& spec_rva_to_fo(secs, addr) matches Some(fo) && raw == UNWIND_INFO::spec_read(s, fo)
            &&& codes.len() == raw.count_of_unwind_codes
            &&& forall|i: int|
                0 <= i < codes.len() ==> (spec_rva_to_fo(secs, addr + 4) matches Some(cfo) && #[trigger] codes[i]
                    == le_u16(s, cfo + 2 * i))
        },
{
}

/// Unwind information can be read at `addr` exactly where `addr` maps and, for a
/// record with codes, so does `addr + 4`.
pub proof fn law_unwind_info_ok(secs: Seq<IMAGE_SECTION_HEADER>, s: Seq<u8>, addr: int)
    ensures
        spec_unwind_info(secs, s, addr) is Ok <==> (spec_rva_to_fo(secs, addr) matches Some(fo) && (
            UNWIND_INFO::spec_read(s, fo).count_of_unwind_codes > 0 ==> spec_rva_to_fo(secs, addr + 4)
                is Some)),
{
}

/// What reading an exception table gives: an error where the directory is
/// all zero or its address does not map, and otherwise one entry for each whole
/// 12-byte record of the directory, entry `i` holding the record `12 * i` bytes
/// after the directory's file offset and the unwind information at the record's
/// unwind address.
pub proof fn law_exception_table_read(secs: Seq<IMAGE_SECTION_HEADER>, s: Seq<u8>, dir: IMAGE_DATA_DIRECTORY)
    ensures
        dir.virtual_address == 0 && dir.size == 0 ==> spec_exception_table(secs, s, dir) == Err::<
            Seq<ExceptionEntryModel>,
            PeError,
        >(PeError::NoExceptionDirectory),
        !(dir.virtual_address == 0 && dir.size == 0) && spec_rva_to_fo(secs, dir.virtual_address as int) is None
            ==> spec_exception_table(secs, s, dir) == Err::<Seq<ExceptionEntryModel>, PeError>(
            PeError::RvaNotMapped,
        ),
        !(dir.virtual_address == 0 && dir.size == 0) ==> (spec_rva_to_fo(secs, dir.virtual_address as int) matches Some(
            fo,
        ) ==> (spec_exception_table(secs, s, dir) matches Ok(es) && es.len() == dir.size / 12 && forall|i: int|
            0 <= i < es.len() ==> #[trigger] es[i] == (
                IMAGE_FUNCTION_ENTRY64::spec_read(s, fo + 12 * i),
                spec_unwind_info(
                    secs,
                    s,
                    IMAGE_FUNCTION_ENTRY64::spec_read(s, fo + 12 * i).unwind_info_address as int,
                )->Ok_0,
            ))),
{
}

} // verus!
