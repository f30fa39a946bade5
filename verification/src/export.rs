//! The export directory of an image: its functions, their names and ordinals.
use vstd::prelude::*;

use crate::error::PeError;
use crate::pe::{
    Image, Rva, rva_readable, slice_read_safe, spec_read_c_str, spec_read_slice, spec_rva_to_fo,
    string_result_view, vec_result_view,
};
use crate::pe_headers::nt_header::NtHeader;
use crate::pe_headers::optional_header::OptionalHeader;
use crate::cstr::cstr_at;
use crate::raw::RawStruct;
use crate::windows_types::{IMAGE_DATA_DIRECTORY, IMAGE_EXPORT_DIRECTORY, IMAGE_SECTION_HEADER};

verus! {

/// The index of the export directory among the data directories.
pub const EXPORT_DIRECTORY_TABLE_INDEX: usize = 0;

/// An exported function: its address, its name where one could be read, and its ordinal.
pub type ExportModel = (Rva, Option<Seq<char>>, usize);

/// The text of a name, where one was read.
pub open spec fn ok_text(r: Result<Seq<char>, PeError>) -> Option<Seq<char>> {
    match r {
        Ok(t) => Some(t),
        Err(_) => None,
    }
}

/// The names at the given addresses; `None` for one whose address does not map.
pub open spec fn spec_export_names(
    secs: Seq<IMAGE_SECTION_HEADER>,
    s: Seq<u8>,
    names: Seq<u32>,
) -> Seq<Option<Seq<char>>> {
    names.map_values(|r: u32| ok_text(spec_read_c_str(secs, s, r as int)))
}

/// The exports: function `i` with name `i` and ordinal `i`, for every `i` that
/// all three lists reach.
pub open spec fn spec_export_entries(
    functions: Seq<u32>,
    names: Seq<Option<Seq<char>>>,
    ordinals: Seq<u16>,
) -> Seq<ExportModel> {
    let n = if names.len() < functions.len() {
        names.len()
    } else {
        functions.len()
    };
    let n = if ordinals.len() < n {
        ordinals.len()
    } else {
        n
    };
    Seq::new(n, |i: int| (functions[i] as Rva, names[i], ordinals[i] as usize))
}

/// What reading the export table described by `dir` gives: nothing where the
/// directory is empty, the first error met, or the export directory and its entries.
pub open spec fn spec_export_table(
    secs: Seq<IMAGE_SECTION_HEADER>,
    s: Seq<u8>,
    dir: IMAGE_DATA_DIRECTORY,
) -> Result<Option<(IMAGE_EXPORT_DIRECTORY, Seq<ExportModel>)>, PeError> {
    if dir.virtual_address == 0 || dir.size == 0 {
        Ok(None)
    } else {
        match spec_rva_to_fo(secs, dir.virtual_address as int) {
            None => Err(PeError::RvaNotMapped),
            Some(fo) => {
                let d = IMAGE_EXPORT_DIRECTORY::spec_read(s, fo);
                match spec_read_slice::<u32>(
                    secs,
                    s,
                    d.address_of_functions as int,
                    d.number_of_functions as int,
                ) {
                    Err(e) => Err(e),
                    Ok(functions) => match spec_read_slice::<u32>(
                        secs,
                        s,
                        d.address_of_names as int,
                        d.number_of_names as int,
                    ) {
                        Err(e) => Err(e),
                        Ok(name_rvas) => match spec_read_slice::<u16>(
                            secs,
                            s,
                            d.address_of_name_ordinals as int,
                            d.number_of_functions as int,
                        ) {
                            Err(e) => Err(e),
                            Ok(ordinals) => Ok(
                                Some(
                                    (
                                        d,
                                        spec_export_entries(
                                            functions,
                                            spec_export_names(secs, s, name_rvas),
                                            ordinals,
                                        ),
                                    ),
                                ),
                            ),
                        },
                    },
                }
            },
        }
    }
}

/// Reading the export table described by `dir` reads nothing outside the image
/// and overflows no lookup or offset, at each step that it reaches.
pub open spec fn export_table_readable(
    secs: Seq<IMAGE_SECTION_HEADER>,
    s: Seq<u8>,
    dir: IMAGE_DATA_DIRECTORY,
) -> bool {
    dir.virtual_address != 0 && dir.size != 0 ==> {
        &&& rva_readable(secs, s, dir.virtual_address as int, 40)
        &&& spec_rva_to_fo(secs, dir.virtual_address as int) matches Some(fo) ==> {
            let d = IMAGE_EXPORT_DIRECTORY::spec_read(s, fo);
            &&& slice_read_safe::<u32>(secs, s, d.address_of_functions as int, d.number_of_functions as int)
            &&& spec_read_slice::<u32>(
                secs,
                s,
                d.address_of_functions as int,
                d.number_of_functions as int,
            ) is Ok ==> {
                &&& slice_read_safe::<u32>(secs, s, d.address_of_names as int, d.number_of_names as int)
                &&& spec_read_slice::<u32>(
                    secs,
                    s,
                    d.address_of_names as int,
                    d.number_of_names as int,
                ) matches Ok(name_rvas) ==> {
                    &&& forall|i: int|
                        0 <= i < name_rvas.len() ==> rva_readable(
                            secs,
                            s,
                            #[trigger] name_rvas[i] as int,
                            0,
                        )
                    &&& slice_read_safe::<u16>(secs, s,
                        d.address_of_name_ordinals as int,
                        d.number_of_functions as int,
                    )
                }
            }
        }
    }
}

/// The export directory of an image and its entries.
#[derive(Debug)]
pub struct ExportTable {
    raw: IMAGE_EXPORT_DIRECTORY,
    entrys: Vec<ExportAddressEntry>,
}

impl ExportTable {
    pub closed spec fn spec_raw(&self) -> IMAGE_EXPORT_DIRECTORY {
        self.raw
    }

    /// The entries, each seen as its address, name and ordinal.
    pub closed spec fn spec_entries(&self) -> Seq<ExportModel> {
        self.entrys@.map_values(|e: ExportAddressEntry| e@)
    }

    /// Reads the export table of an image: `None` where it has none. A table that
    /// cannot be read (see `export_table_readable`) is not handled.
    pub fn from_image<I: Image>(image: &I) -> (r: Result<Option<Self>, PeError>)
        requires
            image.inv(),
            export_table_readable(
                image.spec_sections(),
                image.spec_bytes(),
                image.spec_headers().spec_nt_header().spec_data_directory()[EXPORT_DIRECTORY_TABLE_INDEX as int],
            ),
        ensures
            export_result_view(r) == spec_export_table(
                image.spec_sections(),
                image.spec_bytes(),
                image.spec_headers().spec_nt_header().spec_data_directory()[EXPORT_DIRECTORY_TABLE_INDEX as int],
            ),
    {
        let ghost secs = image.spec_sections();
        let ghost s = image.spec_bytes();
        let export_directory_image = image.headers().nt_header().optional_header().data_directory()[EXPORT_DIRECTORY_TABLE_INDEX];

        if export_directory_image.virtual_address == 0 || export_directory_image.size == 0 {
            return Ok(None);
        }

        let export_directory = match image.read_from_rva::<IMAGE_EXPORT_DIRECTORY>(
            export_directory_image.virtual_address as Rva,
        ) {
            Ok(d) => d,
            Err(e) => return Err(e),
        };

        let functions = match image.read_slice_from_rva::<u32>(
            export_directory.address_of_functions as Rva,
            export_directory.number_of_functions as usize,
        ) {
            Ok(v) => v,
            Err(e) => return Err(e),
        };

        let name_rvas = match image.read_slice_from_rva::<u32>(
            export_directory.address_of_names as Rva,
            export_directory.number_of_names as usize,
        ) {
            Ok(v) => v,
            Err(e) => return Err(e),
        };
        let mut names: Vec<Option<String>> = Vec::new();
        let mut k: usize = 0;
        while k < name_rvas.len()
            invariant
                image.inv(),
                secs == image.spec_sections(),
                s == image.spec_bytes(),
                0 <= k <= name_rvas@.len(),
                forall|i: int| 0 <= i < name_rvas@.len() ==> rva_readable(secs, s, #[trigger] name_rvas@[i] as int, 0),
                names@.len() == k,
                forall|i: int|
                    0 <= i < k ==> option_text(#[trigger] names@[i]) == spec_export_names(
                        secs,
                        s,
                        name_rvas@,
                    )[i],
            decreases name_rvas@.len() - k,
        {
            let name = image.read_c_str_from_rva(name_rvas[k] as Rva);
            let entry = match name {
                Ok(n) => Some(n),
                Err(_) => None,
            };
            names.push(entry);
            k = k + 1;
        }

        let ordinals = match image.read_slice_from_rva::<u16>(
            export_directory.address_of_name_ordinals as Rva,
            export_directory.number_of_functions as usize,
        ) {
            Ok(v) => v,
            Err(e) => return Err(e),
        };

        let number = export_directory.number_of_functions as usize;
        let ghost expected = spec_export_entries(
            functions@,
            spec_export_names(secs, s, name_rvas@),
            ordinals@,
        );

        let mut address_entrys: Vec<ExportAddressEntry> = Vec::new();
        let mut i: usize = 0;
        while i < number
            invariant
                0 <= i <= number,
                number == functions@.len(),
                number == ordinals@.len(),
                names@.len() == name_rvas@.len(),
                forall|j: int|
                    0 <= j < names@.len() ==> option_text(#[trigger] names@[j]) == spec_export_names(
                        secs,
                        s,
                        name_rvas@,
                    )[j],
                expected == spec_export_entries(
                    functions@,
                    spec_export_names(secs, s, name_rvas@),
                    ordinals@,
                ),
                address_entrys@.len() == if i < names@.len() {
                    i as int
                } else {
                    names@.len() as int
                },
                forall|j: int|
                    0 <= j < address_entrys@.len() ==> (#[trigger] address_entrys@[j])@ == expected[j],
            decreases number - i,
        {
            if i < names.len() {
                let name = clone_name(&names[i]);
                address_entrys.push(ExportAddressEntry::new(functions[i] as Rva, name, ordinals[i] as usize));
            }
            i = i + 1;
        }

        let t = Self { raw: export_directory, entrys: address_entrys };
        assert(t.spec_entries() =~= expected);
        Ok(Some(t))
    }
}

/// The text of a name, where there is one.
pub open spec fn option_text(o: Option<String>) -> Option<Seq<char>> {
    match o {
        Some(s) => Some(s@),
        None => None,
    }
}

/// An export table result, seen as its directory and entries.
pub open spec fn export_result_view(r: Result<Option<ExportTable>, PeError>) -> Result<
    Option<(IMAGE_EXPORT_DIRECTORY, Seq<ExportModel>)>,
    PeError,
> {
    match r {
        Ok(Some(t)) => Ok(Some((t.spec_raw(), t.spec_entries()))),
        Ok(None) => Ok(None),
        Err(e) => Err(e),
    }
}

fn clone_name(o: &Option<String>) -> (r: Option<String>)
    ensures
        option_text(r) == option_text(*o),
{
    match o {
        Some(s) => Some(s.clone()),
        None => None,
    }
}

/// One exported function.
#[derive(Debug)]
pub struct ExportAddressEntry {
    export_rva: Rva,
    name: Option<String>,
    ordinal: usize,
}

impl View for ExportAddressEntry {
    type V = ExportModel;

    closed spec fn view(&self) -> ExportModel {
        (self.export_rva, option_text(self.name), self.ordinal)
    }
}

impl ExportAddressEntry {
    pub fn new(export_rva: Rva, name: Option<String>, ordinal: usize) -> (r: Self)
        ensures
            r@ == (export_rva, option_text(name), ordinal),
    {
        Self { export_rva, name, ordinal }
    }
}

/// What reading an export table gives: the export directory record at the file
/// offset of the directory's address, and one entry for each index that both the
/// functions and the names reach, entry `i` holding function address `i`, the C
/// string at the file offset of name address `i` (none where that address does
/// not map), and ordinal `i`, read from the three arrays the record names.
pub proof fn law_export_table_read(secs: Seq<IMAGE_SECTION_HEADER>, s: Seq<u8>, dir: IMAGE_DATA_DIRECTORY)
    requires
        spec_export_table(secs, s, dir) matches Ok(Some(_)),
    ensures
        spec_export_table(secs, s, dir) matches Ok(Some((d, es))) && {
            &&& spec_rva_to_fo(secs, dir.virtual_address as int) matches Some(fo) && d
                == IMAGE_EXPORT_DIRECTORY::spec_read(s, fo)
            &&& spec_read_slice::<u32>(secs, s, d.address_of_functions as int, d.number_of_functions as int)
                matches Ok(fs)
            &&& spec_read_slice::<u32>(secs, s, d.address_of_names as int, d.number_of_names as int)
                matches Ok(ns)
            &&& spec_read_slice::<u16>(
                secs,
                s,
                d.address_of_name_ordinals as int,
                d.number_of_functions as int,
            ) matches Ok(os)
            &&& es.len() == (if d.number_of_functions < d.number_of_names {
                d.number_of_functions as int
            } else {
                d.number_of_names as int
            })
            &&& forall|i: int|
                0 <= i < es.len() ==> #[trigger] es[i] == (
                    fs[i] as Rva,
                    match spec_rva_to_fo(secs, ns[i] as int) {
                        Some(f) => Some(cstr_at(s, f)),
                        None => None,
                    },
                    os[i] as usize,
                )
        },
{
    let (d, es) = spec_export_table(secs, s, dir)->Ok_0->Some_0;
    let fs = spec_read_slice::<u32>(secs, s, d.address_of_functions as int, d.number_of_functions as int)->Ok_0;
    let ns = spec_read_slice::<u32>(secs, s, d.address_of_names as int, d.number_of_names as int)->Ok_0;
    let os = spec_read_slice::<u16>(
        secs,
        s,
        d.address_of_name_ordinals as int,
        d.number_of_functions as int,
    )->Ok_0;
    assert(fs.len() == d.number_of_functions);
    assert(ns.len() == d.number_of_names);
    assert(os.len() == d.number_of_functions);
}

} // verus!
