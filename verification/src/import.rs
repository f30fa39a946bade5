//! The import directory of an image: the libraries it imports from, and what it
//! imports from each, by name or by ordinal.
use vstd::prelude::*;

use crate::arch::{Architecture, MACHINE_AMD64};
use crate::error::PeError;
use crate::pe::{
    Fo, Image, Rva, rva_lookup_safe, rva_readable, spec_read_c_str, spec_rva_to_fo,
    string_result_view,
};
use crate::pe_headers::nt_header::NtHeader;
use crate::pe_headers::optional_header::OptionalHeader;
use crate::cstr::cstr_at;
use crate::raw::{RawStruct, le_u32, le_u64};
use crate::windows_types::{IMAGE_DATA_DIRECTORY, IMAGE_IMPORT_DESCRIPTOR, IMAGE_SECTION_HEADER};

verus! {

/// The index of the import directory among the data directories.
pub const IMPORT_DIRECTORY_TABLE_INDEX: usize = 1;

/// The size of one import descriptor.
pub const IMPORT_DESCRIPTOR_SIZE: usize = 20;

/// The most lookup-table entries read for one library.
pub const MAX_IMPORTS_PER_LIBRARY: usize = 1024;

/// One imported function: its name or ordinal, and the file offset of its slot in
/// the import address table.
pub enum ImportEntryModel {
    Name(Seq<char>, Fo),
    Ordinal(usize, Fo),
}

/// One imported library: its name, forwarder chain, the file offsets of its lookup
/// and address tables, and its imported functions.
pub struct ImportDescriptorModel {
    pub name: Seq<char>,
    pub forwarder_chain: u32,
    pub import_lookup_table: Fo,
    pub import_address_table: Fo,
    pub entries: Seq<ImportEntryModel>,
}

/// The width of a lookup-table entry.
pub open spec fn thunk_width(x64: bool) -> int {
    if x64 {
        8
    } else {
        4
    }
}

/// The `i`-th lookup-table entry of a table at `ilt`.
pub open spec fn spec_thunk(s: Seq<u8>, ilt: int, i: int, x64: bool) -> u64 {
    if x64 {
        le_u64(s, ilt + 8 * i)
    } else {
        le_u32(s, ilt + 4 * i) as u64
    }
}

/// The entry names its function by ordinal: one of its two top-bit tests is set.
pub open spec fn is_ordinal_thunk(t: u64) -> bool {
    t & 0x8000000000000000u64 != 0 || t & 0x80000000u64 != 0
}

/// A list with `e` in front, where the rest could be read.
pub open spec fn cons_entry(e: ImportEntryModel, rest: Result<Seq<ImportEntryModel>, PeError>) -> Result<
    Seq<ImportEntryModel>,
    PeError,
> {
    match rest {
        Ok(r) => Ok(seq![e] + r),
        Err(err) => Err(err),
    }
}

/// The imported functions from the `i`-th lookup-table entry on: up to the first
/// zero entry or the entry limit, or the first name that cannot be read.
pub open spec fn spec_import_entries_from(
    secs: Seq<IMAGE_SECTION_HEADER>,
    s: Seq<u8>,
    ilt: int,
    iat: int,
    x64: bool,
    i: int,
) -> Result<Seq<ImportEntryModel>, PeError>
    decreases MAX_IMPORTS_PER_LIBRARY - i,
{
    if i < 0 || i >= MAX_IMPORTS_PER_LIBRARY {
        Ok(Seq::empty())
    } else {
        let t = spec_thunk(s, ilt, i, x64);
        let slot = (iat + thunk_width(x64) * i) as Fo;
        if is_ordinal_thunk(t) {
            cons_entry(
                ImportEntryModel::Ordinal((t & 0xFFFFu64) as usize, slot),
                spec_import_entries_from(secs, s, ilt, iat, x64, i + 1),
            )
        } else if t > 0 {
            match spec_read_c_str(secs, s, t + 2) {
                Err(e) => Err(e),
                Ok(name) => cons_entry(
                    ImportEntryModel::Name(name, slot),
                    spec_import_entries_from(secs, s, ilt, iat, x64, i + 1),
                ),
            }
        } else {
            Ok(Seq::empty())
        }
    }
}

/// Reading the imported functions from entry `i` on stays in the image and
/// overflows no lookup or offset, at each entry it reaches.
pub open spec fn import_entries_readable_from(
    secs: Seq<IMAGE_SECTION_HEADER>,
    s: Seq<u8>,
    ilt: int,
    iat: int,
    x64: bool,
    i: int,
) -> bool
    decreases MAX_IMPORTS_PER_LIBRARY - i,
{
    if i < 0 || i >= MAX_IMPORTS_PER_LIBRARY {
        true
    } else {
        let t = spec_thunk(s, ilt, i, x64);
        &&& ilt + thunk_width(x64) * (i + 1) <= s.len()
        &&& iat + thunk_width(x64) * i <= usize::MAX
        &&& if is_ordinal_thunk(t) {
            import_entries_readable_from(secs, s, ilt, iat, x64, i + 1)
        } else if t > 0 {
            &&& t + 2 <= usize::MAX
            &&& rva_readable(secs, s, t + 2, 0)
            &&& spec_read_c_str(secs, s, t + 2) is Ok ==> import_entries_readable_from(
                secs,
                s,
                ilt,
                iat,
                x64,
                i + 1,
            )
        } else {
            true
        }
    }
}

/// A list of libraries with `d` in front, where the rest could be read.
pub open spec fn cons_descriptor(
    d: ImportDescriptorModel,
    rest: Result<Seq<ImportDescriptorModel>, PeError>,
) -> Result<Seq<ImportDescriptorModel>, PeError> {
    match rest {
        Ok(r) => Ok(seq![d] + r),
        Err(err) => Err(err),
    }
}

/// The imported libraries from descriptor `k` on, or the first error met.
pub open spec fn spec_import_descriptors_from(
    secs: Seq<IMAGE_SECTION_HEADER>,
    s: Seq<u8>,
    descs: Seq<IMAGE_IMPORT_DESCRIPTOR>,
    x64: bool,
    k: int,
) -> Result<Seq<ImportDescriptorModel>, PeError>
    decreases descs.len() - k,
{
    if k < 0 || k >= descs.len() {
        Ok(Seq::empty())
    } else {
        let d = descs[k];
        match spec_read_c_str(secs, s, d.name as int) {
            Err(e) => Err(e),
            Ok(name) => match spec_rva_to_fo(secs, d.original_first_thunk as int) {
                None => Err(PeError::RvaNotMapped),
                Some(ilt) => match spec_rva_to_fo(secs, d.first_thunk as int) {
                    None => Err(PeError::RvaNotMapped),
                    Some(iat) => match spec_import_entries_from(secs, s, ilt, iat, x64, 0) {
                        Err(e) => Err(e),
                        Ok(entries) => cons_descriptor(
                            ImportDescriptorModel {
                                name,
                                forwarder_chain: d.forwarder_chain,
                                import_lookup_table: ilt as Fo,
                                import_address_table: iat as Fo,
                                entries,
                            },
                            spec_import_descriptors_from(secs, s, descs, x64, k + 1),
                        ),
                    },
                },
            },
        }
    }
}

/// Reading the libraries from descriptor `k` on stays in the image and overflows
/// no lookup or offset, at each step it reaches.
pub open spec fn import_descriptors_readable_from(
    secs: Seq<IMAGE_SECTION_HEADER>,
    s: Seq<u8>,
    descs: Seq<IMAGE_IMPORT_DESCRIPTOR>,
    x64: bool,
    k: int,
) -> bool
    decreases descs.len() - k,
{
    if k < 0 || k >= descs.len() {
        true
    } else {
        let d = descs[k];
        &&& rva_readable(secs, s, d.name as int, 0)
        &&& spec_read_c_str(secs, s, d.name as int) is Ok ==> {
            &&& rva_lookup_safe(secs, d.original_first_thunk as int)
            &&& spec_rva_to_fo(secs, d.original_first_thunk as int) matches Some(ilt) ==> {
                &&& rva_lookup_safe(secs, d.first_thunk as int)
                &&& spec_rva_to_fo(secs, d.first_thunk as int) matches Some(iat) ==> {
                    &&& import_entries_readable_from(secs, s, ilt, iat, x64, 0)
                    &&& spec_import_entries_from(secs, s, ilt, iat, x64, 0) is Ok
                        ==> import_descriptors_readable_from(secs, s, descs, x64, k + 1)
                }
            }
        }
    }
}

/// The descriptors stored in `buf`, as many as fit.
pub open spec fn spec_descriptors(buf: Seq<u8>) -> Seq<IMAGE_IMPORT_DESCRIPTOR> {
    Seq::new(
        buf.len() / IMPORT_DESCRIPTOR_SIZE as nat,
        |i: int| IMAGE_IMPORT_DESCRIPTOR::spec_read(buf, IMPORT_DESCRIPTOR_SIZE * i),
    )
}

/// The descriptor bytes: the directory without its closing null descriptor.
pub open spec fn spec_descriptor_bytes(s: Seq<u8>, fo: int, dir: IMAGE_DATA_DIRECTORY) -> Seq<u8> {
    s.subrange(fo, fo + dir.size - IMPORT_DESCRIPTOR_SIZE)
}

/// What reading the import table described by `dir` gives: nothing where the
/// directory is empty, the first error met, or the imported libraries.
pub open spec fn spec_import_table(
    secs: Seq<IMAGE_SECTION_HEADER>,
    s: Seq<u8>,
    dir: IMAGE_DATA_DIRECTORY,
    x64: bool,
) -> Result<Option<Seq<ImportDescriptorModel>>, PeError> {
    if dir.virtual_address == 0 && dir.size == 0 {
        Ok(None)
    } else {
        match spec_rva_to_fo(secs, dir.virtual_address as int) {
            None => Err(PeError::RvaNotMapped),
            Some(fo) => match spec_import_descriptors_from(
                secs,
                s,
                spec_descriptors(spec_descriptor_bytes(s, fo, dir)),
                x64,
                0,
            ) {
                Err(e) => Err(e),
                Ok(ds) => Ok(Some(ds)),
            },
        }
    }
}

/// Reading the import table described by `dir` stays in the image and overflows
/// no lookup or offset: the directory holds at least the closing descriptor, the
/// descriptors lie in the image, and each step reached can be read.
pub open spec fn import_table_readable(
    secs: Seq<IMAGE_SECTION_HEADER>,
    s: Seq<u8>,
    dir: IMAGE_DATA_DIRECTORY,
    x64: bool,
) -> bool {
    !(dir.virtual_address == 0 && dir.size == 0) ==> {
        &&& dir.size >= IMPORT_DESCRIPTOR_SIZE
        &&& rva_readable(secs, s, dir.virtual_address as int, dir.size - IMPORT_DESCRIPTOR_SIZE)
        &&& spec_rva_to_fo(secs, dir.virtual_address as int) matches Some(fo)
            ==> import_descriptors_readable_from(
            secs,
            s,
            spec_descriptors(spec_descriptor_bytes(s, fo, dir)),
            x64,
            0,
        )
    }
}

/// The imports of an image, library by library.
#[derive(Debug)]
pub struct ImportTable {
    imports: Vec<ImportDescriptor>,
}

/// A function imported by name.
#[derive(Debug)]
pub struct ByName {
    name: String,
    address_entry: Fo,
}

/// A function imported by ordinal.
#[derive(Debug)]
pub struct ByOrdinal {
    number: usize,
    address_entry: Fo,
}

/// One imported function.
#[derive(Debug)]
pub enum ImportTableEntry {
    Name(ByName),
    Ordinal(ByOrdinal),
}

impl View for ImportTableEntry {
    type V = ImportEntryModel;

    closed spec fn view(&self) -> ImportEntryModel {
        match self {
            ImportTableEntry::Name(n) => ImportEntryModel::Name(n.name@, n.address_entry),
            ImportTableEntry::Ordinal(o) => ImportEntryModel::Ordinal(o.number, o.address_entry),
        }
    }
}

/// One imported library.
#[derive(Debug)]
pub struct ImportDescriptor {
    name: String,
    forwarder_chain: u32,
    import_lookup_table: Fo,
    import_address_table: Fo,
    import_table_entrys: Vec<ImportTableEntry>,
}

impl View for ImportDescriptor {
    type V = ImportDescriptorModel;

    closed spec fn view(&self) -> ImportDescriptorModel {
        ImportDescriptorModel {
            name: self.name@,
            forwarder_chain: self.forwarder_chain,
            import_lookup_table: self.import_lookup_table,
            import_address_table: self.import_address_table,
            entries: self.import_table_entrys@.map_values(|e: ImportTableEntry| e@),
        }
    }
}

impl ImportDescriptor {
    /// A library with the given name, forwarder chain, table offsets and functions.
    pub fn new(
        name: String,
        forwarder_chain: u32,
        import_lookup_table: Fo,
        import_address_table: Fo,
        import_table_entrys: Vec<ImportTableEntry>,
    ) -> (r: Self)
        ensures
            r@ == (ImportDescriptorModel {
                name: name@,
                forwarder_chain,
                import_lookup_table,
                import_address_table,
                entries: import_table_entrys@.map_values(|e: ImportTableEntry| e@),
            }),
    {
        Self {
            name,
            forwarder_chain,
            import_lookup_table,
            import_address_table,
            import_table_entrys,
        }
    }
}

/// Reads the imported functions of one library, from its lookup table at `ilt`;
/// their slots are in the address table at `iat`.
fn read_import_entries<I: Image>(image: &I, ilt: Fo, iat: Fo, arch: Architecture) -> (r: Result<
    Vec<ImportTableEntry>,
    PeError,
>)
    requires
        image.inv(),
        import_entries_readable_from(
            image.spec_sections(),
            image.spec_bytes(),
            ilt as int,
            iat as int,
            arch == Architecture::X64,
            0,
        ),
    ensures
        entries_result_view(r) == spec_import_entries_from(
            image.spec_sections(),
            image.spec_bytes(),
            ilt as int,
            iat as int,
            arch == Architecture::X64,
            0,
        ),
{
    let ghost secs = image.spec_sections();
    let ghost s = image.spec_bytes();
    let ghost x64 = arch == Architecture::X64;
    let len = image.bytes().len();
    assert(len == s.len());
    let mut table_entrys: Vec<ImportTableEntry> = Vec::new();
    let mut i: usize = 0;
    while i < MAX_IMPORTS_PER_LIBRARY
        invariant
            image.inv(),
            secs == image.spec_sections(),
            s == image.spec_bytes(),
            x64 == (arch == Architecture::X64),
            s.len() <= usize::MAX,
            0 <= i <= MAX_IMPORTS_PER_LIBRARY,
            import_entries_readable_from(secs, s, ilt as int, iat as int, x64, i as int),
            spec_import_entries_from(secs, s, ilt as int, iat as int, x64, 0) == prepend_entries(
                table_entrys@.map_values(|e: ImportTableEntry| e@),
                spec_import_entries_from(secs, s, ilt as int, iat as int, x64, i as int),
            ),
        decreases MAX_IMPORTS_PER_LIBRARY - i,
    {
        let ghost before = table_entrys@.map_values(|e: ImportTableEntry| e@);
        let (name_address, address_entry) = match arch {
            Architecture::X64 => {
                let address_entry = iat + i * 8;
                let name_address = image.read_from_fo::<u64>(ilt + i * 8);
                (name_address, address_entry)
            },
            Architecture::X32 => {
                let address_entry = iat + i * 4;
                let name_address = image.read_from_fo::<u32>(ilt + i * 4) as u64;
                (name_address, address_entry)
            },
        };
        assert(name_address == spec_thunk(s, ilt as int, i as int, x64));

        let table_entry = if name_address & 0x8000000000000000u64 > 0 || name_address
            & 0x80000000u64 > 0 {
            assert(name_address & 0xFFFFu64 <= 0xFFFFu64) by (bit_vector);
            let ordinal = (name_address & 0xFFFFu64) as usize;

            ImportTableEntry::Ordinal(ByOrdinal { number: ordinal, address_entry })
        } else {
            if name_address > 0 {
                let name = match image.read_c_str_from_rva((name_address + 2) as Rva) {
                    Ok(n) => n,
                    Err(e) => return Err(e),
                };

                ImportTableEntry::Name(ByName { name, address_entry })
            } else {
                assert(table_entrys@.map_values(|e: ImportTableEntry| e@) =~= before);
                assert(prepend_entries(before, Ok(Seq::empty())) == Ok::<Seq<ImportEntryModel>, PeError>(before)) by {
                    assert(before + Seq::<ImportEntryModel>::empty() =~= before);
                }
                return Ok(table_entrys);
            }
        };

        table_entrys.push(table_entry);
        i = i + 1;
        proof {
            let after = table_entrys@.map_values(|e: ImportTableEntry| e@);
            assert(after =~= before + seq![table_entry@]);
            let rest = spec_import_entries_from(secs, s, ilt as int, iat as int, x64, i as int);
            match rest {
                Ok(r) => {
                    assert(before + (seq![table_entry@] + r) =~= after + r);
                },
                Err(_) => {},
            }
        }
    }
    Ok(table_entrys)
}

/// `prefix` in front of what could be read, or the error met.
pub open spec fn prepend_entries(
    prefix: Seq<ImportEntryModel>,
    rest: Result<Seq<ImportEntryModel>, PeError>,
) -> Result<Seq<ImportEntryModel>, PeError> {
    match rest {
        Ok(r) => Ok(prefix + r),
        Err(e) => Err(e),
    }
}

/// A result holding imported functions, seen as their models.
pub open spec fn entries_result_view(r: Result<Vec<ImportTableEntry>, PeError>) -> Result<
    Seq<ImportEntryModel>,
    PeError,
> {
    match r {
        Ok(v) => Ok(v@.map_values(|e: ImportTableEntry| e@)),
        Err(e) => Err(e),
    }
}

/// `prefix` in front of what could be read, or the error met.
pub open spec fn prepend_descriptors(
    prefix: Seq<ImportDescriptorModel>,
    rest: Result<Seq<ImportDescriptorModel>, PeError>,
) -> Result<Seq<ImportDescriptorModel>, PeError> {
    match rest {
        Ok(r) => Ok(prefix + r),
        Err(e) => Err(e),
    }
}

/// An import table result, seen as its libraries.
pub open spec fn import_result_view(r: Result<Option<ImportTable>, PeError>) -> Result<
    Option<Seq<ImportDescriptorModel>>,
    PeError,
> {
    match r {
        Ok(Some(t)) => Ok(Some(t.spec_imports())),
        Ok(None) => Ok(None),
        Err(e) => Err(e),
    }
}

/// The import directory entry of an image.
pub open spec fn spec_import_directory<I: Image>(image: &I) -> IMAGE_DATA_DIRECTORY {
    image.spec_headers().spec_nt_header().spec_data_directory()[IMPORT_DIRECTORY_TABLE_INDEX as int]
}

/// The image is an AMD64 one.
pub open spec fn spec_is_x64<I: Image>(image: &I) -> bool {
    image.spec_headers().spec_nt_header().spec_file_header().machine == MACHINE_AMD64
}

impl ImportTable {
    /// The imported libraries, each seen as its model.
    pub closed spec fn spec_imports(&self) -> Seq<ImportDescriptorModel> {
        self.imports@.map_values(|d: ImportDescriptor| d@)
    }

    /// Reads the import table of an image: `None` where its directory is empty. A
    /// table that cannot be read (see `import_table_readable`) is not handled.
    pub fn from_image<I: Image>(pe_image: &I) -> (r: Result<Option<Self>, PeError>)
        requires
            pe_image.inv(),
            import_table_readable(
                pe_image.spec_sections(),
                pe_image.spec_bytes(),
                spec_import_directory(pe_image),
                spec_is_x64(pe_image),
            ),
        ensures
            import_result_view(r) == spec_import_table(
                pe_image.spec_sections(),
                pe_image.spec_bytes(),
                spec_import_directory(pe_image),
                spec_is_x64(pe_image),
            ),
    {
        let ghost secs = pe_image.spec_sections();
        let ghost s = pe_image.spec_bytes();
        let ghost x64 = spec_is_x64(pe_image);
        let import_directory_image = pe_image.headers().nt_header().optional_header().data_directory()[IMPORT_DIRECTORY_TABLE_INDEX];

        if import_directory_image.virtual_address == 0 && import_directory_image.size == 0 {
            return Ok(None);
        }
        let ghost dir = import_directory_image;

        let descriptors_size = import_directory_image.size as usize - IMPORT_DESCRIPTOR_SIZE;
        let import_descriptors_bytes: Vec<u8> = match pe_image.read_from_rva_to_buf(
            import_directory_image.virtual_address as Rva,
            descriptors_size,
        ) {
            Ok(b) => b,
            Err(e) => return Err(e),
        };
        let ghost fo = spec_rva_to_fo(secs, dir.virtual_address as int).unwrap();
        assert(import_descriptors_bytes@ == spec_descriptor_bytes(s, fo, dir));

        let import_descriptor_count = descriptors_size / IMPORT_DESCRIPTOR_SIZE;
        let ghost descs = spec_descriptors(import_descriptors_bytes@);

        let arch = pe_image.arch();
        assert((arch == Architecture::X64) == x64);

        let ghost whole = spec_import_descriptors_from(secs, s, descs, x64, 0);
        assert(spec_import_table(secs, s, spec_import_directory(pe_image), x64) == match whole {
            Err(e) => Err(e),
            Ok(ds) => Ok(Some(ds)),
        });

        let mut descriptors: Vec<ImportDescriptor> = Vec::new();
        let mut k: usize = 0;
        while k < import_descriptor_count
            invariant
                pe_image.inv(),
                secs == pe_image.spec_sections(),
                s == pe_image.spec_bytes(),
                x64 == (arch == Architecture::X64),
                x64 == spec_is_x64(pe_image),
                whole == spec_import_descriptors_from(secs, s, descs, x64, 0),
                spec_import_table(secs, s, spec_import_directory(pe_image), x64) == match whole {
                    Err(e) => Err(e),
                    Ok(ds) => Ok(Some(ds)),
                },
                import_descriptor_count == descs.len(),
                import_descriptors_bytes@.len() == descriptors_size,
                descs == spec_descriptors(import_descriptors_bytes@),
                0 <= k <= import_descriptor_count,
                import_descriptors_readable_from(secs, s, descs, x64, k as int),
                spec_import_descriptors_from(secs, s, descs, x64, 0) == prepend_descriptors(
                    descriptors@.map_values(|d: ImportDescriptor| d@),
                    spec_import_descriptors_from(secs, s, descs, x64, k as int),
                ),
            decreases import_descriptor_count - k,
        {
            let ghost before = descriptors@.map_values(|d: ImportDescriptor| d@);
            assert(IMPORT_DESCRIPTOR_SIZE * k + IMPORT_DESCRIPTOR_SIZE <= descriptors_size);
            let desc = IMAGE_IMPORT_DESCRIPTOR::read(
                import_descriptors_bytes.as_slice(),
                IMPORT_DESCRIPTOR_SIZE * k,
            );
            assert(desc == descs[k as int]);

            let name = match pe_image.read_c_str_from_rva(desc.name as Rva) {
                Ok(n) => n,
                Err(e) => return Err(e),
            };

            let import_lookup_table = match pe_image.rva_to_fo(desc.original_first_thunk as Rva) {
                Ok(f) => f,
                Err(e) => return Err(e),
            };

            let import_address_table = match pe_image.rva_to_fo(desc.first_thunk as Rva) {
                Ok(f) => f,
                Err(e) => return Err(e),
            };

            let table_entrys = match read_import_entries(
                pe_image,
                import_lookup_table,
                import_address_table,
                arch,
            ) {
                Ok(t) => t,
                Err(e) => return Err(e),
            };

            let d = ImportDescriptor::new(
                name,
                desc.forwarder_chain,
                import_lookup_table,
                import_address_table,
                table_entrys,
            );
            descriptors.push(d);
            k = k + 1;
            proof {
                let after = descriptors@.map_values(|d: ImportDescriptor| d@);
                assert(after =~= before + seq![d@]);
                let rest = spec_import_descriptors_from(secs, s, descs, x64, k as int);
                match rest {
                    Ok(r) => {
                        assert(before + (seq![d@] + r) =~= after + r);
                    },
                    Err(_) => {},
                }
            }
        }
        proof {
            let all = descriptors@.map_values(|d: ImportDescriptor| d@);
            assert(all + Seq::<ImportDescriptorModel>::empty() =~= all);
        }

        let t = Self { imports: descriptors };
        Ok(Some(t))
    }
}

/// Reading the imported functions from lookup-table entry `i` on: one function
/// for each entry, in order, up to the first zero entry or the entry limit. An
/// entry with either top-bit test set names its function by its low 16 bits;
/// another names it by the C string two bytes past the file offset the entry
/// holds. Each comes with its slot in the address table: `width * (i + j)`
/// bytes past `iat`, the entries being 8 bytes wide in a PE32+ image and 4 in a
/// PE32 one.
pub proof fn law_import_entries_read(
    secs: Seq<IMAGE_SECTION_HEADER>,
    s: Seq<u8>,
    ilt: int,
    iat: int,
    x64: bool,
    i: int,
)
    requires
        0 <= i <= MAX_IMPORTS_PER_LIBRARY,
        spec_import_entries_from(secs, s, ilt, iat, x64, i) is Ok,
    ensures
        forall|j: int|
            #[trigger] spec_thunk(s, ilt, j, x64) == if x64 {
                le_u64(s, ilt + 8 * j)
            } else {
                le_u32(s, ilt + 4 * j) as u64
            },
        ({
            let r = spec_import_entries_from(secs, s, ilt, iat, x64, i)->Ok_0;
            let w = if x64 { 8int } else { 4int };
            &&& i + r.len() <= MAX_IMPORTS_PER_LIBRARY
            &&& i + r.len() == MAX_IMPORTS_PER_LIBRARY || spec_thunk(s, ilt, i + r.len(), x64) == 0
            &&& forall|j: int|
                0 <= j < r.len() ==> {
                    let t = spec_thunk(s, ilt, i + j, x64);
                    &&& t != 0
                    &&& #[trigger] r[j] == if t & 0x8000000000000000u64 != 0 || t & 0x80000000u64 != 0 {
                        ImportEntryModel::Ordinal((t & 0xFFFFu64) as usize, (iat + w * (i + j)) as Fo)
                    } else {
                        ImportEntryModel::Name(
                            spec_read_c_str(secs, s, t + 2)->Ok_0,
                            (iat + w * (i + j)) as Fo,
                        )
                    }
                    &&& !(t & 0x8000000000000000u64 != 0 || t & 0x80000000u64 != 0) ==> (spec_rva_to_fo(secs, t + 2)
                        matches Some(f) && spec_read_c_str(secs, s, t + 2) == Ok::<Seq<char>, PeError>(cstr_at(s, f)))
                }
        }),
    decreases MAX_IMPORTS_PER_LIBRARY - i,
{
    if i < MAX_IMPORTS_PER_LIBRARY {
        let t = spec_thunk(s, ilt, i, x64);
        if is_ordinal_thunk(t) || t > 0 {
            law_import_entries_read(secs, s, ilt, iat, x64, i + 1);
            let r = spec_import_entries_from(secs, s, ilt, iat, x64, i)->Ok_0;
            let rest = spec_import_entries_from(secs, s, ilt, iat, x64, i + 1)->Ok_0;
            let w = if x64 { 8int } else { 4int };
            assert(r.len() == rest.len() + 1);
            assert forall|j: int| 0 <= j < r.len() implies {
                let tj = spec_thunk(s, ilt, i + j, x64);
                &&& tj != 0
                &&& #[trigger] r[j] == if tj & 0x8000000000000000u64 != 0 || tj & 0x80000000u64 != 0 {
                    ImportEntryModel::Ordinal((tj & 0xFFFFu64) as usize, (iat + w * (i + j)) as Fo)
                } else {
                    ImportEntryModel::Name(spec_read_c_str(secs, s, tj + 2)->Ok_0, (iat + w * (i + j)) as Fo)
                }
                &&& !(tj & 0x8000000000000000u64 != 0 || tj & 0x80000000u64 != 0) ==> (spec_rva_to_fo(secs, tj + 2)
                    matches Some(f) && spec_read_c_str(secs, s, tj + 2) == Ok::<Seq<char>, PeError>(cstr_at(s, f)))
            } by {
                if j == 0 {
                    if !is_ordinal_thunk(t) {
                        assert(t > 0);
                    } else {
                        assert(t & 0x8000000000000000u64 != 0 || t & 0x80000000u64 != 0 ==> t != 0) by (bit_vector);
                    }
                } else {
                    assert(r[j] == rest[j - 1]);
                    assert((i + 1) + (j - 1) == i + j);
                    assert(rest[j - 1] == rest[j - 1]);
                }
            }
        }
    }
}

/// Reading the imported libraries from descriptor `k` on: one library for each
/// descriptor left, in order, each with the C string at the file offset of its
/// name address, its forwarder chain, the file offsets of its two thunk
/// addresses, and the functions read from its lookup table.
pub proof fn law_import_descriptors_read(
    secs: Seq<IMAGE_SECTION_HEADER>,
    s: Seq<u8>,
    descs: Seq<IMAGE_IMPORT_DESCRIPTOR>,
    x64: bool,
    k: int,
)
    requires
        0 <= k <= descs.len(),
        spec_import_descriptors_from(secs, s, descs, x64, k) is Ok,
    ensures
        ({
            let ds = spec_import_descriptors_from(secs, s, descs, x64, k)->Ok_0;
            &&& ds.len() == descs.len() - k
            &&& forall|m: int|
                k <= m < descs.len() ==> {
                    let d = #[trigger] descs[m];
                    let nf = spec_rva_to_fo(secs, d.name as int);
                    let ilt = spec_rva_to_fo(secs, d.original_first_thunk as int);
                    let iat = spec_rva_to_fo(secs, d.first_thunk as int);
                    &&& nf is Some
                    &&& ilt is Some
                    &&& iat is Some
                    &&& spec_import_entries_from(secs, s, ilt->Some_0, iat->Some_0, x64, 0) is Ok
                    &&& ds[m - k] == ImportDescriptorModel {
                        name: cstr_at(s, nf->Some_0),
                        forwarder_chain: d.forwarder_chain,
                        import_lookup_table: ilt->Some_0 as Fo,
                        import_address_table: iat->Some_0 as Fo,
                        entries: spec_import_entries_from(secs, s, ilt->Some_0, iat->Some_0, x64, 0)->Ok_0,
                    }
                }
        }),
    decreases descs.len() - k,
{
    if k < descs.len() {
        law_import_descriptors_read(secs, s, descs, x64, k + 1);
        let ds = spec_import_descriptors_from(secs, s, descs, x64, k)->Ok_0;
        let rest = spec_import_descriptors_from(secs, s, descs, x64, k + 1)->Ok_0;
        assert(ds.len() == rest.len() + 1);
        assert forall|m: int| k < m < descs.len() implies ds[m - k] == rest[m - (k + 1)] && #[trigger] descs[m] == descs[m] by {}
    }
}

/// The descriptors the import reader walks: all `(size - 20) / 20` of them from
/// the file offset of the directory's address on, 20 bytes apart, the closing
/// null descriptor left out; and the table read is the libraries they give.
pub proof fn law_import_table_descriptors(
    secs: Seq<IMAGE_SECTION_HEADER>,
    s: Seq<u8>,
    dir: IMAGE_DATA_DIRECTORY,
    x64: bool,
)
    requires
        !(dir.virtual_address == 0 && dir.size == 0),
        dir.size >= 20,
        spec_rva_to_fo(secs, dir.virtual_address as int) matches Some(fo) && 0 <= fo && fo + dir.size - 20
            <= s.len(),
    ensures
        ({
            let fo = spec_rva_to_fo(secs, dir.virtual_address as int)->Some_0;
            let descs = spec_descriptors(spec_descriptor_bytes(s, fo, dir));
            &&& descs.len() == (dir.size - 20) / 20
            &&& forall|i: int|
                0 <= i < descs.len() ==> #[trigger] descs[i] == IMAGE_IMPORT_DESCRIPTOR::spec_read(s, fo + 20 * i)
            &&& spec_import_table(secs, s, dir, x64) == match spec_import_descriptors_from(secs, s, descs, x64, 0) {
                Err(e) => Err(e),
                Ok(ds) => Ok(Some(ds)),
            }
        }),
{
    let fo = spec_rva_to_fo(secs, dir.virtual_address as int)->Some_0;
    let buf = spec_descriptor_bytes(s, fo, dir);
    let descs = spec_descriptors(buf);
    assert forall|i: int| 0 <= i < descs.len() implies #[trigger] descs[i] == IMAGE_IMPORT_DESCRIPTOR::spec_read(
        s,
        fo + 20 * i,
    ) by {
        assert(20 * i + 20 <= buf.len()) by (nonlinear_arith)
            requires
                0 <= i < buf.len() / 20,
        ;
        assert forall|t: int| 0 <= t < 20 implies #[trigger] buf[20 * i + t] == s[fo + 20 * i + t] by {}
        IMAGE_IMPORT_DESCRIPTOR::lemma_read_window(buf, 20 * i, s, fo + 20 * i);
    }
}

} // verus!
