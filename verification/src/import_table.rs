//! A first reading of the import directory: each descriptor with its library's
//! name and the functions it names. The table itself is not kept.
use vstd::prelude::*;

use crate::cstr::{cstr_at, has_nul};
use crate::error::PeError;
use crate::image::{Image, rva_resolvable, spec_fo};
use crate::imports::dll_import::{imports_readable_from, read_imports, spec_imports_from};
use crate::imports::import_table::{
    IMAGE_IMPORT_DIRECTORY_INDEX, spec_descriptor, spec_descriptor_count,
};
use crate::exception_table::spec_directory;
use crate::imports::{Import, ImportModel};
use crate::raw::RawStruct;
use crate::windows_types::IMAGE_IMPORT_DESCRIPTOR;

verus! {

/// A library read from its descriptor: its name, the descriptor, and its functions.
pub type NamedDllModel = (Seq<char>, IMAGE_IMPORT_DESCRIPTOR, Seq<ImportModel>);

/// The file offset of the name of the library a descriptor describes.
pub open spec fn spec_name_fo(image: &Image, raw: IMAGE_IMPORT_DESCRIPTOR) -> int {
    spec_fo(image.spec_sections(), raw.name as int)
}

/// The name of the library a descriptor describes holds its closing NUL.
pub open spec fn name_terminated(image: &Image, raw: IMAGE_IMPORT_DESCRIPTOR) -> bool {
    let s = image.spec_bytes();
    has_nul(s.subrange(spec_name_fo(image, raw), s.len() as int))
}

/// The library's name maps into the image and, where it is terminated, its lookup
/// table maps and can be walked.
pub open spec fn named_dll_readable(image: &Image, raw: IMAGE_IMPORT_DESCRIPTOR) -> bool {
    let secs = image.spec_sections();
    &&& rva_resolvable(secs, raw.name as int)
    &&& spec_name_fo(image, raw) <= image.spec_bytes().len()
    &&& name_terminated(image, raw) ==> {
        &&& rva_resolvable(secs, raw.original_first_thunk as int)
        &&& imports_readable_from(image, spec_fo(secs, raw.original_first_thunk as int), 0)
    }
}

/// The library a descriptor describes.
pub open spec fn spec_named_dll(image: &Image, raw: IMAGE_IMPORT_DESCRIPTOR) -> NamedDllModel {
    (
        cstr_at(image.spec_bytes(), spec_name_fo(image, raw)),
        raw,
        spec_imports_from(image, spec_fo(image.spec_sections(), raw.original_first_thunk as int), 0),
    )
}

/// An imported library with its name.
#[derive(Debug)]
pub struct DllImport {
    name: String,
    raw: IMAGE_IMPORT_DESCRIPTOR,
    raw_function_imports: Vec<Import>,
}

impl View for DllImport {
    type V = NamedDllModel;

    closed spec fn view(&self) -> NamedDllModel {
        (self.name@, self.raw, self.raw_function_imports@.map_values(|i: Import| i@))
    }
}

impl DllImport {
    /// Reads the library `raw` describes: its name, then the functions its lookup
    /// table names. A name without its closing NUL is an error.
    pub fn from_raw_and_image(raw: IMAGE_IMPORT_DESCRIPTOR, image: &Image) -> (r: Result<Self, PeError>)
        requires
            named_dll_readable(image, raw),
        ensures
            name_terminated(image, raw) ==> (r matches Ok(d) && d@ == spec_named_dll(image, raw)),
            !name_terminated(image, raw) ==> r == Err::<Self, PeError>(PeError::MissingNul),
    {
        let name = match image.read_cstr_from_fo(image.rva_to_fo(raw.name as usize).unwrap()) {
            Ok(n) => n,
            Err(e) => return Err(e),
        };
        let ilt = image.rva_to_fo(raw.original_first_thunk as usize).unwrap();
        let raw_function_imports = read_imports(image, ilt);
        Ok(Self { name, raw, raw_function_imports })
    }
}

/// The import directory holds at least its closing descriptor, maps, lies in the
/// image, and each library it describes can be read and has a terminated name.
pub open spec fn import_descriptors_readable(image: &Image) -> bool {
    let dir = spec_directory(image, IMAGE_IMPORT_DIRECTORY_INDEX as int);
    let secs = image.spec_sections();
    &&& image.headers_in_bytes()
    &&& dir.size >= 20
    &&& rva_resolvable(secs, dir.virtual_address as int)
    &&& spec_fo(secs, dir.virtual_address as int) + 20 * spec_descriptor_count(image)
        <= image.spec_bytes().len()
    &&& forall|i: int|
        0 <= i < spec_descriptor_count(image) ==> {
            &&& named_dll_readable(image, #[trigger] spec_descriptor(image, i))
            &&& name_terminated(image, spec_descriptor(image, i))
        }
}

/// The imported libraries, as a first reading of the directory gives them.
pub struct ImportTable {
    import_descriptors: Vec<DllImport>,
}

impl ImportTable {
    /// Reads every descriptor of the import directory but the closing one, in order.
    pub fn read_descriptors(image: &Image) -> (r: Vec<DllImport>)
        requires
            import_descriptors_readable(image),
        ensures
            r@.len() == spec_descriptor_count(image),
            forall|i: int|
                0 <= i < r@.len() ==> #[trigger] r@[i]@ == spec_named_dll(
                    image,
                    spec_descriptor(image, i),
                ),
    {
        let dir = image.get_nt_header().get_optional_header().data_directory[IMAGE_IMPORT_DIRECTORY_INDEX];
        let fo = image.rva_to_fo(dir.virtual_address as usize).unwrap();
        let count = dir.size as usize / 20 - 1;
        let _ = image.bytes();

        let mut descriptors: Vec<DllImport> = Vec::new();
        let mut i: usize = 0;
        while i < count
            invariant
                import_descriptors_readable(image),
                dir == spec_directory(image, IMAGE_IMPORT_DIRECTORY_INDEX as int),
                fo == spec_fo(image.spec_sections(), dir.virtual_address as int),
                count == spec_descriptor_count(image),
                image.spec_bytes().len() <= usize::MAX,
                0 <= i <= count,
                descriptors@.len() == i,
                forall|k: int|
                    0 <= k < i ==> #[trigger] descriptors@[k]@ == spec_named_dll(
                        image,
                        spec_descriptor(image, k),
                    ),
            decreases count - i,
        {
            let desc = image.read_from_fo::<IMAGE_IMPORT_DESCRIPTOR>(fo + 20 * i);
            assert(desc == spec_descriptor(image, i as int));
            let dll = DllImport::from_raw_and_image(desc, image).unwrap();
            descriptors.push(dll);
            i = i + 1;
        }
        descriptors
    }

    /// The first reading keeps no table: the descriptors are read (see
    /// `read_descriptors`) and `None` is returned.
    pub fn from_image(image: &Image) -> (r: Option<Self>)
        requires
            import_descriptors_readable(image),
        ensures
            r is None,
    {
        let _ = Self::read_descriptors(image);
        None
    }
}

/// The library a descriptor describes: the C string at the file offset of its
/// name address, the descriptor itself, and the functions its lookup table
/// names from the file offset of its lookup table's address.
pub proof fn law_named_dll(image: &Image, raw: IMAGE_IMPORT_DESCRIPTOR)
    ensures
        spec_named_dll(image, raw) == (
            cstr_at(image.spec_bytes(), spec_fo(image.spec_sections(), raw.name as int)),
            raw,
            spec_imports_from(image, spec_fo(image.spec_sections(), raw.original_first_thunk as int), 0),
        ),
{
}

} // verus!
