//! The import table of an image: each imported library by name, and the update of
//! an imported function's slot in the import address table.
use vstd::prelude::*;

use super::dll_import::{DllImport, dll_import_readable, lemma_imports_from_same, spec_imports_from};
use super::{ImportModel, ImportSimple, IdentModel, spec_names};
use crate::cstr::{cstr_at, has_nul, str_eq};
use crate::error::PeError;
use crate::exception_table::spec_directory;
use crate::image::{Fo, Image, Va, rva_resolvable, same_content, spec_fo};
use crate::named::{lemma_add, lemma_replace, named_map, names_unique};
use crate::raw::{RawEncode, RawStruct, lemma_read_after_write, splice};
use crate::windows_types::IMAGE_IMPORT_DESCRIPTOR;

verus! {

/// The index of the import directory among the data directories.
pub const IMAGE_IMPORT_DIRECTORY_INDEX: usize = 1;

/// An imported library: its descriptor, the file offset of its import address
/// table, and its imported functions.
pub type DllModel = (IMAGE_IMPORT_DESCRIPTOR, Fo, Seq<ImportModel>);

impl View for DllImport {
    type V = DllModel;

    open spec fn view(&self) -> DllModel {
        (self.spec_raw(), self.spec_iat(), self.spec_imports())
    }
}

/// The number of descriptors read: the directory's, without its closing null one.
pub open spec fn spec_descriptor_count(image: &Image) -> int {
    spec_directory(image, IMAGE_IMPORT_DIRECTORY_INDEX as int).size / 20 - 1
}

/// The `i`-th import descriptor.
pub open spec fn spec_descriptor(image: &Image, i: int) -> IMAGE_IMPORT_DESCRIPTOR {
    let dir = spec_directory(image, IMAGE_IMPORT_DIRECTORY_INDEX as int);
    IMAGE_IMPORT_DESCRIPTOR::spec_read(
        image.spec_bytes(),
        spec_fo(image.spec_sections(), dir.virtual_address as int) + 20 * i,
    )
}

/// The library the `i`-th descriptor describes.
pub open spec fn spec_dll(image: &Image, i: int) -> DllModel {
    let d = spec_descriptor(image, i);
    let secs = image.spec_sections();
    (
        d,
        spec_fo(secs, d.first_thunk as int) as Fo,
        spec_imports_from(image, spec_fo(secs, d.original_first_thunk as int), 0),
    )
}

/// The name of the library the `i`-th descriptor describes.
pub open spec fn spec_dll_name(image: &Image, i: int) -> Seq<char> {
    cstr_at(
        image.spec_bytes(),
        spec_fo(image.spec_sections(), spec_descriptor(image, i).name as int),
    )
}

/// The libraries of the descriptors `0 .. n`, each inserted over the ones before it.
pub open spec fn spec_dlls_upto(image: &Image, n: int) -> Map<Seq<char>, DllModel>
    decreases n,
{
    if n <= 0 {
        Map::empty()
    } else {
        spec_dlls_upto(image, n - 1).insert(spec_dll_name(image, n - 1), spec_dll(image, n - 1))
    }
}

/// The import directory is empty, or it holds at least the closing descriptor,
/// maps, its descriptors lie in the image, and each library and its name can be read.
pub open spec fn import_directory_readable(image: &Image) -> bool {
    let dir = spec_directory(image, IMAGE_IMPORT_DIRECTORY_INDEX as int);
    let secs = image.spec_sections();
    let s = image.spec_bytes();
    &&& image.headers_in_bytes()
    &&& (dir.virtual_address != 0 && dir.size != 0 ==> {
        &&& dir.size >= 20
        &&& rva_resolvable(secs, dir.virtual_address as int)
        &&& spec_fo(secs, dir.virtual_address as int) + 20 * spec_descriptor_count(image) <= s.len()
        &&& forall|i: int|
            0 <= i < spec_descriptor_count(image) ==> {
                &&& dll_import_readable(image, #[trigger] spec_descriptor(image, i))
                &&& rva_resolvable(secs, spec_descriptor(image, i).name as int)
                &&& spec_fo(secs, spec_descriptor(image, i).name as int) <= s.len()
                &&& has_nul(
                    s.subrange(spec_fo(secs, spec_descriptor(image, i).name as int), s.len() as int),
                )
            }
    })
}

/// The first of the functions that the identifier names.
pub open spec fn spec_first_named(imports: Seq<ImportModel>, ident: IdentModel) -> Option<int> {
    if exists|i: int| 0 <= i < imports.len() && spec_names(ident, imports[i]) {
        Some(
            choose|i: int|
                0 <= i < imports.len() && spec_names(ident, imports[i]) && forall|j: int|
                    0 <= j < i ==> !spec_names(ident, imports[j]),
        )
    } else {
        None
    }
}

/// Pointing the address table slot of the function `ident` names, imported from
/// the library `dll_name`, at `va`: the result and the bytes after it. The slot is
/// that of the first function the identifier names; an unknown library or
/// function leaves the bytes as they were.
pub open spec fn spec_iat_update(
    dlls: Map<Seq<char>, DllModel>,
    s: Seq<u8>,
    dll_name: Seq<char>,
    ident: IdentModel,
    va: Va,
) -> (Result<(), PeError>, Seq<u8>) {
    match dlls.get(dll_name) {
        None => (Err(PeError::DllNotFound), s),
        Some(d) => match spec_first_named(d.2, ident) {
            None => (Err(PeError::FunctionNotFound), s),
            Some(k) => (Ok(()), splice(s, d.1 + 8 * k, va.spec_bytes())),
        },
    }
}

/// Every library's address table lies in bytes of length `len`.
pub open spec fn iats_within(dlls: Map<Seq<char>, DllModel>, len: int) -> bool {
    forall|k: Seq<char>| #[trigger] dlls.dom().contains(k) ==> dlls[k].1 + 8 * dlls[k].2.len() <= len
}

/// The imported libraries of an image, by name.
pub struct ImportTable {
    import_descriptors: Vec<(String, DllImport)>,
}

impl ImportTable {
    #[verifier::type_invariant]
    spec fn wf(self) -> bool {
        names_unique(self.import_descriptors@)
    }

    /// Each library's name, with its descriptor, address table and functions.
    pub closed spec fn spec_dlls(&self) -> Map<Seq<char>, DllModel> {
        named_map(self.import_descriptors@)
    }

    /// Reads the imported libraries; `None` where the directory is empty. Where two
    /// libraries share a name, the later one is kept. A directory that cannot be
    /// read (see `import_directory_readable`) is not handled.
    pub fn from_image(image: &Image) -> (r: Option<Self>)
        requires
            import_directory_readable(image),
        ensures
            match r {
                Some(t) => {
                    let dir = spec_directory(image, IMAGE_IMPORT_DIRECTORY_INDEX as int);
                    &&& dir.virtual_address != 0 && dir.size != 0
                    &&& t.spec_dlls() == spec_dlls_upto(image, spec_descriptor_count(image))
                },
                None => {
                    let dir = spec_directory(image, IMAGE_IMPORT_DIRECTORY_INDEX as int);
                    dir.virtual_address == 0 || dir.size == 0
                },
            },
    {
        let import_directory = image.get_nt_header().get_optional_header().data_directory[IMAGE_IMPORT_DIRECTORY_INDEX];

        if import_directory.virtual_address == 0 || import_directory.size == 0 {
            return None;
        }

        let fo = image.rva_to_fo(import_directory.virtual_address as usize).unwrap();
        let count = import_directory.size as usize / 20 - 1;
        let _ = image.bytes();

        let mut import_descriptors: Vec<(String, DllImport)> = Vec::new();
        let mut i: usize = 0;
        while i < count
            invariant
                import_directory_readable(image),
                import_directory == spec_directory(image, IMAGE_IMPORT_DIRECTORY_INDEX as int),
                import_directory.virtual_address != 0 && import_directory.size != 0,
                fo == spec_fo(image.spec_sections(), import_directory.virtual_address as int),
                count == spec_descriptor_count(image),
                image.spec_bytes().len() <= usize::MAX,
                0 <= i <= count,
                names_unique(import_descriptors@),
                named_map(import_descriptors@) == spec_dlls_upto(image, i as int),
            decreases count - i,
        {
            let desc = image.read_from_fo::<IMAGE_IMPORT_DESCRIPTOR>(fo + 20 * i);
            assert(desc == spec_descriptor(image, i as int));
            let dll_import = DllImport::from_raw_and_image(desc, image).unwrap();
            let name = match image.read_cstr_from_fo(image.rva_to_fo(desc.name as usize).unwrap()) {
                Ok(n) => n,
                Err(_) => String::new(),
            };

            let mut j: usize = 0;
            let mut found = false;
            while j < import_descriptors.len()
                invariant_except_break
                    !found,
                invariant
                    0 <= j <= import_descriptors@.len(),
                    forall|k: int| 0 <= k < j ==> import_descriptors@[k].0@ != name@,
                ensures
                    found ==> j < import_descriptors@.len() && import_descriptors@[j as int].0@
                        == name@,
                    !found ==> forall|k: int|
                        0 <= k < import_descriptors@.len() ==> import_descriptors@[k].0@ != name@,
                decreases import_descriptors@.len() - j,
            {
                if str_eq(import_descriptors[j].0.as_str(), name.as_str()) {
                    found = true;
                    break;
                }
                j = j + 1;
            }
            proof {
                if found {
                    lemma_replace(import_descriptors@, j as int, name, dll_import);
                } else {
                    lemma_add(import_descriptors@, name, dll_import);
                }
            }
            if found {
                import_descriptors.set(j, (name, dll_import));
            } else {
                import_descriptors.push((name, dll_import));
            }
            i = i + 1;
        }

        Some(Self { import_descriptors })
    }

    /// The position of the library named `dll_name`, if it is imported.
    fn find_dll(&self, dll_name: &str) -> (r: Option<usize>)
        ensures
            match r {
                Some(j) => j < self.import_descriptors@.len() && self.import_descriptors@[j as int].0@
                    == dll_name@,
                None => forall|k: int|
                    0 <= k < self.import_descriptors@.len() ==> self.import_descriptors@[k].0@
                        != dll_name@,
            },
    {
        let mut j: usize = 0;
        while j < self.import_descriptors.len()
            invariant
                0 <= j <= self.import_descriptors@.len(),
                forall|k: int| 0 <= k < j ==> self.import_descriptors@[k].0@ != dll_name@,
            decreases self.import_descriptors@.len() - j,
        {
            if str_eq(self.import_descriptors[j].0.as_str(), dll_name) {
                return Some(j);
            }
            j = j + 1;
        }
        None
    }

    /// Points the import address table slot of the function `function_ident`
    /// imported from `dll_name` at `function_va`, in the image bytes. A library
    /// that is not imported, or a function it does not import, is an error.
    #[verifier::rlimit(30)]
    pub fn update_iat(
        &self,
        bytes: &mut Vec<u8>,
        dll_name: &str,
        function_ident: ImportSimple,
        function_va: Va,
    ) -> (r: Result<(), PeError>)
        requires
            iats_within(self.spec_dlls(), old(bytes)@.len() as int),
        ensures
            (r, final(bytes)@) == spec_iat_update(
                self.spec_dlls(),
                old(bytes)@,
                dll_name@,
                function_ident@,
                function_va,
            ),
    {
        proof {
            use_type_invariant(self);
        }
        let ghost dlls = self.spec_dlls();
        let j = match self.find_dll(dll_name) {
            Some(j) => j,
            None => {
                assert(!dlls.dom().contains(dll_name@));
                return Err(PeError::DllNotFound);
            },
        };
        let dll_import = &self.import_descriptors[j].1;
        proof {
            let v = self.import_descriptors@;
            let w = choose|i: int| 0 <= i < v.len() && v[i].0@ == dll_name@;
            assert(w == j);
            assert(dlls.dom().contains(dll_name@));
            assert(dlls[dll_name@] == dll_import@);
        }
        let ghost imports = dll_import.spec_imports();
        let functions = dll_import.imports();

        let index = match find_function(functions, &function_ident) {
            Some(k) => k,
            None => {
                proof {
                    assert(imports =~= functions@.map_values(|x: super::Import| x@));
                    assert forall|j: int| 0 <= j < imports.len() implies !spec_names(
                        function_ident@,
                        imports[j],
                    ) by {
                        assert(imports[j] == functions@[j]@);
                    }
                }
                return Err(PeError::FunctionNotFound);
            },
        };
        proof {
            assert(imports =~= functions@.map_values(|x: super::Import| x@));
            assert forall|j: int| 0 <= j < index implies !spec_names(function_ident@, imports[j]) by {
                assert(imports[j] == functions@[j]@);
            }
            lemma_first_named(imports, function_ident@, index as int);
        }

        let (iat, _) = dll_import.iat_mut();
        let len = bytes.len();
        proof {
            assert(dlls.dom().contains(dll_name@));
            assert(dlls[dll_name@].1 + 8 * dlls[dll_name@].2.len() <= old(bytes)@.len());
            assert(imports.len() == functions@.len());
            assert(iat + 8 * index + 8 <= len);
        }
        function_va.write(bytes, iat + 8 * index);

        Ok(())
    }
}

/// The position of the first function the identifier names, if there is one.
fn find_function(functions: &Vec<super::Import>, ident: &ImportSimple) -> (r: Option<usize>)
    ensures
        match r {
            Some(k) => k < functions@.len() && spec_names(ident@, functions@[k as int]@) && forall|
                j: int,
            | 0 <= j < k ==> !spec_names(ident@, functions@[j]@),
            None => forall|j: int| 0 <= j < functions@.len() ==> !spec_names(ident@, functions@[j]@),
        },
{
    let mut index: usize = 0;
    while index < functions.len()
        invariant
            0 <= index <= functions@.len(),
            forall|k: int| 0 <= k < index ==> !spec_names(ident@, functions@[k]@),
        decreases functions@.len() - index,
    {
        if ident.eq(&functions[index]) {
            return Some(index);
        }
        index = index + 1;
    }
    None
}

/// The first function the identifier names is the one at `k`, where none before it is named.
pub proof fn lemma_first_named(imports: Seq<ImportModel>, ident: IdentModel, k: int)
    requires
        0 <= k < imports.len(),
        spec_names(ident, imports[k]),
        forall|j: int| 0 <= j < k ==> !spec_names(ident, imports[j]),
    ensures
        spec_first_named(imports, ident) == Some(k),
{
    let w = choose|i: int|
        0 <= i < imports.len() && spec_names(ident, imports[i]) && forall|j: int|
            0 <= j < i ==> !spec_names(ident, imports[j]);
    assert(w == k) by {
        if w < k {
            assert(!spec_names(ident, imports[w]));
        } else if w > k {
            assert(!spec_names(ident, imports[k]));
        }
    }
}

/// Where the directory can be read, the address table of every library read from
/// its first `n` descriptors lies in the image.
pub proof fn lemma_dlls_iats_within(image: &Image, n: int)
    requires
        import_directory_readable(image),
        spec_directory(image, IMAGE_IMPORT_DIRECTORY_INDEX as int).virtual_address != 0,
        spec_directory(image, IMAGE_IMPORT_DIRECTORY_INDEX as int).size != 0,
        n <= spec_descriptor_count(image),
    ensures
        iats_within(spec_dlls_upto(image, n), image.spec_bytes().len() as int),
    decreases n,
{
    if n > 0 {
        lemma_dlls_iats_within(image, n - 1);
        assert(dll_import_readable(image, spec_descriptor(image, n - 1)));
    }
}

/// Images with the same bytes, headers and sections import the same libraries.
pub(crate) proof fn lemma_dlls_upto_same(a: &Image, b: &Image, n: int)
    requires
        same_content(a, b),
    ensures
        spec_dlls_upto(a, n) == spec_dlls_upto(b, n),
    decreases n,
{
    if n > 0 {
        lemma_dlls_upto_same(a, b, n - 1);
        let d = spec_descriptor(a, n - 1);
        lemma_imports_from_same(a, b, spec_fo(a.spec_sections(), d.original_first_thunk as int), 0);
    }
}

/// Updating a slot keeps the length of the bytes, where every address table lies in them.
pub proof fn lemma_iat_update_len(
    dlls: Map<Seq<char>, DllModel>,
    s: Seq<u8>,
    dll_name: Seq<char>,
    ident: IdentModel,
    va: Va,
)
    requires
        iats_within(dlls, s.len() as int),
    ensures
        spec_iat_update(dlls, s, dll_name, ident, va).1.len() == s.len(),
{
    if dlls.dom().contains(dll_name) {
        let d = dlls[dll_name];
        lemma_first_named_is_first(d.2, ident);
        assert(d.1 + 8 * d.2.len() <= s.len());
    }
}

/// Where a function at `i` is named, a first named one comes at or before it.
proof fn lemma_has_first(imports: Seq<ImportModel>, ident: IdentModel, i: int)
    requires
        0 <= i < imports.len(),
        spec_names(ident, imports[i]),
    ensures
        exists|m: int|
            0 <= m <= i && spec_names(ident, imports[m]) && forall|j: int|
                0 <= j < m ==> !spec_names(ident, #[trigger] imports[j]),
    decreases i,
{
    if exists|j: int| 0 <= j < i && spec_names(ident, imports[j]) {
        let j = choose|j: int| 0 <= j < i && spec_names(ident, imports[j]);
        lemma_has_first(imports, ident, j);
    } else {
        assert(forall|j: int| 0 <= j < i ==> !spec_names(ident, #[trigger] imports[j]));
    }
}

/// The function `spec_first_named` finds is named, and none before it is.
pub proof fn lemma_first_named_is_first(imports: Seq<ImportModel>, ident: IdentModel)
    ensures
        spec_first_named(imports, ident) matches Some(k) ==> {
            &&& 0 <= k < imports.len()
            &&& spec_names(ident, imports[k])
            &&& forall|j: int| 0 <= j < k ==> !spec_names(ident, imports[j])
        },
{
    if exists|i: int| 0 <= i < imports.len() && spec_names(ident, imports[i]) {
        let i = choose|i: int| 0 <= i < imports.len() && spec_names(ident, imports[i]);
        lemma_has_first(imports, ident, i);
    }
}

/// After a successful update the slot of the named function reads back the new
/// address; after a failed one the bytes are as they were.
pub proof fn law_iat_update_reads_back(
    dlls: Map<Seq<char>, DllModel>,
    s: Seq<u8>,
    dll_name: Seq<char>,
    ident: IdentModel,
    va: Va,
)
    requires
        iats_within(dlls, s.len() as int),
    ensures
        spec_iat_update(dlls, s, dll_name, ident, va).0 is Ok ==> {
            let d = dlls[dll_name];
            let k = spec_first_named(d.2, ident).unwrap();
            &&& 0 <= k < d.2.len()
            &&& Va::spec_read(spec_iat_update(dlls, s, dll_name, ident, va).1, d.1 + 8 * k) == va
        },
        spec_iat_update(dlls, s, dll_name, ident, va).0 is Err ==> spec_iat_update(
            dlls,
            s,
            dll_name,
            ident,
            va,
        ).1 == s,
{
    if dlls.dom().contains(dll_name) {
        let d = dlls[dll_name];
        lemma_first_named_is_first(d.2, ident);
        if let Some(k) = spec_first_named(d.2, ident) {
            assert(d.1 + 8 * d.2.len() <= s.len());
            lemma_read_after_write::<Va>(s, d.1 + 8 * k, va);
        }
    }
}

/// Where the import reader looks: `size / 20 - 1` descriptors from the file
/// offset of the directory's address on, 20 bytes apart; descriptor `i`'s library
/// name at the file offset of its name address; and its library's address table
/// and functions where its two thunk addresses map.
pub proof fn law_import_positions(image: &Image, i: int)
    ensures
        ({
            let s = image.spec_bytes();
            let secs = image.spec_sections();
            let dir = spec_directory(image, IMAGE_IMPORT_DIRECTORY_INDEX as int);
            let d = spec_descriptor(image, i);
            &&& spec_descriptor_count(image) == dir.size / 20 - 1
            &&& d == IMAGE_IMPORT_DESCRIPTOR::spec_read(s, spec_fo(secs, dir.virtual_address as int) + 20 * i)
            &&& spec_dll_name(image, i) == cstr_at(s, spec_fo(secs, d.name as int))
            &&& spec_dll(image, i) == (
                d,
                spec_fo(secs, d.first_thunk as int) as Fo,
                spec_imports_from(image, spec_fo(secs, d.original_first_thunk as int), 0),
            )
        }),
{
}

/// The libraries read from the first `n` descriptors are exactly the names of
/// those descriptors; and a descriptor whose name no later one among them repeats
/// maps that name to its own library.
pub proof fn law_dlls_read(image: &Image, n: int)
    requires
        0 <= n,
    ensures
        forall|k: Seq<char>|
            #[trigger] spec_dlls_upto(image, n).dom().contains(k) <==> exists|i: int|
                0 <= i < n && spec_dll_name(image, i) == k,
        forall|i: int|
            0 <= i < n && (forall|j: int| i < j < n ==> spec_dll_name(image, j) != spec_dll_name(image, i))
                ==> #[trigger] spec_dlls_upto(image, n)[spec_dll_name(image, i)] == spec_dll(image, i),
    decreases n,
{
    if n > 0 {
        law_dlls_read(image, n - 1);
        let m = spec_dlls_upto(image, n);
        let prev = spec_dlls_upto(image, n - 1);
        assert forall|k: Seq<char>| #[trigger] m.dom().contains(k) <==> exists|i: int|
            0 <= i < n && spec_dll_name(image, i) == k by {
            if prev.dom().contains(k) {
                let i = choose|i: int| 0 <= i < n - 1 && spec_dll_name(image, i) == k;
                assert(0 <= i < n && spec_dll_name(image, i) == k);
            }
            if exists|i: int| 0 <= i < n && spec_dll_name(image, i) == k {
                let i = choose|i: int| 0 <= i < n && spec_dll_name(image, i) == k;
                if i < n - 1 {
                    assert(prev.dom().contains(k));
                }
            }
        }
        assert forall|i: int|
            0 <= i < n && (forall|j: int| i < j < n ==> spec_dll_name(image, j) != spec_dll_name(image, i))
                implies #[trigger] m[spec_dll_name(image, i)] == spec_dll(image, i) by {
            if i < n - 1 {
                assert(spec_dll_name(image, n - 1) != spec_dll_name(image, i));
                assert(forall|j: int| i < j < n - 1 ==> spec_dll_name(image, j) != spec_dll_name(image, i));
            }
        }
    }
}

/// There is a first function named by `ident` at or before any function `i` it
/// names.
proof fn lemma_first_named_at_most(imports: Seq<ImportModel>, ident: IdentModel, i: int) -> (k: int)
    requires
        0 <= i < imports.len(),
        spec_names(ident, imports[i]),
    ensures
        0 <= k <= i,
        spec_names(ident, imports[k]),
        forall|j: int| 0 <= j < k ==> !spec_names(ident, imports[j]),
    decreases i,
{
    if exists|j: int| 0 <= j < i && spec_names(ident, imports[j]) {
        let j = choose|j: int| 0 <= j < i && spec_names(ident, imports[j]);
        lemma_first_named_at_most(imports, ident, j)
    } else {
        i
    }
}

/// Pointing a function's address table slot at `va`, for a library and a
/// function it imports: where the library `dll_name` is imported and its
/// `i`-th function is the first one `ident` names (by name, the function's name
/// is the identifier's; by ordinal, its ordinal is), the update succeeds and
/// writes the eight bytes of `va` at the library's address table offset plus
/// `8 * i`, leaving every other byte as it was. A library that is not imported is
/// `DllNotFound`, and a function it does not import is `FunctionNotFound`; both
/// leave the bytes as they were.
pub proof fn law_iat_update(
    dlls: Map<Seq<char>, DllModel>,
    s: Seq<u8>,
    dll_name: Seq<char>,
    ident: IdentModel,
    va: Va,
    i: int,
)
    ensures
        !dlls.dom().contains(dll_name) ==> spec_iat_update(dlls, s, dll_name, ident, va) == (
            Err::<(), PeError>(PeError::DllNotFound),
            s,
        ),
        dlls.dom().contains(dll_name) && (forall|j: int|
            0 <= j < dlls[dll_name].2.len() ==> !(match ident {
                IdentModel::Name(n) => #[trigger] dlls[dll_name].2[j] matches ImportModel::Name(_, m) && m == n,
                IdentModel::Ordinal(o) => dlls[dll_name].2[j] matches ImportModel::Ordinal(p) && p == o,
            })) ==> spec_iat_update(dlls, s, dll_name, ident, va) == (
            Err::<(), PeError>(PeError::FunctionNotFound),
            s,
        ),
        dlls.dom().contains(dll_name) && 0 <= i < dlls[dll_name].2.len() && (match ident {
            IdentModel::Name(n) => dlls[dll_name].2[i] matches ImportModel::Name(_, m) && m == n,
            IdentModel::Ordinal(o) => dlls[dll_name].2[i] matches ImportModel::Ordinal(p) && p == o,
        }) && (forall|j: int|
            0 <= j < i ==> !(match ident {
                IdentModel::Name(n) => #[trigger] dlls[dll_name].2[j] matches ImportModel::Name(_, m) && m == n,
                IdentModel::Ordinal(o) => dlls[dll_name].2[j] matches ImportModel::Ordinal(p) && p == o,
            })) ==> spec_iat_update(dlls, s, dll_name, ident, va) == (
            Ok::<(), PeError>(()),
            s.subrange(0, dlls[dll_name].1 + 8 * i) + va.spec_bytes() + s.subrange(
                dlls[dll_name].1 + 8 * i + 8,
                s.len() as int,
            ),
        ),
{
    if dlls.dom().contains(dll_name) {
        let imports = dlls[dll_name].2;
        if 0 <= i < imports.len() && spec_names(ident, imports[i]) && (forall|j: int|
            0 <= j < i ==> !spec_names(ident, imports[j])) {
            let k = lemma_first_named_at_most(imports, ident, i);
            assert(k == i);
            let w = choose|w: int|
                0 <= w < imports.len() && spec_names(ident, imports[w]) && forall|j: int|
                    0 <= j < w ==> !spec_names(ident, imports[j]);
            assert(w == i) by {
                if w < i {
                    assert(!spec_names(ident, imports[w]));
                } else if w > i {
                    assert(!spec_names(ident, imports[i]));
                }
            }
            assert(va.spec_bytes().len() == 8);
        }
        if forall|j: int| 0 <= j < imports.len() ==> !spec_names(ident, imports[j]) {
            assert(!(exists|j: int| 0 <= j < imports.len() && spec_names(ident, imports[j])));
        }
    }
}

} // verus!
