//! The export directory of an image, kept as a map from each exported name to its
//! function and ordinal.
use vstd::prelude::*;

use crate::cstr::{cstr_at, has_nul, str_eq};
use crate::named::{lemma_add, lemma_replace, lemma_same_views, named_map, names_unique};
use crate::error::PeError;
use crate::exception_table::spec_directory;
use crate::image::{same_content, Fo, Image, rva_resolvable, spec_fo};
use crate::raw::{RawStruct, le_u16, le_u32};
use crate::windows_types::IMAGE_EXPORT_DIRECTORY;

verus! {

/// The index of the export directory among the data directories.
pub const IMAGE_EXPORT_DIRECTORY_INDEX: usize = 0;

/// An exported function: the file offset of its code and its ordinal.
#[derive(Debug, Clone, Copy)]
pub struct Export {
    function: Fo,
    ordinal: u16,
}

impl View for Export {
    type V = (Fo, u16);

    closed spec fn view(&self) -> (Fo, u16) {
        (self.function, self.ordinal)
    }
}

impl Export {
    pub fn get_function(&self) -> (r: &Fo)
        ensures
            *r == self@.0,
    {
        &self.function
    }

    pub fn get_ordinal(&self) -> (r: &u16)
        ensures
            *r == self@.1,
    {
        &self.ordinal
    }
}

/// The export directory record of an image whose directory is not empty.
pub open spec fn spec_export_directory(image: &Image) -> IMAGE_EXPORT_DIRECTORY {
    let dir = spec_directory(image, IMAGE_EXPORT_DIRECTORY_INDEX as int);
    IMAGE_EXPORT_DIRECTORY::spec_read(
        image.spec_bytes(),
        spec_fo(image.spec_sections(), dir.virtual_address as int),
    )
}

/// The number of exports read: as many as there are both functions and names.
pub open spec fn spec_export_count(d: IMAGE_EXPORT_DIRECTORY) -> int {
    if d.number_of_functions < d.number_of_names {
        d.number_of_functions as int
    } else {
        d.number_of_names as int
    }
}

/// The address of the name of export `i`.
pub open spec fn spec_name_rva(image: &Image, i: int) -> u32 {
    let d = spec_export_directory(image);
    le_u32(image.spec_bytes(), spec_fo(image.spec_sections(), d.address_of_names as int) + 4 * i)
}

/// The address of the function of export `i`.
pub open spec fn spec_function_rva(image: &Image, i: int) -> u32 {
    let d = spec_export_directory(image);
    le_u32(image.spec_bytes(), spec_fo(image.spec_sections(), d.address_of_functions as int) + 4 * i)
}

/// The ordinal of export `i`.
pub open spec fn spec_ordinal(image: &Image, i: int) -> u16 {
    let d = spec_export_directory(image);
    le_u16(image.spec_bytes(), spec_fo(image.spec_sections(), d.address_of_name_ordinals as int) + 2 * i)
}

/// The name of export `i`.
pub open spec fn spec_export_name(image: &Image, i: int) -> Seq<char> {
    cstr_at(image.spec_bytes(), spec_fo(image.spec_sections(), spec_name_rva(image, i) as int))
}

/// The exports `0 .. n`, each inserted over the ones before it.
pub open spec fn spec_exports_upto(image: &Image, n: int) -> Map<Seq<char>, (Fo, u16)>
    decreases n,
{
    if n <= 0 {
        Map::empty()
    } else {
        spec_exports_upto(image, n - 1).insert(
            spec_export_name(image, n - 1),
            (spec_fo(image.spec_sections(), spec_function_rva(image, n - 1) as int) as Fo, spec_ordinal(image, n - 1)),
        )
    }
}

/// The export directory is empty, or it and its three arrays map and lie in the
/// image, and each export's name and function map, the name ending in a NUL.
pub open spec fn export_directory_readable(image: &Image) -> bool {
    let dir = spec_directory(image, IMAGE_EXPORT_DIRECTORY_INDEX as int);
    let secs = image.spec_sections();
    let s = image.spec_bytes();
    &&& image.headers_in_bytes()
    &&& (dir.virtual_address != 0 && dir.size != 0 ==> {
        let d = spec_export_directory(image);
        &&& rva_resolvable(secs, dir.virtual_address as int)
        &&& spec_fo(secs, dir.virtual_address as int) + 40 <= s.len()
        &&& rva_resolvable(secs, d.address_of_functions as int)
        &&& spec_fo(secs, d.address_of_functions as int) + 4 * d.number_of_functions <= s.len()
        &&& rva_resolvable(secs, d.address_of_names as int)
        &&& spec_fo(secs, d.address_of_names as int) + 4 * d.number_of_names <= s.len()
        &&& rva_resolvable(secs, d.address_of_name_ordinals as int)
        &&& spec_fo(secs, d.address_of_name_ordinals as int) + 2 * d.number_of_names <= s.len()
        &&& forall|i: int|
            0 <= i < spec_export_count(d) ==> {
                &&& rva_resolvable(secs, #[trigger] spec_name_rva(image, i) as int)
                &&& spec_fo(secs, spec_name_rva(image, i) as int) <= s.len()
                &&& has_nul(
                    s.subrange(spec_fo(secs, spec_name_rva(image, i) as int), s.len() as int),
                )
                &&& rva_resolvable(secs, spec_function_rva(image, i) as int)
            }
    })
}

/// The export directory of an image and its exports by name.
#[derive(Debug)]
pub struct ExportTable {
    raw: IMAGE_EXPORT_DIRECTORY,
    fo: Fo,
    exports: Vec<(String, Export)>,
}

impl core::ops::Deref for ExportTable {
    type Target = IMAGE_EXPORT_DIRECTORY;

    fn deref(&self) -> (r: &IMAGE_EXPORT_DIRECTORY)
        ensures
            *r == self.spec_raw(),
    {
        &self.raw
    }
}

impl ExportTable {
    #[verifier::type_invariant]
    spec fn wf(self) -> bool {
        names_unique(self.exports@)
    }

    pub closed spec fn spec_raw(&self) -> IMAGE_EXPORT_DIRECTORY {
        self.raw
    }

    /// The file offset of the export directory record.
    pub closed spec fn spec_fo(&self) -> Fo {
        self.fo
    }

    /// The file offset of the export directory record.
    pub fn fo(&self) -> (r: Fo)
        ensures
            r == self.spec_fo(),
    {
        self.fo
    }

    /// The export directory record as the image's bytes hold it now; a record
    /// that runs past the end is not handled.
    pub fn read(&self, image: &Image) -> (r: IMAGE_EXPORT_DIRECTORY)
        requires
            self.spec_fo() + 40 <= image.spec_bytes().len(),
        ensures
            r == IMAGE_EXPORT_DIRECTORY::spec_read(image.spec_bytes(), self.spec_fo() as int),
    {
        image.read_from_fo::<IMAGE_EXPORT_DIRECTORY>(self.fo)
    }

    /// The same table, its directory record read again from `bytes`, where it
    /// lies; the exports found when it was read stay as they were.
    pub fn reread(&self, bytes: &[u8]) -> (r: Self)
        requires
            self.spec_fo() + 40 <= bytes@.len(),
        ensures
            r.spec_fo() == self.spec_fo(),
            r.spec_exports() == self.spec_exports(),
            r.spec_raw() == IMAGE_EXPORT_DIRECTORY::spec_read(bytes@, self.spec_fo() as int),
    {
        proof {
            use_type_invariant(self);
        }
        assert(bytes@.len() == bytes.len());
        let mut exports: Vec<(String, Export)> = Vec::new();
        let mut i: usize = 0;
        while i < self.exports.len()
            invariant
                0 <= i <= self.exports@.len(),
                exports@.len() == i,
                forall|k: int|
                    0 <= k < i ==> #[trigger] exports@[k].0@ == self.exports@[k].0@ && exports@[k].1@
                        == self.exports@[k].1@,
            decreases self.exports@.len() - i,
        {
            let name = self.exports[i].0.clone();
            let export = self.exports[i].1;
            exports.push((name, export));
            i = i + 1;
        }
        proof {
            lemma_same_views(self.exports@, exports@);
        }
        Self { raw: IMAGE_EXPORT_DIRECTORY::read(bytes, self.fo), fo: self.fo, exports }
    }

    /// Each exported name, with its function and ordinal.
    pub closed spec fn spec_exports(&self) -> Map<Seq<char>, (Fo, u16)> {
        named_map(self.exports@)
    }

    /// Reads the export directory; `None` where it is empty. Where two exports
    /// share a name, the later one is kept. A directory that cannot be read (see
    /// `export_directory_readable`) is not handled.
    pub fn from_image(image: &Image) -> (r: Result<Option<Self>, PeError>)
        requires
            export_directory_readable(image),
        ensures
            match r {
                Ok(Some(t)) => {
                    let dir = spec_directory(image, IMAGE_EXPORT_DIRECTORY_INDEX as int);
                    &&& dir.virtual_address != 0 && dir.size != 0
                    &&& t.spec_raw() == spec_export_directory(image)
                    &&& t.spec_fo() == spec_fo(image.spec_sections(), dir.virtual_address as int)
                    &&& t.spec_exports() == spec_exports_upto(
                        image,
                        spec_export_count(spec_export_directory(image)),
                    )
                },
                Ok(None) => {
                    let dir = spec_directory(image, IMAGE_EXPORT_DIRECTORY_INDEX as int);
                    dir.virtual_address == 0 || dir.size == 0
                },
                Err(_) => false,
            },
    {
        let export_directory = image.get_nt_header().get_optional_header().data_directory[IMAGE_EXPORT_DIRECTORY_INDEX];

        if export_directory.virtual_address == 0 || export_directory.size == 0 {
            return Ok(None);
        }

        let directory_fo = image.rva_to_fo(export_directory.virtual_address as usize).unwrap();
        let raw = image.read_from_fo::<IMAGE_EXPORT_DIRECTORY>(directory_fo);

        let functions_fo = image.rva_to_fo(raw.address_of_functions as usize).unwrap();
        let names_fo = image.rva_to_fo(raw.address_of_names as usize).unwrap();
        let ordinals_fo = image.rva_to_fo(raw.address_of_name_ordinals as usize).unwrap();

        let count = if raw.number_of_functions < raw.number_of_names {
            raw.number_of_functions as usize
        } else {
            raw.number_of_names as usize
        };
        let _ = image.bytes();

        let mut exports: Vec<(String, Export)> = Vec::new();
        let mut i: usize = 0;
        while i < count
            invariant
                export_directory_readable(image),
                export_directory.virtual_address != 0 && export_directory.size != 0,
                export_directory == spec_directory(image, IMAGE_EXPORT_DIRECTORY_INDEX as int),
                raw == spec_export_directory(image),
                count == spec_export_count(raw),
                image.spec_bytes().len() <= usize::MAX,
                functions_fo == spec_fo(image.spec_sections(), raw.address_of_functions as int),
                names_fo == spec_fo(image.spec_sections(), raw.address_of_names as int),
                ordinals_fo == spec_fo(image.spec_sections(), raw.address_of_name_ordinals as int),
                0 <= i <= count,
                names_unique(exports@),
                named_map(exports@) == spec_exports_upto(image, i as int),
            decreases count - i,
        {
            assert(rva_resolvable(image.spec_sections(), spec_name_rva(image, i as int) as int));
            let name_rva = image.read_from_fo::<u32>(names_fo + 4 * i);
            let function_rva = image.read_from_fo::<u32>(functions_fo + 4 * i);
            let ordinal = image.read_from_fo::<u16>(ordinals_fo + 2 * i);

            let name = match image.read_cstr_from_fo(image.rva_to_fo(name_rva as usize).unwrap()) {
                Ok(n) => n,
                Err(_) => return Err(PeError::MissingNul),
            };

            let function_addr_fo = image.rva_to_fo(function_rva as usize).unwrap();
            let export = Export { function: function_addr_fo, ordinal };

            let mut j: usize = 0;
            let mut found = false;
            while j < exports.len()
                invariant_except_break
                    !found,
                invariant
                    0 <= j <= exports@.len(),
                    forall|k: int| 0 <= k < j ==> exports@[k].0@ != name@,
                ensures
                    found ==> j < exports@.len() && exports@[j as int].0@ == name@,
                    !found ==> forall|k: int| 0 <= k < exports@.len() ==> exports@[k].0@ != name@,
                decreases exports@.len() - j,
            {
                if str_eq(exports[j].0.as_str(), name.as_str()) {
                    found = true;
                    break;
                }
                j = j + 1;
            }
            proof {
                if found {
                    lemma_replace(exports@, j as int, name, export);
                } else {
                    lemma_add(exports@, name, export);
                }
            }
            if found {
                exports.set(j, (name, export));
            } else {
                exports.push((name, export));
            }
            i = i + 1;
        }

        Ok(Some(Self { raw, fo: directory_fo, exports }))
    }

    /// The exports by name.
    pub fn get_exports(&self) -> (r: &Vec<(String, Export)>)
        ensures
            names_unique(r@),
            named_map(r@) == self.spec_exports(),
    {
        proof {
            use_type_invariant(self);
        }
        &self.exports
    }
}

/// Images with the same bytes, headers and sections export the same functions.
pub(crate) proof fn lemma_exports_upto_same(a: &Image, b: &Image, n: int)
    requires
        same_content(a, b),
    ensures
        spec_exports_upto(a, n) == spec_exports_upto(b, n),
    decreases n,
{
    if n > 0 {
        lemma_exports_upto_same(a, b, n - 1);
    }
}

/// Where the export reader looks: the directory record at the file offset of
/// the directory's address, and export `i`'s name, function and ordinal in the
/// three arrays it names.
pub proof fn law_export_positions(image: &Image, i: int)
    ensures
        ({
            let s = image.spec_bytes();
            let secs = image.spec_sections();
            let dir = spec_directory(image, IMAGE_EXPORT_DIRECTORY_INDEX as int);
            let d = spec_export_directory(image);
            &&& d == IMAGE_EXPORT_DIRECTORY::spec_read(s, spec_fo(secs, dir.virtual_address as int))
            &&& spec_name_rva(image, i) == le_u32(s, spec_fo(secs, d.address_of_names as int) + 4 * i)
            &&& spec_function_rva(image, i) == le_u32(s, spec_fo(secs, d.address_of_functions as int) + 4 * i)
            &&& spec_ordinal(image, i) == le_u16(s, spec_fo(secs, d.address_of_name_ordinals as int) + 2 * i)
            &&& spec_export_name(image, i) == cstr_at(s, spec_fo(secs, spec_name_rva(image, i) as int))
        }),
{
}

/// The exports read from the first `n` entries name exactly the names of those
/// entries; and an entry whose name no later entry among them repeats maps that
/// name to the file offset of its function's address, in whichever section holds
/// it, and to its ordinal.
pub proof fn law_exports_read(image: &Image, n: int)
    requires
        0 <= n,
    ensures
        forall|k: Seq<char>|
            #[trigger] spec_exports_upto(image, n).dom().contains(k) <==> exists|i: int|
                0 <= i < n && spec_export_name(image, i) == k,
        forall|i: int|
            0 <= i < n && (forall|j: int| i < j < n ==> spec_export_name(image, j) != spec_export_name(image, i))
                ==> #[trigger] spec_exports_upto(image, n)[spec_export_name(image, i)] == (
                spec_fo(image.spec_sections(), spec_function_rva(image, i) as int) as Fo,
                spec_ordinal(image, i),
            ),
    decreases n,
{
    if n > 0 {
        law_exports_read(image, n - 1);
        let m = spec_exports_upto(image, n);
        let prev = spec_exports_upto(image, n - 1);
        assert forall|k: Seq<char>| #[trigger] m.dom().contains(k) <==> exists|i: int|
            0 <= i < n && spec_export_name(image, i) == k by {
            if prev.dom().contains(k) {
                let i = choose|i: int| 0 <= i < n - 1 && spec_export_name(image, i) == k;
                assert(0 <= i < n && spec_export_name(image, i) == k);
            }
            if exists|i: int| 0 <= i < n && spec_export_name(image, i) == k {
                let i = choose|i: int| 0 <= i < n && spec_export_name(image, i) == k;
                if i < n - 1 {
                    assert(prev.dom().contains(k));
                }
            }
        }
        assert forall|i: int|
            0 <= i < n && (forall|j: int| i < j < n ==> spec_export_name(image, j) != spec_export_name(image, i))
                implies #[trigger] m[spec_export_name(image, i)] == (
                spec_fo(image.spec_sections(), spec_function_rva(image, i) as int) as Fo,
                spec_ordinal(image, i),
            ) by {
            if i < n - 1 {
                assert(spec_export_name(image, n - 1) != spec_export_name(image, i));
                assert(forall|j: int| i < j < n - 1 ==> spec_export_name(image, j) != spec_export_name(image, i));
            }
        }
    }
}

} // verus!
