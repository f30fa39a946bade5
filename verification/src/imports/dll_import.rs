//! One imported library: its descriptor, its imported functions, and where its
//! import address table lies.
use vstd::prelude::*;

use super::{IMAGE_IMPORT_BY_NAME, Import, ImportModel};
use crate::cstr::{cstr_at, read_cstr_lossy};
use crate::error::PeError;
use crate::image::{Fo, Image, rva_resolvable, same_content, spec_fo};
use crate::raw::{RawStruct, le_u16, le_u64};
use crate::windows_types::{IMAGE_IMPORT_BY_ORDINAL, IMAGE_IMPORT_DESCRIPTOR};

verus! {

/// The most lookup-table entries read for one library.
pub const MAX_THUNKS: usize = 0x1000;

/// The `i`-th lookup-table entry of a table at `ilt`.
pub open spec fn spec_thunk_at(s: Seq<u8>, ilt: int, i: int) -> u64 {
    le_u64(s, ilt + 8 * i)
}

/// The function an entry names: by ordinal where the entry's test for the
/// ordinal flag, `entry & (1 << 63) == 1`, holds, which it never does; by the
/// hint and name at the entry's address otherwise.
pub open spec fn spec_import_of(image: &Image, t: u64) -> ImportModel {
    if t & 0x8000000000000000u64 == 1 {
        ImportModel::Ordinal(t as u16)
    } else {
        let fo = spec_fo(image.spec_sections(), t as int);
        ImportModel::Name(le_u16(image.spec_bytes(), fo), cstr_at(image.spec_bytes(), fo + 2))
    }
}

/// The functions named by the entries from `i` on, up to the first zero entry.
pub open spec fn spec_imports_from(image: &Image, ilt: int, i: int) -> Seq<ImportModel>
    decreases MAX_THUNKS - i,
{
    if i < 0 || i >= MAX_THUNKS || spec_thunk_at(image.spec_bytes(), ilt, i) == 0 {
        Seq::empty()
    } else {
        seq![spec_import_of(image, spec_thunk_at(image.spec_bytes(), ilt, i))] + spec_imports_from(
            image,
            ilt,
            i + 1,
        )
    }
}

/// Each entry from `i` on that is reached lies in the image, and each nonzero one
/// names a hint and name that lie in the image.
pub open spec fn imports_readable_from(image: &Image, ilt: int, i: int) -> bool
    decreases MAX_THUNKS - i,
{
    0 <= i < MAX_THUNKS ==> {
        let t = spec_thunk_at(image.spec_bytes(), ilt, i);
        &&& ilt + 8 * (i + 1) <= image.spec_bytes().len()
        &&& t != 0 ==> {
            &&& t <= usize::MAX
            &&& rva_resolvable(image.spec_sections(), t as int)
            &&& spec_fo(image.spec_sections(), t as int) + 2 <= image.spec_bytes().len()
            &&& imports_readable_from(image, ilt, i + 1)
        }
    }
}

/// The descriptor's lookup table maps and can be walked, and its address table
/// maps and holds a slot for each imported function.
pub open spec fn dll_import_readable(image: &Image, raw: IMAGE_IMPORT_DESCRIPTOR) -> bool {
    let secs = image.spec_sections();
    &&& rva_resolvable(secs, raw.original_first_thunk as int)
    &&& imports_readable_from(image, spec_fo(secs, raw.original_first_thunk as int), 0)
    &&& rva_resolvable(secs, raw.first_thunk as int)
    &&& spec_fo(secs, raw.first_thunk as int) + 8 * spec_imports_from(
        image,
        spec_fo(secs, raw.original_first_thunk as int),
        0,
    ).len() <= image.spec_bytes().len()
}

/// Reads the functions a lookup table at `ilt` names, up to its first zero entry
/// or the entry limit.
pub fn read_imports(image: &Image, ilt: Fo) -> (r: Vec<Import>)
    requires
        imports_readable_from(image, ilt as int, 0),
    ensures
        r@.map_values(|x: Import| x@) == spec_imports_from(image, ilt as int, 0),
{
    let _ = image.bytes();
    let ghost whole = spec_imports_from(image, ilt as int, 0);

    let mut raw_function_imports: Vec<Import> = Vec::new();
    let mut i: usize = 0;
    while i < MAX_THUNKS
        invariant
            0 <= i <= MAX_THUNKS,
            image.spec_bytes().len() <= usize::MAX,
            imports_readable_from(image, ilt as int, i as int),
            whole == spec_imports_from(image, ilt as int, 0),
            whole == raw_function_imports@.map_values(|x: Import| x@) + spec_imports_from(
                image,
                ilt as int,
                i as int,
            ),
        ensures
            whole == raw_function_imports@.map_values(|x: Import| x@),
        decreases MAX_THUNKS - i,
    {
        let ghost before = raw_function_imports@.map_values(|x: Import| x@);
        let import = image.read_from_fo::<u64>(ilt + 8 * i);
        if import == 0 {
            assert(before + Seq::<ImportModel>::empty() =~= before);
            break;
        }
        assert(i < MAX_THUNKS);
        let entry = if import & 0x8000000000000000u64 == 1 {
            Import::Ordinal(IMAGE_IMPORT_BY_ORDINAL { ordinal_number: import as u16 })
        } else {
            let name_fo = image.rva_to_fo(import as usize).unwrap();
            let hint = image.read_from_fo::<u16>(name_fo);
            let name = read_cstr_lossy(image.bytes(), name_fo + 2);
            Import::Name(IMAGE_IMPORT_BY_NAME::new(hint, name))
        };
        assert(entry@ == spec_import_of(image, import));
        raw_function_imports.push(entry);
        i = i + 1;
        proof {
            let after = raw_function_imports@.map_values(|x: Import| x@);
            assert(after =~= before + seq![entry@]);
            assert(before + (seq![entry@] + spec_imports_from(image, ilt as int, i as int))
                =~= after + spec_imports_from(image, ilt as int, i as int));
            if i == MAX_THUNKS {
                assert(after + Seq::<ImportModel>::empty() =~= after);
            }
        }
    }

    raw_function_imports
}

/// An imported library: its descriptor, the file offset of its import address
/// table, and its imported functions in lookup-table order.
#[derive(Debug)]
pub struct DllImport {
    raw: IMAGE_IMPORT_DESCRIPTOR,
    iat: Fo,
    pub raw_function_imports: Vec<Import>,
}

impl core::ops::Deref for DllImport {
    type Target = IMAGE_IMPORT_DESCRIPTOR;

    fn deref(&self) -> (r: &IMAGE_IMPORT_DESCRIPTOR)
        ensures
            *r == self.spec_raw(),
    {
        &self.raw
    }
}

impl DllImport {
    pub closed spec fn spec_raw(&self) -> IMAGE_IMPORT_DESCRIPTOR {
        self.raw
    }

    /// The file offset of the import address table.
    pub closed spec fn spec_iat(&self) -> Fo {
        self.iat
    }

    /// The imported functions.
    pub closed spec fn spec_imports(&self) -> Seq<ImportModel> {
        self.raw_function_imports@.map_values(|i: Import| i@)
    }

    /// Reads the library that `raw` describes: the functions its lookup table
    /// names, up to the first zero entry or the entry limit, and where its address
    /// table lies. A library that cannot be read (see `dll_import_readable`) is not
    /// handled.
    pub fn from_raw_and_image(raw: IMAGE_IMPORT_DESCRIPTOR, image: &Image) -> (r: Result<Self, PeError>)
        requires
            dll_import_readable(image, raw),
        ensures
            r matches Ok(d) && {
                let ilt = spec_fo(image.spec_sections(), raw.original_first_thunk as int);
                &&& d.spec_raw() == raw
                &&& d.spec_iat() == spec_fo(image.spec_sections(), raw.first_thunk as int)
                &&& d.spec_imports() == spec_imports_from(image, ilt, 0)
            },
    {
        let ilt = image.rva_to_fo(raw.original_first_thunk as usize).unwrap();
        let raw_function_imports = read_imports(image, ilt);

        let iat = image.rva_to_fo(raw.first_thunk as usize).unwrap();

        Ok(Self { raw, iat, raw_function_imports })
    }

    /// The imported functions, in lookup-table order.
    pub fn imports(&self) -> (r: &Vec<Import>)
        ensures
            r@.map_values(|x: Import| x@) == self.spec_imports(),
    {
        &self.raw_function_imports
    }

    /// The file offset of the address table, and the number of its slots.
    pub fn iat_mut(&self) -> (r: (Fo, usize))
        ensures
            r == (self.spec_iat(), self.spec_imports().len() as usize),
    {
        (self.iat, self.raw_function_imports.len())
    }
}

/// Images with the same bytes, headers and sections name the same functions.
pub(crate) proof fn lemma_imports_from_same(a: &Image, b: &Image, ilt: int, i: int)
    requires
        same_content(a, b),
    ensures
        spec_imports_from(a, ilt, i) == spec_imports_from(b, ilt, i),
    decreases MAX_THUNKS - i,
{
    if !(i < 0 || i >= MAX_THUNKS || spec_thunk_at(a.spec_bytes(), ilt, i) == 0) {
        lemma_imports_from_same(a, b, ilt, i + 1);
    }
}

/// What the functions named by the entries from `i` on are: one for each entry
/// up to the first zero entry or the entry limit, in order.
proof fn lemma_imports_from(image: &Image, ilt: int, i: int)
    requires
        0 <= i <= MAX_THUNKS,
    ensures
        ({
            let s = image.spec_bytes();
            let r = spec_imports_from(image, ilt, i);
            &&& i + r.len() <= MAX_THUNKS
            &&& i + r.len() == MAX_THUNKS || le_u64(s, ilt + 8 * (i + r.len())) == 0
            &&& forall|k: int|
                0 <= k < r.len() ==> le_u64(s, ilt + 8 * (i + k)) != 0 && #[trigger] r[k] == spec_import_of(
                    image,
                    le_u64(s, ilt + 8 * (i + k)),
                )
        }),
    decreases MAX_THUNKS - i,
{
    if i < MAX_THUNKS && spec_thunk_at(image.spec_bytes(), ilt, i) != 0 {
        lemma_imports_from(image, ilt, i + 1);
        let r = spec_imports_from(image, ilt, i);
        let rest = spec_imports_from(image, ilt, i + 1);
        assert forall|k: int| 0 < k < r.len() implies #[trigger] r[k] == rest[k - 1] by {}
    }
}

/// The functions a lookup table at `ilt` names: one for each 64-bit entry, in
/// order, up to the first zero entry or the entry limit. An entry names the
/// function by ordinal where its test for the ordinal flag holds (it never
/// does), and otherwise by the hint and the C string at the file offset the
/// entry holds.
pub proof fn law_imports_read(image: &Image, ilt: int)
    ensures
        ({
            let s = image.spec_bytes();
            let r = spec_imports_from(image, ilt, 0);
            &&& r.len() <= MAX_THUNKS
            &&& r.len() == MAX_THUNKS || le_u64(s, ilt + 8 * r.len()) == 0
            &&& forall|k: int|
                0 <= k < r.len() ==> le_u64(s, ilt + 8 * k) != 0 && #[trigger] r[k] == spec_import_of(
                    image,
                    le_u64(s, ilt + 8 * k),
                )
        }),
        forall|t: u64|
            #[trigger] spec_import_of(image, t) == if t & 0x8000000000000000u64 == 1 {
                ImportModel::Ordinal(t as u16)
            } else {
                ImportModel::Name(
                    le_u16(image.spec_bytes(), spec_fo(image.spec_sections(), t as int)),
                    cstr_at(image.spec_bytes(), spec_fo(image.spec_sections(), t as int) + 2),
                )
            },
{
    lemma_imports_from(image, ilt, 0);
    let r = spec_imports_from(image, ilt, 0);
}

} // verus!
