//! The exception directory of an image, as its function entries.
use vstd::prelude::*;

use crate::error::PeError;
use crate::exception::spec_function_entry;
use crate::image::{Fo, Image, rva_resolvable, spec_fo};
use crate::raw::RawStruct;
use crate::windows_types::{IMAGE_DATA_DIRECTORY, IMAGE_FUNCTION_ENTRY64};

verus! {

/// The index of the exception directory among the data directories.
pub const IMAGE_EXCEPTION_DIRECTORY_INDEX: usize = 3;

/// The `idx`-th data directory of an image.
pub open spec fn spec_directory(image: &Image, idx: int) -> IMAGE_DATA_DIRECTORY {
    image.spec_nt_header().optional_header.data_directory@[idx]
}

/// The exception directory is empty, or it maps and its entries lie in the image.
pub open spec fn exception_entries_readable(image: &Image) -> bool {
    let dir = spec_directory(image, IMAGE_EXCEPTION_DIRECTORY_INDEX as int);
    &&& image.headers_in_bytes()
    &&& (dir.virtual_address != 0 && dir.size != 0 ==> {
        &&& rva_resolvable(image.spec_sections(), dir.virtual_address as int)
        &&& spec_fo(image.spec_sections(), dir.virtual_address as int) + 12 * (dir.size / 12)
            <= image.spec_bytes().len()
    })
}

/// The function entries of the exception directory.
pub open spec fn spec_exception_entries(image: &Image) -> Seq<IMAGE_FUNCTION_ENTRY64> {
    let dir = spec_directory(image, IMAGE_EXCEPTION_DIRECTORY_INDEX as int);
    let fo = spec_fo(image.spec_sections(), dir.virtual_address as int);
    Seq::new((dir.size / 12) as nat, |i: int| spec_function_entry(image.spec_bytes(), fo, i))
}

/// The `count` function entries at `fo` in `s`.
pub open spec fn spec_entries_at(s: Seq<u8>, fo: int, count: int) -> Seq<IMAGE_FUNCTION_ENTRY64> {
    Seq::new(count as nat, |i: int| spec_function_entry(s, fo, i))
}

/// Reads the `count` function entries at `fo`.
fn read_entries(bytes: &[u8], fo: usize, count: usize) -> (r: Vec<IMAGE_FUNCTION_ENTRY64>)
    requires
        fo + 12 * count <= bytes@.len(),
    ensures
        r@ == spec_entries_at(bytes@, fo as int, count as int),
{
    assert(bytes@.len() == bytes.len());
    let ghost expected = spec_entries_at(bytes@, fo as int, count as int);
    let mut entrys: Vec<IMAGE_FUNCTION_ENTRY64> = Vec::new();
    let mut i: usize = 0;
    while i < count
        invariant
            0 <= i <= count,
            fo + 12 * count <= bytes@.len(),
            bytes@.len() <= usize::MAX,
            expected == spec_entries_at(bytes@, fo as int, count as int),
            entrys@ == expected.take(i as int),
        decreases count - i,
    {
        let entry = IMAGE_FUNCTION_ENTRY64::read(bytes, fo + 12 * i);
        entrys.push(entry);
        i = i + 1;
        assert(entrys@ =~= expected.take(i as int));
    }
    assert(expected.take(count as int) =~= expected);
    entrys
}

/// The function entries of an image's exception directory, and where they lie.
#[derive(Debug)]
pub struct ExceptionTable {
    fo: Fo,
    entrys: Vec<IMAGE_FUNCTION_ENTRY64>,
}

impl ExceptionTable {
    pub closed spec fn spec_entrys(&self) -> Seq<IMAGE_FUNCTION_ENTRY64> {
        self.entrys@
    }

    /// The file offset of the first entry.
    pub closed spec fn spec_fo(&self) -> Fo {
        self.fo
    }

    /// The file offset of the first entry.
    pub fn fo(&self) -> (r: Fo)
        ensures
            r == self.spec_fo(),
    {
        self.fo
    }

    /// Reads the function entries; `None` where the directory is empty. A
    /// directory that cannot be read (see `exception_entries_readable`) is not handled.
    pub fn from_image(image: &Image) -> (r: Result<Option<Self>, PeError>)
        requires
            exception_entries_readable(image),
        ensures
            match r {
                Ok(Some(t)) => {
                    let dir = spec_directory(image, IMAGE_EXCEPTION_DIRECTORY_INDEX as int);
                    &&& dir.virtual_address != 0 && dir.size != 0
                    &&& t.spec_fo() == spec_fo(image.spec_sections(), dir.virtual_address as int)
                    &&& t.spec_entrys() == spec_exception_entries(image)
                },
                Ok(None) => {
                    let dir = spec_directory(image, IMAGE_EXCEPTION_DIRECTORY_INDEX as int);
                    dir.virtual_address == 0 || dir.size == 0
                },
                Err(_) => false,
            },
    {
        let exception_directory = image.get_nt_header().get_optional_header().data_directory[IMAGE_EXCEPTION_DIRECTORY_INDEX];

        if exception_directory.virtual_address == 0 || exception_directory.size == 0 {
            return Ok(None);
        }

        let size = exception_directory.size as usize;

        let fo = image.rva_to_fo(exception_directory.virtual_address as usize).unwrap();
        let count = size / 12;
        let entrys = read_entries(image.bytes(), fo, count);
        assert(entrys@ =~= spec_exception_entries(image));

        Ok(Some(Self { fo, entrys }))
    }

    /// The same table, its entries read again from `bytes`, where they lie.
    pub fn reread(&self, bytes: &[u8]) -> (r: Self)
        requires
            self.spec_fo() + 12 * self.spec_entrys().len() <= bytes@.len(),
        ensures
            r.spec_fo() == self.spec_fo(),
            r.spec_entrys() == spec_entries_at(
                bytes@,
                self.spec_fo() as int,
                self.spec_entrys().len() as int,
            ),
    {
        Self { fo: self.fo, entrys: read_entries(bytes, self.fo, self.entrys.len()) }
    }

    pub fn get_entrys(&self) -> (r: &Vec<IMAGE_FUNCTION_ENTRY64>)
        ensures
            r@ == self.spec_entrys(),
    {
        &self.entrys
    }
}

/// The function entries of an image's exception directory: one for each whole
/// 12-byte record of the directory, entry `i` being the record `12 * i` bytes
/// after the file offset of the directory's address.
pub proof fn law_exception_entries(image: &Image)
    ensures
        ({
            let dir = spec_directory(image, IMAGE_EXCEPTION_DIRECTORY_INDEX as int);
            let fo = spec_fo(image.spec_sections(), dir.virtual_address as int);
            let es = spec_exception_entries(image);
            &&& es.len() == dir.size / 12
            &&& forall|i: int|
                0 <= i < es.len() ==> #[trigger] es[i] == IMAGE_FUNCTION_ENTRY64::spec_read(
                    image.spec_bytes(),
                    fo + 12 * i,
                )
        }),
{
}

} // verus!
