//! The thread local storage directory of an image.
use vstd::prelude::*;

use crate::error::PeError;
use crate::exception_table::spec_directory;
use crate::image::{Fo, Image, rva_resolvable, spec_fo};
use crate::raw::{RawStruct, le_u32};
use crate::windows_types::IMAGE_TLS_DIRECTORY64;

verus! {

/// The index of the thread local storage directory among the data directories.
pub const IMAGE_TLS_DIRECTORY_INDEX: usize = 9;

/// The TLS directory record of an image whose directory is not empty.
pub open spec fn spec_tls_raw(image: &Image) -> IMAGE_TLS_DIRECTORY64 {
    let dir = spec_directory(image, IMAGE_TLS_DIRECTORY_INDEX as int);
    IMAGE_TLS_DIRECTORY64::spec_read(
        image.spec_bytes(),
        spec_fo(image.spec_sections(), dir.virtual_address as int),
    )
}

/// The TLS directory is empty, or its record lies in the image and the address of
/// its callback list maps to a 32-bit value that lies in the image.
pub open spec fn tls_directory_readable(image: &Image) -> bool {
    let dir = spec_directory(image, IMAGE_TLS_DIRECTORY_INDEX as int);
    &&& image.headers_in_bytes()
    &&& (dir.virtual_address != 0 && dir.size != 0 ==> {
        let callbacks = spec_tls_raw(image).address_of_callbacks as int;
        &&& rva_resolvable(image.spec_sections(), dir.virtual_address as int)
        &&& spec_fo(image.spec_sections(), dir.virtual_address as int) + 40 <= image.spec_bytes().len()
        &&& callbacks <= usize::MAX
        &&& image.spec_image_base() <= callbacks
        &&& rva_resolvable(image.spec_sections(), callbacks - image.spec_image_base())
        &&& spec_fo(image.spec_sections(), callbacks - image.spec_image_base()) + 4
            <= image.spec_bytes().len()
    })
}

/// The first 32-bit word of the callback list of the TLS directory: nonzero
/// where there is a callback to run.
pub open spec fn spec_first_callback(image: &Image) -> u32 {
    let callbacks = spec_tls_raw(image).address_of_callbacks as int;
    le_u32(image.spec_bytes(), spec_fo(image.spec_sections(), callbacks - image.spec_image_base()))
}

/// The TLS directory of an image as it was read, where it lies, and whether its
/// callback list holds a callback.
pub struct TlsDirectory {
    raw: IMAGE_TLS_DIRECTORY64,
    fo: Fo,
    has_callbacks: bool,
}

impl View for TlsDirectory {
    type V = IMAGE_TLS_DIRECTORY64;

    closed spec fn view(&self) -> IMAGE_TLS_DIRECTORY64 {
        self.raw
    }
}

impl core::ops::Deref for TlsDirectory {
    type Target = IMAGE_TLS_DIRECTORY64;

    fn deref(&self) -> (r: &IMAGE_TLS_DIRECTORY64)
        ensures
            *r == self@,
    {
        &self.raw
    }
}

impl TlsDirectory {
    /// The first word of the callback list was nonzero when the directory was read.
    pub closed spec fn spec_has_callbacks(&self) -> bool {
        self.has_callbacks
    }

    pub closed spec fn spec_fo(&self) -> Fo {
        self.fo
    }

    /// The file offset of the directory.
    pub fn fo(&self) -> (r: Fo)
        ensures
            r == self.spec_fo(),
    {
        self.fo
    }

    /// The directory as the image's bytes hold it now; a record that runs past
    /// the end is not handled.
    pub fn read(&self, image: &Image) -> (r: IMAGE_TLS_DIRECTORY64)
        requires
            self.spec_fo() + 40 <= image.spec_bytes().len(),
        ensures
            r == IMAGE_TLS_DIRECTORY64::spec_read(image.spec_bytes(), self.spec_fo() as int),
    {
        image.read_from_fo::<IMAGE_TLS_DIRECTORY64>(self.fo)
    }

    /// The same directory, its record read again from `bytes`, where it lies.
    pub fn reread(&self, bytes: &[u8]) -> (r: Self)
        requires
            self.spec_fo() + 40 <= bytes@.len(),
        ensures
            r.spec_fo() == self.spec_fo(),
            r.spec_has_callbacks() == self.spec_has_callbacks(),
            r@ == IMAGE_TLS_DIRECTORY64::spec_read(bytes@, self.spec_fo() as int),
    {
        assert(bytes@.len() == bytes.len());
        Self { raw: IMAGE_TLS_DIRECTORY64::read(bytes, self.fo), fo: self.fo, has_callbacks: self.has_callbacks }
    }

    /// Whether the callback list holds a callback to run, which this library
    /// does not handle.
    pub fn has_callbacks(&self) -> (r: bool)
        ensures
            r == self.spec_has_callbacks(),
    {
        self.has_callbacks
    }

    /// Reads the TLS directory; `None` where it is empty. Its callback list is
    /// looked up too, to tell
    /// whether it holds a callback. A directory that cannot be read (see
    /// `tls_directory_readable`) is not handled.
    pub fn from_image(image: &Image) -> (r: Result<Option<Self>, PeError>)
        requires
            tls_directory_readable(image),
        ensures
            match r {
                Ok(Some(t)) => {
                    let dir = spec_directory(image, IMAGE_TLS_DIRECTORY_INDEX as int);
                    &&& dir.virtual_address != 0 && dir.size != 0
                    &&& t@ == spec_tls_raw(image)
                    &&& t.spec_fo() == spec_fo(image.spec_sections(), dir.virtual_address as int)
                    &&& t.spec_has_callbacks() == (spec_first_callback(image) > 0)
                },
                Ok(None) => {
                    let dir = spec_directory(image, IMAGE_TLS_DIRECTORY_INDEX as int);
                    dir.virtual_address == 0 || dir.size == 0
                },
                Err(_) => false,
            },
    {
        let tls_directory = image.get_nt_header().get_optional_header().data_directory[IMAGE_TLS_DIRECTORY_INDEX];

        if tls_directory.virtual_address == 0 || tls_directory.size == 0 {
            return Ok(None);
        }

        let fo = image.rva_to_fo(tls_directory.virtual_address as usize).unwrap();
        let raw = image.read_from_fo::<IMAGE_TLS_DIRECTORY64>(fo);

        let address_of_callbacks_fo = image.va_to_fo(raw.address_of_callbacks as usize).unwrap();

        let first_callback = image.read_from_fo::<u32>(address_of_callbacks_fo);

        Ok(Some(Self { raw, fo, has_callbacks: first_callback > 0 }))
    }
}

/// The TLS directory read is the record at the file offset of the directory's
/// address, and its first callback word is the little-endian 32-bit value at the
/// file offset of its callback list's address less the image base.
pub proof fn law_tls_read(image: &Image)
    ensures
        spec_tls_raw(image) == IMAGE_TLS_DIRECTORY64::spec_read(
            image.spec_bytes(),
            spec_fo(
                image.spec_sections(),
                spec_directory(image, IMAGE_TLS_DIRECTORY_INDEX as int).virtual_address as int,
            ),
        ),
        spec_first_callback(image) == le_u32(
            image.spec_bytes(),
            spec_fo(
                image.spec_sections(),
                spec_tls_raw(image).address_of_callbacks - image.spec_image_base(),
            ),
        ),
{
}

} // verus!
