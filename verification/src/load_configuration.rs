//! The load configuration directory of an image.
use vstd::prelude::*;

use crate::error::PeError;
use crate::exception_table::spec_directory;
use crate::image::{Fo, Image, rva_resolvable, spec_fo};
use crate::raw::RawStruct;
use crate::windows_types::IMAGE_LOAD_CONFIG_DIRECTORY64;

verus! {

/// The index of the load configuration directory among the data directories.
pub const IMAGE_LOAD_CONFIG_DIRECTORY_INDEX: usize = 10;

/// The load configuration directory is empty, or it maps.
pub open spec fn load_config_directory_readable(image: &Image) -> bool {
    let dir = spec_directory(image, IMAGE_LOAD_CONFIG_DIRECTORY_INDEX as int);
    &&& image.headers_in_bytes()
    &&& (dir.virtual_address != 0 && dir.size != 0 ==> rva_resolvable(
        image.spec_sections(),
        dir.virtual_address as int,
    ))
}

/// Where the load configuration directory of an image is; it is read on demand.
#[derive(Debug)]
pub struct LoadConfigDirectory {
    fo: Fo,
}

impl LoadConfigDirectory {
    pub closed spec fn spec_fo(&self) -> Fo {
        self.fo
    }

    /// Finds the load configuration directory; `None` where it is empty. One that
    /// does not map is not handled.
    pub fn from_image(image: &Image) -> (r: Result<Option<Self>, PeError>)
        requires
            load_config_directory_readable(image),
        ensures
            match r {
                Ok(Some(d)) => {
                    let dir = spec_directory(image, IMAGE_LOAD_CONFIG_DIRECTORY_INDEX as int);
                    &&& dir.virtual_address != 0 && dir.size != 0
                    &&& d.spec_fo() == spec_fo(image.spec_sections(), dir.virtual_address as int)
                },
                Ok(None) => {
                    let dir = spec_directory(image, IMAGE_LOAD_CONFIG_DIRECTORY_INDEX as int);
                    dir.virtual_address == 0 || dir.size == 0
                },
                Err(_) => false,
            },
    {
        let load_config_directory = image.get_nt_header().get_optional_header().data_directory[IMAGE_LOAD_CONFIG_DIRECTORY_INDEX];

        if load_config_directory.virtual_address == 0 || load_config_directory.size == 0 {
            return Ok(None);
        }

        let fo = image.rva_to_fo(load_config_directory.virtual_address as usize).unwrap();

        Ok(Some(Self { fo }))
    }

    /// The file offset of the directory.
    pub fn fo(&self) -> (r: Fo)
        ensures
            r == self.spec_fo(),
    {
        self.fo
    }

    /// The leading fields of the directory, read from the image's current bytes;
    /// a record that runs past the end is not handled.
    pub fn read(&self, image: &Image) -> (r: IMAGE_LOAD_CONFIG_DIRECTORY64)
        requires
            self.spec_fo() + 112 <= image.spec_bytes().len(),
        ensures
            r == IMAGE_LOAD_CONFIG_DIRECTORY64::spec_read(image.spec_bytes(), self.spec_fo() as int),
    {
        image.read_from_fo::<IMAGE_LOAD_CONFIG_DIRECTORY64>(self.fo)
    }
}

} // verus!
