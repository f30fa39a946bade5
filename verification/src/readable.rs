//! Tests, made on an image's bytes, of whether its directories can be read.
use vstd::prelude::*;

use crate::cstr::{cstr_len_at, has_nul, lemma_cstr_len};
use crate::exception_table::{IMAGE_EXCEPTION_DIRECTORY_INDEX, exception_entries_readable, spec_directory};
use crate::image::{Fo, Image, tables_readable};
use crate::load_configuration::{IMAGE_LOAD_CONFIG_DIRECTORY_INDEX, load_config_directory_readable};
use crate::tls::{IMAGE_TLS_DIRECTORY_INDEX, spec_tls_raw, tls_directory_readable};
use crate::imports::dll_import::{
    MAX_THUNKS, dll_import_readable, imports_readable_from, read_imports, spec_imports_from,
};
use crate::imports::import_table::{
    IMAGE_IMPORT_DIRECTORY_INDEX, import_directory_readable, spec_descriptor, spec_descriptor_count,
};
use crate::exports::export_table::{
    IMAGE_EXPORT_DIRECTORY_INDEX, export_directory_readable, spec_export_count, spec_export_directory,
    spec_function_rva, spec_name_rva,
};
use crate::image::{rva_resolvable, spec_fo};
use crate::imports::Import;
use crate::reloc::relocation_table::{
    IMAGE_REL_BASED_DIR64, IMAGE_RELOCATION_DIRECTORY_INDEX, reloc_blocks_readable_from,
    relocation_directory_readable, spec_entry, spec_entry_count, spec_head, spec_page_fo, spec_reloc_fo,
};
use crate::windows_types::{
    IMAGE_BASE_RELOCATION, IMAGE_DATA_DIRECTORY, IMAGE_EXPORT_DIRECTORY, IMAGE_IMPORT_DESCRIPTOR, IMAGE_TLS_DIRECTORY64,
};

verus! {

/// Whether a NUL follows `off` in `bytes`.
pub fn has_nul_at(bytes: &[u8], off: usize) -> (r: bool)
    requires
        off <= bytes@.len(),
    ensures
        r == has_nul(bytes@.subrange(off as int, bytes@.len() as int)),
{
    let n = cstr_len_at(bytes, off);
    proof {
        lemma_cstr_len(bytes@.subrange(off as int, bytes@.len() as int));
    }
    assert(bytes@.len() == bytes.len());
    off + n < bytes.len()
}

/// The data directory `idx` of the image, read from its current bytes.
fn directory(image: &Image, idx: usize) -> (r: IMAGE_DATA_DIRECTORY)
    requires
        image.headers_in_bytes(),
        idx < 16,
    ensures
        r == spec_directory(image, idx as int),
{
    image.get_nt_header().get_optional_header().data_directory[idx]
}

/// Whether the TLS directory can be read (see `tls_directory_readable`).
pub fn tls_directory_readable_check(image: &Image) -> (r: bool)
    requires
        image.wf(),
    ensures
        r == tls_directory_readable(image),
{
    let dir = directory(image, IMAGE_TLS_DIRECTORY_INDEX);
    if dir.virtual_address == 0 || dir.size == 0 {
        return true;
    }
    let len = image.bytes().len();
    let fo = match image.rva_to_fo_checked(dir.virtual_address as usize) {
        Some(fo) => fo,
        None => return false,
    };
    if fo > len || len - fo < 40 {
        return false;
    }
    let raw = image.read_from_fo::<IMAGE_TLS_DIRECTORY64>(fo);
    assert(raw == spec_tls_raw(image));
    let callbacks = raw.address_of_callbacks;
    if callbacks > usize::MAX as u64 {
        return false;
    }
    let base = image.get_nt_header().get_optional_header().image_base;
    assert(base == image.spec_image_base());
    if base > callbacks {
        return false;
    }
    let callbacks_fo = match image.rva_to_fo_checked((callbacks - base) as usize) {
        Some(fo) => fo,
        None => return false,
    };
    callbacks_fo <= len && len - callbacks_fo >= 4
}

/// Whether the load configuration directory can be read (see
/// `load_config_directory_readable`).
pub fn load_config_directory_readable_check(image: &Image) -> (r: bool)
    requires
        image.wf(),
    ensures
        r == load_config_directory_readable(image),
{
    let dir = directory(image, IMAGE_LOAD_CONFIG_DIRECTORY_INDEX);
    if dir.virtual_address == 0 || dir.size == 0 {
        return true;
    }
    image.rva_to_fo_checked(dir.virtual_address as usize).is_some()
}

/// Whether the exception directory can be read (see `exception_entries_readable`).
pub fn exception_entries_readable_check(image: &Image) -> (r: bool)
    requires
        image.wf(),
    ensures
        r == exception_entries_readable(image),
{
    let dir = directory(image, IMAGE_EXCEPTION_DIRECTORY_INDEX);
    if dir.virtual_address == 0 || dir.size == 0 {
        return true;
    }
    let len = image.bytes().len();
    match image.rva_to_fo_checked(dir.virtual_address as usize) {
        Some(fo) => fo <= len && (dir.size / 12) as usize * 12 <= len - fo,
        None => false,
    }
}

/// Whether the lookup table at `ilt` can be walked (see `imports_readable_from`).
pub fn imports_readable_check(image: &Image, ilt: Fo) -> (r: bool)
    requires
        image.wf(),
    ensures
        r == imports_readable_from(image, ilt as int, 0),
{
    let len = image.bytes().len();
    let mut i: usize = 0;
    while i < MAX_THUNKS
        invariant
            0 <= i <= MAX_THUNKS,
            image.wf(),
            len == image.spec_bytes().len(),
            imports_readable_from(image, ilt as int, 0) == imports_readable_from(image, ilt as int, i as int),
        decreases MAX_THUNKS - i,
    {
        if ilt > len || (len - ilt) / 8 < i + 1 {
            assert(ilt + 8 * (i + 1) > len) by (nonlinear_arith)
                requires
                    ilt > len || (len - ilt) / 8 < i + 1,
            ;
            return false;
        }
        assert(ilt + 8 * (i + 1) <= len) by (nonlinear_arith)
            requires
                ilt <= len,
                (len - ilt) / 8 >= i + 1,
        ;
        let t = image.read_from_fo::<u64>(ilt + 8 * i);
        if t == 0 {
            return true;
        }
        if t > usize::MAX as u64 {
            return false;
        }
        let fo = match image.rva_to_fo_checked(t as usize) {
            Some(fo) => fo,
            None => return false,
        };
        if fo > len || len - fo < 2 {
            return false;
        }
        i = i + 1;
    }
    true
}

/// Whether the library `raw` describes can be read (see `dll_import_readable`).
pub fn dll_import_readable_check(image: &Image, raw: IMAGE_IMPORT_DESCRIPTOR) -> (r: bool)
    requires
        image.wf(),
    ensures
        r == dll_import_readable(image, raw),
{
    let len = image.bytes().len();
    let ilt = match image.rva_to_fo_checked(raw.original_first_thunk as usize) {
        Some(fo) => fo,
        None => return false,
    };
    if !imports_readable_check(image, ilt) {
        return false;
    }
    let iat = match image.rva_to_fo_checked(raw.first_thunk as usize) {
        Some(fo) => fo,
        None => return false,
    };
    let imports = read_imports(image, ilt);
    let n = imports.len();
    assert(n == spec_imports_from(image, ilt as int, 0).len()) by {
        assert(imports@.map_values(|x: Import| x@).len() == imports@.len());
    }
    if iat > len || (len - iat) / 8 < n {
        assert(iat + 8 * n > len) by (nonlinear_arith)
            requires
                iat > len || (len - iat) / 8 < n,
        ;
        return false;
    }
    assert(iat + 8 * n <= len) by (nonlinear_arith)
        requires
            iat <= len,
            (len - iat) / 8 >= n,
    ;
    true
}

/// Whether the import directory can be read (see `import_directory_readable`).
pub fn import_directory_readable_check(image: &Image) -> (r: bool)
    requires
        image.wf(),
    ensures
        r == import_directory_readable(image),
{
    let dir = directory(image, IMAGE_IMPORT_DIRECTORY_INDEX);
    if dir.virtual_address == 0 || dir.size == 0 {
        return true;
    }
    if dir.size < 20 {
        return false;
    }
    let bytes = image.bytes();
    let len = bytes.len();
    let fo = match image.rva_to_fo_checked(dir.virtual_address as usize) {
        Some(fo) => fo,
        None => return false,
    };
    let count = (dir.size / 20 - 1) as usize;
    assert(count == spec_descriptor_count(image));
    if fo > len || (len - fo) / 20 < count {
        assert(fo + 20 * count > len) by (nonlinear_arith)
            requires
                fo > len || (len - fo) / 20 < count,
        ;
        return false;
    }
    assert(fo + 20 * count <= len) by (nonlinear_arith)
        requires
            fo <= len,
            (len - fo) / 20 >= count,
    ;
    let mut i: usize = 0;
    while i < count
        invariant
            0 <= i <= count,
            image.wf(),
            bytes@ == image.spec_bytes(),
            len == bytes@.len(),
            dir == spec_directory(image, IMAGE_IMPORT_DIRECTORY_INDEX as int),
            dir.virtual_address != 0 && dir.size >= 20,
            count == spec_descriptor_count(image),
            crate::image::rva_resolvable(image.spec_sections(), dir.virtual_address as int),
            fo == crate::image::spec_fo(image.spec_sections(), dir.virtual_address as int),
            fo + 20 * count <= len,
            forall|k: int|
                0 <= k < i ==> {
                    &&& dll_import_readable(image, #[trigger] spec_descriptor(image, k))
                    &&& crate::image::rva_resolvable(image.spec_sections(), spec_descriptor(image, k).name as int)
                    &&& crate::image::spec_fo(image.spec_sections(), spec_descriptor(image, k).name as int) <= len
                    &&& has_nul(
                        image.spec_bytes().subrange(
                            crate::image::spec_fo(image.spec_sections(), spec_descriptor(image, k).name as int),
                            len as int,
                        ),
                    )
                },
        decreases count - i,
    {
        let d = image.read_from_fo::<IMAGE_IMPORT_DESCRIPTOR>(fo + 20 * i);
        assert(d == spec_descriptor(image, i as int));
        if !dll_import_readable_check(image, d) {
            return false;
        }
        let name_fo = match image.rva_to_fo_checked(d.name as usize) {
            Some(n) => n,
            None => return false,
        };
        if name_fo > len {
            return false;
        }
        if !has_nul_at(bytes, name_fo) {
            return false;
        }
        i = i + 1;
    }
    true
}

/// Whether `n` records of `width` bytes from `fo` on lie in bytes of length `len`.
fn fits(fo: usize, n: usize, width: usize, len: usize) -> (r: bool)
    requires
        1 <= width <= 8,
    ensures
        r == (fo + width * n <= len),
{
    if fo > len || (len - fo) / width < n {
        assert(fo + width * n > len) by (nonlinear_arith)
            requires
                fo > len || (len - fo) / (width as int) < n,
                1 <= width,
        ;
        false
    } else {
        assert(fo + width * n <= len) by (nonlinear_arith)
            requires
                fo <= len,
                (len - fo) / (width as int) >= n,
                1 <= width,
        ;
        true
    }
}

/// Whether the export directory can be read (see `export_directory_readable`).
#[verifier::rlimit(30)]
pub fn export_directory_readable_check(image: &Image) -> (r: bool)
    requires
        image.wf(),
    ensures
        r == export_directory_readable(image),
{
    let dir = directory(image, IMAGE_EXPORT_DIRECTORY_INDEX);
    if dir.virtual_address == 0 || dir.size == 0 {
        return true;
    }
    let bytes = image.bytes();
    let len = bytes.len();
    let fo = match image.rva_to_fo_checked(dir.virtual_address as usize) {
        Some(fo) => fo,
        None => return false,
    };
    if !fits(fo, 40, 1, len) {
        return false;
    }
    let d = image.read_from_fo::<IMAGE_EXPORT_DIRECTORY>(fo);
    assert(d == spec_export_directory(image));
    let functions = match image.rva_to_fo_checked(d.address_of_functions as usize) {
        Some(fo) => fo,
        None => return false,
    };
    if !fits(functions, d.number_of_functions as usize, 4, len) {
        return false;
    }
    let names = match image.rva_to_fo_checked(d.address_of_names as usize) {
        Some(fo) => fo,
        None => return false,
    };
    if !fits(names, d.number_of_names as usize, 4, len) {
        return false;
    }
    let ordinals = match image.rva_to_fo_checked(d.address_of_name_ordinals as usize) {
        Some(fo) => fo,
        None => return false,
    };
    if !fits(ordinals, d.number_of_names as usize, 2, len) {
        return false;
    }
    let count = if d.number_of_functions < d.number_of_names {
        d.number_of_functions as usize
    } else {
        d.number_of_names as usize
    };
    assert(count == spec_export_count(d));
    let mut i: usize = 0;
    while i < count
        invariant
            0 <= i <= count,
            image.wf(),
            bytes@ == image.spec_bytes(),
            len == bytes@.len(),
            dir == spec_directory(image, IMAGE_EXPORT_DIRECTORY_INDEX as int),
            dir.virtual_address != 0 && dir.size != 0,
            d == spec_export_directory(image),
            count == spec_export_count(d),
            count <= d.number_of_functions,
            count <= d.number_of_names,
            rva_resolvable(image.spec_sections(), d.address_of_functions as int),
            functions == spec_fo(image.spec_sections(), d.address_of_functions as int),
            functions + 4 * d.number_of_functions <= len,
            rva_resolvable(image.spec_sections(), d.address_of_names as int),
            names == spec_fo(image.spec_sections(), d.address_of_names as int),
            names + 4 * d.number_of_names <= len,
            forall|k: int|
                0 <= k < i ==> {
                    &&& rva_resolvable(image.spec_sections(), #[trigger] spec_name_rva(image, k) as int)
                    &&& spec_fo(image.spec_sections(), spec_name_rva(image, k) as int) <= len
                    &&& has_nul(
                        image.spec_bytes().subrange(
                            spec_fo(image.spec_sections(), spec_name_rva(image, k) as int),
                            len as int,
                        ),
                    )
                    &&& rva_resolvable(image.spec_sections(), spec_function_rva(image, k) as int)
                },
        decreases count - i,
    {
        let name_rva = image.read_from_fo::<u32>(names + 4 * i);
        assert(name_rva == spec_name_rva(image, i as int));
        let name_fo = match image.rva_to_fo_checked(name_rva as usize) {
            Some(n) => n,
            None => return false,
        };
        if name_fo > len || !has_nul_at(bytes, name_fo) {
            return false;
        }
        let function_rva = image.read_from_fo::<u32>(functions + 4 * i);
        assert(function_rva == spec_function_rva(image, i as int));
        if image.rva_to_fo_checked(function_rva as usize).is_none() {
            return false;
        }
        i = i + 1;
    }
    true
}

/// Whether every nonzero entry of the block `pos` bytes into the relocation
/// directory at `reloc_fo` is a 64-bit fix-up within reach of its page at `page_fo`.
fn block_entries_check(image: &Image, reloc_fo: Fo, pos: usize, count: usize, page_fo: Fo) -> (r: bool)
    requires
        reloc_fo == spec_reloc_fo(image),
        reloc_fo + pos + 8 + 2 * count <= image.spec_bytes().len(),
        page_fo <= isize::MAX,
    ensures
        r == (forall|i: int|
            0 <= i < count && #[trigger] spec_entry(image, pos as int, i) != 0 ==> {
                &&& spec_entry(image, pos as int, i) >> 12u16 == IMAGE_REL_BASED_DIR64
                &&& page_fo + (spec_entry(image, pos as int, i) & 0xFFFu16) <= isize::MAX
            }),
{
    let _ = image.bytes();
    let mut i: usize = 0;
    while i < count
        invariant
            0 <= i <= count,
            image.spec_bytes().len() <= usize::MAX,
            page_fo <= isize::MAX,
            reloc_fo == spec_reloc_fo(image),
            reloc_fo + pos + 8 + 2 * count <= image.spec_bytes().len(),
            forall|k: int|
                0 <= k < i && #[trigger] spec_entry(image, pos as int, k) != 0 ==> {
                    &&& spec_entry(image, pos as int, k) >> 12u16 == IMAGE_REL_BASED_DIR64
                    &&& page_fo + (spec_entry(image, pos as int, k) & 0xFFFu16) <= isize::MAX
                },
        decreases count - i,
    {
        let entry = image.read_from_fo::<u16>(reloc_fo + pos + 8 + 2 * i);
        assert(entry == spec_entry(image, pos as int, i as int));
        if entry != 0 {
            if entry >> 12u16 != IMAGE_REL_BASED_DIR64 {
                return false;
            }
            if page_fo as u64 + (entry & 0xFFFu16) as u64 > isize::MAX as u64 {
                return false;
            }
        }
        i = i + 1;
    }
    true
}

/// Whether the relocation directory can be read (see `relocation_directory_readable`).
#[verifier::rlimit(30)]
pub fn relocation_directory_readable_check(image: &Image) -> (r: bool)
    requires
        image.wf(),
    ensures
        r == relocation_directory_readable(image),
{
    let dir = directory(image, IMAGE_RELOCATION_DIRECTORY_INDEX);
    if dir.virtual_address == 0 || dir.size == 0 {
        return true;
    }
    let len = image.bytes().len();
    let reloc_fo = match image.rva_to_fo_checked(dir.virtual_address as usize) {
        Some(fo) => fo,
        None => return false,
    };
    let size = dir.size as usize;
    if reloc_fo > len || len - reloc_fo < size {
        return false;
    }
    let mut pos: usize = 0;
    loop
        invariant
            image.wf(),
            len == image.spec_bytes().len(),
            dir == spec_directory(image, IMAGE_RELOCATION_DIRECTORY_INDEX as int),
            size == dir.size,
            reloc_fo == spec_reloc_fo(image),
            reloc_fo + size <= len,
            pos < size,
            relocation_directory_readable(image) == reloc_blocks_readable_from(image, size as int, pos as int),
        decreases size - pos,
    {
        if size - pos < 8 {
            return false;
        }
        let head = image.read_from_fo::<IMAGE_BASE_RELOCATION>(reloc_fo + pos);
        assert(head == spec_head(image, pos as int));
        let block_size = head.size as usize;
        if block_size < 8 || block_size > size - pos {
            return false;
        }
        let page_fo = match image.rva_to_fo_checked(head.virtual_address as usize) {
            Some(fo) => fo,
            None => return false,
        };
        assert(page_fo == spec_page_fo(image, pos as int));
        if page_fo as u64 > isize::MAX as u64 {
            return false;
        }
        let count = (block_size - 8) / 2;
        assert(count == spec_entry_count(head));
        if !block_entries_check(image, reloc_fo, pos, count, page_fo) {
            return false;
        }
        if pos + block_size >= size {
            return true;
        }
        pos = pos + block_size;
    }
}

/// Whether every directory of the image can be read (see `tables_readable`).
pub fn tables_readable_check(image: &Image) -> (r: bool)
    requires
        image.wf(),
    ensures
        r == tables_readable(image),
{
    import_directory_readable_check(image) && export_directory_readable_check(image)
        && exception_entries_readable_check(image) && relocation_directory_readable_check(image)
        && tls_directory_readable_check(image) && load_config_directory_readable_check(image)
}

} // verus!
