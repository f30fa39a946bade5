use pe_disector::base_reloc::{BaseRelocationBlock, Block};
use pe_disector::error::PeError;
use pe_disector::image::{Image, headers_readable_check};
use pe_disector::imports::dll_import::DllImport;
use pe_disector::imports::ImportSimple;
use pe_disector::windows_types::IMAGE_IMPORT_DESCRIPTOR;

const E_LFANEW: usize = 0xE0;
const SECTION_FO: usize = 0x400;
const SECTION_RVA: usize = 0x1000;
const IMAGE_BASE: u64 = 0x1_4000_0000;
const FILE_LEN: usize = 0x1400;

fn put_u16(b: &mut [u8], at: usize, v: u16) {
    b[at..at + 2].copy_from_slice(&v.to_le_bytes());
}

fn put_u32(b: &mut [u8], at: usize, v: u32) {
    b[at..at + 4].copy_from_slice(&v.to_le_bytes());
}

fn put_u64(b: &mut [u8], at: usize, v: u64) {
    b[at..at + 8].copy_from_slice(&v.to_le_bytes());
}

fn put_str(b: &mut [u8], at: usize, s: &str) {
    b[at..at + s.len()].copy_from_slice(s.as_bytes());
    b[at + s.len()] = 0;
}

fn get_u64(b: &[u8], at: usize) -> u64 {
    let mut a = [0u8; 8];
    a.copy_from_slice(&b[at..at + 8]);
    u64::from_le_bytes(a)
}

/// The file offset of an address inside the one section.
fn fo(rva: usize) -> usize {
    rva - SECTION_RVA + SECTION_FO
}

/// The offset of the data directory `idx` in the file.
fn dir_at(idx: usize) -> usize {
    E_LFANEW + 24 + 112 + 8 * idx
}

/// An AMD64 image with one section, `.text`, and every directory empty.
fn bare_image() -> Vec<u8> {
    let mut b = vec![0u8; FILE_LEN];
    put_u16(&mut b, 0, 0x5A4D);
    put_u32(&mut b, 60, E_LFANEW as u32);
    put_u32(&mut b, E_LFANEW, 0x0000_4550);
    let fh = E_LFANEW + 4;
    put_u16(&mut b, fh, 0x8664);
    put_u16(&mut b, fh + 2, 1);
    put_u16(&mut b, fh + 16, 240);
    put_u16(&mut b, fh + 18, 0x22);
    let oh = fh + 20;
    put_u16(&mut b, oh, 0x20B);
    put_u64(&mut b, oh + 24, IMAGE_BASE);
    put_u32(&mut b, oh + 32, 0x1000);
    put_u32(&mut b, oh + 36, 0x200);
    put_u32(&mut b, oh + 56, 0x2000);
    put_u32(&mut b, oh + 60, 0x400);
    put_u32(&mut b, oh + 108, 16);
    let sh = oh + 240;
    b[sh..sh + 5].copy_from_slice(b".text");
    put_u32(&mut b, sh + 8, 0x1000);
    put_u32(&mut b, sh + 12, SECTION_RVA as u32);
    put_u32(&mut b, sh + 16, 0x1000);
    put_u32(&mut b, sh + 20, SECTION_FO as u32);
    put_u32(&mut b, sh + 36, 0x6000_0020);
    b
}

/// The bare image with an import of `ExitProcess` and `Sleep` from
/// `KERNEL32.dll`, and one base relocation block with one 64-bit entry.
fn image_with_tables() -> Vec<u8> {
    let mut b = bare_image();
    // imports
    put_u32(&mut b, dir_at(1), 0x1000);
    put_u32(&mut b, dir_at(1) + 4, 40);
    let d = fo(0x1000);
    put_u32(&mut b, d, 0x1100);
    put_u32(&mut b, d + 12, 0x1200);
    put_u32(&mut b, d + 16, 0x1180);
    for table in [0x1100usize, 0x1180] {
        put_u64(&mut b, fo(table), 0x1300);
        put_u64(&mut b, fo(table) + 8, 0x1310);
    }
    put_str(&mut b, fo(0x1200), "KERNEL32.dll");
    put_u16(&mut b, fo(0x1300), 1);
    put_str(&mut b, fo(0x1302), "ExitProcess");
    put_u16(&mut b, fo(0x1310), 2);
    put_str(&mut b, fo(0x1312), "Sleep");
    // base relocations: one block for the page at 0x1000
    put_u32(&mut b, dir_at(5), 0x1600);
    put_u32(&mut b, dir_at(5) + 4, 12);
    put_u32(&mut b, fo(0x1600), 0x1000);
    put_u32(&mut b, fo(0x1600) + 4, 12);
    put_u16(&mut b, fo(0x1600) + 8, 0xA800);
    put_u64(&mut b, fo(0x1800), IMAGE_BASE + 0x1010);
    // exports: add, then sub, then add again at another address
    put_u32(&mut b, dir_at(0), 0x1400);
    put_u32(&mut b, dir_at(0) + 4, 40);
    let e = fo(0x1400);
    put_u32(&mut b, e + 12, 0x1480);
    put_u32(&mut b, e + 16, 1);
    put_u32(&mut b, e + 20, 3);
    put_u32(&mut b, e + 24, 3);
    put_u32(&mut b, e + 28, 0x1440);
    put_u32(&mut b, e + 32, 0x1450);
    put_u32(&mut b, e + 36, 0x1460);
    for (i, f) in [0x1010u32, 0x1020, 0x1030].iter().enumerate() {
        put_u32(&mut b, fo(0x1440) + 4 * i, *f);
    }
    for (i, n) in [0x1470u32, 0x1478, 0x1470].iter().enumerate() {
        put_u32(&mut b, fo(0x1450) + 4 * i, *n);
    }
    for (i, o) in [0u16, 1, 2].iter().enumerate() {
        put_u16(&mut b, fo(0x1460) + 2 * i, *o);
    }
    put_str(&mut b, fo(0x1470), "add");
    put_str(&mut b, fo(0x1478), "sub");
    put_str(&mut b, fo(0x1480), "sample.dll");
    // exceptions: two function entries
    put_u32(&mut b, dir_at(3), 0x1700);
    put_u32(&mut b, dir_at(3) + 4, 24);
    put_u32(&mut b, fo(0x1700), 0x1010);
    put_u32(&mut b, fo(0x1700) + 4, 0x1020);
    put_u32(&mut b, fo(0x1700) + 8, 0x1900);
    put_u32(&mut b, fo(0x1700) + 12, 0x1020);
    put_u32(&mut b, fo(0x1700) + 16, 0x1030);
    put_u32(&mut b, fo(0x1700) + 20, 0x1910);
    // thread-local storage, with its callback list at 0x1A40
    put_u32(&mut b, dir_at(9), 0x1A00);
    put_u32(&mut b, dir_at(9) + 4, 40);
    put_u64(&mut b, fo(0x1A00), IMAGE_BASE + 0x1A80);
    put_u64(&mut b, fo(0x1A00) + 8, IMAGE_BASE + 0x1A90);
    put_u64(&mut b, fo(0x1A00) + 24, IMAGE_BASE + 0x1A40);
    // load configuration
    put_u32(&mut b, dir_at(10), 0x1B00);
    put_u32(&mut b, dir_at(10) + 4, 112);
    put_u32(&mut b, fo(0x1B00), 112);
    put_u32(&mut b, fo(0x1B00) + 4, 0x5EED);
    b
}

#[test]
fn bare_image_has_no_tables() {
    let image = Image::from_bytes(bare_image());
    assert!(image.get_import_table().is_none());
    assert!(image.get_export_table().is_none());
    assert!(image.get_exception_table().is_none());
    assert!(image.get_relocation_table().is_none());
    assert!(image.get_tls_directory().is_none());
    assert!(image.get_load_config_directory().is_none());
    assert_eq!(image.bytes().len(), FILE_LEN);
}

#[test]
fn headers_are_read() {
    let image = Image::from_bytes(bare_image());
    assert_eq!(image.get_dos_header().e_lfanew, E_LFANEW as i32);
    assert_eq!(image.get_nt_header().get_signature(), 0x4550);
    assert_eq!(image.get_nt_header().get_file_header().machine, 0x8664);
    assert_eq!(image.get_nt_header().get_optional_header().image_base, IMAGE_BASE);
    assert_eq!(image.get_section_table().get_headers().len(), 1);
}

#[test]
fn rva_and_va_map_to_file_offsets() {
    let image = Image::from_bytes(bare_image());
    assert_eq!(image.rva_to_fo(0x1000), Some(0x400));
    assert_eq!(image.rva_to_fo(0x1234), Some(0x634));
    assert_eq!(image.va_to_rva(IMAGE_BASE as usize + 0x1010), 0x1010);
    assert_eq!(image.va_to_fo(IMAGE_BASE as usize + 0x1010), Some(0x410));
}

#[test]
fn write_then_read_at_rva() {
    let mut image = Image::from_bytes(bare_image());
    image.write_to_rva(0x1020, 0xDEAD_BEEFu32);
    assert_eq!(image.read_from_rva::<u32>(0x1020), 0xDEAD_BEEF);
    assert_eq!(image.read_from_fo::<u32>(0x420), 0xDEAD_BEEF);
    assert_eq!(image.bytes()[0x420], 0xEF);
    assert_eq!(image.bytes()[0x423], 0xDE);
    // the bytes around it are as they were
    assert_eq!(image.read_from_rva::<u32>(0x101C), 0);
    assert_eq!(image.read_from_rva::<u32>(0x1024), 0);
}

#[test]
fn write_then_read_at_va() {
    let mut image = Image::from_bytes(bare_image());
    let va = IMAGE_BASE as usize + 0x1040;
    image.write_to_va(va, 0x0123_4567_89AB_CDEFu64);
    assert_eq!(image.read_from_va::<u64>(va), 0x0123_4567_89AB_CDEF);
    assert_eq!(image.read_from_fo::<u16>(0x440), 0xCDEF);
}

#[test]
fn write_bytes_then_read() {
    let mut image = Image::from_bytes(bare_image());
    image.write_bytes_to_rva(0x1100, b"hi\0");
    assert_eq!(image.read_cstr_from_fo(0x500).unwrap(), "hi");
    image.write_bytes_to_fo(0x510, &[1, 2, 3]);
    assert_eq!(&image.bytes()[0x510..0x513], &[1, 2, 3]);
    image.write_bytes_to_va(IMAGE_BASE as usize + 0x1120, &[9]);
    assert_eq!(image.bytes()[0x520], 9);
}

#[test]
fn cstr_without_nul_is_an_error() {
    let mut bytes = bare_image();
    let n = bytes.len();
    bytes[n - 1] = b'x';
    let image = Image::from_bytes(bytes);
    assert_eq!(image.read_cstr_from_fo(n - 1), Err(PeError::MissingNul));
    assert_eq!(image.read_cstr_from_fo(n), Err(PeError::MissingNul));
}

#[test]
fn cstr_is_decoded_lossily() {
    let mut image = Image::from_bytes(bare_image());
    image.write_bytes_to_fo(0x600, &[b'a', 0xFF, b'b', 0]);
    assert_eq!(image.read_cstr_from_fo(0x600).unwrap(), "a\u{FFFD}b");
}

#[test]
fn image_cannot_be_mapped() {
    let image = Image::from_bytes(bare_image());
    assert_eq!(image.map_image_to_virtual_memory(), None);
}

#[test]
fn update_iat_writes_the_slot_of_the_named_function() {
    let mut image = Image::from_bytes(image_with_tables());
    assert!(image.get_import_table().is_some());
    let r = image.update_iat("KERNEL32.dll", ImportSimple::from("Sleep".to_string()), 0x7FF0_0000_1234);
    assert_eq!(r, Ok(()));
    assert_eq!(get_u64(image.bytes(), fo(0x1180) + 8), 0x7FF0_0000_1234);
    // the other slot is untouched
    assert_eq!(get_u64(image.bytes(), fo(0x1180)), 0x1300);
    let r = image.update_iat("KERNEL32.dll", ImportSimple::from("ExitProcess".to_string()), 0x42);
    assert_eq!(r, Ok(()));
    assert_eq!(image.read_from_rva::<u64>(0x1180), 0x42);
}

#[test]
fn update_iat_of_an_unknown_library_or_function() {
    let mut image = Image::from_bytes(image_with_tables());
    let before = image.bytes().to_vec();
    assert_eq!(
        image.update_iat("USER32.dll", ImportSimple::from("Sleep".to_string()), 1),
        Err(PeError::DllNotFound)
    );
    assert_eq!(
        image.update_iat("KERNEL32.dll", ImportSimple::from("Beep".to_string()), 1),
        Err(PeError::FunctionNotFound)
    );
    // functions imported by name are never named by an ordinal
    assert_eq!(
        image.update_iat("KERNEL32.dll", ImportSimple::from(1u16), 1),
        Err(PeError::FunctionNotFound)
    );
    assert_eq!(image.bytes(), &before[..]);
}

#[test]
fn update_iat_without_imports() {
    let mut image = Image::from_bytes(bare_image());
    assert_eq!(
        image.update_iat("KERNEL32.dll", ImportSimple::from("Sleep".to_string()), 1),
        Err(PeError::DllNotFound)
    );
}

#[test]
fn relocations_move_and_move_back() {
    let mut image = Image::from_bytes(image_with_tables());
    assert!(image.get_relocation_table().is_some());
    let before = image.bytes().to_vec();
    let new_base = 0x7FF6_0000_0000usize;
    image.update_relocs(IMAGE_BASE as usize, new_base);
    assert_eq!(get_u64(image.bytes(), fo(0x1800)), new_base as u64 + 0x1010);
    image.update_relocs(new_base, IMAGE_BASE as usize);
    assert_eq!(image.bytes(), &before[..]);
}

#[test]
fn relocations_without_a_table_change_nothing() {
    let mut image = Image::from_bytes(bare_image());
    let before = image.bytes().to_vec();
    image.update_relocs(IMAGE_BASE as usize, 0x1000_0000);
    assert_eq!(image.bytes(), &before[..]);
}

#[test]
fn base_relocation_block_from_words() {
    // page 0x12345678; the size field, 24, ends the entries at word 8
    let words = [
        Block(0x5678),
        Block(0x1234),
        Block(24),
        Block(0),
        Block(0xA001),
        Block(0xA002),
        Block(0),
        Block(0xA003),
    ];
    let (block, rest) = BaseRelocationBlock::from_bytes(&words);
    assert_eq!(
        format!("{:?}", block),
        "BaseRelocationBlock { page_rva: 305419896, blocks: [Block(40961), Block(40962)] }"
    );
    assert_eq!(rest.len(), 2);
    assert_eq!(rest[0].0, 0);
    assert_eq!(rest[1].0, 0xA003);
}

#[test]
fn base_relocation_block_with_no_entries() {
    // a size of 16 ends the entries where they start
    let words = [Block(0x1000), Block(0), Block(16), Block(0), Block(0xA001)];
    let (block, rest) = BaseRelocationBlock::from_bytes(&words);
    assert_eq!(format!("{:?}", block), "BaseRelocationBlock { page_rva: 4096, blocks: [] }");
    assert_eq!(rest.len(), 0);
}

#[test]
fn exports_by_name_keep_the_later_of_two_equal_names() {
    let image = Image::from_bytes(image_with_tables());
    let table = image.get_export_table().unwrap();
    let exports = table.get_exports();
    assert_eq!(exports.len(), 2);
    let add = exports.iter().find(|(n, _)| n == "add").unwrap();
    assert_eq!(*add.1.get_function(), fo(0x1030));
    assert_eq!(*add.1.get_ordinal(), 2);
    let sub = exports.iter().find(|(n, _)| n == "sub").unwrap();
    assert_eq!(*sub.1.get_function(), fo(0x1020));
    assert_eq!(*sub.1.get_ordinal(), 1);
    assert_eq!(table.number_of_functions, 3);
}

#[test]
fn exception_entries_are_read() {
    let image = Image::from_bytes(image_with_tables());
    let table = image.get_exception_table().unwrap();
    let entries = table.get_entrys();
    assert_eq!(entries.len(), 2);
    assert_eq!(entries[0].starting_address, 0x1010);
    assert_eq!(entries[0].unwind_info_address, 0x1900);
    assert_eq!(entries[1].ending_address, 0x1030);
}

#[test]
fn tls_directory_is_read() {
    let image = Image::from_bytes(image_with_tables());
    let tls = image.get_tls_directory().unwrap();
    assert_eq!(tls.start_address_of_raw_data, IMAGE_BASE + 0x1A80);
    assert_eq!(tls.end_address_of_raw_data, IMAGE_BASE + 0x1A90);
    assert_eq!(tls.address_of_callbacks, IMAGE_BASE + 0x1A40);
}

#[test]
fn tls_callbacks_are_noticed() {
    let image = Image::from_bytes(image_with_tables());
    assert!(!image.get_tls_directory().unwrap().has_callbacks());
    let mut bytes = image_with_tables();
    put_u32(&mut bytes, fo(0x1A40), 0x1010);
    let image = Image::from_bytes(bytes);
    assert!(image.get_tls_directory().unwrap().has_callbacks());
}

#[test]
fn headers_are_read_from_the_current_bytes() {
    let mut image = Image::from_bytes(bare_image());
    let oh = E_LFANEW + 24;
    image.write_to_fo(oh + 24, 0x7FF6_0000_0000u64);
    assert_eq!(image.get_nt_header().get_optional_header().image_base, 0x7FF6_0000_0000);
    assert_eq!(image.va_to_rva(0x7FF6_0000_1010), 0x1010);
    image.write_to_fo(0, 0x4242u16);
    assert_eq!(image.get_dos_header().e_magic, 0x4242);
    // renaming the section in its header renames it in the table
    let sh = oh + 240;
    image.write_bytes_to_fo(sh, b".code\0\0\0");
    let table = image.get_section_table();
    assert!(table.find_section_by_name(".text").is_none());
    assert_eq!(table.find_section_by_name(".code").unwrap().get_bytes().len(), 0x1000);
    // moving the section in its header moves the addresses it maps
    image.write_to_fo(sh + 12, 0x3000u32);
    assert_eq!(image.rva_to_fo(0x3010), Some(0x410));
}

#[test]
fn load_configuration_is_read_from_the_current_bytes() {
    let mut image = Image::from_bytes(image_with_tables());
    let fo_of_dir = image.get_load_config_directory().as_ref().unwrap().fo();
    assert_eq!(fo_of_dir, fo(0x1B00));
    let dir = image.get_load_config_directory().as_ref().unwrap().read(&image);
    assert_eq!(dir.size, 112);
    assert_eq!(dir.time_date_stamp, 0x5EED);
    image.write_to_fo(fo(0x1B00) + 4, 7u32);
    let load_config = pe_disector::load_configuration::LoadConfigDirectory::from_image(&image)
        .unwrap()
        .unwrap();
    assert_eq!(load_config.read(&image).time_date_stamp, 7);
}

#[test]
fn imported_library_read_from_its_descriptor() {
    let image = Image::from_bytes(image_with_tables());
    let raw = image.read_from_rva::<IMAGE_IMPORT_DESCRIPTOR>(0x1000);
    assert_eq!(raw.name, 0x1200);
    let dll = DllImport::from_raw_and_image(raw, &image).unwrap();
    assert_eq!(dll.iat_mut(), (fo(0x1180), 2));
    assert_eq!(dll.first_thunk, 0x1180);
    let names: Vec<String> = dll
        .imports()
        .iter()
        .map(|i| match i {
            pe_disector::imports::Import::Name(n) => format!("{}:{}", n.hint, n.name()),
            pe_disector::imports::Import::Ordinal(o) => format!("#{}", o.ordinal_number),
        })
        .collect();
    assert_eq!(names, vec!["1:ExitProcess".to_string(), "2:Sleep".to_string()]);
}

#[test]
fn first_reading_of_the_import_directory() {
    let image = Image::from_bytes(image_with_tables());
    let descriptors = pe_disector::import_table::ImportTable::read_descriptors(&image);
    assert_eq!(descriptors.len(), 1);
    let text = format!("{:?}", descriptors[0]);
    assert!(text.contains("name: \"KERNEL32.dll\""));
    assert!(text.contains("name: \"ExitProcess\""));
    assert!(text.contains("name: \"Sleep\""));
    assert!(pe_disector::import_table::ImportTable::from_image(&image).is_none());
}

#[test]
fn library_name_without_nul_is_an_error() {
    let mut bytes = image_with_tables();
    // the name of the library now runs to the end of the file
    put_u32(&mut bytes, fo(0x1000) + 12, 0x1FFF);
    bytes[FILE_LEN - 1] = b'x';
    put_u32(&mut bytes, dir_at(1), 0);
    let image = Image::from_bytes(bytes);
    let raw = image.read_from_rva::<IMAGE_IMPORT_DESCRIPTOR>(0x1000);
    let r = pe_disector::import_table::DllImport::from_raw_and_image(raw, &image);
    assert_eq!(r.err(), Some(PeError::MissingNul));
}

#[test]
fn sections_are_found_by_name() {
    let image = Image::from_bytes(bare_image());
    let table = image.get_section_table();
    let text = table.find_section_by_name(".text").unwrap();
    assert_eq!(text.name(), ".text");
    assert_eq!(text.virtual_address, SECTION_RVA as u32);
    assert_eq!(text.get_bytes().len(), 0x1000);
    assert!(table.find_section_by_name(".data").is_none());
    assert!(table.find_section_by_name(".tex").is_none());
}

#[test]
fn tables_show_writes_to_the_bytes() {
    let mut image = Image::from_bytes(image_with_tables());
    // the TLS directory's callback address, rewritten
    let tls_fo = image.get_tls_directory().unwrap().fo();
    assert_eq!(tls_fo, fo(0x1A00));
    image.write_to_fo(tls_fo + 24, IMAGE_BASE + 0x1A60);
    let tls = image.get_tls_directory().unwrap();
    assert_eq!(tls.address_of_callbacks, IMAGE_BASE + 0x1A60);
    assert_eq!(tls.read(&image).address_of_callbacks, IMAGE_BASE + 0x1A60);
    // the export directory's time stamp, rewritten; the exports stay
    let export_fo = image.get_export_table().unwrap().fo();
    image.write_to_fo(export_fo + 4, 0x1234_5678u32);
    let exports = image.get_export_table().unwrap();
    assert_eq!(exports.time_data_stamp, 0x1234_5678);
    assert_eq!(exports.get_exports().len(), 2);
    // the first exception entry's start, rewritten
    let entries_fo = image.get_exception_table().unwrap().fo();
    image.write_to_fo(entries_fo, 0x1011u32);
    let table = image.get_exception_table().unwrap();
    assert_eq!(table.get_entrys()[0].starting_address, 0x1011);
    assert_eq!(table.get_entrys()[1].ending_address, 0x1030);
    // the load configuration's time stamp, rewritten
    let config = image.get_load_config_directory().as_ref().unwrap().fo();
    image.write_to_fo(config + 4, 9u32);
    let dir = image.get_load_config_directory().as_ref().unwrap().read(&image);
    assert_eq!(dir.time_date_stamp, 9);
}

#[test]
fn section_data_is_changed_in_the_image() {
    let mut image = Image::from_bytes(image_with_tables());
    let table = image.get_section_table();
    let text = table.find_section_by_name(".text").unwrap();
    let start = text.pointer_to_raw_data as usize;
    {
        let data = text.get_bytes_mut(&mut image);
        data[0] = 0xCC;
        data[1] = 0xC3;
    }
    assert_eq!(image.bytes()[start], 0xCC);
    assert_eq!(image.bytes()[start + 1], 0xC3);
    let again = image.get_section_table();
    assert_eq!(&again.find_section_by_name(".text").unwrap().get_bytes()[..2], &[0xCC, 0xC3]);
}

#[test]
fn headers_are_checked_before_reading() {
    let bytes = bare_image();
    assert!(headers_readable_check(&bytes));
    assert!(!headers_readable_check(&bytes[..63]));
    assert!(!headers_readable_check(&bytes[..E_LFANEW + 263]));
    let mut moved = bare_image();
    put_u32(&mut moved, E_LFANEW + 24 + 240 + 20, bytes.len() as u32);
    assert!(!headers_readable_check(&moved));
    let mut other = bare_image();
    put_u16(&mut other, E_LFANEW + 4, 0x14C);
    assert!(!headers_readable_check(&other));
}

#[test]
fn images_whose_directories_cannot_be_read_are_refused() {
    let image = Image::try_from_bytes(image_with_tables()).unwrap();
    assert_eq!(image.get_tls_directory().unwrap().fo(), fo(0x1A00));
    assert!(Image::try_from_bytes(bare_image()).is_some());
    // a TLS directory at an address no section holds
    let mut bytes = image_with_tables();
    put_u32(&mut bytes, dir_at(9), 0x9000);
    assert!(Image::try_from_bytes(bytes).is_none());
    // a relocation block shorter than its own head
    let mut bytes = image_with_tables();
    put_u32(&mut bytes, fo(0x1600) + 4, 4);
    assert!(Image::try_from_bytes(bytes).is_none());
    // an import directory too small for its closing descriptor
    let mut bytes = image_with_tables();
    put_u32(&mut bytes, dir_at(1) + 4, 8);
    assert!(Image::try_from_bytes(bytes).is_none());
    // headers that cannot be read
    assert!(Image::try_from_bytes(bare_image()[..100].to_vec()).is_none());
}
