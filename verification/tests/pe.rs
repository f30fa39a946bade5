use pe_disector::arch::Architecture;
use pe_disector::error::PeError;
use pe_disector::exception::ExceptionTable;
use pe_disector::export::ExportTable;
use pe_disector::import::ImportTable;
use pe_disector::pe::{Image as PeImage, ImageOwned, ImageRef};
use pe_disector::pe_headers::nt_header::NtHeader;
use pe_disector::pe_headers::optional_header::OptionalHeader;
use pe_disector::pe_headers::PeHeaders;
use pe_disector::section::section_header::SectionHeader;
use pe_disector::section::section_table::{SectionTable, SectionTableOwned, SectionTableRef};

const E_LFANEW: usize = 0xE0;
const SECTION_FO: usize = 0x400;
const SECTION_RVA: usize = 0x1000;
const IMAGE_BASE: u64 = 0x1_4000_0000;
const FILE_LEN: usize = 0x1400;

fn put_u16(b: &mut [u8], at: usize, v: u16) {
    b[at..at + 2].copy_from_slice(&v.to_le_bytes());
}

fn put_u32(b: &mut [u8], at: usize, v: u32) {
    b[at..at + 4].copy_from_slice(&v.to_le_bytes());
}

fn put_u64(b: &mut [u8], at: usize, v: u64) {
    b[at..at + 8].copy_from_slice(&v.to_le_bytes());
}

fn put_str(b: &mut [u8], at: usize, s: &str) {
    b[at..at + s.len()].copy_from_slice(s.as_bytes());
    b[at + s.len()] = 0;
}

fn fo(rva: usize) -> usize {
    rva - SECTION_RVA + SECTION_FO
}

fn dir_at(idx: usize) -> usize {
    E_LFANEW + 24 + 112 + 8 * idx
}

/// An AMD64 image with one section, `.text`, and every directory empty.
fn bare_image() -> Vec<u8> {
    let mut b = vec![0u8; FILE_LEN];
    put_u16(&mut b, 0, 0x5A4D);
    put_u32(&mut b, 60, E_LFANEW as u32);
    b[64] = 0x0E;
    put_u32(&mut b, E_LFANEW, 0x0000_4550);
    let fh = E_LFANEW + 4;
    put_u16(&mut b, fh, 0x8664);
    put_u16(&mut b, fh + 2, 1);
    put_u16(&mut b, fh + 16, 240);
    put_u16(&mut b, fh + 18, 0x22);
    let oh = fh + 20;
    put_u16(&mut b, oh, 0x20B);
    put_u64(&mut b, oh + 24, IMAGE_BASE);
    put_u32(&mut b, oh + 32, 0x1000);
    put_u32(&mut b, oh + 36, 0x200);
    put_u32(&mut b, oh + 56, 0x2000);
    put_u32(&mut b, oh + 60, 0x400);
    put_u32(&mut b, oh + 108, 16);
    let sh = oh + 240;
    b[sh..sh + 5].copy_from_slice(b".text");
    put_u32(&mut b, sh + 8, 0x1000);
    put_u32(&mut b, sh + 12, SECTION_RVA as u32);
    put_u32(&mut b, sh + 16, 0x1000);
    put_u32(&mut b, sh + 20, SECTION_FO as u32);
    put_u32(&mut b, sh + 36, 0x6000_0020);
    b
}

/// The bare image with imports from `KERNEL32.dll`, two exports, and one
/// exception entry with one unwind code.
fn full_image() -> Vec<u8> {
    let mut b = bare_image();
    // imports: ExitProcess by name, Sleep by name, ordinal 7
    put_u32(&mut b, dir_at(1), 0x1000);
    put_u32(&mut b, dir_at(1) + 4, 40);
    let d = fo(0x1000);
    put_u32(&mut b, d, 0x1100);
    put_u32(&mut b, d + 8, 0xFFFF_FFFF);
    put_u32(&mut b, d + 12, 0x1200);
    put_u32(&mut b, d + 16, 0x1180);
    for table in [0x1100usize, 0x1180] {
        put_u64(&mut b, fo(table), 0x1300);
        put_u64(&mut b, fo(table) + 8, 0x1310);
        put_u64(&mut b, fo(table) + 16, 0x8000_0000_0000_0007);
    }
    put_str(&mut b, fo(0x1200), "KERNEL32.dll");
    put_u16(&mut b, fo(0x1300), 1);
    put_str(&mut b, fo(0x1302), "ExitProcess");
    put_u16(&mut b, fo(0x1310), 2);
    put_str(&mut b, fo(0x1312), "Sleep");
    // exports: add and sub
    put_u32(&mut b, dir_at(0), 0x1400);
    put_u32(&mut b, dir_at(0) + 4, 40);
    let e = fo(0x1400);
    put_u32(&mut b, e + 12, 0x1480);
    put_u32(&mut b, e + 16, 1);
    put_u32(&mut b, e + 20, 2);
    put_u32(&mut b, e + 24, 2);
    put_u32(&mut b, e + 28, 0x1440);
    put_u32(&mut b, e + 32, 0x1450);
    put_u32(&mut b, e + 36, 0x1460);
    put_u32(&mut b, fo(0x1440), 0x1010);
    put_u32(&mut b, fo(0x1440) + 4, 0x1020);
    put_u32(&mut b, fo(0x1450), 0x1470);
    put_u32(&mut b, fo(0x1450) + 4, 0x1478);
    put_u16(&mut b, fo(0x1460), 0);
    put_u16(&mut b, fo(0x1460) + 2, 1);
    put_str(&mut b, fo(0x1470), "add");
    put_str(&mut b, fo(0x1478), "sub");
    put_str(&mut b, fo(0x1480), "sample.dll");
    // exceptions: one function with one unwind code
    put_u32(&mut b, dir_at(3), 0x1700);
    put_u32(&mut b, dir_at(3) + 4, 12);
    put_u32(&mut b, fo(0x1700), 0x1010);
    put_u32(&mut b, fo(0x1700) + 4, 0x1020);
    put_u32(&mut b, fo(0x1700) + 8, 0x1900);
    b[fo(0x1900)] = 1;
    b[fo(0x1900) + 1] = 4;
    b[fo(0x1900) + 2] = 1;
    put_u16(&mut b, fo(0x1904), 0x4204);
    b
}

#[test]
fn pe_headers_are_read() {
    let bytes = bare_image();
    let headers = PeHeaders::from_bytes(&bytes);
    assert_eq!(headers.dos_header().e_magic, 0x5A4D);
    assert_eq!(headers.dos_header().e_lfanew, E_LFANEW as i32);
    let nt = headers.nt_header();
    assert_eq!(nt.file_header().number_of_sections(), 1);
    assert_eq!(nt.file_header().size_of_optional_header(), 240);
    assert_eq!(nt.file_header().arch(), Architecture::X64);
    assert_eq!(nt.optional_header().magic(), 0x20B);
    assert_eq!(nt.optional_header().image_base(), IMAGE_BASE as usize);
    assert!(nt.optional_header().is_amd_intel());
    assert!(!nt.is_optional_invalid_size());
    assert_eq!(nt.size(), 264);
}

#[test]
fn pe_headers_to_bytes_gives_the_file_start_back() {
    let bytes = bare_image();
    let headers = PeHeaders::from_bytes(&bytes);
    let out = headers.to_bytes();
    assert_eq!(out.len(), E_LFANEW + 264);
    assert_eq!(&out[..], &bytes[..E_LFANEW + 264]);
    let again = PeHeaders::from_bytes(&[out.as_slice(), &bytes[E_LFANEW + 264..]].concat());
    assert_eq!(again.to_bytes(), out);
}

#[test]
fn image_base_can_be_set() {
    let bytes = bare_image();
    let headers = PeHeaders::from_bytes(&bytes);
    let mut optional = match headers.nt_header() {
        pe_disector::pe_headers::nt_header::NtHeadersKind::X64(h) => {
            pe_disector::pe_headers::optional_header::OptionalHeader64::new(h.optional_header().raw())
        }
        _ => panic!("an AMD64 image has PE32+ headers"),
    };
    optional.set_image_base(0x7FF6_0000_0000);
    assert_eq!(optional.image_base(), 0x7FF6_0000_0000);
    assert_eq!(optional.raw().image_base, 0x7FF6_0000_0000);
}

#[test]
fn architecture_of_machine_fields() {
    assert_eq!(Architecture::try_from(0x8664), Ok(Architecture::X64));
    assert_eq!(Architecture::try_from(0x14C), Ok(Architecture::X32));
    assert_eq!(Architecture::X64.to_string(), "AMD64");
    assert_eq!(Architecture::X32.to_string(), "I386");
}

#[test]
fn image_ref_reads_headers_and_sections() {
    let bytes = bare_image();
    let image = ImageRef::from_binary_bytes(&bytes).unwrap();
    assert_eq!(image.bytes().len(), FILE_LEN);
    assert_eq!(image.arch(), Architecture::X64);
    let sections = image.section_table().section_headers();
    assert_eq!(sections.len(), 1);
    assert_eq!(sections[0].name(), ".text");
    assert_eq!(sections[0].raw().virtual_address, 0x1000);
    assert_eq!(sections[0].bytes().len(), 0x1000);
}

#[test]
fn image_ref_address_lookups() {
    let bytes = full_image();
    let image = ImageRef::from_binary_bytes(&bytes).unwrap();
    assert_eq!(image.rva_to_fo(0x1000), Ok(0x400));
    assert_eq!(image.rva_to_fo(0x1FFF), Ok(0x13FF));
    assert_eq!(image.rva_to_fo(0x2000), Err(PeError::RvaNotMapped));
    assert_eq!(image.rva_to_fo(0x10), Err(PeError::RvaNotMapped));
    assert_eq!(image.va_to_fo(IMAGE_BASE as usize + 0x1010), Ok(0x410));
    assert_eq!(image.read_from_rva::<u32>(0x1700), Ok(0x1010));
    assert_eq!(image.read_from_rva::<u32>(0x3000), Err(PeError::RvaNotMapped));
    assert_eq!(image.read_c_str_from_rva(0x1200), Ok("KERNEL32.dll".to_string()));
    assert_eq!(image.read_c_str_from_fo(fo(0x1470)), Ok("add".to_string()));
    assert_eq!(image.read_from_fo::<u16>(0), 0x5A4D);
    assert_eq!(image.read_from_fo_to_buf(fo(0x1478), 3), b"sub".to_vec());
    assert_eq!(image.read_from_rva_to_buf(0x1478, 3), Ok(b"sub".to_vec()));
    assert_eq!(image.read_slice_from_rva::<u32>(0x1440, 2), Ok(vec![0x1010, 0x1020]));
    assert_eq!(image.read_slice_from_rva::<u16>(0x1460, 2), Ok(vec![0, 1]));
    // seventeen bytes from 0x1FF0 run past the end of the file
    assert_eq!(image.read_slice_from_rva::<u32>(0x1FF0, 17), Err(PeError::OutOfRange));
    assert_eq!(image.read_slice_from_rva::<u32>(0x1FF0, 4).map(|v| v.len()), Ok(4));
    assert_eq!(image.read_from_rva_to_buf(0x5000, 1), Err(PeError::RvaNotMapped));
}

#[test]
fn imports_are_read_library_by_library() {
    let bytes = full_image();
    let image = ImageRef::from_binary_bytes(&bytes).unwrap();
    let table = ImportTable::from_image(&image).unwrap().unwrap();
    let text = format!("{:?}", table);
    assert!(text.contains("name: \"KERNEL32.dll\""));
    assert!(text.contains("forwarder_chain: 4294967295"));
    assert!(text.contains("import_lookup_table: 1280"));
    assert!(text.contains("import_address_table: 1408"));
    assert!(text.contains("Name(ByName { name: \"ExitProcess\", address_entry: 1408 })"));
    assert!(text.contains("Name(ByName { name: \"Sleep\", address_entry: 1416 })"));
    assert!(text.contains("Ordinal(ByOrdinal { number: 7, address_entry: 1424 })"));
}

#[test]
fn no_import_directory_means_no_import_table() {
    let bytes = bare_image();
    let image = ImageRef::from_binary_bytes(&bytes).unwrap();
    assert!(ImportTable::from_image(&image).unwrap().is_none());
}

#[test]
fn import_name_outside_the_sections_is_an_error() {
    let mut bytes = full_image();
    put_u32(&mut bytes, fo(0x1000) + 12, 0x5000);
    let image = ImageRef::from_binary_bytes(&bytes).unwrap();
    assert_eq!(ImportTable::from_image(&image).unwrap_err(), PeError::RvaNotMapped);
}

#[test]
fn exports_are_read() {
    let bytes = full_image();
    let image = ImageRef::from_binary_bytes(&bytes).unwrap();
    let table = ExportTable::from_image(&image).unwrap().unwrap();
    let text = format!("{:?}", table);
    assert!(text.contains("ExportAddressEntry { export_rva: 4112, name: Some(\"add\"), ordinal: 0 }"));
    assert!(text.contains("ExportAddressEntry { export_rva: 4128, name: Some(\"sub\"), ordinal: 1 }"));
}

#[test]
fn no_export_directory_means_no_export_table() {
    let bytes = bare_image();
    let image = ImageRef::from_binary_bytes(&bytes).unwrap();
    assert!(ExportTable::from_image(&image).unwrap().is_none());
}

#[test]
fn exceptions_are_read_with_unwind_codes() {
    let bytes = full_image();
    let image = ImageRef::from_binary_bytes(&bytes).unwrap();
    let table = ExceptionTable::from_image(&image).unwrap();
    let text = format!("{:?}", table);
    assert!(text.contains("starting_address: 4112"));
    assert!(text.contains("ending_address: 4128"));
    assert!(text.contains("unwind_info_address: 6400"));
    assert!(text.contains("count_of_unwind_codes: 1"));
    assert!(text.contains("unwind_codes: [16900]"));
}

#[test]
fn missing_exception_directory_is_an_error() {
    let bytes = bare_image();
    let image = ImageRef::from_binary_bytes(&bytes).unwrap();
    assert_eq!(ExceptionTable::from_image(&image).unwrap_err(), PeError::NoExceptionDirectory);
    assert_eq!(ImageOwned::from_binary(bytes.clone()).err(), Some(PeError::NoExceptionDirectory));
}

#[test]
fn owned_image_keeps_bytes_and_sections() {
    let bytes = full_image();
    let image = ImageOwned::from_binary(bytes.clone()).unwrap();
    assert_eq!(image.bytes(), &bytes[..]);
    assert_eq!(image.headers().nt_header().file_header().number_of_sections(), 1);
    assert_eq!(image.section_table().section_headers()[0].name(), ".text");
    assert_eq!(image.rva_to_fo(0x1480), Ok(fo(0x1480)));
}

#[test]
fn image_ref_parts_move_to_owned_values() {
    let bytes = bare_image();
    let mut image = ImageRef::from_binary_bytes(&bytes).unwrap();
    let table = image.section_table_to_owned().unwrap();
    assert_eq!(table.section_headers()[0].name(), ".text");
    assert!(image.section_table_to_owned().is_none());
    let headers = image.headers_to_owned().unwrap();
    assert_eq!(headers.dos_header().e_lfanew, E_LFANEW as i32);
    assert!(image.headers_to_owned().is_none());
}

#[test]
fn section_tables_read_and_write() {
    let bytes = bare_image();
    let start = E_LFANEW + 264;
    let owned = SectionTableOwned::from_bytes(&bytes, 1, start).unwrap();
    let borrowed = SectionTableRef::from_bytes(&bytes, 1, start).unwrap();
    assert_eq!(owned.section_headers()[0].name(), ".text");
    assert_eq!(borrowed.section_headers()[0].bytes(), &bytes[SECTION_FO..SECTION_FO + 0x1000]);
    let out = owned.to_bytes();
    assert_eq!(out.len(), 40 + 0x1000);
    assert_eq!(&out[..40], &bytes[start..start + 40]);
    assert_eq!(&out[40..], &bytes[SECTION_FO..]);
    let copied = borrowed.to_owned();
    assert_eq!(copied.to_bytes(), out);
}

#[test]
fn section_table_start_out_of_range_is_an_error() {
    let bytes = bare_image();
    let too_far = isize::MAX as usize + 1;
    assert_eq!(SectionTableOwned::from_bytes(&bytes, 1, too_far).err(), Some(PeError::OffsetTooLarge));
    assert_eq!(SectionTableRef::from_bytes(&bytes, 1, too_far).err(), Some(PeError::OffsetTooLarge));
}

#[test]
fn pe32_headers_to_bytes_gives_the_file_start_back() {
    let mut bytes = vec![0u8; 0x400];
    put_u16(&mut bytes, 0, 0x5A4D);
    put_u32(&mut bytes, 60, E_LFANEW as u32);
    bytes[64] = 0x0E;
    put_u32(&mut bytes, E_LFANEW, 0x0000_4550);
    put_u16(&mut bytes, E_LFANEW + 4, 0x14C);
    put_u16(&mut bytes, E_LFANEW + 6, 2);
    put_u16(&mut bytes, E_LFANEW + 20, 224);
    put_u16(&mut bytes, E_LFANEW + 24, 0x10B);
    put_u32(&mut bytes, E_LFANEW + 24 + 28, 0x40_0000);
    for k in 0..0x200 {
        if bytes[k] == 0 && k > E_LFANEW + 248 {
            bytes[k] = (k % 251) as u8;
        }
    }
    let headers = PeHeaders::from_bytes(&bytes);
    assert_eq!(headers.nt_header().file_header().arch(), Architecture::X32);
    assert_eq!(headers.nt_header().size(), 248);
    let out = headers.to_bytes();
    assert_eq!(out.len(), 64 + 0xA0 + 248);
    assert_eq!(&out[..], &bytes[..E_LFANEW + 248]);
}
