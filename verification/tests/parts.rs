use pe_disector::arch::Architecture;
use pe_disector::export::ExportAddressEntry;
use pe_disector::import::ImportDescriptor;
use pe_disector::imports::{Import, ImportSimple, IMAGE_IMPORT_BY_NAME};
use pe_disector::pe::ImageRef;
use pe_disector::pe_headers::file_header::FileHeader;
use pe_disector::pe_headers::nt_header::{NtHeader, NtHeaders32, NtHeaders64};
use pe_disector::pe_headers::optional_header::{OptionalHeader, OptionalHeader32, OptionalHeader64};
use pe_disector::raw::RawStruct;
use pe_disector::reloc::Block;
use pe_disector::relocation::{RelocType, RelocationBlock, RelocationTable, TypeOffset};
use pe_disector::section::section_header::{SectionHeader, SectionHeaderOwned, SectionHeaderRef};
use pe_disector::section::section_table::{SectionTable, SectionTableOwned, SectionTableRef};
use pe_disector::windows_types::{
    IMAGE_DATA_DIRECTORY, IMAGE_FILE_HEADER, IMAGE_IMPORT_BY_ORDINAL, IMAGE_NT_HEADERS32, IMAGE_NT_HEADERS64,
    IMAGE_OPTIONAL_HEADER32, IMAGE_OPTIONAL_HEADER64, IMAGE_SECTION_HEADER,
};

fn file_header(machine: u16, optional_size: u16) -> IMAGE_FILE_HEADER {
    IMAGE_FILE_HEADER {
        machine,
        number_of_sections: 3,
        time_date_stamp: 0,
        pointer_to_symbol_table: 0,
        number_of_symbols: 0,
        size_of_optional_header: optional_size,
        characteristics: 0x22,
    }
}

fn empty_directories() -> [IMAGE_DATA_DIRECTORY; 16] {
    [IMAGE_DATA_DIRECTORY { virtual_address: 0, size: 0 }; 16]
}

fn optional64(magic: u16) -> IMAGE_OPTIONAL_HEADER64 {
    IMAGE_OPTIONAL_HEADER64 {
        magic,
        major_linker_version: 14,
        minor_linker_version: 0,
        size_of_code: 0,
        size_of_initialized_data: 0,
        size_of_uninitialized_data: 0,
        address_of_entry_point: 0x1000,
        base_of_code: 0x1000,
        image_base: 0x1_4000_0000,
        section_alignment: 0x1000,
        file_alignment: 0x200,
        major_operating_system_version: 6,
        minor_operating_system_version: 0,
        major_image_version: 0,
        minor_image_version: 0,
        major_subsystem_version: 6,
        minor_subsystem_version: 0,
        win32_version_value: 0,
        size_of_image: 0x3000,
        size_of_headers: 0x400,
        check_sum: 0,
        subsystem: 3,
        dll_characteristics: 0,
        size_of_stack_reserve: 0,
        size_of_stack_commit: 0,
        size_of_heap_reserve: 0,
        size_of_heap_commit: 0,
        loader_flags: 0,
        number_of_rva_and_sizes: 16,
        data_directory: empty_directories(),
    }
}

fn optional32(magic: u16) -> IMAGE_OPTIONAL_HEADER32 {
    IMAGE_OPTIONAL_HEADER32 {
        magic,
        major_linker_version: 14,
        minor_linker_version: 0,
        size_of_code: 0,
        size_of_initialized_data: 0,
        size_of_uninitialized_data: 0,
        address_of_entry_point: 0x1000,
        base_of_code: 0x1000,
        base_of_data: 0x2000,
        image_base: 0x40_0000,
        section_alignment: 0x1000,
        file_alignment: 0x200,
        major_operating_system_version: 6,
        minor_operating_system_version: 0,
        major_image_version: 0,
        minor_image_version: 0,
        major_subsystem_version: 6,
        minor_subsystem_version: 0,
        win32_version_value: 0,
        size_of_image: 0x3000,
        size_of_headers: 0x400,
        check_sum: 0,
        subsystem: 3,
        dll_characteristics: 0,
        size_of_stack_reserve: 0,
        size_of_stack_commit: 0,
        size_of_heap_reserve: 0,
        size_of_heap_commit: 0,
        loader_flags: 0,
        number_of_rva_and_sizes: 16,
        data_directory: empty_directories(),
    }
}

fn section(name: &[u8], rva: u32, raw: u32, size: u32) -> IMAGE_SECTION_HEADER {
    let mut n = [0u8; 8];
    n[..name.len()].copy_from_slice(name);
    IMAGE_SECTION_HEADER {
        name: n,
        virtual_size: size,
        virtual_address: rva,
        size_of_raw_data: size,
        pointer_to_raw_data: raw,
        pointer_to_relocations: 0,
        pointer_to_line_numbers: 0,
        number_of_relocations: 0,
        number_of_line_numbers: 0,
        characteristics: 0,
    }
}

#[test]
fn reloc_types_by_number() {
    assert_eq!(RelocType::new(0), RelocType::ImageRelBasedAbsolute);
    assert_eq!(RelocType::new(1), RelocType::ImageRelBasedHigh);
    assert_eq!(RelocType::new(2), RelocType::ImageRelBasedLow);
    assert_eq!(RelocType::new(3), RelocType::ImageRelBasedHighlow);
    assert_eq!(RelocType::new(4), RelocType::ImageRelBasedHighadj);
    assert_eq!(RelocType::new(5), RelocType::ImageRelBasedMipsJmpaddr);
    assert_eq!(RelocType::new(6), RelocType::Unknown);
    assert_eq!(RelocType::new(7), RelocType::ImageRelBasedThumbMov32);
    assert_eq!(RelocType::new(8), RelocType::ImageRelBasedRiscvLow12s);
    assert_eq!(RelocType::new(9), RelocType::ImageRelBasedMipsJmpaddr16);
    assert_eq!(RelocType::new(10), RelocType::ImageRelBasedDir64);
    assert_eq!(RelocType::new(11), RelocType::Unknown);
    assert_eq!(RelocType::new(255), RelocType::Unknown);
}

#[test]
fn type_offset_splits_into_kind_and_offset() {
    let t = TypeOffset(0xA123);
    assert_eq!(t.typ(), RelocType::ImageRelBasedDir64);
    assert_eq!(t.offset(), 0x123);
    let t = TypeOffset(0x3FFF);
    assert_eq!(t.typ(), RelocType::ImageRelBasedHighlow);
    assert_eq!(t.offset(), 0xFFF);
    let t = TypeOffset(0x0000);
    assert_eq!(t.typ(), RelocType::ImageRelBasedAbsolute);
    assert_eq!(t.offset(), 0);
    // the kind and the offset put back together give the entry again
    for v in [0u16, 1, 0x0FFF, 0x1000, 0xA123, 0xFFFF] {
        let t = TypeOffset(v);
        let kind = v >> 12;
        assert_eq!((kind << 12) | t.offset(), v);
    }
}

#[test]
fn relocation_entry_words() {
    let b = Block::new(0xA7FF);
    assert_eq!(b.offset(), 0x7FF);
    assert_eq!(b.typ(), 10);
    let b = Block::new(0x1001);
    assert_eq!(b.offset(), 1);
    assert_eq!(b.typ(), 1);
}

#[test]
fn relocation_block_keeps_its_entries() {
    let entries = [TypeOffset(0xA010), TypeOffset(0xA020), TypeOffset(0)];
    let block = RelocationBlock::new(0x2000, 14, &entries).unwrap();
    let text = format!("{:?}", block);
    assert!(text.contains("page_rva: 8192"));
    assert!(text.contains("block_size: 14"));
    assert!(text.contains("TypeOffset(40976), TypeOffset(40992), TypeOffset(0)"));
}

#[test]
fn file_header_fields() {
    let h = FileHeader::new(file_header(0x8664, 240));
    assert_eq!(h.number_of_sections(), 3);
    assert_eq!(h.size_of_optional_header(), 240);
    assert_eq!(h.arch(), Architecture::X64);
    assert_eq!(h.raw().characteristics, 0x22);
    let h = FileHeader::new(file_header(0x14C, 224));
    assert_eq!(h.arch(), Architecture::X32);
}

#[test]
fn optional_headers_by_kind() {
    let mut o = OptionalHeader64::new(optional64(0x20B));
    assert_eq!(o.magic(), 0x20B);
    assert!(o.is_amd_intel());
    assert_eq!(o.image_base(), 0x1_4000_0000);
    o.set_image_base(0x1_8000_0000);
    assert_eq!(o.image_base(), 0x1_8000_0000);
    assert_eq!(o.data_directory().len(), 16);
    let mut o = OptionalHeader32::new(optional32(0x10B));
    assert!(o.is_amd_intel());
    assert_eq!(o.image_base(), 0x40_0000);
    o.set_image_base(0x50_0000);
    assert_eq!(o.raw().image_base, 0x50_0000);
    let o = OptionalHeader32::new(optional32(0x107));
    assert!(!o.is_amd_intel());
}

#[test]
fn nt_headers_by_kind() {
    let h = NtHeaders64::new(IMAGE_NT_HEADERS64 {
        signature: 0x4550,
        file_header: file_header(0x8664, 240),
        optional_header: optional64(0x20B),
    });
    assert_eq!(h.size(), 264);
    assert!(!h.is_optional_invalid_size());
    assert_eq!(h.file_header().number_of_sections(), 3);
    assert_eq!(h.optional_header().magic(), 0x20B);
    assert_eq!(h.to_bytes().len(), 264);
    let h = NtHeaders64::new(IMAGE_NT_HEADERS64 {
        signature: 0x4550,
        file_header: file_header(0x8664, 224),
        optional_header: optional64(0x20B),
    });
    assert!(h.is_optional_invalid_size());
    let h = NtHeaders32::new(IMAGE_NT_HEADERS32 {
        signature: 0x4550,
        file_header: file_header(0x14C, 224),
        optional_header: optional32(0x10B),
    });
    assert_eq!(h.size(), 248);
    assert!(!h.is_optional_invalid_size());
    assert_eq!(h.to_bytes().len(), 248);
    assert_eq!(&h.to_bytes()[..4], &[0x50, 0x45, 0, 0]);
}

#[test]
fn section_headers_from_raw_headers() {
    let bytes: Vec<u8> = (0..64u8).collect();
    let raw = section(b".data", 0x2000, 16, 8);
    let owned = SectionHeaderOwned::from_binary(raw, &bytes).unwrap();
    assert_eq!(owned.name(), ".data");
    assert_eq!(owned.bytes(), &bytes[16..24]);
    assert_eq!(owned.raw().virtual_address, 0x2000);
    let borrowed = SectionHeaderRef::from_binary(raw, &bytes).unwrap();
    assert_eq!(borrowed.name(), ".data");
    assert_eq!(borrowed.bytes(), &bytes[16..24]);
    let copied = borrowed.to_owned();
    assert_eq!(copied.bytes(), owned.bytes());
    let full_name = section(b"12345678", 0, 0, 0);
    assert_eq!(SectionHeaderOwned::from_binary(full_name, &bytes).unwrap().name(), "12345678");
    let made = SectionHeaderOwned::new(".rsrc".to_string(), raw, vec![1, 2]);
    assert_eq!(made.name(), ".rsrc");
    assert_eq!(made.bytes(), &[1, 2]);
    let made = SectionHeaderRef::new(".rsrc".to_string(), raw, &bytes[..3]);
    assert_eq!(made.bytes(), &[0, 1, 2]);
}

#[test]
fn section_tables_from_sections() {
    let raw = section(b".a", 0x1000, 0, 2);
    let owned = SectionTableOwned::from_sections(vec![
        SectionHeaderOwned::new(".a".to_string(), raw, vec![7, 8]),
        SectionHeaderOwned::new(".b".to_string(), section(b".b", 0x2000, 2, 1), vec![9]),
    ]);
    assert_eq!(owned.section_headers().len(), 2);
    let out = owned.to_bytes();
    assert_eq!(out.len(), 80 + 3);
    assert_eq!(&out[80..], &[7, 8, 9]);
    assert_eq!(&out[0..2], b".a");
    assert_eq!(&out[40..42], b".b");
    // the headers read back from the written bytes are the table's headers
    let first = IMAGE_SECTION_HEADER::read(&out, 0);
    let second = IMAGE_SECTION_HEADER::read(&out, 40);
    assert_eq!(first.name, raw.name);
    assert_eq!(first.virtual_address, 0x1000);
    assert_eq!(first.size_of_raw_data, 2);
    assert_eq!(second.virtual_address, 0x2000);
    assert_eq!(second.pointer_to_raw_data, 2);
    let data = [1u8, 2, 3];
    let borrowed = SectionTableRef::from_sections(vec![SectionHeaderRef::new(".c".to_string(), raw, &data)]);
    assert_eq!(borrowed.to_owned().section_headers()[0].bytes(), &[1, 2, 3]);
}

#[test]
fn export_entries_and_import_descriptors() {
    let e = ExportAddressEntry::new(0x1010, Some("add".to_string()), 3);
    assert_eq!(format!("{:?}", e), "ExportAddressEntry { export_rva: 4112, name: Some(\"add\"), ordinal: 3 }");
    let e = ExportAddressEntry::new(0x1020, None, 0);
    assert!(format!("{:?}", e).contains("name: None"));
    let d = ImportDescriptor::new("KERNEL32.dll".to_string(), 0, 0x500, 0x580, Vec::new());
    let text = format!("{:?}", d);
    assert!(text.contains("name: \"KERNEL32.dll\""));
    assert!(text.contains("import_lookup_table: 1280"));
    assert!(text.contains("import_table_entrys: []"));
}

#[test]
fn import_identifiers_name_functions() {
    let by_name = Import::Name(IMAGE_IMPORT_BY_NAME::new(4, "Sleep".to_string()));
    let by_ordinal = Import::Ordinal(IMAGE_IMPORT_BY_ORDINAL { ordinal_number: 4 });
    assert!(ImportSimple::from("Sleep".to_string()).eq(&by_name));
    assert!(!ImportSimple::from("sleep".to_string()).eq(&by_name));
    assert!(!ImportSimple::from("Sleep".to_string()).eq(&by_ordinal));
    assert!(ImportSimple::from(4u16).eq(&by_ordinal));
    assert!(!ImportSimple::from(5u16).eq(&by_ordinal));
    assert!(!ImportSimple::from(4u16).eq(&by_name));
}

#[test]
fn relocation_table_of_an_image_without_relocations() {
    let mut b = vec![0u8; 0x600];
    b[0] = 0x4D;
    b[1] = 0x5A;
    b[60] = 0xE0;
    b[0xE0..0xE4].copy_from_slice(&[0x50, 0x45, 0, 0]);
    b[0xE4..0xE6].copy_from_slice(&0x8664u16.to_le_bytes());
    b[0xF4..0xF6].copy_from_slice(&240u16.to_le_bytes());
    b[0xF8..0xFA].copy_from_slice(&0x20Bu16.to_le_bytes());
    let image = ImageRef::from_binary_bytes(&b).unwrap();
    let table = RelocationTable::from_image(&image).unwrap();
    assert_eq!(format!("{:?}", table), "RelocationTable { blocks: [] }");
}

#[test]
fn little_endian_reads_and_writes() {
    let b = [0x01u8, 0x02, 0x03, 0x04, 0x05, 0x06, 0x07, 0x08, 0x09];
    assert_eq!(pe_disector::raw::read_u16(&b, 0), 0x0201);
    assert_eq!(pe_disector::raw::read_u32(&b, 1), 0x0504_0302);
    assert_eq!(pe_disector::raw::read_u64(&b, 1), 0x0908_0706_0504_0302);
    assert_eq!(pe_disector::raw::le_bytes_u32(0xAABB_CCDD), [0xDD, 0xCC, 0xBB, 0xAA]);
    assert_eq!(pe_disector::raw::le_bytes_u64(1), [1, 0, 0, 0, 0, 0, 0, 0]);
    let mut v = vec![0u8; 6];
    pe_disector::raw::write_bytes(&mut v, 2, &[7, 8, 9]);
    assert_eq!(v, vec![0, 0, 7, 8, 9, 0]);
}

#[test]
fn c_strings() {
    let b = b"abc\0de\xFFf";
    assert_eq!(pe_disector::cstr::cstr_len_at(b, 0), 3);
    assert_eq!(pe_disector::cstr::cstr_len_at(b, 3), 0);
    assert_eq!(pe_disector::cstr::cstr_len_at(b, 4), 4);
    assert_eq!(pe_disector::cstr::cstr_len_at(b, 8), 0);
    assert_eq!(pe_disector::cstr::read_cstr_lossy(b, 0), "abc");
    assert_eq!(pe_disector::cstr::read_cstr_lossy(b, 4), "de\u{FFFD}f");
    assert!(pe_disector::cstr::str_eq("abc", "abc"));
    assert!(!pe_disector::cstr::str_eq("abc", "abd"));
    assert!(!pe_disector::cstr::str_eq("abc", "ab"));
}
