//! Reading Portable Executable images: their headers, sections and data
//! directories (imports, exports, exceptions, base relocations, thread-local
//! storage, load configuration), and patching their bytes in place: values at a
//! file offset or an address, import address table slots, and relocated addresses.
pub mod raw;
pub mod windows_types;
pub mod arch;
pub mod cstr;
pub mod error;
pub mod pe;
pub mod pe_headers;
pub mod section;
pub mod export;
pub mod import;
pub mod exception;
pub mod relocation;
pub mod dos_header;
pub mod nt_header;
pub mod section_table;
pub mod image;
pub mod exception_table;
pub mod load_configuration;
pub mod tls;
pub mod exports;
pub mod reloc;
pub mod imports;
pub mod named;
pub mod import_table;
pub mod base_reloc;
pub mod readable;
