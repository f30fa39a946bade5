# pe_disector

A reader for Portable Executable (PE) images, verified with Verus.

It parses the headers, the section table and the data directories of an image
held in memory (imports, exports, exceptions and unwind information, base
relocations, thread-local storage, load configuration) and patches the image in
place: values written at a file offset, a relative or a virtual address, import
address table slots pointed at new functions, and addresses relocated from one
image base to another.

Every public function states what it returns or changes over a model of the
bytes (`Seq<u8>`) and of the records read from them; the proofs cover the
absence of out-of-bounds accesses and overflow as well. Laws that relate
several calls are stated as proof functions named `law_*`: a value written
reads back, a write leaves other records alone, relocating an image and
relocating it back restores its bytes, an updated import slot reads back the new
address, headers written out read back as themselves, and headers read from
bytes are written out as those bytes again.

An `image::Image` reads its DOS and NT headers, its section headers and the
records of its export, exception, TLS and load configuration directories from
its bytes as they are now, so a write over them shows at once; a section's data
can be changed in place through `get_bytes_mut`. The import and relocation
tables keep what their directories held when the image was read.
`image::headers_readable_check` tests the headers before an image is read, and
`Image::try_from_bytes` refuses an image whose headers or directories cannot be
read.

## Layout

- `src/` — the verified library.
  - `raw.rs`, `windows_types.rs`: little-endian layouts of the format's records.
  - `pe.rs`, `pe_headers/`, `section/`, `import.rs`, `export.rs`,
    `exception.rs`, `relocation.rs`: images read through the `pe::Image` trait
    (borrowed or owned bytes), with tables that report errors.
  - `image.rs`, `dos_header.rs`, `nt_header.rs`, `section_table/`, `imports/`,
    `exports/`, `exception_table.rs`, `reloc/`, `tls.rs`,
    `load_configuration.rs`: an image that owns its bytes and keeps each
    directory's table, with the updates that patch it.
  - `import_table.rs`, `base_reloc.rs`: a first reading of the import directory,
    and relocation blocks read from 16-bit words.
  - `readable.rs`: tests, made on the bytes, of whether each directory can be
    read; `image::Image::try_from_bytes` reads an image only where they pass.
- `tests/` — tests on synthetic images built byte by byte.
- `app/` — reading image files from disk and printing what was read.
