//! The headers at the start of an image.
use vstd::prelude::*;

pub mod file_header;
pub mod nt_header;
pub mod optional_header;

use crate::arch::{Architecture, MACHINE_AMD64, is_known_machine};
use crate::raw::{RawStruct, lemma_join_windows, same_window};
use crate::windows_types::{IMAGE_DOS_HEADER, IMAGE_NT_HEADERS32, IMAGE_NT_HEADERS64};
use nt_header::{NtHeader, NtHeaders32, NtHeaders64, NtHeadersKind, expected_optional_size};
use optional_header::{OptionalHeader, is_amd_intel_magic};

verus! {

/// The size of the DOS header.
pub const DOS_HEADER_SIZE: usize = 64;

/// The size of the DOS stub kept after the DOS header.
pub const DOS_STUB_SIZE: usize = 0xA0;

/// The DOS stub that follows the DOS header.
#[allow(non_camel_case_types)]
#[derive(Debug)]
struct IMAGE_DOS_STUB {
    reserved: Vec<u8>,
}

/// The DOS header at the start of `s`.
pub open spec fn spec_dos_header_of(s: Seq<u8>) -> IMAGE_DOS_HEADER {
    IMAGE_DOS_HEADER::spec_read(s, 0)
}

/// The file offset of the NT headers, as the DOS header gives it.
pub open spec fn spec_nt_offset(s: Seq<u8>) -> int {
    spec_dos_header_of(s).e_lfanew as int
}

/// The NT headers of `s`, read with the PE32+ layout.
pub open spec fn spec_nt64_of(s: Seq<u8>) -> IMAGE_NT_HEADERS64 {
    IMAGE_NT_HEADERS64::spec_read(s, spec_nt_offset(s))
}

/// The NT headers of `s`, read with the PE32 layout.
pub open spec fn spec_nt32_of(s: Seq<u8>) -> IMAGE_NT_HEADERS32 {
    IMAGE_NT_HEADERS32::spec_read(s, spec_nt_offset(s))
}

/// The machine field of the image in `s`.
pub open spec fn spec_machine_of(s: Seq<u8>) -> u16 {
    spec_nt64_of(s).file_header.machine
}

/// The headers of `s` can be read: the DOS header and stub are there, the NT
/// headers lie in the file, the machine is one of the library's, and the
/// optional header has the size and magic its format calls for.
pub open spec fn pe_headers_readable(s: Seq<u8>) -> bool {
    &&& s.len() >= DOS_HEADER_SIZE + DOS_STUB_SIZE
    &&& 0 <= spec_nt_offset(s)
    &&& spec_nt_offset(s) + 264 <= s.len()
    &&& is_known_machine(spec_machine_of(s))
    &&& spec_nt64_of(s).file_header.size_of_optional_header == expected_optional_size(
        spec_machine_of(s),
    )
    &&& is_amd_intel_magic(spec_nt64_of(s).optional_header.magic)
}

/// The NT headers are the PE32+ headers read from `s` for an AMD64 image, and the
/// PE32 headers otherwise.
pub open spec fn nt_headers_read_from(nt: NtHeadersKind, s: Seq<u8>) -> bool {
    match nt {
        NtHeadersKind::X64(h) => spec_machine_of(s) == crate::arch::MACHINE_AMD64 && h.spec_raw()
            == spec_nt64_of(s),
        NtHeadersKind::X32(h) => spec_machine_of(s) == crate::arch::MACHINE_I386 && h.spec_raw()
            == spec_nt32_of(s),
    }
}

/// The NT headers are of a known machine, and their optional header has the size
/// and the magic its format calls for.
pub open spec fn nt_headers_wf(nt: NtHeadersKind) -> bool {
    &&& is_known_machine(nt.spec_file_header().machine)
    &&& nt.spec_file_header().size_of_optional_header == expected_optional_size(
        nt.spec_file_header().machine,
    )
    &&& is_amd_intel_magic(nt.spec_magic())
}

/// The DOS header, the DOS stub and the NT headers of an image.
#[derive(Debug)]
pub struct PeHeaders {
    dos_header: IMAGE_DOS_HEADER,
    dos_stub: IMAGE_DOS_STUB,
    nt_header: NtHeadersKind,
}

impl PeHeaders {
    #[verifier::type_invariant]
    spec fn wf(self) -> bool {
        &&& nt_headers_wf(self.nt_header)
        &&& self.dos_stub.reserved@.len() == DOS_STUB_SIZE
    }

    pub closed spec fn spec_dos_header(&self) -> IMAGE_DOS_HEADER {
        self.dos_header
    }

    pub closed spec fn spec_dos_stub(&self) -> Seq<u8> {
        self.dos_stub.reserved@
    }

    pub closed spec fn spec_nt_header(&self) -> NtHeadersKind {
        self.nt_header
    }

    /// The bytes of the headers: the DOS header, the stub, then the NT headers.
    pub open spec fn spec_bytes(&self) -> Seq<u8> {
        self.spec_dos_header().spec_bytes() + self.spec_dos_stub() + self.spec_nt_header().spec_bytes()
    }

    /// Reads the headers at the start of `bytes`. Headers that cannot be read
    /// (see `pe_headers_readable`) are not handled.
    pub fn from_bytes(bytes: &[u8]) -> (r: Self)
        requires
            pe_headers_readable(bytes@),
        ensures
            r.spec_dos_header() == spec_dos_header_of(bytes@),
            r.spec_dos_stub() == bytes@.subrange(
                DOS_HEADER_SIZE as int,
                (DOS_HEADER_SIZE + DOS_STUB_SIZE) as int,
            ),
            nt_headers_read_from(r.spec_nt_header(), bytes@),
    {
        assert(bytes@.len() == bytes.len());
        let dos_header = IMAGE_DOS_HEADER::read(bytes, 0);

        let stub = vstd::slice::slice_subrange(bytes, DOS_HEADER_SIZE, DOS_HEADER_SIZE + DOS_STUB_SIZE);
        let dos_stub = IMAGE_DOS_STUB { reserved: vstd::slice::slice_to_vec(stub) };

        let nt_offset = dos_header.e_lfanew as usize;
        let header = IMAGE_NT_HEADERS64::read(bytes, nt_offset);

        let nt_header = match Architecture::try_from(header.file_header.machine) {
            Ok(Architecture::X32) => NtHeadersKind::X32(
                NtHeaders32::new(IMAGE_NT_HEADERS32::read(bytes, nt_offset)),
            ),
            _ => NtHeadersKind::X64(NtHeaders64::new(header)),
        };
        proof {
            let s = bytes@;
            match &nt_header {
                NtHeadersKind::X32(h) => {
                    h.lemma_raw();
                    h.spec_optional_header().lemma_view();
                },
                NtHeadersKind::X64(h) => {
                    h.lemma_raw();
                    h.spec_optional_header().lemma_view();
                },
            }
            // Both layouts share the file header and the magic.
            assert(spec_nt32_of(s).file_header == spec_nt64_of(s).file_header);
            assert(spec_nt32_of(s).optional_header.magic == spec_nt64_of(s).optional_header.magic);
        }
        assert(stub@ =~= bytes@.subrange(DOS_HEADER_SIZE as int, (DOS_HEADER_SIZE + DOS_STUB_SIZE) as int));

        Self { dos_header, dos_stub, nt_header }
    }

    pub fn dos_header(&self) -> (r: &IMAGE_DOS_HEADER)
        ensures
            *r == self.spec_dos_header(),
    {
        &self.dos_header
    }

    pub fn nt_header(&self) -> (r: &NtHeadersKind)
        ensures
            *r == self.spec_nt_header(),
            nt_headers_wf(*r),
    {
        proof {
            use_type_invariant(self);
        }
        &self.nt_header
    }

    /// The headers as they are stored: the DOS header, the stub, then the NT headers.
    pub fn to_bytes(&self) -> (r: Vec<u8>)
        ensures
            r@ == self.spec_bytes(),
            r@.len() == DOS_HEADER_SIZE + DOS_STUB_SIZE + self.spec_nt_header().spec_size(),
    {
        proof {
            use_type_invariant(self);
            self.dos_header.lemma_bytes_roundtrip();
            match &self.nt_header {
                NtHeadersKind::X32(n) => {
                    n.lemma_bytes();
                    n.spec_raw().lemma_bytes_roundtrip();
                },
                NtHeadersKind::X64(n) => {
                    n.lemma_bytes();
                    n.spec_raw().lemma_bytes_roundtrip();
                },
            }
        }
        let mut dos_header_bytes = self.dos_header.to_le_bytes();
        dos_header_bytes.extend_from_slice(self.dos_stub.reserved.as_slice());
        let nt_bytes = self.nt_header.to_bytes();
        dos_header_bytes.extend_from_slice(nt_bytes.as_slice());
        dos_header_bytes
    }
}

/// PE32+ headers of an AMD64 image, whose DOS header points right after the stub,
/// read back from the bytes `to_bytes` writes as themselves: the bytes can be read,
/// and `from_bytes` gives the same DOS header, stub and NT headers.
pub proof fn law_headers_read_back(h: PeHeaders)
    requires
        h.spec_nt_header() is X64,
        h.spec_nt_header().spec_file_header().machine == MACHINE_AMD64,
        nt_headers_wf(h.spec_nt_header()),
        h.spec_dos_stub().len() == DOS_STUB_SIZE,
        h.spec_dos_header().e_lfanew == DOS_HEADER_SIZE + DOS_STUB_SIZE,
    ensures
        pe_headers_readable(h.spec_bytes()),
        spec_dos_header_of(h.spec_bytes()) == h.spec_dos_header(),
        h.spec_bytes().subrange(DOS_HEADER_SIZE as int, (DOS_HEADER_SIZE + DOS_STUB_SIZE) as int)
            == h.spec_dos_stub(),
        nt_headers_read_from(h.spec_nt_header(), h.spec_bytes()),
{
    let s = h.spec_bytes();
    let dos = h.spec_dos_header();
    let stub = h.spec_dos_stub();
    let n = h.spec_nt_header()->X64_0;
    let raw = n.spec_raw();
    dos.lemma_bytes_roundtrip();
    raw.lemma_bytes_roundtrip();
    n.lemma_bytes();
    n.lemma_raw();
    n.spec_optional_header().lemma_view();
    let d = dos.spec_bytes();
    let t = raw.spec_bytes();
    assert(s == d + stub + t);
    assert(same_window(s, 0, d, 0, 64)) by {
        assert forall|k: int| 0 <= k < 64 implies #[trigger] s[0 + k] == d[0 + k] by {}
    }
    IMAGE_DOS_HEADER::lemma_read_window(s, 0, d, 0);
    assert(same_window(s, 224, t, 0, 264)) by {
        assert forall|k: int| 0 <= k < 264 implies #[trigger] s[224 + k] == t[0 + k] by {}
    }
    IMAGE_NT_HEADERS64::lemma_read_window(s, 224, t, 0);
    assert(s.subrange(64, 224) =~= stub);
}

/// Headers read from `b`, whose DOS header points right after the stub, are
/// stored as the bytes they were read from: `to_bytes` gives back the start of
/// `b`, up to the end of the NT headers.
pub proof fn law_headers_write_back(b: Seq<u8>, h: PeHeaders)
    requires
        pe_headers_readable(b),
        spec_nt_offset(b) == DOS_HEADER_SIZE + DOS_STUB_SIZE,
        h.spec_dos_header() == spec_dos_header_of(b),
        h.spec_dos_stub() == b.subrange(DOS_HEADER_SIZE as int, (DOS_HEADER_SIZE + DOS_STUB_SIZE) as int),
        nt_headers_read_from(h.spec_nt_header(), b),
    ensures
        h.spec_bytes() == b.subrange(
            0,
            DOS_HEADER_SIZE + DOS_STUB_SIZE + h.spec_nt_header().spec_size(),
        ),
{
    IMAGE_DOS_HEADER::lemma_read_bytes(b, 0);
    lemma_join_windows(b, 0, 64, 224);
    match h.spec_nt_header() {
        NtHeadersKind::X32(n) => {
            n.lemma_bytes();
            IMAGE_NT_HEADERS32::lemma_read_bytes(b, 224);
            lemma_join_windows(b, 0, 224, 472);
        },
        NtHeadersKind::X64(n) => {
            n.lemma_bytes();
            IMAGE_NT_HEADERS64::lemma_read_bytes(b, 224);
            lemma_join_windows(b, 0, 224, 488);
        },
    }
}

/// The NT headers read from `s` are the PE32+ headers at the DOS header's offset
/// for an AMD64 image, and the PE32 ones there for an I386 image.
pub proof fn law_nt_headers_kind(nt: NtHeadersKind, s: Seq<u8>)
    requires
        nt_headers_read_from(nt, s),
    ensures
        nt is X64 <==> spec_machine_of(s) == crate::arch::MACHINE_AMD64,
        nt is X32 <==> spec_machine_of(s) == crate::arch::MACHINE_I386,
        nt matches NtHeadersKind::X64(h) ==> h.spec_raw() == IMAGE_NT_HEADERS64::spec_read(
            s,
            IMAGE_DOS_HEADER::spec_read(s, 0).e_lfanew as int,
        ),
        nt matches NtHeadersKind::X32(h) ==> h.spec_raw() == IMAGE_NT_HEADERS32::spec_read(
            s,
            IMAGE_DOS_HEADER::spec_read(s, 0).e_lfanew as int,
        ),
        spec_machine_of(s) == IMAGE_NT_HEADERS64::spec_read(s, IMAGE_DOS_HEADER::spec_read(s, 0).e_lfanew as int).file_header.machine,
{
}

} // verus!
