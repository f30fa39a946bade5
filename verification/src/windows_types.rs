//! The fixed-layout records of the PE format, with their little-endian layouts.
#![allow(non_snake_case)]
use vstd::prelude::*;

use crate::raw::{
    RawStruct, le_bytes_u8, le_bytes_u16, le_bytes_u32, le_bytes_u64, lemma_le_window, lemma_sub_window, le_u16,
    le_u32, le_u64, lemma_i32_as_u32, lemma_u16_bytes_of, lemma_u32_as_i32, lemma_u32_bytes_of,
    lemma_u64_bytes_of, lemma_empty_join, lemma_join_windows, lemma_u16_roundtrip, lemma_u32_roundtrip, lemma_u64_roundtrip, read_u16,
    read_u32, read_u64, same_window, u8_bytes, u16_bytes, u32_bytes, u64_bytes,
};

verus! {

/// The MS-DOS header at the start of every image; `e_lfanew` is the file offset of the NT headers.
#[allow(non_camel_case_types)]
#[derive(Debug, Clone, Copy)]
pub struct IMAGE_DOS_HEADER {
    pub e_magic: u16,
    pub e_cblp: u16,
    pub e_cp: u16,
    pub e_crlc: u16,
    pub e_cparhdr: u16,
    pub e_minalloc: u16,
    pub e_maxalloc: u16,
    pub e_ss: u16,
    pub e_sp: u16,
    pub e_csum: u16,
    pub e_ip: u16,
    pub e_cs: u16,
    pub e_lfarlc: u16,
    pub e_ovno: u16,
    pub e_res: [u16; 4],
    pub e_oemid: u16,
    pub e_oeminfo: u16,
    pub e_res2: [u16; 10],
    pub e_lfanew: i32,
}

impl RawStruct for IMAGE_DOS_HEADER {
    open spec fn spec_size() -> nat {
        64
    }

    open spec fn spec_read(s: Seq<u8>, off: int) -> Self {
        IMAGE_DOS_HEADER {
            e_magic: le_u16(s, off + 0),
            e_cblp: le_u16(s, off + 2),
            e_cp: le_u16(s, off + 4),
            e_crlc: le_u16(s, off + 6),
            e_cparhdr: le_u16(s, off + 8),
            e_minalloc: le_u16(s, off + 10),
            e_maxalloc: le_u16(s, off + 12),
            e_ss: le_u16(s, off + 14),
            e_sp: le_u16(s, off + 16),
            e_csum: le_u16(s, off + 18),
            e_ip: le_u16(s, off + 20),
            e_cs: le_u16(s, off + 22),
            e_lfarlc: le_u16(s, off + 24),
            e_ovno: le_u16(s, off + 26),
            e_res: [le_u16(s, off + 28 + 0), le_u16(s, off + 28 + 2), le_u16(s, off + 28 + 4), le_u16(s, off + 28 + 6)],
            e_oemid: le_u16(s, off + 36),
            e_oeminfo: le_u16(s, off + 38),
            e_res2: [le_u16(s, off + 40 + 0), le_u16(s, off + 40 + 2), le_u16(s, off + 40 + 4), le_u16(s, off + 40 + 6), le_u16(s, off + 40 + 8), le_u16(s, off + 40 + 10), le_u16(s, off + 40 + 12), le_u16(s, off + 40 + 14), le_u16(s, off + 40 + 16), le_u16(s, off + 40 + 18)],
            e_lfanew: le_u32(s, off + 60) as i32,
        }
    }

    proof fn lemma_read_window(s1: Seq<u8>, o1: int, s2: Seq<u8>, o2: int) {
        lemma_sub_window(s1, o1, s2, o2, 64, 0, 2);
        lemma_le_window(s1, o1 + 0, s2, o2 + 0, 2);
        lemma_sub_window(s1, o1, s2, o2, 64, 2, 2);
        lemma_le_window(s1, o1 + 2, s2, o2 + 2, 2);
        lemma_sub_window(s1, o1, s2, o2, 64, 4, 2);
        lemma_le_window(s1, o1 + 4, s2, o2 + 4, 2);
        lemma_sub_window(s1, o1, s2, o2, 64, 6, 2);
        lemma_le_window(s1, o1 + 6, s2, o2 + 6, 2);
        lemma_sub_window(s1, o1, s2, o2, 64, 8, 2);
        lemma_le_window(s1, o1 + 8, s2, o2 + 8, 2);
        lemma_sub_window(s1, o1, s2, o2, 64, 10, 2);
        lemma_le_window(s1, o1 + 10, s2, o2 + 10, 2);
        lemma_sub_window(s1, o1, s2, o2, 64, 12, 2);
        lemma_le_window(s1, o1 + 12, s2, o2 + 12, 2);
        lemma_sub_window(s1, o1, s2, o2, 64, 14, 2);
        lemma_le_window(s1, o1 + 14, s2, o2 + 14, 2);
        lemma_sub_window(s1, o1, s2, o2, 64, 16, 2);
        lemma_le_window(s1, o1 + 16, s2, o2 + 16, 2);
        lemma_sub_window(s1, o1, s2, o2, 64, 18, 2);
        lemma_le_window(s1, o1 + 18, s2, o2 + 18, 2);
        lemma_sub_window(s1, o1, s2, o2, 64, 20, 2);
        lemma_le_window(s1, o1 + 20, s2, o2 + 20, 2);
        lemma_sub_window(s1, o1, s2, o2, 64, 22, 2);
        lemma_le_window(s1, o1 + 22, s2, o2 + 22, 2);
        lemma_sub_window(s1, o1, s2, o2, 64, 24, 2);
        lemma_le_window(s1, o1 + 24, s2, o2 + 24, 2);
        lemma_sub_window(s1, o1, s2, o2, 64, 26, 2);
        lemma_le_window(s1, o1 + 26, s2, o2 + 26, 2);
        lemma_sub_window(s1, o1, s2, o2, 64, 28, 2);
        lemma_le_window(s1, o1 + 28, s2, o2 + 28, 2);
        lemma_sub_window(s1, o1, s2, o2, 64, 30, 2);
        lemma_le_window(s1, o1 + 30, s2, o2 + 30, 2);
        lemma_sub_window(s1, o1, s2, o2, 64, 32, 2);
        lemma_le_window(s1, o1 + 32, s2, o2 + 32, 2);
        lemma_sub_window(s1, o1, s2, o2, 64, 34, 2);
        lemma_le_window(s1, o1 + 34, s2, o2 + 34, 2);
        lemma_sub_window(s1, o1, s2, o2, 64, 36, 2);
        lemma_le_window(s1, o1 + 36, s2, o2 + 36, 2);
        lemma_sub_window(s1, o1, s2, o2, 64, 38, 2);
        lemma_le_window(s1, o1 + 38, s2, o2 + 38, 2);
        lemma_sub_window(s1, o1, s2, o2, 64, 40, 2);
        lemma_le_window(s1, o1 + 40, s2, o2 + 40, 2);
        lemma_sub_window(s1, o1, s2, o2, 64, 42, 2);
        lemma_le_window(s1, o1 + 42, s2, o2 + 42, 2);
        lemma_sub_window(s1, o1, s2, o2, 64, 44, 2);
        lemma_le_window(s1, o1 + 44, s2, o2 + 44, 2);
        lemma_sub_window(s1, o1, s2, o2, 64, 46, 2);
        lemma_le_window(s1, o1 + 46, s2, o2 + 46, 2);
        lemma_sub_window(s1, o1, s2, o2, 64, 48, 2);
        lemma_le_window(s1, o1 + 48, s2, o2 + 48, 2);
        lemma_sub_window(s1, o1, s2, o2, 64, 50, 2);
        lemma_le_window(s1, o1 + 50, s2, o2 + 50, 2);
        lemma_sub_window(s1, o1, s2, o2, 64, 52, 2);
        lemma_le_window(s1, o1 + 52, s2, o2 + 52, 2);
        lemma_sub_window(s1, o1, s2, o2, 64, 54, 2);
        lemma_le_window(s1, o1 + 54, s2, o2 + 54, 2);
        lemma_sub_window(s1, o1, s2, o2, 64, 56, 2);
        lemma_le_window(s1, o1 + 56, s2, o2 + 56, 2);
        lemma_sub_window(s1, o1, s2, o2, 64, 58, 2);
        lemma_le_window(s1, o1 + 58, s2, o2 + 58, 2);
        lemma_sub_window(s1, o1, s2, o2, 64, 60, 4);
        lemma_le_window(s1, o1 + 60, s2, o2 + 60, 4);
    }

    fn size() -> (n: usize) {
        64
    }

    fn read(bytes: &[u8], off: usize) -> (r: Self) {
        assert(bytes@.len() == bytes.len());
        IMAGE_DOS_HEADER {
            e_magic: read_u16(bytes, off + 0),
            e_cblp: read_u16(bytes, off + 2),
            e_cp: read_u16(bytes, off + 4),
            e_crlc: read_u16(bytes, off + 6),
            e_cparhdr: read_u16(bytes, off + 8),
            e_minalloc: read_u16(bytes, off + 10),
            e_maxalloc: read_u16(bytes, off + 12),
            e_ss: read_u16(bytes, off + 14),
            e_sp: read_u16(bytes, off + 16),
            e_csum: read_u16(bytes, off + 18),
            e_ip: read_u16(bytes, off + 20),
            e_cs: read_u16(bytes, off + 22),
            e_lfarlc: read_u16(bytes, off + 24),
            e_ovno: read_u16(bytes, off + 26),
            e_res: [read_u16(bytes, off + 28 + 0), read_u16(bytes, off + 28 + 2), read_u16(bytes, off + 28 + 4), read_u16(bytes, off + 28 + 6)],
            e_oemid: read_u16(bytes, off + 36),
            e_oeminfo: read_u16(bytes, off + 38),
            e_res2: [read_u16(bytes, off + 40 + 0), read_u16(bytes, off + 40 + 2), read_u16(bytes, off + 40 + 4), read_u16(bytes, off + 40 + 6), read_u16(bytes, off + 40 + 8), read_u16(bytes, off + 40 + 10), read_u16(bytes, off + 40 + 12), read_u16(bytes, off + 40 + 14), read_u16(bytes, off + 40 + 16), read_u16(bytes, off + 40 + 18)],
            e_lfanew: read_u32(bytes, off + 60) as i32,
        }
    }
}

impl IMAGE_DOS_HEADER {
    /// The bytes that store the record, field after field.
    #[verifier::opaque]
    pub open spec fn spec_bytes(self) -> Seq<u8> {
        Seq::<u8>::empty() + self.spec_bytes_part_0() + self.spec_bytes_part_1() + self.spec_bytes_part_2() + self.spec_bytes_part_3() + self.spec_bytes_part_4() + self.spec_bytes_part_5()
    }

    /// The bytes of the fields from offset 0 on, up to offset 12.
    #[verifier::opaque]
    pub open spec fn spec_bytes_part_0(self) -> Seq<u8> {
        Seq::<u8>::empty() + u16_bytes(self.e_magic) + u16_bytes(self.e_cblp) + u16_bytes(self.e_cp) + u16_bytes(self.e_crlc) + u16_bytes(self.e_cparhdr) + u16_bytes(self.e_minalloc)
    }

    /// The bytes of the fields from offset 12 on, up to offset 24.
    #[verifier::opaque]
    pub open spec fn spec_bytes_part_1(self) -> Seq<u8> {
        Seq::<u8>::empty() + u16_bytes(self.e_maxalloc) + u16_bytes(self.e_ss) + u16_bytes(self.e_sp) + u16_bytes(self.e_csum) + u16_bytes(self.e_ip) + u16_bytes(self.e_cs)
    }

    /// The bytes of the fields from offset 24 on, up to offset 36.
    #[verifier::opaque]
    pub open spec fn spec_bytes_part_2(self) -> Seq<u8> {
        Seq::<u8>::empty() + u16_bytes(self.e_lfarlc) + u16_bytes(self.e_ovno) + u16_bytes(self.e_res[0]) + u16_bytes(self.e_res[1]) + u16_bytes(self.e_res[2]) + u16_bytes(self.e_res[3])
    }

    /// The bytes of the fields from offset 36 on, up to offset 48.
    #[verifier::opaque]
    pub open spec fn spec_bytes_part_3(self) -> Seq<u8> {
        Seq::<u8>::empty() + u16_bytes(self.e_oemid) + u16_bytes(self.e_oeminfo) + u16_bytes(self.e_res2[0]) + u16_bytes(self.e_res2[1]) + u16_bytes(self.e_res2[2]) + u16_bytes(self.e_res2[3])
    }

    /// The bytes of the fields from offset 48 on, up to offset 60.
    #[verifier::opaque]
    pub open spec fn spec_bytes_part_4(self) -> Seq<u8> {
        Seq::<u8>::empty() + u16_bytes(self.e_res2[4]) + u16_bytes(self.e_res2[5]) + u16_bytes(self.e_res2[6]) + u16_bytes(self.e_res2[7]) + u16_bytes(self.e_res2[8]) + u16_bytes(self.e_res2[9])
    }

    /// The bytes of the fields from offset 60 on, up to offset 64.
    #[verifier::opaque]
    pub open spec fn spec_bytes_part_5(self) -> Seq<u8> {
        Seq::<u8>::empty() + u32_bytes(self.e_lfanew as u32)
    }

    /// The bytes that store the record.
    #[verifier::rlimit(50)]
    #[verifier::spinoff_prover]
    pub fn to_le_bytes(&self) -> (r: Vec<u8>)
        ensures
            r@ == self.spec_bytes(),
    {
        proof {
            reveal(IMAGE_DOS_HEADER::spec_bytes);
            reveal(IMAGE_DOS_HEADER::spec_bytes_part_0);
            reveal(IMAGE_DOS_HEADER::spec_bytes_part_1);
            reveal(IMAGE_DOS_HEADER::spec_bytes_part_2);
            reveal(IMAGE_DOS_HEADER::spec_bytes_part_3);
            reveal(IMAGE_DOS_HEADER::spec_bytes_part_4);
            reveal(IMAGE_DOS_HEADER::spec_bytes_part_5);
        }
        let mut r: Vec<u8> = Vec::new();
        {
            let mut c: Vec<u8> = Vec::new();
            c.extend_from_slice(&le_bytes_u16(self.e_magic));
            c.extend_from_slice(&le_bytes_u16(self.e_cblp));
            c.extend_from_slice(&le_bytes_u16(self.e_cp));
            c.extend_from_slice(&le_bytes_u16(self.e_crlc));
            c.extend_from_slice(&le_bytes_u16(self.e_cparhdr));
            c.extend_from_slice(&le_bytes_u16(self.e_minalloc));
            r.append(&mut c);
        }
        {
            let mut c: Vec<u8> = Vec::new();
            c.extend_from_slice(&le_bytes_u16(self.e_maxalloc));
            c.extend_from_slice(&le_bytes_u16(self.e_ss));
            c.extend_from_slice(&le_bytes_u16(self.e_sp));
            c.extend_from_slice(&le_bytes_u16(self.e_csum));
            c.extend_from_slice(&le_bytes_u16(self.e_ip));
            c.extend_from_slice(&le_bytes_u16(self.e_cs));
            r.append(&mut c);
        }
        {
            let mut c: Vec<u8> = Vec::new();
            c.extend_from_slice(&le_bytes_u16(self.e_lfarlc));
            c.extend_from_slice(&le_bytes_u16(self.e_ovno));
            c.extend_from_slice(&le_bytes_u16(self.e_res[0]));
            c.extend_from_slice(&le_bytes_u16(self.e_res[1]));
            c.extend_from_slice(&le_bytes_u16(self.e_res[2]));
            c.extend_from_slice(&le_bytes_u16(self.e_res[3]));
            r.append(&mut c);
        }
        {
            let mut c: Vec<u8> = Vec::new();
            c.extend_from_slice(&le_bytes_u16(self.e_oemid));
            c.extend_from_slice(&le_bytes_u16(self.e_oeminfo));
            c.extend_from_slice(&le_bytes_u16(self.e_res2[0]));
            c.extend_from_slice(&le_bytes_u16(self.e_res2[1]));
            c.extend_from_slice(&le_bytes_u16(self.e_res2[2]));
            c.extend_from_slice(&le_bytes_u16(self.e_res2[3]));
            r.append(&mut c);
        }
        {
            let mut c: Vec<u8> = Vec::new();
            c.extend_from_slice(&le_bytes_u16(self.e_res2[4]));
            c.extend_from_slice(&le_bytes_u16(self.e_res2[5]));
            c.extend_from_slice(&le_bytes_u16(self.e_res2[6]));
            c.extend_from_slice(&le_bytes_u16(self.e_res2[7]));
            c.extend_from_slice(&le_bytes_u16(self.e_res2[8]));
            c.extend_from_slice(&le_bytes_u16(self.e_res2[9]));
            r.append(&mut c);
        }
        {
            let mut c: Vec<u8> = Vec::new();
            c.extend_from_slice(&le_bytes_u32(self.e_lfanew as u32));
            r.append(&mut c);
        }
        r
    }
}

impl IMAGE_DOS_HEADER {
    /// The record is stored in 64 bytes.
    pub proof fn lemma_bytes_len(self)
        ensures
            self.spec_bytes().len() == 64,
    {
        reveal(IMAGE_DOS_HEADER::spec_bytes);
        assert(self.spec_bytes_part_0().len() == 12) by {
            reveal(IMAGE_DOS_HEADER::spec_bytes_part_0);
        }
        assert(self.spec_bytes_part_1().len() == 12) by {
            reveal(IMAGE_DOS_HEADER::spec_bytes_part_1);
        }
        assert(self.spec_bytes_part_2().len() == 12) by {
            reveal(IMAGE_DOS_HEADER::spec_bytes_part_2);
        }
        assert(self.spec_bytes_part_3().len() == 12) by {
            reveal(IMAGE_DOS_HEADER::spec_bytes_part_3);
        }
        assert(self.spec_bytes_part_4().len() == 12) by {
            reveal(IMAGE_DOS_HEADER::spec_bytes_part_4);
        }
        assert(self.spec_bytes_part_5().len() == 4) by {
            reveal(IMAGE_DOS_HEADER::spec_bytes_part_5);
        }
    }

    /// The fields from offset 0 on read back from the record's bytes.
    #[verifier::rlimit(100)]
    #[verifier::spinoff_prover]
    proof fn lemma_bytes_roundtrip_part_0(self)
        ensures
            Self::spec_read(self.spec_bytes(), 0).e_magic == self.e_magic,
            Self::spec_read(self.spec_bytes(), 0).e_cblp == self.e_cblp,
            Self::spec_read(self.spec_bytes(), 0).e_cp == self.e_cp,
            Self::spec_read(self.spec_bytes(), 0).e_crlc == self.e_crlc,
            Self::spec_read(self.spec_bytes(), 0).e_cparhdr == self.e_cparhdr,
            Self::spec_read(self.spec_bytes(), 0).e_minalloc == self.e_minalloc,
    {
        reveal(IMAGE_DOS_HEADER::spec_bytes);
        assert(self.spec_bytes_part_0().len() == 12) by {
            reveal(IMAGE_DOS_HEADER::spec_bytes_part_0);
        }
        assert(self.spec_bytes_part_1().len() == 12) by {
            reveal(IMAGE_DOS_HEADER::spec_bytes_part_1);
        }
        assert(self.spec_bytes_part_2().len() == 12) by {
            reveal(IMAGE_DOS_HEADER::spec_bytes_part_2);
        }
        assert(self.spec_bytes_part_3().len() == 12) by {
            reveal(IMAGE_DOS_HEADER::spec_bytes_part_3);
        }
        assert(self.spec_bytes_part_4().len() == 12) by {
            reveal(IMAGE_DOS_HEADER::spec_bytes_part_4);
        }
        assert(self.spec_bytes_part_5().len() == 4) by {
            reveal(IMAGE_DOS_HEADER::spec_bytes_part_5);
        }
        let b = self.spec_bytes();
        let r = Self::spec_read(b, 0);
        assert(r.e_magic == self.e_magic) by {
            reveal(IMAGE_DOS_HEADER::spec_bytes_part_0);
            assert(b[0int] == (u16_bytes(self.e_magic))[0int]);
            assert(b[1int] == (u16_bytes(self.e_magic))[1int]);
            lemma_u16_roundtrip(self.e_magic);
        }
        assert(r.e_cblp == self.e_cblp) by {
            reveal(IMAGE_DOS_HEADER::spec_bytes_part_0);
            assert(b[2int] == (u16_bytes(self.e_cblp))[0int]);
            assert(b[3int] == (u16_bytes(self.e_cblp))[1int]);
            lemma_u16_roundtrip(self.e_cblp);
        }
        assert(r.e_cp == self.e_cp) by {
            reveal(IMAGE_DOS_HEADER::spec_bytes_part_0);
            assert(b[4int] == (u16_bytes(self.e_cp))[0int]);
            assert(b[5int] == (u16_bytes(self.e_cp))[1int]);
            lemma_u16_roundtrip(self.e_cp);
        }
        assert(r.e_crlc == self.e_crlc) by {
            reveal(IMAGE_DOS_HEADER::spec_bytes_part_0);
            assert(b[6int] == (u16_bytes(self.e_crlc))[0int]);
            assert(b[7int] == (u16_bytes(self.e_crlc))[1int]);
            lemma_u16_roundtrip(self.e_crlc);
        }
        assert(r.e_cparhdr == self.e_cparhdr) by {
            reveal(IMAGE_DOS_HEADER::spec_bytes_part_0);
            assert(b[8int] == (u16_bytes(self.e_cparhdr))[0int]);
            assert(b[9int] == (u16_bytes(self.e_cparhdr))[1int]);
            lemma_u16_roundtrip(self.e_cparhdr);
        }
        assert(r.e_minalloc == self.e_minalloc) by {
            reveal(IMAGE_DOS_HEADER::spec_bytes_part_0);
            assert(b[10int] == (u16_bytes(self.e_minalloc))[0int]);
            assert(b[11int] == (u16_bytes(self.e_minalloc))[1int]);
            lemma_u16_roundtrip(self.e_minalloc);
        }
    }

    /// The fields from offset 12 on read back from the record's bytes.
    #[verifier::rlimit(100)]
    #[verifier::spinoff_prover]
    proof fn lemma_bytes_roundtrip_part_1(self)
        ensures
            Self::spec_read(self.spec_bytes(), 0).e_maxalloc == self.e_maxalloc,
            Self::spec_read(self.spec_bytes(), 0).e_ss == self.e_ss,
            Self::spec_read(self.spec_bytes(), 0).e_sp == self.e_sp,
            Self::spec_read(self.spec_bytes(), 0).e_csum == self.e_csum,
            Self::spec_read(self.spec_bytes(), 0).e_ip == self.e_ip,
            Self::spec_read(self.spec_bytes(), 0).e_cs == self.e_cs,
    {
        reveal(IMAGE_DOS_HEADER::spec_bytes);
        assert(self.spec_bytes_part_0().len() == 12) by {
            reveal(IMAGE_DOS_HEADER::spec_bytes_part_0);
        }
        assert(self.spec_bytes_part_1().len() == 12) by {
            reveal(IMAGE_DOS_HEADER::spec_bytes_part_1);
        }
        assert(self.spec_bytes_part_2().len() == 12) by {
            reveal(IMAGE_DOS_HEADER::spec_bytes_part_2);
        }
        assert(self.spec_bytes_part_3().len() == 12) by {
            reveal(IMAGE_DOS_HEADER::spec_bytes_part_3);
        }
        assert(self.spec_bytes_part_4().len() == 12) by {
            reveal(IMAGE_DOS_HEADER::spec_bytes_part_4);
        }
        assert(self.spec_bytes_part_5().len() == 4) by {
            reveal(IMAGE_DOS_HEADER::spec_bytes_part_5);
        }
        let b = self.spec_bytes();
        let r = Self::spec_read(b, 0);
        assert(r.e_maxalloc == self.e_maxalloc) by {
            reveal(IMAGE_DOS_HEADER::spec_bytes_part_1);
            assert(b[12int] == (u16_bytes(self.e_maxalloc))[0int]);
            assert(b[13int] == (u16_bytes(self.e_maxalloc))[1int]);
            lemma_u16_roundtrip(self.e_maxalloc);
        }
        assert(r.e_ss == self.e_ss) by {
            reveal(IMAGE_DOS_HEADER::spec_bytes_part_1);
            assert(b[14int] == (u16_bytes(self.e_ss))[0int]);
            assert(b[15int] == (u16_bytes(self.e_ss))[1int]);
            lemma_u16_roundtrip(self.e_ss);
        }
        assert(r.e_sp == self.e_sp) by {
            reveal(IMAGE_DOS_HEADER::spec_bytes_part_1);
            assert(b[16int] == (u16_bytes(self.e_sp))[0int]);
            assert(b[17int] == (u16_bytes(self.e_sp))[1int]);
            lemma_u16_roundtrip(self.e_sp);
        }
        assert(r.e_csum == self.e_csum) by {
            reveal(IMAGE_DOS_HEADER::spec_bytes_part_1);
            assert(b[18int] == (u16_bytes(self.e_csum))[0int]);
            assert(b[19int] == (u16_bytes(self.e_csum))[1int]);
            lemma_u16_roundtrip(self.e_csum);
        }
        assert(r.e_ip == self.e_ip) by {
            reveal(IMAGE_DOS_HEADER::spec_bytes_part_1);
            assert(b[20int] == (u16_bytes(self.e_ip))[0int]);
            assert(b[21int] == (u16_bytes(self.e_ip))[1int]);
            lemma_u16_roundtrip(self.e_ip);
        }
        assert(r.e_cs == self.e_cs) by {
            reveal(IMAGE_DOS_HEADER::spec_bytes_part_1);
            assert(b[22int] == (u16_bytes(self.e_cs))[0int]);
            assert(b[23int] == (u16_bytes(self.e_cs))[1int]);
            lemma_u16_roundtrip(self.e_cs);
        }
    }

    /// The fields from offset 24 on read back from the record's bytes.
    #[verifier::rlimit(100)]
    #[verifier::spinoff_prover]
    proof fn lemma_bytes_roundtrip_part_2(self)
        ensures
            Self::spec_read(self.spec_bytes(), 0).e_lfarlc == self.e_lfarlc,
            Self::spec_read(self.spec_bytes(), 0).e_ovno == self.e_ovno,
            Self::spec_read(self.spec_bytes(), 0).e_res[0] == self.e_res[0],
            Self::spec_read(self.spec_bytes(), 0).e_res[1] == self.e_res[1],
            Self::spec_read(self.spec_bytes(), 0).e_res[2] == self.e_res[2],
            Self::spec_read(self.spec_bytes(), 0).e_res[3] == self.e_res[3],
    {
        reveal(IMAGE_DOS_HEADER::spec_bytes);
        assert(self.spec_bytes_part_0().len() == 12) by {
            reveal(IMAGE_DOS_HEADER::spec_bytes_part_0);
        }
        assert(self.spec_bytes_part_1().len() == 12) by {
            reveal(IMAGE_DOS_HEADER::spec_bytes_part_1);
        }
        assert(self.spec_bytes_part_2().len() == 12) by {
            reveal(IMAGE_DOS_HEADER::spec_bytes_part_2);
        }
        assert(self.spec_bytes_part_3().len() == 12) by {
            reveal(IMAGE_DOS_HEADER::spec_bytes_part_3);
        }
        assert(self.spec_bytes_part_4().len() == 12) by {
            reveal(IMAGE_DOS_HEADER::spec_bytes_part_4);
        }
        assert(self.spec_bytes_part_5().len() == 4) by {
            reveal(IMAGE_DOS_HEADER::spec_bytes_part_5);
        }
        let b = self.spec_bytes();
        let r = Self::spec_read(b, 0);
        assert(r.e_lfarlc == self.e_lfarlc) by {
            reveal(IMAGE_DOS_HEADER::spec_bytes_part_2);
            assert(b[24int] == (u16_bytes(self.e_lfarlc))[0int]);
            assert(b[25int] == (u16_bytes(self.e_lfarlc))[1int]);
            lemma_u16_roundtrip(self.e_lfarlc);
        }
        assert(r.e_ovno == self.e_ovno) by {
            reveal(IMAGE_DOS_HEADER::spec_bytes_part_2);
            assert(b[26int] == (u16_bytes(self.e_ovno))[0int]);
            assert(b[27int] == (u16_bytes(self.e_ovno))[1int]);
            lemma_u16_roundtrip(self.e_ovno);
        }
        assert(r.e_res[0] == self.e_res[0]) by {
            reveal(IMAGE_DOS_HEADER::spec_bytes_part_2);
            assert(b[28int] == (u16_bytes(self.e_res[0]))[0int]);
            assert(b[29int] == (u16_bytes(self.e_res[0]))[1int]);
            lemma_u16_roundtrip(self.e_res[0]);
        }
        assert(r.e_res[1] == self.e_res[1]) by {
            reveal(IMAGE_DOS_HEADER::spec_bytes_part_2);
            assert(b[30int] == (u16_bytes(self.e_res[1]))[0int]);
            assert(b[31int] == (u16_bytes(self.e_res[1]))[1int]);
            lemma_u16_roundtrip(self.e_res[1]);
        }
        assert(r.e_res[2] == self.e_res[2]) by {
            reveal(IMAGE_DOS_HEADER::spec_bytes_part_2);
            assert(b[32int] == (u16_bytes(self.e_res[2]))[0int]);
            assert(b[33int] == (u16_bytes(self.e_res[2]))[1int]);
            lemma_u16_roundtrip(self.e_res[2]);
        }
        assert(r.e_res[3] == self.e_res[3]) by {
            reveal(IMAGE_DOS_HEADER::spec_bytes_part_2);
            assert(b[34int] == (u16_bytes(self.e_res[3]))[0int]);
            assert(b[35int] == (u16_bytes(self.e_res[3]))[1int]);
            lemma_u16_roundtrip(self.e_res[3]);
        }
    }

    /// The fields from offset 36 on read back from the record's bytes.
    #[verifier::rlimit(100)]
    #[verifier::spinoff_prover]
    proof fn lemma_bytes_roundtrip_part_3(self)
        ensures
            Self::spec_read(self.spec_bytes(), 0).e_oemid == self.e_oemid,
            Self::spec_read(self.spec_bytes(), 0).e_oeminfo == self.e_oeminfo,
            Self::spec_read(self.spec_bytes(), 0).e_res2[0] == self.e_res2[0],
            Self::spec_read(self.spec_bytes(), 0).e_res2[1] == self.e_res2[1],
            Self::spec_read(self.spec_bytes(), 0).e_res2[2] == self.e_res2[2],
            Self::spec_read(self.spec_bytes(), 0).e_res2[3] == self.e_res2[3],
    {
        reveal(IMAGE_DOS_HEADER::spec_bytes);
        assert(self.spec_bytes_part_0().len() == 12) by {
            reveal(IMAGE_DOS_HEADER::spec_bytes_part_0);
        }
        assert(self.spec_bytes_part_1().len() == 12) by {
            reveal(IMAGE_DOS_HEADER::spec_bytes_part_1);
        }
        assert(self.spec_bytes_part_2().len() == 12) by {
            reveal(IMAGE_DOS_HEADER::spec_bytes_part_2);
        }
        assert(self.spec_bytes_part_3().len() == 12) by {
            reveal(IMAGE_DOS_HEADER::spec_bytes_part_3);
        }
        assert(self.spec_bytes_part_4().len() == 12) by {
            reveal(IMAGE_DOS_HEADER::spec_bytes_part_4);
        }
        assert(self.spec_bytes_part_5().len() == 4) by {
            reveal(IMAGE_DOS_HEADER::spec_bytes_part_5);
        }
        let b = self.spec_bytes();
        let r = Self::spec_read(b, 0);
        assert(r.e_oemid == self.e_oemid) by {
            reveal(IMAGE_DOS_HEADER::spec_bytes_part_3);
            assert(b[36int] == (u16_bytes(self.e_oemid))[0int]);
            assert(b[37int] == (u16_bytes(self.e_oemid))[1int]);
            lemma_u16_roundtrip(self.e_oemid);
        }
        assert(r.e_oeminfo == self.e_oeminfo) by {
            reveal(IMAGE_DOS_HEADER::spec_bytes_part_3);
            assert(b[38int] == (u16_bytes(self.e_oeminfo))[0int]);
            assert(b[39int] == (u16_bytes(self.e_oeminfo))[1int]);
            lemma_u16_roundtrip(self.e_oeminfo);
        }
        assert(r.e_res2[0] == self.e_res2[0]) by {
            reveal(IMAGE_DOS_HEADER::spec_bytes_part_3);
            assert(b[40int] == (u16_bytes(self.e_res2[0]))[0int]);
            assert(b[41int] == (u16_bytes(self.e_res2[0]))[1int]);
            lemma_u16_roundtrip(self.e_res2[0]);
        }
        assert(r.e_res2[1] == self.e_res2[1]) by {
            reveal(IMAGE_DOS_HEADER::spec_bytes_part_3);
            assert(b[42int] == (u16_bytes(self.e_res2[1]))[0int]);
            assert(b[43int] == (u16_bytes(self.e_res2[1]))[1int]);
            lemma_u16_roundtrip(self.e_res2[1]);
        }
        assert(r.e_res2[2] == self.e_res2[2]) by {
            reveal(IMAGE_DOS_HEADER::spec_bytes_part_3);
            assert(b[44int] == (u16_bytes(self.e_res2[2]))[0int]);
            assert(b[45int] == (u16_bytes(self.e_res2[2]))[1int]);
            lemma_u16_roundtrip(self.e_res2[2]);
        }
        assert(r.e_res2[3] == self.e_res2[3]) by {
            reveal(IMAGE_DOS_HEADER::spec_bytes_part_3);
            assert(b[46int] == (u16_bytes(self.e_res2[3]))[0int]);
            assert(b[47int] == (u16_bytes(self.e_res2[3]))[1int]);
            lemma_u16_roundtrip(self.e_res2[3]);
        }
    }

    /// The fields from offset 48 on read back from the record's bytes.
    #[verifier::rlimit(100)]
    #[verifier::spinoff_prover]
    proof fn lemma_bytes_roundtrip_part_4(self)
        ensures
            Self::spec_read(self.spec_bytes(), 0).e_res2[4] == self.e_res2[4],
            Self::spec_read(self.spec_bytes(), 0).e_res2[5] == self.e_res2[5],
            Self::spec_read(self.spec_bytes(), 0).e_res2[6] == self.e_res2[6],
            Self::spec_read(self.spec_bytes(), 0).e_res2[7] == self.e_res2[7],
            Self::spec_read(self.spec_bytes(), 0).e_res2[8] == self.e_res2[8],
            Self::spec_read(self.spec_bytes(), 0).e_res2[9] == self.e_res2[9],
    {
        reveal(IMAGE_DOS_HEADER::spec_bytes);
        assert(self.spec_bytes_part_0().len() == 12) by {
            reveal(IMAGE_DOS_HEADER::spec_bytes_part_0);
        }
        assert(self.spec_bytes_part_1().len() == 12) by {
            reveal(IMAGE_DOS_HEADER::spec_bytes_part_1);
        }
        assert(self.spec_bytes_part_2().len() == 12) by {
            reveal(IMAGE_DOS_HEADER::spec_bytes_part_2);
        }
        assert(self.spec_bytes_part_3().len() == 12) by {
            reveal(IMAGE_DOS_HEADER::spec_bytes_part_3);
        }
        assert(self.spec_bytes_part_4().len() == 12) by {
            reveal(IMAGE_DOS_HEADER::spec_bytes_part_4);
        }
        assert(self.spec_bytes_part_5().len() == 4) by {
            reveal(IMAGE_DOS_HEADER::spec_bytes_part_5);
        }
        let b = self.spec_bytes();
        let r = Self::spec_read(b, 0);
        assert(r.e_res2[4] == self.e_res2[4]) by {
            reveal(IMAGE_DOS_HEADER::spec_bytes_part_4);
            assert(b[48int] == (u16_bytes(self.e_res2[4]))[0int]);
            assert(b[49int] == (u16_bytes(self.e_res2[4]))[1int]);
            lemma_u16_roundtrip(self.e_res2[4]);
        }
        assert(r.e_res2[5] == self.e_res2[5]) by {
            reveal(IMAGE_DOS_HEADER::spec_bytes_part_4);
            assert(b[50int] == (u16_bytes(self.e_res2[5]))[0int]);
            assert(b[51int] == (u16_bytes(self.e_res2[5]))[1int]);
            lemma_u16_roundtrip(self.e_res2[5]);
        }
        assert(r.e_res2[6] == self.e_res2[6]) by {
            reveal(IMAGE_DOS_HEADER::spec_bytes_part_4);
            assert(b[52int] == (u16_bytes(self.e_res2[6]))[0int]);
            assert(b[53int] == (u16_bytes(self.e_res2[6]))[1int]);
            lemma_u16_roundtrip(self.e_res2[6]);
        }
        assert(r.e_res2[7] == self.e_res2[7]) by {
            reveal(IMAGE_DOS_HEADER::spec_bytes_part_4);
            assert(b[54int] == (u16_bytes(self.e_res2[7]))[0int]);
            assert(b[55int] == (u16_bytes(self.e_res2[7]))[1int]);
            lemma_u16_roundtrip(self.e_res2[7]);
        }
        assert(r.e_res2[8] == self.e_res2[8]) by {
            reveal(IMAGE_DOS_HEADER::spec_bytes_part_4);
            assert(b[56int] == (u16_bytes(self.e_res2[8]))[0int]);
            assert(b[57int] == (u16_bytes(self.e_res2[8]))[1int]);
            lemma_u16_roundtrip(self.e_res2[8]);
        }
        assert(r.e_res2[9] == self.e_res2[9]) by {
            reveal(IMAGE_DOS_HEADER::spec_bytes_part_4);
            assert(b[58int] == (u16_bytes(self.e_res2[9]))[0int]);
            assert(b[59int] == (u16_bytes(self.e_res2[9]))[1int]);
            lemma_u16_roundtrip(self.e_res2[9]);
        }
    }

    /// The fields from offset 60 on read back from the record's bytes.
    #[verifier::rlimit(100)]
    #[verifier::spinoff_prover]
    proof fn lemma_bytes_roundtrip_part_5(self)
        ensures
            Self::spec_read(self.spec_bytes(), 0).e_lfanew == self.e_lfanew,
    {
        reveal(IMAGE_DOS_HEADER::spec_bytes);
        assert(self.spec_bytes_part_0().len() == 12) by {
            reveal(IMAGE_DOS_HEADER::spec_bytes_part_0);
        }
        assert(self.spec_bytes_part_1().len() == 12) by {
            reveal(IMAGE_DOS_HEADER::spec_bytes_part_1);
        }
        assert(self.spec_bytes_part_2().len() == 12) by {
            reveal(IMAGE_DOS_HEADER::spec_bytes_part_2);
        }
        assert(self.spec_bytes_part_3().len() == 12) by {
            reveal(IMAGE_DOS_HEADER::spec_bytes_part_3);
        }
        assert(self.spec_bytes_part_4().len() == 12) by {
            reveal(IMAGE_DOS_HEADER::spec_bytes_part_4);
        }
        assert(self.spec_bytes_part_5().len() == 4) by {
            reveal(IMAGE_DOS_HEADER::spec_bytes_part_5);
        }
        let b = self.spec_bytes();
        let r = Self::spec_read(b, 0);
        assert(r.e_lfanew == self.e_lfanew) by {
            reveal(IMAGE_DOS_HEADER::spec_bytes_part_5);
            assert(b[60int] == (u32_bytes(self.e_lfanew as u32))[0int]);
            assert(b[61int] == (u32_bytes(self.e_lfanew as u32))[1int]);
            assert(b[62int] == (u32_bytes(self.e_lfanew as u32))[2int]);
            assert(b[63int] == (u32_bytes(self.e_lfanew as u32))[3int]);
            lemma_u32_roundtrip(self.e_lfanew as u32);
            lemma_i32_as_u32(self.e_lfanew);
        }
    }

    /// The record read back from its own bytes is the record.
    #[verifier::rlimit(100)]
    #[verifier::spinoff_prover]
    pub proof fn lemma_bytes_roundtrip(self)
        ensures
            self.spec_bytes().len() == 64,
            Self::spec_read(self.spec_bytes(), 0) == self,
    {
        self.lemma_bytes_len();
        let r = Self::spec_read(self.spec_bytes(), 0);
        self.lemma_bytes_roundtrip_part_0();
        self.lemma_bytes_roundtrip_part_1();
        self.lemma_bytes_roundtrip_part_2();
        self.lemma_bytes_roundtrip_part_3();
        self.lemma_bytes_roundtrip_part_4();
        self.lemma_bytes_roundtrip_part_5();
        assert(r.e_res =~= self.e_res);
        assert(r.e_res2 =~= self.e_res2);
    }
}

impl IMAGE_DOS_HEADER {
    /// The bytes of the fields from offset 0 on, of a record read at `off`, are the bytes read.
    proof fn lemma_read_bytes_part_0(s: Seq<u8>, off: int)
        requires
            0 <= off,
            off + 64 <= s.len(),
        ensures
            Self::spec_read(s, off).spec_bytes_part_0() == s.subrange(off + 0, off + 12),
    {
        reveal(IMAGE_DOS_HEADER::spec_bytes_part_0);
        lemma_u16_bytes_of(s, off + 0);
        lemma_u16_bytes_of(s, off + 2);
        lemma_u16_bytes_of(s, off + 4);
        lemma_u16_bytes_of(s, off + 6);
        lemma_u16_bytes_of(s, off + 8);
        lemma_u16_bytes_of(s, off + 10);
        lemma_empty_join(s.subrange(off + 0, off + 2));
        lemma_join_windows(s, off + 0, off + 2, off + 4);
        lemma_join_windows(s, off + 0, off + 4, off + 6);
        lemma_join_windows(s, off + 0, off + 6, off + 8);
        lemma_join_windows(s, off + 0, off + 8, off + 10);
        lemma_join_windows(s, off + 0, off + 10, off + 12);
    }

    /// The bytes of the fields from offset 12 on, of a record read at `off`, are the bytes read.
    proof fn lemma_read_bytes_part_1(s: Seq<u8>, off: int)
        requires
            0 <= off,
            off + 64 <= s.len(),
        ensures
            Self::spec_read(s, off).spec_bytes_part_1() == s.subrange(off + 12, off + 24),
    {
        reveal(IMAGE_DOS_HEADER::spec_bytes_part_1);
        lemma_u16_bytes_of(s, off + 12);
        lemma_u16_bytes_of(s, off + 14);
        lemma_u16_bytes_of(s, off + 16);
        lemma_u16_bytes_of(s, off + 18);
        lemma_u16_bytes_of(s, off + 20);
        lemma_u16_bytes_of(s, off + 22);
        lemma_empty_join(s.subrange(off + 12, off + 14));
        lemma_join_windows(s, off + 12, off + 14, off + 16);
        lemma_join_windows(s, off + 12, off + 16, off + 18);
        lemma_join_windows(s, off + 12, off + 18, off + 20);
        lemma_join_windows(s, off + 12, off + 20, off + 22);
        lemma_join_windows(s, off + 12, off + 22, off + 24);
    }

    /// The bytes of the fields from offset 24 on, of a record read at `off`, are the bytes read.
    proof fn lemma_read_bytes_part_2(s: Seq<u8>, off: int)
        requires
            0 <= off,
            off + 64 <= s.len(),
        ensures
            Self::spec_read(s, off).spec_bytes_part_2() == s.subrange(off + 24, off + 36),
    {
        reveal(IMAGE_DOS_HEADER::spec_bytes_part_2);
        lemma_u16_bytes_of(s, off + 24);
        lemma_u16_bytes_of(s, off + 26);
        lemma_u16_bytes_of(s, off + 28);
        lemma_u16_bytes_of(s, off + 30);
        lemma_u16_bytes_of(s, off + 32);
        lemma_u16_bytes_of(s, off + 34);
        lemma_empty_join(s.subrange(off + 24, off + 26));
        lemma_join_windows(s, off + 24, off + 26, off + 28);
        lemma_join_windows(s, off + 24, off + 28, off + 30);
        lemma_join_windows(s, off + 24, off + 30, off + 32);
        lemma_join_windows(s, off + 24, off + 32, off + 34);
        lemma_join_windows(s, off + 24, off + 34, off + 36);
    }

    /// The bytes of the fields from offset 36 on, of a record read at `off`, are the bytes read.
    proof fn lemma_read_bytes_part_3(s: Seq<u8>, off: int)
        requires
            0 <= off,
            off + 64 <= s.len(),
        ensures
            Self::spec_read(s, off).spec_bytes_part_3() == s.subrange(off + 36, off + 48),
    {
        reveal(IMAGE_DOS_HEADER::spec_bytes_part_3);
        lemma_u16_bytes_of(s, off + 36);
        lemma_u16_bytes_of(s, off + 38);
        lemma_u16_bytes_of(s, off + 40);
        lemma_u16_bytes_of(s, off + 42);
        lemma_u16_bytes_of(s, off + 44);
        lemma_u16_bytes_of(s, off + 46);
        lemma_empty_join(s.subrange(off + 36, off + 38));
        lemma_join_windows(s, off + 36, off + 38, off + 40);
        lemma_join_windows(s, off + 36, off + 40, off + 42);
        lemma_join_windows(s, off + 36, off + 42, off + 44);
        lemma_join_windows(s, off + 36, off + 44, off + 46);
        lemma_join_windows(s, off + 36, off + 46, off + 48);
    }

    /// The bytes of the fields from offset 48 on, of a record read at `off`, are the bytes read.
    proof fn lemma_read_bytes_part_4(s: Seq<u8>, off: int)
        requires
            0 <= off,
            off + 64 <= s.len(),
        ensures
            Self::spec_read(s, off).spec_bytes_part_4() == s.subrange(off + 48, off + 60),
    {
        reveal(IMAGE_DOS_HEADER::spec_bytes_part_4);
        lemma_u16_bytes_of(s, off + 48);
        lemma_u16_bytes_of(s, off + 50);
        lemma_u16_bytes_of(s, off + 52);
        lemma_u16_bytes_of(s, off + 54);
        lemma_u16_bytes_of(s, off + 56);
        lemma_u16_bytes_of(s, off + 58);
        lemma_empty_join(s.subrange(off + 48, off + 50));
        lemma_join_windows(s, off + 48, off + 50, off + 52);
        lemma_join_windows(s, off + 48, off + 52, off + 54);
        lemma_join_windows(s, off + 48, off + 54, off + 56);
        lemma_join_windows(s, off + 48, off + 56, off + 58);
        lemma_join_windows(s, off + 48, off + 58, off + 60);
    }

    /// The bytes of the fields from offset 60 on, of a record read at `off`, are the bytes read.
    proof fn lemma_read_bytes_part_5(s: Seq<u8>, off: int)
        requires
            0 <= off,
            off + 64 <= s.len(),
        ensures
            Self::spec_read(s, off).spec_bytes_part_5() == s.subrange(off + 60, off + 64),
    {
        reveal(IMAGE_DOS_HEADER::spec_bytes_part_5);
        lemma_u32_as_i32(le_u32(s, off + 60));
        lemma_u32_bytes_of(s, off + 60);
        lemma_empty_join(s.subrange(off + 60, off + 64));
    }

    /// The bytes of a record read at `off` are the bytes it was read from.
    pub proof fn lemma_read_bytes(s: Seq<u8>, off: int)
        requires
            0 <= off,
            off + 64 <= s.len(),
        ensures
            Self::spec_read(s, off).spec_bytes() == s.subrange(off, off + 64),
    {
        reveal(IMAGE_DOS_HEADER::spec_bytes);
        Self::lemma_read_bytes_part_0(s, off);
        Self::lemma_read_bytes_part_1(s, off);
        Self::lemma_read_bytes_part_2(s, off);
        Self::lemma_read_bytes_part_3(s, off);
        Self::lemma_read_bytes_part_4(s, off);
        Self::lemma_read_bytes_part_5(s, off);
        lemma_empty_join(s.subrange(off + 0, off + 12));
        lemma_join_windows(s, off + 0, off + 12, off + 24);
        lemma_join_windows(s, off + 0, off + 24, off + 36);
        lemma_join_windows(s, off + 0, off + 36, off + 48);
        lemma_join_windows(s, off + 0, off + 48, off + 60);
        lemma_join_windows(s, off + 0, off + 60, off + 64);
    }
}

/// The COFF file header.
#[allow(non_camel_case_types)]
#[derive(Debug, Clone, Copy)]
pub struct IMAGE_FILE_HEADER {
    pub machine: u16,
    pub number_of_sections: u16,
    pub time_date_stamp: u32,
    pub pointer_to_symbol_table: u32,
    pub number_of_symbols: u32,
    pub size_of_optional_header: u16,
    pub characteristics: u16,
}

impl RawStruct for IMAGE_FILE_HEADER {
    open spec fn spec_size() -> nat {
        20
    }

    open spec fn spec_read(s: Seq<u8>, off: int) -> Self {
        IMAGE_FILE_HEADER {
            machine: le_u16(s, off + 0),
            number_of_sections: le_u16(s, off + 2),
            time_date_stamp: le_u32(s, off + 4),
            pointer_to_symbol_table: le_u32(s, off + 8),
            number_of_symbols: le_u32(s, off + 12),
            size_of_optional_header: le_u16(s, off + 16),
            characteristics: le_u16(s, off + 18),
        }
    }

    proof fn lemma_read_window(s1: Seq<u8>, o1: int, s2: Seq<u8>, o2: int) {
        lemma_sub_window(s1, o1, s2, o2, 20, 0, 2);
        lemma_le_window(s1, o1 + 0, s2, o2 + 0, 2);
        lemma_sub_window(s1, o1, s2, o2, 20, 2, 2);
        lemma_le_window(s1, o1 + 2, s2, o2 + 2, 2);
        lemma_sub_window(s1, o1, s2, o2, 20, 4, 4);
        lemma_le_window(s1, o1 + 4, s2, o2 + 4, 4);
        lemma_sub_window(s1, o1, s2, o2, 20, 8, 4);
        lemma_le_window(s1, o1 + 8, s2, o2 + 8, 4);
        lemma_sub_window(s1, o1, s2, o2, 20, 12, 4);
        lemma_le_window(s1, o1 + 12, s2, o2 + 12, 4);
        lemma_sub_window(s1, o1, s2, o2, 20, 16, 2);
        lemma_le_window(s1, o1 + 16, s2, o2 + 16, 2);
        lemma_sub_window(s1, o1, s2, o2, 20, 18, 2);
        lemma_le_window(s1, o1 + 18, s2, o2 + 18, 2);
    }

    fn size() -> (n: usize) {
        20
    }

    fn read(bytes: &[u8], off: usize) -> (r: Self) {
        assert(bytes@.len() == bytes.len());
        IMAGE_FILE_HEADER {
            machine: read_u16(bytes, off + 0),
            number_of_sections: read_u16(bytes, off + 2),
            time_date_stamp: read_u32(bytes, off + 4),
            pointer_to_symbol_table: read_u32(bytes, off + 8),
            number_of_symbols: read_u32(bytes, off + 12),
            size_of_optional_header: read_u16(bytes, off + 16),
            characteristics: read_u16(bytes, off + 18),
        }
    }
}

impl IMAGE_FILE_HEADER {
    /// The bytes that store the record, field after field.
    #[verifier::opaque]
    pub open spec fn spec_bytes(self) -> Seq<u8> {
        Seq::<u8>::empty() + self.spec_bytes_part_0() + self.spec_bytes_part_1()
    }

    /// The bytes of the fields from offset 0 on, up to offset 18.
    #[verifier::opaque]
    pub open spec fn spec_bytes_part_0(self) -> Seq<u8> {
        Seq::<u8>::empty() + u16_bytes(self.machine) + u16_bytes(self.number_of_sections) + u32_bytes(self.time_date_stamp) + u32_bytes(self.pointer_to_symbol_table) + u32_bytes(self.number_of_symbols) + u16_bytes(self.size_of_optional_header)
    }

    /// The bytes of the fields from offset 18 on, up to offset 20.
    #[verifier::opaque]
    pub open spec fn spec_bytes_part_1(self) -> Seq<u8> {
        Seq::<u8>::empty() + u16_bytes(self.characteristics)
    }

    /// The bytes that store the record.
    #[verifier::rlimit(50)]
    #[verifier::spinoff_prover]
    pub fn to_le_bytes(&self) -> (r: Vec<u8>)
        ensures
            r@ == self.spec_bytes(),
    {
        proof {
            reveal(IMAGE_FILE_HEADER::spec_bytes);
            reveal(IMAGE_FILE_HEADER::spec_bytes_part_0);
            reveal(IMAGE_FILE_HEADER::spec_bytes_part_1);
        }
        let mut r: Vec<u8> = Vec::new();
        {
            let mut c: Vec<u8> = Vec::new();
            c.extend_from_slice(&le_bytes_u16(self.machine));
            c.extend_from_slice(&le_bytes_u16(self.number_of_sections));
            c.extend_from_slice(&le_bytes_u32(self.time_date_stamp));
            c.extend_from_slice(&le_bytes_u32(self.pointer_to_symbol_table));
            c.extend_from_slice(&le_bytes_u32(self.number_of_symbols));
            c.extend_from_slice(&le_bytes_u16(self.size_of_optional_header));
            r.append(&mut c);
        }
        {
            let mut c: Vec<u8> = Vec::new();
            c.extend_from_slice(&le_bytes_u16(self.characteristics));
            r.append(&mut c);
        }
        r
    }
}

impl IMAGE_FILE_HEADER {
    /// The record is stored in 20 bytes.
    pub proof fn lemma_bytes_len(self)
        ensures
            self.spec_bytes().len() == 20,
    {
        reveal(IMAGE_FILE_HEADER::spec_bytes);
        assert(self.spec_bytes_part_0().len() == 18) by {
            reveal(IMAGE_FILE_HEADER::spec_bytes_part_0);
        }
        assert(self.spec_bytes_part_1().len() == 2) by {
            reveal(IMAGE_FILE_HEADER::spec_bytes_part_1);
        }
    }

    /// The fields from offset 0 on read back from the record's bytes.
    #[verifier::rlimit(100)]
    #[verifier::spinoff_prover]
    proof fn lemma_bytes_roundtrip_part_0(self)
        ensures
            Self::spec_read(self.spec_bytes(), 0).machine == self.machine,
            Self::spec_read(self.spec_bytes(), 0).number_of_sections == self.number_of_sections,
            Self::spec_read(self.spec_bytes(), 0).time_date_stamp == self.time_date_stamp,
            Self::spec_read(self.spec_bytes(), 0).pointer_to_symbol_table == self.pointer_to_symbol_table,
            Self::spec_read(self.spec_bytes(), 0).number_of_symbols == self.number_of_symbols,
            Self::spec_read(self.spec_bytes(), 0).size_of_optional_header == self.size_of_optional_header,
    {
        reveal(IMAGE_FILE_HEADER::spec_bytes);
        assert(self.spec_bytes_part_0().len() == 18) by {
            reveal(IMAGE_FILE_HEADER::spec_bytes_part_0);
        }
        assert(self.spec_bytes_part_1().len() == 2) by {
            reveal(IMAGE_FILE_HEADER::spec_bytes_part_1);
        }
        let b = self.spec_bytes();
        let r = Self::spec_read(b, 0);
        assert(r.machine == self.machine) by {
            reveal(IMAGE_FILE_HEADER::spec_bytes_part_0);
            assert(b[0int] == (u16_bytes(self.machine))[0int]);
            assert(b[1int] == (u16_bytes(self.machine))[1int]);
            lemma_u16_roundtrip(self.machine);
        }
        assert(r.number_of_sections == self.number_of_sections) by {
            reveal(IMAGE_FILE_HEADER::spec_bytes_part_0);
            assert(b[2int] == (u16_bytes(self.number_of_sections))[0int]);
            assert(b[3int] == (u16_bytes(self.number_of_sections))[1int]);
            lemma_u16_roundtrip(self.number_of_sections);
        }
        assert(r.time_date_stamp == self.time_date_stamp) by {
            reveal(IMAGE_FILE_HEADER::spec_bytes_part_0);
            assert(b[4int] == (u32_bytes(self.time_date_stamp))[0int]);
            assert(b[5int] == (u32_bytes(self.time_date_stamp))[1int]);
            assert(b[6int] == (u32_bytes(self.time_date_stamp))[2int]);
            assert(b[7int] == (u32_bytes(self.time_date_stamp))[3int]);
            lemma_u32_roundtrip(self.time_date_stamp);
        }
        assert(r.pointer_to_symbol_table == self.pointer_to_symbol_table) by {
            reveal(IMAGE_FILE_HEADER::spec_bytes_part_0);
            assert(b[8int] == (u32_bytes(self.pointer_to_symbol_table))[0int]);
            assert(b[9int] == (u32_bytes(self.pointer_to_symbol_table))[1int]);
            assert(b[10int] == (u32_bytes(self.pointer_to_symbol_table))[2int]);
            assert(b[11int] == (u32_bytes(self.pointer_to_symbol_table))[3int]);
            lemma_u32_roundtrip(self.pointer_to_symbol_table);
        }
        assert(r.number_of_symbols == self.number_of_symbols) by {
            reveal(IMAGE_FILE_HEADER::spec_bytes_part_0);
            assert(b[12int] == (u32_bytes(self.number_of_symbols))[0int]);
            assert(b[13int] == (u32_bytes(self.number_of_symbols))[1int]);
            assert(b[14int] == (u32_bytes(self.number_of_symbols))[2int]);
            assert(b[15int] == (u32_bytes(self.number_of_symbols))[3int]);
            lemma_u32_roundtrip(self.number_of_symbols);
        }
        assert(r.size_of_optional_header == self.size_of_optional_header) by {
            reveal(IMAGE_FILE_HEADER::spec_bytes_part_0);
            assert(b[16int] == (u16_bytes(self.size_of_optional_header))[0int]);
            assert(b[17int] == (u16_bytes(self.size_of_optional_header))[1int]);
            lemma_u16_roundtrip(self.size_of_optional_header);
        }
    }

    /// The fields from offset 18 on read back from the record's bytes.
    #[verifier::rlimit(100)]
    #[verifier::spinoff_prover]
    proof fn lemma_bytes_roundtrip_part_1(self)
        ensures
            Self::spec_read(self.spec_bytes(), 0).characteristics == self.characteristics,
    {
        reveal(IMAGE_FILE_HEADER::spec_bytes);
        assert(self.spec_bytes_part_0().len() == 18) by {
            reveal(IMAGE_FILE_HEADER::spec_bytes_part_0);
        }
        assert(self.spec_bytes_part_1().len() == 2) by {
            reveal(IMAGE_FILE_HEADER::spec_bytes_part_1);
        }
        let b = self.spec_bytes();
        let r = Self::spec_read(b, 0);
        assert(r.characteristics == self.characteristics) by {
            reveal(IMAGE_FILE_HEADER::spec_bytes_part_1);
            assert(b[18int] == (u16_bytes(self.characteristics))[0int]);
            assert(b[19int] == (u16_bytes(self.characteristics))[1int]);
            lemma_u16_roundtrip(self.characteristics);
        }
    }

    /// The record read back from its own bytes is the record.
    #[verifier::rlimit(100)]
    #[verifier::spinoff_prover]
    pub proof fn lemma_bytes_roundtrip(self)
        ensures
            self.spec_bytes().len() == 20,
            Self::spec_read(self.spec_bytes(), 0) == self,
    {
        self.lemma_bytes_len();
        let r = Self::spec_read(self.spec_bytes(), 0);
        self.lemma_bytes_roundtrip_part_0();
        self.lemma_bytes_roundtrip_part_1();
    }
}

impl IMAGE_FILE_HEADER {
    /// The bytes of the fields from offset 0 on, of a record read at `off`, are the bytes read.
    proof fn lemma_read_bytes_part_0(s: Seq<u8>, off: int)
        requires
            0 <= off,
            off + 20 <= s.len(),
        ensures
            Self::spec_read(s, off).spec_bytes_part_0() == s.subrange(off + 0, off + 18),
    {
        reveal(IMAGE_FILE_HEADER::spec_bytes_part_0);
        lemma_u16_bytes_of(s, off + 0);
        lemma_u16_bytes_of(s, off + 2);
        lemma_u32_bytes_of(s, off + 4);
        lemma_u32_bytes_of(s, off + 8);
        lemma_u32_bytes_of(s, off + 12);
        lemma_u16_bytes_of(s, off + 16);
        lemma_empty_join(s.subrange(off + 0, off + 2));
        lemma_join_windows(s, off + 0, off + 2, off + 4);
        lemma_join_windows(s, off + 0, off + 4, off + 8);
        lemma_join_windows(s, off + 0, off + 8, off + 12);
        lemma_join_windows(s, off + 0, off + 12, off + 16);
        lemma_join_windows(s, off + 0, off + 16, off + 18);
    }

    /// The bytes of the fields from offset 18 on, of a record read at `off`, are the bytes read.
    proof fn lemma_read_bytes_part_1(s: Seq<u8>, off: int)
        requires
            0 <= off,
            off + 20 <= s.len(),
        ensures
            Self::spec_read(s, off).spec_bytes_part_1() == s.subrange(off + 18, off + 20),
    {
        reveal(IMAGE_FILE_HEADER::spec_bytes_part_1);
        lemma_u16_bytes_of(s, off + 18);
        lemma_empty_join(s.subrange(off + 18, off + 20));
    }

    /// The bytes of a record read at `off` are the bytes it was read from.
    pub proof fn lemma_read_bytes(s: Seq<u8>, off: int)
        requires
            0 <= off,
            off + 20 <= s.len(),
        ensures
            Self::spec_read(s, off).spec_bytes() == s.subrange(off, off + 20),
    {
        reveal(IMAGE_FILE_HEADER::spec_bytes);
        Self::lemma_read_bytes_part_0(s, off);
        Self::lemma_read_bytes_part_1(s, off);
        lemma_empty_join(s.subrange(off + 0, off + 18));
        lemma_join_windows(s, off + 0, off + 18, off + 20);
    }
}

/// The address and size of one data directory.
#[allow(non_camel_case_types)]
#[derive(Debug, Clone, Copy)]
pub struct IMAGE_DATA_DIRECTORY {
    pub virtual_address: u32,
    pub size: u32,
}

impl RawStruct for IMAGE_DATA_DIRECTORY {
    open spec fn spec_size() -> nat {
        8
    }

    open spec fn spec_read(s: Seq<u8>, off: int) -> Self {
        IMAGE_DATA_DIRECTORY {
            virtual_address: le_u32(s, off + 0),
            size: le_u32(s, off + 4),
        }
    }

    proof fn lemma_read_window(s1: Seq<u8>, o1: int, s2: Seq<u8>, o2: int) {
        lemma_sub_window(s1, o1, s2, o2, 8, 0, 4);
        lemma_le_window(s1, o1 + 0, s2, o2 + 0, 4);
        lemma_sub_window(s1, o1, s2, o2, 8, 4, 4);
        lemma_le_window(s1, o1 + 4, s2, o2 + 4, 4);
    }

    fn size() -> (n: usize) {
        8
    }

    fn read(bytes: &[u8], off: usize) -> (r: Self) {
        assert(bytes@.len() == bytes.len());
        IMAGE_DATA_DIRECTORY {
            virtual_address: read_u32(bytes, off + 0),
            size: read_u32(bytes, off + 4),
        }
    }
}

impl IMAGE_DATA_DIRECTORY {
    /// The bytes that store the record, field after field.
    #[verifier::opaque]
    pub open spec fn spec_bytes(self) -> Seq<u8> {
        Seq::<u8>::empty() + u32_bytes(self.virtual_address) + u32_bytes(self.size)
    }

    /// The bytes that store the record.
    #[verifier::rlimit(50)]
    #[verifier::spinoff_prover]
    pub fn to_le_bytes(&self) -> (r: Vec<u8>)
        ensures
            r@ == self.spec_bytes(),
    {
        proof {
            reveal(IMAGE_DATA_DIRECTORY::spec_bytes);
        }
        let mut r: Vec<u8> = Vec::new();
        r.extend_from_slice(&le_bytes_u32(self.virtual_address));
        r.extend_from_slice(&le_bytes_u32(self.size));
        r
    }
}

impl IMAGE_DATA_DIRECTORY {
    /// The record is stored in 8 bytes.
    pub proof fn lemma_bytes_len(self)
        ensures
            self.spec_bytes().len() == 8,
    {
        reveal(IMAGE_DATA_DIRECTORY::spec_bytes);
    }

    /// The record read back from its own bytes is the record.
    #[verifier::rlimit(100)]
    #[verifier::spinoff_prover]
    pub proof fn lemma_bytes_roundtrip(self)
        ensures
            self.spec_bytes().len() == 8,
            Self::spec_read(self.spec_bytes(), 0) == self,
    {
        reveal(IMAGE_DATA_DIRECTORY::spec_bytes);
        let b = self.spec_bytes();
        let r = Self::spec_read(b, 0);
        assert(r.virtual_address == self.virtual_address) by {
            assert(b[0int] == (u32_bytes(self.virtual_address))[0int]);
            assert(b[1int] == (u32_bytes(self.virtual_address))[1int]);
            assert(b[2int] == (u32_bytes(self.virtual_address))[2int]);
            assert(b[3int] == (u32_bytes(self.virtual_address))[3int]);
            lemma_u32_roundtrip(self.virtual_address);
        }
        assert(r.size == self.size) by {
            assert(b[4int] == (u32_bytes(self.size))[0int]);
            assert(b[5int] == (u32_bytes(self.size))[1int]);
            assert(b[6int] == (u32_bytes(self.size))[2int]);
            assert(b[7int] == (u32_bytes(self.size))[3int]);
            lemma_u32_roundtrip(self.size);
        }
    }
}

impl IMAGE_DATA_DIRECTORY {
    /// The bytes of a record read at `off` are the bytes it was read from.
    pub proof fn lemma_read_bytes(s: Seq<u8>, off: int)
        requires
            0 <= off,
            off + 8 <= s.len(),
        ensures
            Self::spec_read(s, off).spec_bytes() == s.subrange(off, off + 8),
    {
        reveal(IMAGE_DATA_DIRECTORY::spec_bytes);
        lemma_u32_bytes_of(s, off + 0);
        lemma_u32_bytes_of(s, off + 4);
        lemma_empty_join(s.subrange(off + 0, off + 4));
        lemma_join_windows(s, off + 0, off + 4, off + 8);
    }
}

/// The optional header of a PE32 image.
#[allow(non_camel_case_types)]
#[derive(Debug, Clone, Copy)]
pub struct IMAGE_OPTIONAL_HEADER32 {
    pub magic: u16,
    pub major_linker_version: u8,
    pub minor_linker_version: u8,
    pub size_of_code: u32,
    pub size_of_initialized_data: u32,
    pub size_of_uninitialized_data: u32,
    pub address_of_entry_point: u32,
    pub base_of_code: u32,
    pub base_of_data: u32,
    pub image_base: u32,
    pub section_alignment: u32,
    pub file_alignment: u32,
    pub major_operating_system_version: u16,
    pub minor_operating_system_version: u16,
    pub major_image_version: u16,
    pub minor_image_version: u16,
    pub major_subsystem_version: u16,
    pub minor_subsystem_version: u16,
    pub win32_version_value: u32,
    pub size_of_image: u32,
    pub size_of_headers: u32,
    pub check_sum: u32,
    pub subsystem: u16,
    pub dll_characteristics: u16,
    pub size_of_stack_reserve: u32,
    pub size_of_stack_commit: u32,
    pub size_of_heap_reserve: u32,
    pub size_of_heap_commit: u32,
    pub loader_flags: u32,
    pub number_of_rva_and_sizes: u32,
    pub data_directory: [IMAGE_DATA_DIRECTORY; 16],
}

impl RawStruct for IMAGE_OPTIONAL_HEADER32 {
    open spec fn spec_size() -> nat {
        224
    }

    open spec fn spec_read(s: Seq<u8>, off: int) -> Self {
        IMAGE_OPTIONAL_HEADER32 {
            magic: le_u16(s, off + 0),
            major_linker_version: s[off + 2],
            minor_linker_version: s[off + 3],
            size_of_code: le_u32(s, off + 4),
            size_of_initialized_data: le_u32(s, off + 8),
            size_of_uninitialized_data: le_u32(s, off + 12),
            address_of_entry_point: le_u32(s, off + 16),
            base_of_code: le_u32(s, off + 20),
            base_of_data: le_u32(s, off + 24),
            image_base: le_u32(s, off + 28),
            section_alignment: le_u32(s, off + 32),
            file_alignment: le_u32(s, off + 36),
            major_operating_system_version: le_u16(s, off + 40),
            minor_operating_system_version: le_u16(s, off + 42),
            major_image_version: le_u16(s, off + 44),
            minor_image_version: le_u16(s, off + 46),
            major_subsystem_version: le_u16(s, off + 48),
            minor_subsystem_version: le_u16(s, off + 50),
            win32_version_value: le_u32(s, off + 52),
            size_of_image: le_u32(s, off + 56),
            size_of_headers: le_u32(s, off + 60),
            check_sum: le_u32(s, off + 64),
            subsystem: le_u16(s, off + 68),
            dll_characteristics: le_u16(s, off + 70),
            size_of_stack_reserve: le_u32(s, off + 72),
            size_of_stack_commit: le_u32(s, off + 76),
            size_of_heap_reserve: le_u32(s, off + 80),
            size_of_heap_commit: le_u32(s, off + 84),
            loader_flags: le_u32(s, off + 88),
            number_of_rva_and_sizes: le_u32(s, off + 92),
            data_directory: [IMAGE_DATA_DIRECTORY::spec_read(s, off + 96 + 0), IMAGE_DATA_DIRECTORY::spec_read(s, off + 96 + 8), IMAGE_DATA_DIRECTORY::spec_read(s, off + 96 + 16), IMAGE_DATA_DIRECTORY::spec_read(s, off + 96 + 24), IMAGE_DATA_DIRECTORY::spec_read(s, off + 96 + 32), IMAGE_DATA_DIRECTORY::spec_read(s, off + 96 + 40), IMAGE_DATA_DIRECTORY::spec_read(s, off + 96 + 48), IMAGE_DATA_DIRECTORY::spec_read(s, off + 96 + 56), IMAGE_DATA_DIRECTORY::spec_read(s, off + 96 + 64), IMAGE_DATA_DIRECTORY::spec_read(s, off + 96 + 72), IMAGE_DATA_DIRECTORY::spec_read(s, off + 96 + 80), IMAGE_DATA_DIRECTORY::spec_read(s, off + 96 + 88), IMAGE_DATA_DIRECTORY::spec_read(s, off + 96 + 96), IMAGE_DATA_DIRECTORY::spec_read(s, off + 96 + 104), IMAGE_DATA_DIRECTORY::spec_read(s, off + 96 + 112), IMAGE_DATA_DIRECTORY::spec_read(s, off + 96 + 120)],
        }
    }

    proof fn lemma_read_window(s1: Seq<u8>, o1: int, s2: Seq<u8>, o2: int) {
        lemma_sub_window(s1, o1, s2, o2, 224, 0, 2);
        lemma_le_window(s1, o1 + 0, s2, o2 + 0, 2);
        lemma_sub_window(s1, o1, s2, o2, 224, 2, 1);
        assert(s1[o1 + 2] == s2[o2 + 2]);
        lemma_sub_window(s1, o1, s2, o2, 224, 3, 1);
        assert(s1[o1 + 3] == s2[o2 + 3]);
        lemma_sub_window(s1, o1, s2, o2, 224, 4, 4);
        lemma_le_window(s1, o1 + 4, s2, o2 + 4, 4);
        lemma_sub_window(s1, o1, s2, o2, 224, 8, 4);
        lemma_le_window(s1, o1 + 8, s2, o2 + 8, 4);
        lemma_sub_window(s1, o1, s2, o2, 224, 12, 4);
        lemma_le_window(s1, o1 + 12, s2, o2 + 12, 4);
        lemma_sub_window(s1, o1, s2, o2, 224, 16, 4);
        lemma_le_window(s1, o1 + 16, s2, o2 + 16, 4);
        lemma_sub_window(s1, o1, s2, o2, 224, 20, 4);
        lemma_le_window(s1, o1 + 20, s2, o2 + 20, 4);
        lemma_sub_window(s1, o1, s2, o2, 224, 24, 4);
        lemma_le_window(s1, o1 + 24, s2, o2 + 24, 4);
        lemma_sub_window(s1, o1, s2, o2, 224, 28, 4);
        lemma_le_window(s1, o1 + 28, s2, o2 + 28, 4);
        lemma_sub_window(s1, o1, s2, o2, 224, 32, 4);
        lemma_le_window(s1, o1 + 32, s2, o2 + 32, 4);
        lemma_sub_window(s1, o1, s2, o2, 224, 36, 4);
        lemma_le_window(s1, o1 + 36, s2, o2 + 36, 4);
        lemma_sub_window(s1, o1, s2, o2, 224, 40, 2);
        lemma_le_window(s1, o1 + 40, s2, o2 + 40, 2);
        lemma_sub_window(s1, o1, s2, o2, 224, 42, 2);
        lemma_le_window(s1, o1 + 42, s2, o2 + 42, 2);
        lemma_sub_window(s1, o1, s2, o2, 224, 44, 2);
        lemma_le_window(s1, o1 + 44, s2, o2 + 44, 2);
        lemma_sub_window(s1, o1, s2, o2, 224, 46, 2);
        lemma_le_window(s1, o1 + 46, s2, o2 + 46, 2);
        lemma_sub_window(s1, o1, s2, o2, 224, 48, 2);
        lemma_le_window(s1, o1 + 48, s2, o2 + 48, 2);
        lemma_sub_window(s1, o1, s2, o2, 224, 50, 2);
        lemma_le_window(s1, o1 + 50, s2, o2 + 50, 2);
        lemma_sub_window(s1, o1, s2, o2, 224, 52, 4);
        lemma_le_window(s1, o1 + 52, s2, o2 + 52, 4);
        lemma_sub_window(s1, o1, s2, o2, 224, 56, 4);
        lemma_le_window(s1, o1 + 56, s2, o2 + 56, 4);
        lemma_sub_window(s1, o1, s2, o2, 224, 60, 4);
        lemma_le_window(s1, o1 + 60, s2, o2 + 60, 4);
        lemma_sub_window(s1, o1, s2, o2, 224, 64, 4);
        lemma_le_window(s1, o1 + 64, s2, o2 + 64, 4);
        lemma_sub_window(s1, o1, s2, o2, 224, 68, 2);
        lemma_le_window(s1, o1 + 68, s2, o2 + 68, 2);
        lemma_sub_window(s1, o1, s2, o2, 224, 70, 2);
        lemma_le_window(s1, o1 + 70, s2, o2 + 70, 2);
        lemma_sub_window(s1, o1, s2, o2, 224, 72, 4);
        lemma_le_window(s1, o1 + 72, s2, o2 + 72, 4);
        lemma_sub_window(s1, o1, s2, o2, 224, 76, 4);
        lemma_le_window(s1, o1 + 76, s2, o2 + 76, 4);
        lemma_sub_window(s1, o1, s2, o2, 224, 80, 4);
        lemma_le_window(s1, o1 + 80, s2, o2 + 80, 4);
        lemma_sub_window(s1, o1, s2, o2, 224, 84, 4);
        lemma_le_window(s1, o1 + 84, s2, o2 + 84, 4);
        lemma_sub_window(s1, o1, s2, o2, 224, 88, 4);
        lemma_le_window(s1, o1 + 88, s2, o2 + 88, 4);
        lemma_sub_window(s1, o1, s2, o2, 224, 92, 4);
        lemma_le_window(s1, o1 + 92, s2, o2 + 92, 4);
        lemma_sub_window(s1, o1, s2, o2, 224, 96, 8);
        IMAGE_DATA_DIRECTORY::lemma_read_window(s1, o1 + 96, s2, o2 + 96);
        lemma_sub_window(s1, o1, s2, o2, 224, 104, 8);
        IMAGE_DATA_DIRECTORY::lemma_read_window(s1, o1 + 104, s2, o2 + 104);
        lemma_sub_window(s1, o1, s2, o2, 224, 112, 8);
        IMAGE_DATA_DIRECTORY::lemma_read_window(s1, o1 + 112, s2, o2 + 112);
        lemma_sub_window(s1, o1, s2, o2, 224, 120, 8);
        IMAGE_DATA_DIRECTORY::lemma_read_window(s1, o1 + 120, s2, o2 + 120);
        lemma_sub_window(s1, o1, s2, o2, 224, 128, 8);
        IMAGE_DATA_DIRECTORY::lemma_read_window(s1, o1 + 128, s2, o2 + 128);
        lemma_sub_window(s1, o1, s2, o2, 224, 136, 8);
        IMAGE_DATA_DIRECTORY::lemma_read_window(s1, o1 + 136, s2, o2 + 136);
        lemma_sub_window(s1, o1, s2, o2, 224, 144, 8);
        IMAGE_DATA_DIRECTORY::lemma_read_window(s1, o1 + 144, s2, o2 + 144);
        lemma_sub_window(s1, o1, s2, o2, 224, 152, 8);
        IMAGE_DATA_DIRECTORY::lemma_read_window(s1, o1 + 152, s2, o2 + 152);
        lemma_sub_window(s1, o1, s2, o2, 224, 160, 8);
        IMAGE_DATA_DIRECTORY::lemma_read_window(s1, o1 + 160, s2, o2 + 160);
        lemma_sub_window(s1, o1, s2, o2, 224, 168, 8);
        IMAGE_DATA_DIRECTORY::lemma_read_window(s1, o1 + 168, s2, o2 + 168);
        lemma_sub_window(s1, o1, s2, o2, 224, 176, 8);
        IMAGE_DATA_DIRECTORY::lemma_read_window(s1, o1 + 176, s2, o2 + 176);
        lemma_sub_window(s1, o1, s2, o2, 224, 184, 8);
        IMAGE_DATA_DIRECTORY::lemma_read_window(s1, o1 + 184, s2, o2 + 184);
        lemma_sub_window(s1, o1, s2, o2, 224, 192, 8);
        IMAGE_DATA_DIRECTORY::lemma_read_window(s1, o1 + 192, s2, o2 + 192);
        lemma_sub_window(s1, o1, s2, o2, 224, 200, 8);
        IMAGE_DATA_DIRECTORY::lemma_read_window(s1, o1 + 200, s2, o2 + 200);
        lemma_sub_window(s1, o1, s2, o2, 224, 208, 8);
        IMAGE_DATA_DIRECTORY::lemma_read_window(s1, o1 + 208, s2, o2 + 208);
        lemma_sub_window(s1, o1, s2, o2, 224, 216, 8);
        IMAGE_DATA_DIRECTORY::lemma_read_window(s1, o1 + 216, s2, o2 + 216);
    }

    fn size() -> (n: usize) {
        224
    }

    fn read(bytes: &[u8], off: usize) -> (r: Self) {
        assert(bytes@.len() == bytes.len());
        IMAGE_OPTIONAL_HEADER32 {
            magic: read_u16(bytes, off + 0),
            major_linker_version: bytes[off + 2],
            minor_linker_version: bytes[off + 3],
            size_of_code: read_u32(bytes, off + 4),
            size_of_initialized_data: read_u32(bytes, off + 8),
            size_of_uninitialized_data: read_u32(bytes, off + 12),
            address_of_entry_point: read_u32(bytes, off + 16),
            base_of_code: read_u32(bytes, off + 20),
            base_of_data: read_u32(bytes, off + 24),
            image_base: read_u32(bytes, off + 28),
            section_alignment: read_u32(bytes, off + 32),
            file_alignment: read_u32(bytes, off + 36),
            major_operating_system_version: read_u16(bytes, off + 40),
            minor_operating_system_version: read_u16(bytes, off + 42),
            major_image_version: read_u16(bytes, off + 44),
            minor_image_version: read_u16(bytes, off + 46),
            major_subsystem_version: read_u16(bytes, off + 48),
            minor_subsystem_version: read_u16(bytes, off + 50),
            win32_version_value: read_u32(bytes, off + 52),
            size_of_image: read_u32(bytes, off + 56),
            size_of_headers: read_u32(bytes, off + 60),
            check_sum: read_u32(bytes, off + 64),
            subsystem: read_u16(bytes, off + 68),
            dll_characteristics: read_u16(bytes, off + 70),
            size_of_stack_reserve: read_u32(bytes, off + 72),
            size_of_stack_commit: read_u32(bytes, off + 76),
            size_of_heap_reserve: read_u32(bytes, off + 80),
            size_of_heap_commit: read_u32(bytes, off + 84),
            loader_flags: read_u32(bytes, off + 88),
            number_of_rva_and_sizes: read_u32(bytes, off + 92),
            data_directory: [IMAGE_DATA_DIRECTORY::read(bytes, off + 96 + 0), IMAGE_DATA_DIRECTORY::read(bytes, off + 96 + 8), IMAGE_DATA_DIRECTORY::read(bytes, off + 96 + 16), IMAGE_DATA_DIRECTORY::read(bytes, off + 96 + 24), IMAGE_DATA_DIRECTORY::read(bytes, off + 96 + 32), IMAGE_DATA_DIRECTORY::read(bytes, off + 96 + 40), IMAGE_DATA_DIRECTORY::read(bytes, off + 96 + 48), IMAGE_DATA_DIRECTORY::read(bytes, off + 96 + 56), IMAGE_DATA_DIRECTORY::read(bytes, off + 96 + 64), IMAGE_DATA_DIRECTORY::read(bytes, off + 96 + 72), IMAGE_DATA_DIRECTORY::read(bytes, off + 96 + 80), IMAGE_DATA_DIRECTORY::read(bytes, off + 96 + 88), IMAGE_DATA_DIRECTORY::read(bytes, off + 96 + 96), IMAGE_DATA_DIRECTORY::read(bytes, off + 96 + 104), IMAGE_DATA_DIRECTORY::read(bytes, off + 96 + 112), IMAGE_DATA_DIRECTORY::read(bytes, off + 96 + 120)],
        }
    }
}

impl IMAGE_OPTIONAL_HEADER32 {
    /// The bytes that store the record, field after field.
    #[verifier::opaque]
    pub open spec fn spec_bytes(self) -> Seq<u8> {
        Seq::<u8>::empty() + self.spec_bytes_part_0() + self.spec_bytes_part_1() + self.spec_bytes_part_2() + self.spec_bytes_part_3() + self.spec_bytes_part_4() + self.spec_bytes_part_5() + self.spec_bytes_part_6() + self.spec_bytes_part_7()
    }

    /// The bytes of the fields from offset 0 on, up to offset 16.
    #[verifier::opaque]
    pub open spec fn spec_bytes_part_0(self) -> Seq<u8> {
        Seq::<u8>::empty() + u16_bytes(self.magic) + u8_bytes(self.major_linker_version) + u8_bytes(self.minor_linker_version) + u32_bytes(self.size_of_code) + u32_bytes(self.size_of_initialized_data) + u32_bytes(self.size_of_uninitialized_data)
    }

    /// The bytes of the fields from offset 16 on, up to offset 40.
    #[verifier::opaque]
    pub open spec fn spec_bytes_part_1(self) -> Seq<u8> {
        Seq::<u8>::empty() + u32_bytes(self.address_of_entry_point) + u32_bytes(self.base_of_code) + u32_bytes(self.base_of_data) + u32_bytes(self.image_base) + u32_bytes(self.section_alignment) + u32_bytes(self.file_alignment)
    }

    /// The bytes of the fields from offset 40 on, up to offset 52.
    #[verifier::opaque]
    pub open spec fn spec_bytes_part_2(self) -> Seq<u8> {
        Seq::<u8>::empty() + u16_bytes(self.major_operating_system_version) + u16_bytes(self.minor_operating_system_version) + u16_bytes(self.major_image_version) + u16_bytes(self.minor_image_version) + u16_bytes(self.major_subsystem_version) + u16_bytes(self.minor_subsystem_version)
    }

    /// The bytes of the fields from offset 52 on, up to offset 72.
    #[verifier::opaque]
    pub open spec fn spec_bytes_part_3(self) -> Seq<u8> {
        Seq::<u8>::empty() + u32_bytes(self.win32_version_value) + u32_bytes(self.size_of_image) + u32_bytes(self.size_of_headers) + u32_bytes(self.check_sum) + u16_bytes(self.subsystem) + u16_bytes(self.dll_characteristics)
    }

    /// The bytes of the fields from offset 72 on, up to offset 96.
    #[verifier::opaque]
    pub open spec fn spec_bytes_part_4(self) -> Seq<u8> {
        Seq::<u8>::empty() + u32_bytes(self.size_of_stack_reserve) + u32_bytes(self.size_of_stack_commit) + u32_bytes(self.size_of_heap_reserve) + u32_bytes(self.size_of_heap_commit) + u32_bytes(self.loader_flags) + u32_bytes(self.number_of_rva_and_sizes)
    }

    /// The bytes of the fields from offset 96 on, up to offset 144.
    #[verifier::opaque]
    pub open spec fn spec_bytes_part_5(self) -> Seq<u8> {
        Seq::<u8>::empty() + self.data_directory[0].spec_bytes() + self.data_directory[1].spec_bytes() + self.data_directory[2].spec_bytes() + self.data_directory[3].spec_bytes() + self.data_directory[4].spec_bytes() + self.data_directory[5].spec_bytes()
    }

    /// The bytes of the fields from offset 144 on, up to offset 192.
    #[verifier::opaque]
    pub open spec fn spec_bytes_part_6(self) -> Seq<u8> {
        Seq::<u8>::empty() + self.data_directory[6].spec_bytes() + self.data_directory[7].spec_bytes() + self.data_directory[8].spec_bytes() + self.data_directory[9].spec_bytes() + self.data_directory[10].spec_bytes() + self.data_directory[11].spec_bytes()
    }

    /// The bytes of the fields from offset 192 on, up to offset 224.
    #[verifier::opaque]
    pub open spec fn spec_bytes_part_7(self) -> Seq<u8> {
        Seq::<u8>::empty() + self.data_directory[12].spec_bytes() + self.data_directory[13].spec_bytes() + self.data_directory[14].spec_bytes() + self.data_directory[15].spec_bytes()
    }

    /// The bytes that store the record.
    #[verifier::rlimit(50)]
    #[verifier::spinoff_prover]
    pub fn to_le_bytes(&self) -> (r: Vec<u8>)
        ensures
            r@ == self.spec_bytes(),
    {
        proof {
            reveal(IMAGE_OPTIONAL_HEADER32::spec_bytes);
            reveal(IMAGE_OPTIONAL_HEADER32::spec_bytes_part_0);
            reveal(IMAGE_OPTIONAL_HEADER32::spec_bytes_part_1);
            reveal(IMAGE_OPTIONAL_HEADER32::spec_bytes_part_2);
            reveal(IMAGE_OPTIONAL_HEADER32::spec_bytes_part_3);
            reveal(IMAGE_OPTIONAL_HEADER32::spec_bytes_part_4);
            reveal(IMAGE_OPTIONAL_HEADER32::spec_bytes_part_5);
            reveal(IMAGE_OPTIONAL_HEADER32::spec_bytes_part_6);
            reveal(IMAGE_OPTIONAL_HEADER32::spec_bytes_part_7);
        }
        let mut r: Vec<u8> = Vec::new();
        {
            let mut c: Vec<u8> = Vec::new();
            c.extend_from_slice(&le_bytes_u16(self.magic));
            c.extend_from_slice(&le_bytes_u8(self.major_linker_version));
            c.extend_from_slice(&le_bytes_u8(self.minor_linker_version));
            c.extend_from_slice(&le_bytes_u32(self.size_of_code));
            c.extend_from_slice(&le_bytes_u32(self.size_of_initialized_data));
            c.extend_from_slice(&le_bytes_u32(self.size_of_uninitialized_data));
            r.append(&mut c);
        }
        {
            let mut c: Vec<u8> = Vec::new();
            c.extend_from_slice(&le_bytes_u32(self.address_of_entry_point));
            c.extend_from_slice(&le_bytes_u32(self.base_of_code));
            c.extend_from_slice(&le_bytes_u32(self.base_of_data));
            c.extend_from_slice(&le_bytes_u32(self.image_base));
            c.extend_from_slice(&le_bytes_u32(self.section_alignment));
            c.extend_from_slice(&le_bytes_u32(self.file_alignment));
            r.append(&mut c);
        }
        {
            let mut c: Vec<u8> = Vec::new();
            c.extend_from_slice(&le_bytes_u16(self.major_operating_system_version));
            c.extend_from_slice(&le_bytes_u16(self.minor_operating_system_version));
            c.extend_from_slice(&le_bytes_u16(self.major_image_version));
            c.extend_from_slice(&le_bytes_u16(self.minor_image_version));
            c.extend_from_slice(&le_bytes_u16(self.major_subsystem_version));
            c.extend_from_slice(&le_bytes_u16(self.minor_subsystem_version));
            r.append(&mut c);
        }
        {
            let mut c: Vec<u8> = Vec::new();
            c.extend_from_slice(&le_bytes_u32(self.win32_version_value));
            c.extend_from_slice(&le_bytes_u32(self.size_of_image));
            c.extend_from_slice(&le_bytes_u32(self.size_of_headers));
            c.extend_from_slice(&le_bytes_u32(self.check_sum));
            c.extend_from_slice(&le_bytes_u16(self.subsystem));
            c.extend_from_slice(&le_bytes_u16(self.dll_characteristics));
            r.append(&mut c);
        }
        {
            let mut c: Vec<u8> = Vec::new();
            c.extend_from_slice(&le_bytes_u32(self.size_of_stack_reserve));
            c.extend_from_slice(&le_bytes_u32(self.size_of_stack_commit));
            c.extend_from_slice(&le_bytes_u32(self.size_of_heap_reserve));
            c.extend_from_slice(&le_bytes_u32(self.size_of_heap_commit));
            c.extend_from_slice(&le_bytes_u32(self.loader_flags));
            c.extend_from_slice(&le_bytes_u32(self.number_of_rva_and_sizes));
            r.append(&mut c);
        }
        {
            let mut c: Vec<u8> = Vec::new();
            c.extend_from_slice(self.data_directory[0].to_le_bytes().as_slice());
            c.extend_from_slice(self.data_directory[1].to_le_bytes().as_slice());
            c.extend_from_slice(self.data_directory[2].to_le_bytes().as_slice());
            c.extend_from_slice(self.data_directory[3].to_le_bytes().as_slice());
            c.extend_from_slice(self.data_directory[4].to_le_bytes().as_slice());
            c.extend_from_slice(self.data_directory[5].to_le_bytes().as_slice());
            r.append(&mut c);
        }
        {
            let mut c: Vec<u8> = Vec::new();
            c.extend_from_slice(self.data_directory[6].to_le_bytes().as_slice());
            c.extend_from_slice(self.data_directory[7].to_le_bytes().as_slice());
            c.extend_from_slice(self.data_directory[8].to_le_bytes().as_slice());
            c.extend_from_slice(self.data_directory[9].to_le_bytes().as_slice());
            c.extend_from_slice(self.data_directory[10].to_le_bytes().as_slice());
            c.extend_from_slice(self.data_directory[11].to_le_bytes().as_slice());
            r.append(&mut c);
        }
        {
            let mut c: Vec<u8> = Vec::new();
            c.extend_from_slice(self.data_directory[12].to_le_bytes().as_slice());
            c.extend_from_slice(self.data_directory[13].to_le_bytes().as_slice());
            c.extend_from_slice(self.data_directory[14].to_le_bytes().as_slice());
            c.extend_from_slice(self.data_directory[15].to_le_bytes().as_slice());
            r.append(&mut c);
        }
        r
    }
}

impl IMAGE_OPTIONAL_HEADER32 {
    /// The record is stored in 224 bytes.
    pub proof fn lemma_bytes_len(self)
        ensures
            self.spec_bytes().len() == 224,
    {
        reveal(IMAGE_OPTIONAL_HEADER32::spec_bytes);
        self.data_directory[0].lemma_bytes_len();
        self.data_directory[1].lemma_bytes_len();
        self.data_directory[2].lemma_bytes_len();
        self.data_directory[3].lemma_bytes_len();
        self.data_directory[4].lemma_bytes_len();
        self.data_directory[5].lemma_bytes_len();
        self.data_directory[6].lemma_bytes_len();
        self.data_directory[7].lemma_bytes_len();
        self.data_directory[8].lemma_bytes_len();
        self.data_directory[9].lemma_bytes_len();
        self.data_directory[10].lemma_bytes_len();
        self.data_directory[11].lemma_bytes_len();
        self.data_directory[12].lemma_bytes_len();
        self.data_directory[13].lemma_bytes_len();
        self.data_directory[14].lemma_bytes_len();
        self.data_directory[15].lemma_bytes_len();
        assert(self.spec_bytes_part_0().len() == 16) by {
            reveal(IMAGE_OPTIONAL_HEADER32::spec_bytes_part_0);
        }
        assert(self.spec_bytes_part_1().len() == 24) by {
            reveal(IMAGE_OPTIONAL_HEADER32::spec_bytes_part_1);
        }
        assert(self.spec_bytes_part_2().len() == 12) by {
            reveal(IMAGE_OPTIONAL_HEADER32::spec_bytes_part_2);
        }
        assert(self.spec_bytes_part_3().len() == 20) by {
            reveal(IMAGE_OPTIONAL_HEADER32::spec_bytes_part_3);
        }
        assert(self.spec_bytes_part_4().len() == 24) by {
            reveal(IMAGE_OPTIONAL_HEADER32::spec_bytes_part_4);
        }
        assert(self.spec_bytes_part_5().len() == 48) by {
            reveal(IMAGE_OPTIONAL_HEADER32::spec_bytes_part_5);
        }
        assert(self.spec_bytes_part_6().len() == 48) by {
            reveal(IMAGE_OPTIONAL_HEADER32::spec_bytes_part_6);
        }
        assert(self.spec_bytes_part_7().len() == 32) by {
            reveal(IMAGE_OPTIONAL_HEADER32::spec_bytes_part_7);
        }
    }

    /// The fields from offset 0 on read back from the record's bytes.
    #[verifier::rlimit(100)]
    #[verifier::spinoff_prover]
    proof fn lemma_bytes_roundtrip_part_0(self)
        ensures
            Self::spec_read(self.spec_bytes(), 0).magic == self.magic,
            Self::spec_read(self.spec_bytes(), 0).major_linker_version == self.major_linker_version,
            Self::spec_read(self.spec_bytes(), 0).minor_linker_version == self.minor_linker_version,
            Self::spec_read(self.spec_bytes(), 0).size_of_code == self.size_of_code,
            Self::spec_read(self.spec_bytes(), 0).size_of_initialized_data == self.size_of_initialized_data,
            Self::spec_read(self.spec_bytes(), 0).size_of_uninitialized_data == self.size_of_uninitialized_data,
    {
        reveal(IMAGE_OPTIONAL_HEADER32::spec_bytes);
        self.data_directory[0].lemma_bytes_len();
        self.data_directory[1].lemma_bytes_len();
        self.data_directory[2].lemma_bytes_len();
        self.data_directory[3].lemma_bytes_len();
        self.data_directory[4].lemma_bytes_len();
        self.data_directory[5].lemma_bytes_len();
        self.data_directory[6].lemma_bytes_len();
        self.data_directory[7].lemma_bytes_len();
        self.data_directory[8].lemma_bytes_len();
        self.data_directory[9].lemma_bytes_len();
        self.data_directory[10].lemma_bytes_len();
        self.data_directory[11].lemma_bytes_len();
        self.data_directory[12].lemma_bytes_len();
        self.data_directory[13].lemma_bytes_len();
        self.data_directory[14].lemma_bytes_len();
        self.data_directory[15].lemma_bytes_len();
        assert(self.spec_bytes_part_0().len() == 16) by {
            reveal(IMAGE_OPTIONAL_HEADER32::spec_bytes_part_0);
        }
        assert(self.spec_bytes_part_1().len() == 24) by {
            reveal(IMAGE_OPTIONAL_HEADER32::spec_bytes_part_1);
        }
        assert(self.spec_bytes_part_2().len() == 12) by {
            reveal(IMAGE_OPTIONAL_HEADER32::spec_bytes_part_2);
        }
        assert(self.spec_bytes_part_3().len() == 20) by {
            reveal(IMAGE_OPTIONAL_HEADER32::spec_bytes_part_3);
        }
        assert(self.spec_bytes_part_4().len() == 24) by {
            reveal(IMAGE_OPTIONAL_HEADER32::spec_bytes_part_4);
        }
        assert(self.spec_bytes_part_5().len() == 48) by {
            reveal(IMAGE_OPTIONAL_HEADER32::spec_bytes_part_5);
        }
        assert(self.spec_bytes_part_6().len() == 48) by {
            reveal(IMAGE_OPTIONAL_HEADER32::spec_bytes_part_6);
        }
        assert(self.spec_bytes_part_7().len() == 32) by {
            reveal(IMAGE_OPTIONAL_HEADER32::spec_bytes_part_7);
        }
        let b = self.spec_bytes();
        let r = Self::spec_read(b, 0);
        assert(r.magic == self.magic) by {
            reveal(IMAGE_OPTIONAL_HEADER32::spec_bytes_part_0);
            assert(b[0int] == (u16_bytes(self.magic))[0int]);
            assert(b[1int] == (u16_bytes(self.magic))[1int]);
            lemma_u16_roundtrip(self.magic);
        }
        assert(r.major_linker_version == self.major_linker_version) by {
            reveal(IMAGE_OPTIONAL_HEADER32::spec_bytes_part_0);
            assert(b[2int] == (u8_bytes(self.major_linker_version))[0int]);
        }
        assert(r.minor_linker_version == self.minor_linker_version) by {
            reveal(IMAGE_OPTIONAL_HEADER32::spec_bytes_part_0);
            assert(b[3int] == (u8_bytes(self.minor_linker_version))[0int]);
        }
        assert(r.size_of_code == self.size_of_code) by {
            reveal(IMAGE_OPTIONAL_HEADER32::spec_bytes_part_0);
            assert(b[4int] == (u32_bytes(self.size_of_code))[0int]);
            assert(b[5int] == (u32_bytes(self.size_of_code))[1int]);
            assert(b[6int] == (u32_bytes(self.size_of_code))[2int]);
            assert(b[7int] == (u32_bytes(self.size_of_code))[3int]);
            lemma_u32_roundtrip(self.size_of_code);
        }
        assert(r.size_of_initialized_data == self.size_of_initialized_data) by {
            reveal(IMAGE_OPTIONAL_HEADER32::spec_bytes_part_0);
            assert(b[8int] == (u32_bytes(self.size_of_initialized_data))[0int]);
            assert(b[9int] == (u32_bytes(self.size_of_initialized_data))[1int]);
            assert(b[10int] == (u32_bytes(self.size_of_initialized_data))[2int]);
            assert(b[11int] == (u32_bytes(self.size_of_initialized_data))[3int]);
            lemma_u32_roundtrip(self.size_of_initialized_data);
        }
        assert(r.size_of_uninitialized_data == self.size_of_uninitialized_data) by {
            reveal(IMAGE_OPTIONAL_HEADER32::spec_bytes_part_0);
            assert(b[12int] == (u32_bytes(self.size_of_uninitialized_data))[0int]);
            assert(b[13int] == (u32_bytes(self.size_of_uninitialized_data))[1int]);
            assert(b[14int] == (u32_bytes(self.size_of_uninitialized_data))[2int]);
            assert(b[15int] == (u32_bytes(self.size_of_uninitialized_data))[3int]);
            lemma_u32_roundtrip(self.size_of_uninitialized_data);
        }
    }

    /// The fields from offset 16 on read back from the record's bytes.
    #[verifier::rlimit(100)]
    #[verifier::spinoff_prover]
    proof fn lemma_bytes_roundtrip_part_1(self)
        ensures
            Self::spec_read(self.spec_bytes(), 0).address_of_entry_point == self.address_of_entry_point,
            Self::spec_read(self.spec_bytes(), 0).base_of_code == self.base_of_code,
            Self::spec_read(self.spec_bytes(), 0).base_of_data == self.base_of_data,
            Self::spec_read(self.spec_bytes(), 0).image_base == self.image_base,
            Self::spec_read(self.spec_bytes(), 0).section_alignment == self.section_alignment,
            Self::spec_read(self.spec_bytes(), 0).file_alignment == self.file_alignment,
    {
        reveal(IMAGE_OPTIONAL_HEADER32::spec_bytes);
        self.data_directory[0].lemma_bytes_len();
        self.data_directory[1].lemma_bytes_len();
        self.data_directory[2].lemma_bytes_len();
        self.data_directory[3].lemma_bytes_len();
        self.data_directory[4].lemma_bytes_len();
        self.data_directory[5].lemma_bytes_len();
        self.data_directory[6].lemma_bytes_len();
        self.data_directory[7].lemma_bytes_len();
        self.data_directory[8].lemma_bytes_len();
        self.data_directory[9].lemma_bytes_len();
        self.data_directory[10].lemma_bytes_len();
        self.data_directory[11].lemma_bytes_len();
        self.data_directory[12].lemma_bytes_len();
        self.data_directory[13].lemma_bytes_len();
        self.data_directory[14].lemma_bytes_len();
        self.data_directory[15].lemma_bytes_len();
        assert(self.spec_bytes_part_0().len() == 16) by {
            reveal(IMAGE_OPTIONAL_HEADER32::spec_bytes_part_0);
        }
        assert(self.spec_bytes_part_1().len() == 24) by {
            reveal(IMAGE_OPTIONAL_HEADER32::spec_bytes_part_1);
        }
        assert(self.spec_bytes_part_2().len() == 12) by {
            reveal(IMAGE_OPTIONAL_HEADER32::spec_bytes_part_2);
        }
        assert(self.spec_bytes_part_3().len() == 20) by {
            reveal(IMAGE_OPTIONAL_HEADER32::spec_bytes_part_3);
        }
        assert(self.spec_bytes_part_4().len() == 24) by {
            reveal(IMAGE_OPTIONAL_HEADER32::spec_bytes_part_4);
        }
        assert(self.spec_bytes_part_5().len() == 48) by {
            reveal(IMAGE_OPTIONAL_HEADER32::spec_bytes_part_5);
        }
        assert(self.spec_bytes_part_6().len() == 48) by {
            reveal(IMAGE_OPTIONAL_HEADER32::spec_bytes_part_6);
        }
        assert(self.spec_bytes_part_7().len() == 32) by {
            reveal(IMAGE_OPTIONAL_HEADER32::spec_bytes_part_7);
        }
        let b = self.spec_bytes();
        let r = Self::spec_read(b, 0);
        assert(r.address_of_entry_point == self.address_of_entry_point) by {
            reveal(IMAGE_OPTIONAL_HEADER32::spec_bytes_part_1);
            assert(b[16int] == (u32_bytes(self.address_of_entry_point))[0int]);
            assert(b[17int] == (u32_bytes(self.address_of_entry_point))[1int]);
            assert(b[18int] == (u32_bytes(self.address_of_entry_point))[2int]);
            assert(b[19int] == (u32_bytes(self.address_of_entry_point))[3int]);
            lemma_u32_roundtrip(self.address_of_entry_point);
        }
        assert(r.base_of_code == self.base_of_code) by {
            reveal(IMAGE_OPTIONAL_HEADER32::spec_bytes_part_1);
            assert(b[20int] == (u32_bytes(self.base_of_code))[0int]);
            assert(b[21int] == (u32_bytes(self.base_of_code))[1int]);
            assert(b[22int] == (u32_bytes(self.base_of_code))[2int]);
            assert(b[23int] == (u32_bytes(self.base_of_code))[3int]);
            lemma_u32_roundtrip(self.base_of_code);
        }
        assert(r.base_of_data == self.base_of_data) by {
            reveal(IMAGE_OPTIONAL_HEADER32::spec_bytes_part_1);
            assert(b[24int] == (u32_bytes(self.base_of_data))[0int]);
            assert(b[25int] == (u32_bytes(self.base_of_data))[1int]);
            assert(b[26int] == (u32_bytes(self.base_of_data))[2int]);
            assert(b[27int] == (u32_bytes(self.base_of_data))[3int]);
            lemma_u32_roundtrip(self.base_of_data);
        }
        assert(r.image_base == self.image_base) by {
            reveal(IMAGE_OPTIONAL_HEADER32::spec_bytes_part_1);
            assert(b[28int] == (u32_bytes(self.image_base))[0int]);
            assert(b[29int] == (u32_bytes(self.image_base))[1int]);
            assert(b[30int] == (u32_bytes(self.image_base))[2int]);
            assert(b[31int] == (u32_bytes(self.image_base))[3int]);
            lemma_u32_roundtrip(self.image_base);
        }
        assert(r.section_alignment == self.section_alignment) by {
            reveal(IMAGE_OPTIONAL_HEADER32::spec_bytes_part_1);
            assert(b[32int] == (u32_bytes(self.section_alignment))[0int]);
            assert(b[33int] == (u32_bytes(self.section_alignment))[1int]);
            assert(b[34int] == (u32_bytes(self.section_alignment))[2int]);
            assert(b[35int] == (u32_bytes(self.section_alignment))[3int]);
            lemma_u32_roundtrip(self.section_alignment);
        }
        assert(r.file_alignment == self.file_alignment) by {
            reveal(IMAGE_OPTIONAL_HEADER32::spec_bytes_part_1);
            assert(b[36int] == (u32_bytes(self.file_alignment))[0int]);
            assert(b[37int] == (u32_bytes(self.file_alignment))[1int]);
            assert(b[38int] == (u32_bytes(self.file_alignment))[2int]);
            assert(b[39int] == (u32_bytes(self.file_alignment))[3int]);
            lemma_u32_roundtrip(self.file_alignment);
        }
    }

    /// The fields from offset 40 on read back from the record's bytes.
    #[verifier::rlimit(100)]
    #[verifier::spinoff_prover]
    proof fn lemma_bytes_roundtrip_part_2(self)
        ensures
            Self::spec_read(self.spec_bytes(), 0).major_operating_system_version == self.major_operating_system_version,
            Self::spec_read(self.spec_bytes(), 0).minor_operating_system_version == self.minor_operating_system_version,
            Self::spec_read(self.spec_bytes(), 0).major_image_version == self.major_image_version,
            Self::spec_read(self.spec_bytes(), 0).minor_image_version == self.minor_image_version,
            Self::spec_read(self.spec_bytes(), 0).major_subsystem_version == self.major_subsystem_version,
            Self::spec_read(self.spec_bytes(), 0).minor_subsystem_version == self.minor_subsystem_version,
    {
        reveal(IMAGE_OPTIONAL_HEADER32::spec_bytes);
        self.data_directory[0].lemma_bytes_len();
        self.data_directory[1].lemma_bytes_len();
        self.data_directory[2].lemma_bytes_len();
        self.data_directory[3].lemma_bytes_len();
        self.data_directory[4].lemma_bytes_len();
        self.data_directory[5].lemma_bytes_len();
        self.data_directory[6].lemma_bytes_len();
        self.data_directory[7].lemma_bytes_len();
        self.data_directory[8].lemma_bytes_len();
        self.data_directory[9].lemma_bytes_len();
        self.data_directory[10].lemma_bytes_len();
        self.data_directory[11].lemma_bytes_len();
        self.data_directory[12].lemma_bytes_len();
        self.data_directory[13].lemma_bytes_len();
        self.data_directory[14].lemma_bytes_len();
        self.data_directory[15].lemma_bytes_len();
        assert(self.spec_bytes_part_0().len() == 16) by {
            reveal(IMAGE_OPTIONAL_HEADER32::spec_bytes_part_0);
        }
        assert(self.spec_bytes_part_1().len() == 24) by {
            reveal(IMAGE_OPTIONAL_HEADER32::spec_bytes_part_1);
        }
        assert(self.spec_bytes_part_2().len() == 12) by {
            reveal(IMAGE_OPTIONAL_HEADER32::spec_bytes_part_2);
        }
        assert(self.spec_bytes_part_3().len() == 20) by {
            reveal(IMAGE_OPTIONAL_HEADER32::spec_bytes_part_3);
        }
        assert(self.spec_bytes_part_4().len() == 24) by {
            reveal(IMAGE_OPTIONAL_HEADER32::spec_bytes_part_4);
        }
        assert(self.spec_bytes_part_5().len() == 48) by {
            reveal(IMAGE_OPTIONAL_HEADER32::spec_bytes_part_5);
        }
        assert(self.spec_bytes_part_6().len() == 48) by {
            reveal(IMAGE_OPTIONAL_HEADER32::spec_bytes_part_6);
        }
        assert(self.spec_bytes_part_7().len() == 32) by {
            reveal(IMAGE_OPTIONAL_HEADER32::spec_bytes_part_7);
        }
        let b = self.spec_bytes();
        let r = Self::spec_read(b, 0);
        assert(r.major_operating_system_version == self.major_operating_system_version) by {
            reveal(IMAGE_OPTIONAL_HEADER32::spec_bytes_part_2);
            assert(b[40int] == (u16_bytes(self.major_operating_system_version))[0int]);
            assert(b[41int] == (u16_bytes(self.major_operating_system_version))[1int]);
            lemma_u16_roundtrip(self.major_operating_system_version);
        }
        assert(r.minor_operating_system_version == self.minor_operating_system_version) by {
            reveal(IMAGE_OPTIONAL_HEADER32::spec_bytes_part_2);
            assert(b[42int] == (u16_bytes(self.minor_operating_system_version))[0int]);
            assert(b[43int] == (u16_bytes(self.minor_operating_system_version))[1int]);
            lemma_u16_roundtrip(self.minor_operating_system_version);
        }
        assert(r.major_image_version == self.major_image_version) by {
            reveal(IMAGE_OPTIONAL_HEADER32::spec_bytes_part_2);
            assert(b[44int] == (u16_bytes(self.major_image_version))[0int]);
            assert(b[45int] == (u16_bytes(self.major_image_version))[1int]);
            lemma_u16_roundtrip(self.major_image_version);
        }
        assert(r.minor_image_version == self.minor_image_version) by {
            reveal(IMAGE_OPTIONAL_HEADER32::spec_bytes_part_2);
            assert(b[46int] == (u16_bytes(self.minor_image_version))[0int]);
            assert(b[47int] == (u16_bytes(self.minor_image_version))[1int]);
            lemma_u16_roundtrip(self.minor_image_version);
        }
        assert(r.major_subsystem_version == self.major_subsystem_version) by {
            reveal(IMAGE_OPTIONAL_HEADER32::spec_bytes_part_2);
            assert(b[48int] == (u16_bytes(self.major_subsystem_version))[0int]);
            assert(b[49int] == (u16_bytes(self.major_subsystem_version))[1int]);
            lemma_u16_roundtrip(self.major_subsystem_version);
        }
        assert(r.minor_subsystem_version == self.minor_subsystem_version) by {
            reveal(IMAGE_OPTIONAL_HEADER32::spec_bytes_part_2);
            assert(b[50int] == (u16_bytes(self.minor_subsystem_version))[0int]);
            assert(b[51int] == (u16_bytes(self.minor_subsystem_version))[1int]);
            lemma_u16_roundtrip(self.minor_subsystem_version);
        }
    }

    /// The fields from offset 52 on read back from the record's bytes.
    #[verifier::rlimit(100)]
    #[verifier::spinoff_prover]
    proof fn lemma_bytes_roundtrip_part_3(self)
        ensures
            Self::spec_read(self.spec_bytes(), 0).win32_version_value == self.win32_version_value,
            Self::spec_read(self.spec_bytes(), 0).size_of_image == self.size_of_image,
            Self::spec_read(self.spec_bytes(), 0).size_of_headers == self.size_of_headers,
            Self::spec_read(self.spec_bytes(), 0).check_sum == self.check_sum,
            Self::spec_read(self.spec_bytes(), 0).subsystem == self.subsystem,
            Self::spec_read(self.spec_bytes(), 0).dll_characteristics == self.dll_characteristics,
    {
        reveal(IMAGE_OPTIONAL_HEADER32::spec_bytes);
        self.data_directory[0].lemma_bytes_len();
        self.data_directory[1].lemma_bytes_len();
        self.data_directory[2].lemma_bytes_len();
        self.data_directory[3].lemma_bytes_len();
        self.data_directory[4].lemma_bytes_len();
        self.data_directory[5].lemma_bytes_len();
        self.data_directory[6].lemma_bytes_len();
        self.data_directory[7].lemma_bytes_len();
        self.data_directory[8].lemma_bytes_len();
        self.data_directory[9].lemma_bytes_len();
        self.data_directory[10].lemma_bytes_len();
        self.data_directory[11].lemma_bytes_len();
        self.data_directory[12].lemma_bytes_len();
        self.data_directory[13].lemma_bytes_len();
        self.data_directory[14].lemma_bytes_len();
        self.data_directory[15].lemma_bytes_len();
        assert(self.spec_bytes_part_0().len() == 16) by {
            reveal(IMAGE_OPTIONAL_HEADER32::spec_bytes_part_0);
        }
        assert(self.spec_bytes_part_1().len() == 24) by {
            reveal(IMAGE_OPTIONAL_HEADER32::spec_bytes_part_1);
        }
        assert(self.spec_bytes_part_2().len() == 12) by {
            reveal(IMAGE_OPTIONAL_HEADER32::spec_bytes_part_2);
        }
        assert(self.spec_bytes_part_3().len() == 20) by {
            reveal(IMAGE_OPTIONAL_HEADER32::spec_bytes_part_3);
        }
        assert(self.spec_bytes_part_4().len() == 24) by {
            reveal(IMAGE_OPTIONAL_HEADER32::spec_bytes_part_4);
        }
        assert(self.spec_bytes_part_5().len() == 48) by {
            reveal(IMAGE_OPTIONAL_HEADER32::spec_bytes_part_5);
        }
        assert(self.spec_bytes_part_6().len() == 48) by {
            reveal(IMAGE_OPTIONAL_HEADER32::spec_bytes_part_6);
        }
        assert(self.spec_bytes_part_7().len() == 32) by {
            reveal(IMAGE_OPTIONAL_HEADER32::spec_bytes_part_7);
        }
        let b = self.spec_bytes();
        let r = Self::spec_read(b, 0);
        assert(r.win32_version_value == self.win32_version_value) by {
            reveal(IMAGE_OPTIONAL_HEADER32::spec_bytes_part_3);
            assert(b[52int] == (u32_bytes(self.win32_version_value))[0int]);
            assert(b[53int] == (u32_bytes(self.win32_version_value))[1int]);
            assert(b[54int] == (u32_bytes(self.win32_version_value))[2int]);
            assert(b[55int] == (u32_bytes(self.win32_version_value))[3int]);
            lemma_u32_roundtrip(self.win32_version_value);
        }
        assert(r.size_of_image == self.size_of_image) by {
            reveal(IMAGE_OPTIONAL_HEADER32::spec_bytes_part_3);
            assert(b[56int] == (u32_bytes(self.size_of_image))[0int]);
            assert(b[57int] == (u32_bytes(self.size_of_image))[1int]);
            assert(b[58int] == (u32_bytes(self.size_of_image))[2int]);
            assert(b[59int] == (u32_bytes(self.size_of_image))[3int]);
            lemma_u32_roundtrip(self.size_of_image);
        }
        assert(r.size_of_headers == self.size_of_headers) by {
            reveal(IMAGE_OPTIONAL_HEADER32::spec_bytes_part_3);
            assert(b[60int] == (u32_bytes(self.size_of_headers))[0int]);
            assert(b[61int] == (u32_bytes(self.size_of_headers))[1int]);
            assert(b[62int] == (u32_bytes(self.size_of_headers))[2int]);
            assert(b[63int] == (u32_bytes(self.size_of_headers))[3int]);
            lemma_u32_roundtrip(self.size_of_headers);
        }
        assert(r.check_sum == self.check_sum) by {
            reveal(IMAGE_OPTIONAL_HEADER32::spec_bytes_part_3);
            assert(b[64int] == (u32_bytes(self.check_sum))[0int]);
            assert(b[65int] == (u32_bytes(self.check_sum))[1int]);
            assert(b[66int] == (u32_bytes(self.check_sum))[2int]);
            assert(b[67int] == (u32_bytes(self.check_sum))[3int]);
            lemma_u32_roundtrip(self.check_sum);
        }
        assert(r.subsystem == self.subsystem) by {
            reveal(IMAGE_OPTIONAL_HEADER32::spec_bytes_part_3);
            assert(b[68int] == (u16_bytes(self.subsystem))[0int]);
            assert(b[69int] == (u16_bytes(self.subsystem))[1int]);
            lemma_u16_roundtrip(self.subsystem);
        }
        assert(r.dll_characteristics == self.dll_characteristics) by {
            reveal(IMAGE_OPTIONAL_HEADER32::spec_bytes_part_3);
            assert(b[70int] == (u16_bytes(self.dll_characteristics))[0int]);
            assert(b[71int] == (u16_bytes(self.dll_characteristics))[1int]);
            lemma_u16_roundtrip(self.dll_characteristics);
        }
    }

    /// The fields from offset 72 on read back from the record's bytes.
    #[verifier::rlimit(100)]
    #[verifier::spinoff_prover]
    proof fn lemma_bytes_roundtrip_part_4(self)
        ensures
            Self::spec_read(self.spec_bytes(), 0).size_of_stack_reserve == self.size_of_stack_reserve,
            Self::spec_read(self.spec_bytes(), 0).size_of_stack_commit == self.size_of_stack_commit,
            Self::spec_read(self.spec_bytes(), 0).size_of_heap_reserve == self.size_of_heap_reserve,
            Self::spec_read(self.spec_bytes(), 0).size_of_heap_commit == self.size_of_heap_commit,
            Self::spec_read(self.spec_bytes(), 0).loader_flags == self.loader_flags,
            Self::spec_read(self.spec_bytes(), 0).number_of_rva_and_sizes == self.number_of_rva_and_sizes,
    {
        reveal(IMAGE_OPTIONAL_HEADER32::spec_bytes);
        self.data_directory[0].lemma_bytes_len();
        self.data_directory[1].lemma_bytes_len();
        self.data_directory[2].lemma_bytes_len();
        self.data_directory[3].lemma_bytes_len();
        self.data_directory[4].lemma_bytes_len();
        self.data_directory[5].lemma_bytes_len();
        self.data_directory[6].lemma_bytes_len();
        self.data_directory[7].lemma_bytes_len();
        self.data_directory[8].lemma_bytes_len();
        self.data_directory[9].lemma_bytes_len();
        self.data_directory[10].lemma_bytes_len();
        self.data_directory[11].lemma_bytes_len();
        self.data_directory[12].lemma_bytes_len();
        self.data_directory[13].lemma_bytes_len();
        self.data_directory[14].lemma_bytes_len();
        self.data_directory[15].lemma_bytes_len();
        assert(self.spec_bytes_part_0().len() == 16) by {
            reveal(IMAGE_OPTIONAL_HEADER32::spec_bytes_part_0);
        }
        assert(self.spec_bytes_part_1().len() == 24) by {
            reveal(IMAGE_OPTIONAL_HEADER32::spec_bytes_part_1);
        }
        assert(self.spec_bytes_part_2().len() == 12) by {
            reveal(IMAGE_OPTIONAL_HEADER32::spec_bytes_part_2);
        }
        assert(self.spec_bytes_part_3().len() == 20) by {
            reveal(IMAGE_OPTIONAL_HEADER32::spec_bytes_part_3);
        }
        assert(self.spec_bytes_part_4().len() == 24) by {
            reveal(IMAGE_OPTIONAL_HEADER32::spec_bytes_part_4);
        }
        assert(self.spec_bytes_part_5().len() == 48) by {
            reveal(IMAGE_OPTIONAL_HEADER32::spec_bytes_part_5);
        }
        assert(self.spec_bytes_part_6().len() == 48) by {
            reveal(IMAGE_OPTIONAL_HEADER32::spec_bytes_part_6);
        }
        assert(self.spec_bytes_part_7().len() == 32) by {
            reveal(IMAGE_OPTIONAL_HEADER32::spec_bytes_part_7);
        }
        let b = self.spec_bytes();
        let r = Self::spec_read(b, 0);
        assert(r.size_of_stack_reserve == self.size_of_stack_reserve) by {
            reveal(IMAGE_OPTIONAL_HEADER32::spec_bytes_part_4);
            assert(b[72int] == (u32_bytes(self.size_of_stack_reserve))[0int]);
            assert(b[73int] == (u32_bytes(self.size_of_stack_reserve))[1int]);
            assert(b[74int] == (u32_bytes(self.size_of_stack_reserve))[2int]);
            assert(b[75int] == (u32_bytes(self.size_of_stack_reserve))[3int]);
            lemma_u32_roundtrip(self.size_of_stack_reserve);
        }
        assert(r.size_of_stack_commit == self.size_of_stack_commit) by {
            reveal(IMAGE_OPTIONAL_HEADER32::spec_bytes_part_4);
            assert(b[76int] == (u32_bytes(self.size_of_stack_commit))[0int]);
            assert(b[77int] == (u32_bytes(self.size_of_stack_commit))[1int]);
            assert(b[78int] == (u32_bytes(self.size_of_stack_commit))[2int]);
            assert(b[79int] == (u32_bytes(self.size_of_stack_commit))[3int]);
            lemma_u32_roundtrip(self.size_of_stack_commit);
        }
        assert(r.size_of_heap_reserve == self.size_of_heap_reserve) by {
            reveal(IMAGE_OPTIONAL_HEADER32::spec_bytes_part_4);
            assert(b[80int] == (u32_bytes(self.size_of_heap_reserve))[0int]);
            assert(b[81int] == (u32_bytes(self.size_of_heap_reserve))[1int]);
            assert(b[82int] == (u32_bytes(self.size_of_heap_reserve))[2int]);
            assert(b[83int] == (u32_bytes(self.size_of_heap_reserve))[3int]);
            lemma_u32_roundtrip(self.size_of_heap_reserve);
        }
        assert(r.size_of_heap_commit == self.size_of_heap_commit) by {
            reveal(IMAGE_OPTIONAL_HEADER32::spec_bytes_part_4);
            assert(b[84int] == (u32_bytes(self.size_of_heap_commit))[0int]);
            assert(b[85int] == (u32_bytes(self.size_of_heap_commit))[1int]);
            assert(b[86int] == (u32_bytes(self.size_of_heap_commit))[2int]);
            assert(b[87int] == (u32_bytes(self.size_of_heap_commit))[3int]);
            lemma_u32_roundtrip(self.size_of_heap_commit);
        }
        assert(r.loader_flags == self.loader_flags) by {
            reveal(IMAGE_OPTIONAL_HEADER32::spec_bytes_part_4);
            assert(b[88int] == (u32_bytes(self.loader_flags))[0int]);
            assert(b[89int] == (u32_bytes(self.loader_flags))[1int]);
            assert(b[90int] == (u32_bytes(self.loader_flags))[2int]);
            assert(b[91int] == (u32_bytes(self.loader_flags))[3int]);
            lemma_u32_roundtrip(self.loader_flags);
        }
        assert(r.number_of_rva_and_sizes == self.number_of_rva_and_sizes) by {
            reveal(IMAGE_OPTIONAL_HEADER32::spec_bytes_part_4);
            assert(b[92int] == (u32_bytes(self.number_of_rva_and_sizes))[0int]);
            assert(b[93int] == (u32_bytes(self.number_of_rva_and_sizes))[1int]);
            assert(b[94int] == (u32_bytes(self.number_of_rva_and_sizes))[2int]);
            assert(b[95int] == (u32_bytes(self.number_of_rva_and_sizes))[3int]);
            lemma_u32_roundtrip(self.number_of_rva_and_sizes);
        }
    }

    /// The fields from offset 96 on read back from the record's bytes.
    #[verifier::rlimit(100)]
    #[verifier::spinoff_prover]
    proof fn lemma_bytes_roundtrip_part_5(self)
        ensures
            Self::spec_read(self.spec_bytes(), 0).data_directory[0] == self.data_directory[0],
            Self::spec_read(self.spec_bytes(), 0).data_directory[1] == self.data_directory[1],
            Self::spec_read(self.spec_bytes(), 0).data_directory[2] == self.data_directory[2],
            Self::spec_read(self.spec_bytes(), 0).data_directory[3] == self.data_directory[3],
            Self::spec_read(self.spec_bytes(), 0).data_directory[4] == self.data_directory[4],
            Self::spec_read(self.spec_bytes(), 0).data_directory[5] == self.data_directory[5],
    {
        reveal(IMAGE_OPTIONAL_HEADER32::spec_bytes);
        self.data_directory[0].lemma_bytes_len();
        self.data_directory[1].lemma_bytes_len();
        self.data_directory[2].lemma_bytes_len();
        self.data_directory[3].lemma_bytes_len();
        self.data_directory[4].lemma_bytes_len();
        self.data_directory[5].lemma_bytes_len();
        self.data_directory[6].lemma_bytes_len();
        self.data_directory[7].lemma_bytes_len();
        self.data_directory[8].lemma_bytes_len();
        self.data_directory[9].lemma_bytes_len();
        self.data_directory[10].lemma_bytes_len();
        self.data_directory[11].lemma_bytes_len();
        self.data_directory[12].lemma_bytes_len();
        self.data_directory[13].lemma_bytes_len();
        self.data_directory[14].lemma_bytes_len();
        self.data_directory[15].lemma_bytes_len();
        assert(self.spec_bytes_part_0().len() == 16) by {
            reveal(IMAGE_OPTIONAL_HEADER32::spec_bytes_part_0);
        }
        assert(self.spec_bytes_part_1().len() == 24) by {
            reveal(IMAGE_OPTIONAL_HEADER32::spec_bytes_part_1);
        }
        assert(self.spec_bytes_part_2().len() == 12) by {
            reveal(IMAGE_OPTIONAL_HEADER32::spec_bytes_part_2);
        }
        assert(self.spec_bytes_part_3().len() == 20) by {
            reveal(IMAGE_OPTIONAL_HEADER32::spec_bytes_part_3);
        }
        assert(self.spec_bytes_part_4().len() == 24) by {
            reveal(IMAGE_OPTIONAL_HEADER32::spec_bytes_part_4);
        }
        assert(self.spec_bytes_part_5().len() == 48) by {
            reveal(IMAGE_OPTIONAL_HEADER32::spec_bytes_part_5);
        }
        assert(self.spec_bytes_part_6().len() == 48) by {
            reveal(IMAGE_OPTIONAL_HEADER32::spec_bytes_part_6);
        }
        assert(self.spec_bytes_part_7().len() == 32) by {
            reveal(IMAGE_OPTIONAL_HEADER32::spec_bytes_part_7);
        }
        let b = self.spec_bytes();
        let r = Self::spec_read(b, 0);
        assert(r.data_directory[0] == self.data_directory[0]) by {
            reveal(IMAGE_OPTIONAL_HEADER32::spec_bytes_part_5);
            self.data_directory[0].lemma_bytes_roundtrip();
            assert(same_window(b, 96, self.data_directory[0].spec_bytes(), 0, 8)) by {
                assert forall|k: int| 0 <= k < 8 implies #[trigger] b[96 + k] == (self.data_directory[0].spec_bytes())[0 + k] by {}
            }
            IMAGE_DATA_DIRECTORY::lemma_read_window(b, 96, self.data_directory[0].spec_bytes(), 0);
        }
        assert(r.data_directory[1] == self.data_directory[1]) by {
            reveal(IMAGE_OPTIONAL_HEADER32::spec_bytes_part_5);
            self.data_directory[1].lemma_bytes_roundtrip();
            assert(same_window(b, 104, self.data_directory[1].spec_bytes(), 0, 8)) by {
                assert forall|k: int| 0 <= k < 8 implies #[trigger] b[104 + k] == (self.data_directory[1].spec_bytes())[0 + k] by {}
            }
            IMAGE_DATA_DIRECTORY::lemma_read_window(b, 104, self.data_directory[1].spec_bytes(), 0);
        }
        assert(r.data_directory[2] == self.data_directory[2]) by {
            reveal(IMAGE_OPTIONAL_HEADER32::spec_bytes_part_5);
            self.data_directory[2].lemma_bytes_roundtrip();
            assert(same_window(b, 112, self.data_directory[2].spec_bytes(), 0, 8)) by {
                assert forall|k: int| 0 <= k < 8 implies #[trigger] b[112 + k] == (self.data_directory[2].spec_bytes())[0 + k] by {}
            }
            IMAGE_DATA_DIRECTORY::lemma_read_window(b, 112, self.data_directory[2].spec_bytes(), 0);
        }
        assert(r.data_directory[3] == self.data_directory[3]) by {
            reveal(IMAGE_OPTIONAL_HEADER32::spec_bytes_part_5);
            self.data_directory[3].lemma_bytes_roundtrip();
            assert(same_window(b, 120, self.data_directory[3].spec_bytes(), 0, 8)) by {
                assert forall|k: int| 0 <= k < 8 implies #[trigger] b[120 + k] == (self.data_directory[3].spec_bytes())[0 + k] by {}
            }
            IMAGE_DATA_DIRECTORY::lemma_read_window(b, 120, self.data_directory[3].spec_bytes(), 0);
        }
        assert(r.data_directory[4] == self.data_directory[4]) by {
            reveal(IMAGE_OPTIONAL_HEADER32::spec_bytes_part_5);
            self.data_directory[4].lemma_bytes_roundtrip();
            assert(same_window(b, 128, self.data_directory[4].spec_bytes(), 0, 8)) by {
                assert forall|k: int| 0 <= k < 8 implies #[trigger] b[128 + k] == (self.data_directory[4].spec_bytes())[0 + k] by {}
            }
            IMAGE_DATA_DIRECTORY::lemma_read_window(b, 128, self.data_directory[4].spec_bytes(), 0);
        }
        assert(r.data_directory[5] == self.data_directory[5]) by {
            reveal(IMAGE_OPTIONAL_HEADER32::spec_bytes_part_5);
            self.data_directory[5].lemma_bytes_roundtrip();
            assert(same_window(b, 136, self.data_directory[5].spec_bytes(), 0, 8)) by {
                assert forall|k: int| 0 <= k < 8 implies #[trigger] b[136 + k] == (self.data_directory[5].spec_bytes())[0 + k] by {}
            }
            IMAGE_DATA_DIRECTORY::lemma_read_window(b, 136, self.data_directory[5].spec_bytes(), 0);
        }
    }

    /// The fields from offset 144 on read back from the record's bytes.
    #[verifier::rlimit(100)]
    #[verifier::spinoff_prover]
    proof fn lemma_bytes_roundtrip_part_6(self)
        ensures
            Self::spec_read(self.spec_bytes(), 0).data_directory[6] == self.data_directory[6],
            Self::spec_read(self.spec_bytes(), 0).data_directory[7] == self.data_directory[7],
            Self::spec_read(self.spec_bytes(), 0).data_directory[8] == self.data_directory[8],
            Self::spec_read(self.spec_bytes(), 0).data_directory[9] == self.data_directory[9],
            Self::spec_read(self.spec_bytes(), 0).data_directory[10] == self.data_directory[10],
            Self::spec_read(self.spec_bytes(), 0).data_directory[11] == self.data_directory[11],
    {
        reveal(IMAGE_OPTIONAL_HEADER32::spec_bytes);
        self.data_directory[0].lemma_bytes_len();
        self.data_directory[1].lemma_bytes_len();
        self.data_directory[2].lemma_bytes_len();
        self.data_directory[3].lemma_bytes_len();
        self.data_directory[4].lemma_bytes_len();
        self.data_directory[5].lemma_bytes_len();
        self.data_directory[6].lemma_bytes_len();
        self.data_directory[7].lemma_bytes_len();
        self.data_directory[8].lemma_bytes_len();
        self.data_directory[9].lemma_bytes_len();
        self.data_directory[10].lemma_bytes_len();
        self.data_directory[11].lemma_bytes_len();
        self.data_directory[12].lemma_bytes_len();
        self.data_directory[13].lemma_bytes_len();
        self.data_directory[14].lemma_bytes_len();
        self.data_directory[15].lemma_bytes_len();
        assert(self.spec_bytes_part_0().len() == 16) by {
            reveal(IMAGE_OPTIONAL_HEADER32::spec_bytes_part_0);
        }
        assert(self.spec_bytes_part_1().len() == 24) by {
            reveal(IMAGE_OPTIONAL_HEADER32::spec_bytes_part_1);
        }
        assert(self.spec_bytes_part_2().len() == 12) by {
            reveal(IMAGE_OPTIONAL_HEADER32::spec_bytes_part_2);
        }
        assert(self.spec_bytes_part_3().len() == 20) by {
            reveal(IMAGE_OPTIONAL_HEADER32::spec_bytes_part_3);
        }
        assert(self.spec_bytes_part_4().len() == 24) by {
            reveal(IMAGE_OPTIONAL_HEADER32::spec_bytes_part_4);
        }
        assert(self.spec_bytes_part_5().len() == 48) by {
            reveal(IMAGE_OPTIONAL_HEADER32::spec_bytes_part_5);
        }
        assert(self.spec_bytes_part_6().len() == 48) by {
            reveal(IMAGE_OPTIONAL_HEADER32::spec_bytes_part_6);
        }
        assert(self.spec_bytes_part_7().len() == 32) by {
            reveal(IMAGE_OPTIONAL_HEADER32::spec_bytes_part_7);
        }
        let b = self.spec_bytes();
        let r = Self::spec_read(b, 0);
        assert(r.data_directory[6] == self.data_directory[6]) by {
            reveal(IMAGE_OPTIONAL_HEADER32::spec_bytes_part_6);
            self.data_directory[6].lemma_bytes_roundtrip();
            assert(same_window(b, 144, self.data_directory[6].spec_bytes(), 0, 8)) by {
                assert forall|k: int| 0 <= k < 8 implies #[trigger] b[144 + k] == (self.data_directory[6].spec_bytes())[0 + k] by {}
            }
            IMAGE_DATA_DIRECTORY::lemma_read_window(b, 144, self.data_directory[6].spec_bytes(), 0);
        }
        assert(r.data_directory[7] == self.data_directory[7]) by {
            reveal(IMAGE_OPTIONAL_HEADER32::spec_bytes_part_6);
            self.data_directory[7].lemma_bytes_roundtrip();
            assert(same_window(b, 152, self.data_directory[7].spec_bytes(), 0, 8)) by {
                assert forall|k: int| 0 <= k < 8 implies #[trigger] b[152 + k] == (self.data_directory[7].spec_bytes())[0 + k] by {}
            }
            IMAGE_DATA_DIRECTORY::lemma_read_window(b, 152, self.data_directory[7].spec_bytes(), 0);
        }
        assert(r.data_directory[8] == self.data_directory[8]) by {
            reveal(IMAGE_OPTIONAL_HEADER32::spec_bytes_part_6);
            self.data_directory[8].lemma_bytes_roundtrip();
            assert(same_window(b, 160, self.data_directory[8].spec_bytes(), 0, 8)) by {
                assert forall|k: int| 0 <= k < 8 implies #[trigger] b[160 + k] == (self.data_directory[8].spec_bytes())[0 + k] by {}
            }
            IMAGE_DATA_DIRECTORY::lemma_read_window(b, 160, self.data_directory[8].spec_bytes(), 0);
        }
        assert(r.data_directory[9] == self.data_directory[9]) by {
            reveal(IMAGE_OPTIONAL_HEADER32::spec_bytes_part_6);
            self.data_directory[9].lemma_bytes_roundtrip();
            assert(same_window(b, 168, self.data_directory[9].spec_bytes(), 0, 8)) by {
                assert forall|k: int| 0 <= k < 8 implies #[trigger] b[168 + k] == (self.data_directory[9].spec_bytes())[0 + k] by {}
            }
            IMAGE_DATA_DIRECTORY::lemma_read_window(b, 168, self.data_directory[9].spec_bytes(), 0);
        }
        assert(r.data_directory[10] == self.data_directory[10]) by {
            reveal(IMAGE_OPTIONAL_HEADER32::spec_bytes_part_6);
            self.data_directory[10].lemma_bytes_roundtrip();
            assert(same_window(b, 176, self.data_directory[10].spec_bytes(), 0, 8)) by {
                assert forall|k: int| 0 <= k < 8 implies #[trigger] b[176 + k] == (self.data_directory[10].spec_bytes())[0 + k] by {}
            }
            IMAGE_DATA_DIRECTORY::lemma_read_window(b, 176, self.data_directory[10].spec_bytes(), 0);
        }
        assert(r.data_directory[11] == self.data_directory[11]) by {
            reveal(IMAGE_OPTIONAL_HEADER32::spec_bytes_part_6);
            self.data_directory[11].lemma_bytes_roundtrip();
            assert(same_window(b, 184, self.data_directory[11].spec_bytes(), 0, 8)) by {
                assert forall|k: int| 0 <= k < 8 implies #[trigger] b[184 + k] == (self.data_directory[11].spec_bytes())[0 + k] by {}
            }
            IMAGE_DATA_DIRECTORY::lemma_read_window(b, 184, self.data_directory[11].spec_bytes(), 0);
        }
    }

    /// The fields from offset 192 on read back from the record's bytes.
    #[verifier::rlimit(100)]
    #[verifier::spinoff_prover]
    proof fn lemma_bytes_roundtrip_part_7(self)
        ensures
            Self::spec_read(self.spec_bytes(), 0).data_directory[12] == self.data_directory[12],
            Self::spec_read(self.spec_bytes(), 0).data_directory[13] == self.data_directory[13],
            Self::spec_read(self.spec_bytes(), 0).data_directory[14] == self.data_directory[14],
            Self::spec_read(self.spec_bytes(), 0).data_directory[15] == self.data_directory[15],
    {
        reveal(IMAGE_OPTIONAL_HEADER32::spec_bytes);
        self.data_directory[0].lemma_bytes_len();
        self.data_directory[1].lemma_bytes_len();
        self.data_directory[2].lemma_bytes_len();
        self.data_directory[3].lemma_bytes_len();
        self.data_directory[4].lemma_bytes_len();
        self.data_directory[5].lemma_bytes_len();
        self.data_directory[6].lemma_bytes_len();
        self.data_directory[7].lemma_bytes_len();
        self.data_directory[8].lemma_bytes_len();
        self.data_directory[9].lemma_bytes_len();
        self.data_directory[10].lemma_bytes_len();
        self.data_directory[11].lemma_bytes_len();
        self.data_directory[12].lemma_bytes_len();
        self.data_directory[13].lemma_bytes_len();
        self.data_directory[14].lemma_bytes_len();
        self.data_directory[15].lemma_bytes_len();
        assert(self.spec_bytes_part_0().len() == 16) by {
            reveal(IMAGE_OPTIONAL_HEADER32::spec_bytes_part_0);
        }
        assert(self.spec_bytes_part_1().len() == 24) by {
            reveal(IMAGE_OPTIONAL_HEADER32::spec_bytes_part_1);
        }
        assert(self.spec_bytes_part_2().len() == 12) by {
            reveal(IMAGE_OPTIONAL_HEADER32::spec_bytes_part_2);
        }
        assert(self.spec_bytes_part_3().len() == 20) by {
            reveal(IMAGE_OPTIONAL_HEADER32::spec_bytes_part_3);
        }
        assert(self.spec_bytes_part_4().len() == 24) by {
            reveal(IMAGE_OPTIONAL_HEADER32::spec_bytes_part_4);
        }
        assert(self.spec_bytes_part_5().len() == 48) by {
            reveal(IMAGE_OPTIONAL_HEADER32::spec_bytes_part_5);
        }
        assert(self.spec_bytes_part_6().len() == 48) by {
            reveal(IMAGE_OPTIONAL_HEADER32::spec_bytes_part_6);
        }
        assert(self.spec_bytes_part_7().len() == 32) by {
            reveal(IMAGE_OPTIONAL_HEADER32::spec_bytes_part_7);
        }
        let b = self.spec_bytes();
        let r = Self::spec_read(b, 0);
        assert(r.data_directory[12] == self.data_directory[12]) by {
            reveal(IMAGE_OPTIONAL_HEADER32::spec_bytes_part_7);
            self.data_directory[12].lemma_bytes_roundtrip();
            assert(same_window(b, 192, self.data_directory[12].spec_bytes(), 0, 8)) by {
                assert forall|k: int| 0 <= k < 8 implies #[trigger] b[192 + k] == (self.data_directory[12].spec_bytes())[0 + k] by {}
            }
            IMAGE_DATA_DIRECTORY::lemma_read_window(b, 192, self.data_directory[12].spec_bytes(), 0);
        }
        assert(r.data_directory[13] == self.data_directory[13]) by {
            reveal(IMAGE_OPTIONAL_HEADER32::spec_bytes_part_7);
            self.data_directory[13].lemma_bytes_roundtrip();
            assert(same_window(b, 200, self.data_directory[13].spec_bytes(), 0, 8)) by {
                assert forall|k: int| 0 <= k < 8 implies #[trigger] b[200 + k] == (self.data_directory[13].spec_bytes())[0 + k] by {}
            }
            IMAGE_DATA_DIRECTORY::lemma_read_window(b, 200, self.data_directory[13].spec_bytes(), 0);
        }
        assert(r.data_directory[14] == self.data_directory[14]) by {
            reveal(IMAGE_OPTIONAL_HEADER32::spec_bytes_part_7);
            self.data_directory[14].lemma_bytes_roundtrip();
            assert(same_window(b, 208, self.data_directory[14].spec_bytes(), 0, 8)) by {
                assert forall|k: int| 0 <= k < 8 implies #[trigger] b[208 + k] == (self.data_directory[14].spec_bytes())[0 + k] by {}
            }
            IMAGE_DATA_DIRECTORY::lemma_read_window(b, 208, self.data_directory[14].spec_bytes(), 0);
        }
        assert(r.data_directory[15] == self.data_directory[15]) by {
            reveal(IMAGE_OPTIONAL_HEADER32::spec_bytes_part_7);
            self.data_directory[15].lemma_bytes_roundtrip();
            assert(same_window(b, 216, self.data_directory[15].spec_bytes(), 0, 8)) by {
                assert forall|k: int| 0 <= k < 8 implies #[trigger] b[216 + k] == (self.data_directory[15].spec_bytes())[0 + k] by {}
            }
            IMAGE_DATA_DIRECTORY::lemma_read_window(b, 216, self.data_directory[15].spec_bytes(), 0);
        }
    }

    /// The record read back from its own bytes is the record.
    #[verifier::rlimit(100)]
    #[verifier::spinoff_prover]
    pub proof fn lemma_bytes_roundtrip(self)
        ensures
            self.spec_bytes().len() == 224,
            Self::spec_read(self.spec_bytes(), 0) == self,
    {
        self.lemma_bytes_len();
        let r = Self::spec_read(self.spec_bytes(), 0);
        self.lemma_bytes_roundtrip_part_0();
        self.lemma_bytes_roundtrip_part_1();
        self.lemma_bytes_roundtrip_part_2();
        self.lemma_bytes_roundtrip_part_3();
        self.lemma_bytes_roundtrip_part_4();
        self.lemma_bytes_roundtrip_part_5();
        self.lemma_bytes_roundtrip_part_6();
        self.lemma_bytes_roundtrip_part_7();
        assert(r.data_directory =~= self.data_directory);
    }
}

impl IMAGE_OPTIONAL_HEADER32 {
    /// The bytes of the fields from offset 0 on, of a record read at `off`, are the bytes read.
    proof fn lemma_read_bytes_part_0(s: Seq<u8>, off: int)
        requires
            0 <= off,
            off + 224 <= s.len(),
        ensures
            Self::spec_read(s, off).spec_bytes_part_0() == s.subrange(off + 0, off + 16),
    {
        reveal(IMAGE_OPTIONAL_HEADER32::spec_bytes_part_0);
        lemma_u16_bytes_of(s, off + 0);
        assert(u8_bytes(s[off + 2]) =~= s.subrange(off + 2, off + 3));
        assert(u8_bytes(s[off + 3]) =~= s.subrange(off + 3, off + 4));
        lemma_u32_bytes_of(s, off + 4);
        lemma_u32_bytes_of(s, off + 8);
        lemma_u32_bytes_of(s, off + 12);
        lemma_empty_join(s.subrange(off + 0, off + 2));
        lemma_join_windows(s, off + 0, off + 2, off + 3);
        lemma_join_windows(s, off + 0, off + 3, off + 4);
        lemma_join_windows(s, off + 0, off + 4, off + 8);
        lemma_join_windows(s, off + 0, off + 8, off + 12);
        lemma_join_windows(s, off + 0, off + 12, off + 16);
    }

    /// The bytes of the fields from offset 16 on, of a record read at `off`, are the bytes read.
    proof fn lemma_read_bytes_part_1(s: Seq<u8>, off: int)
        requires
            0 <= off,
            off + 224 <= s.len(),
        ensures
            Self::spec_read(s, off).spec_bytes_part_1() == s.subrange(off + 16, off + 40),
    {
        reveal(IMAGE_OPTIONAL_HEADER32::spec_bytes_part_1);
        lemma_u32_bytes_of(s, off + 16);
        lemma_u32_bytes_of(s, off + 20);
        lemma_u32_bytes_of(s, off + 24);
        lemma_u32_bytes_of(s, off + 28);
        lemma_u32_bytes_of(s, off + 32);
        lemma_u32_bytes_of(s, off + 36);
        lemma_empty_join(s.subrange(off + 16, off + 20));
        lemma_join_windows(s, off + 16, off + 20, off + 24);
        lemma_join_windows(s, off + 16, off + 24, off + 28);
        lemma_join_windows(s, off + 16, off + 28, off + 32);
        lemma_join_windows(s, off + 16, off + 32, off + 36);
        lemma_join_windows(s, off + 16, off + 36, off + 40);
    }

    /// The bytes of the fields from offset 40 on, of a record read at `off`, are the bytes read.
    proof fn lemma_read_bytes_part_2(s: Seq<u8>, off: int)
        requires
            0 <= off,
            off + 224 <= s.len(),
        ensures
            Self::spec_read(s, off).spec_bytes_part_2() == s.subrange(off + 40, off + 52),
    {
        reveal(IMAGE_OPTIONAL_HEADER32::spec_bytes_part_2);
        lemma_u16_bytes_of(s, off + 40);
        lemma_u16_bytes_of(s, off + 42);
        lemma_u16_bytes_of(s, off + 44);
        lemma_u16_bytes_of(s, off + 46);
        lemma_u16_bytes_of(s, off + 48);
        lemma_u16_bytes_of(s, off + 50);
        lemma_empty_join(s.subrange(off + 40, off + 42));
        lemma_join_windows(s, off + 40, off + 42, off + 44);
        lemma_join_windows(s, off + 40, off + 44, off + 46);
        lemma_join_windows(s, off + 40, off + 46, off + 48);
        lemma_join_windows(s, off + 40, off + 48, off + 50);
        lemma_join_windows(s, off + 40, off + 50, off + 52);
    }

    /// The bytes of the fields from offset 52 on, of a record read at `off`, are the bytes read.
    proof fn lemma_read_bytes_part_3(s: Seq<u8>, off: int)
        requires
            0 <= off,
            off + 224 <= s.len(),
        ensures
            Self::spec_read(s, off).spec_bytes_part_3() == s.subrange(off + 52, off + 72),
    {
        reveal(IMAGE_OPTIONAL_HEADER32::spec_bytes_part_3);
        lemma_u32_bytes_of(s, off + 52);
        lemma_u32_bytes_of(s, off + 56);
        lemma_u32_bytes_of(s, off + 60);
        lemma_u32_bytes_of(s, off + 64);
        lemma_u16_bytes_of(s, off + 68);
        lemma_u16_bytes_of(s, off + 70);
        lemma_empty_join(s.subrange(off + 52, off + 56));
        lemma_join_windows(s, off + 52, off + 56, off + 60);
        lemma_join_windows(s, off + 52, off + 60, off + 64);
        lemma_join_windows(s, off + 52, off + 64, off + 68);
        lemma_join_windows(s, off + 52, off + 68, off + 70);
        lemma_join_windows(s, off + 52, off + 70, off + 72);
    }

    /// The bytes of the fields from offset 72 on, of a record read at `off`, are the bytes read.
    proof fn lemma_read_bytes_part_4(s: Seq<u8>, off: int)
        requires
            0 <= off,
            off + 224 <= s.len(),
        ensures
            Self::spec_read(s, off).spec_bytes_part_4() == s.subrange(off + 72, off + 96),
    {
        reveal(IMAGE_OPTIONAL_HEADER32::spec_bytes_part_4);
        lemma_u32_bytes_of(s, off + 72);
        lemma_u32_bytes_of(s, off + 76);
        lemma_u32_bytes_of(s, off + 80);
        lemma_u32_bytes_of(s, off + 84);
        lemma_u32_bytes_of(s, off + 88);
        lemma_u32_bytes_of(s, off + 92);
        lemma_empty_join(s.subrange(off + 72, off + 76));
        lemma_join_windows(s, off + 72, off + 76, off + 80);
        lemma_join_windows(s, off + 72, off + 80, off + 84);
        lemma_join_windows(s, off + 72, off + 84, off + 88);
        lemma_join_windows(s, off + 72, off + 88, off + 92);
        lemma_join_windows(s, off + 72, off + 92, off + 96);
    }

    /// The bytes of the fields from offset 96 on, of a record read at `off`, are the bytes read.
    proof fn lemma_read_bytes_part_5(s: Seq<u8>, off: int)
        requires
            0 <= off,
            off + 224 <= s.len(),
        ensures
            Self::spec_read(s, off).spec_bytes_part_5() == s.subrange(off + 96, off + 144),
    {
        reveal(IMAGE_OPTIONAL_HEADER32::spec_bytes_part_5);
        IMAGE_DATA_DIRECTORY::lemma_read_bytes(s, off + 96);
        IMAGE_DATA_DIRECTORY::lemma_read_bytes(s, off + 104);
        IMAGE_DATA_DIRECTORY::lemma_read_bytes(s, off + 112);
        IMAGE_DATA_DIRECTORY::lemma_read_bytes(s, off + 120);
        IMAGE_DATA_DIRECTORY::lemma_read_bytes(s, off + 128);
        IMAGE_DATA_DIRECTORY::lemma_read_bytes(s, off + 136);
        lemma_empty_join(s.subrange(off + 96, off + 104));
        lemma_join_windows(s, off + 96, off + 104, off + 112);
        lemma_join_windows(s, off + 96, off + 112, off + 120);
        lemma_join_windows(s, off + 96, off + 120, off + 128);
        lemma_join_windows(s, off + 96, off + 128, off + 136);
        lemma_join_windows(s, off + 96, off + 136, off + 144);
    }

    /// The bytes of the fields from offset 144 on, of a record read at `off`, are the bytes read.
    proof fn lemma_read_bytes_part_6(s: Seq<u8>, off: int)
        requires
            0 <= off,
            off + 224 <= s.len(),
        ensures
            Self::spec_read(s, off).spec_bytes_part_6() == s.subrange(off + 144, off + 192),
    {
        reveal(IMAGE_OPTIONAL_HEADER32::spec_bytes_part_6);
        IMAGE_DATA_DIRECTORY::lemma_read_bytes(s, off + 144);
        IMAGE_DATA_DIRECTORY::lemma_read_bytes(s, off + 152);
        IMAGE_DATA_DIRECTORY::lemma_read_bytes(s, off + 160);
        IMAGE_DATA_DIRECTORY::lemma_read_bytes(s, off + 168);
        IMAGE_DATA_DIRECTORY::lemma_read_bytes(s, off + 176);
        IMAGE_DATA_DIRECTORY::lemma_read_bytes(s, off + 184);
        lemma_empty_join(s.subrange(off + 144, off + 152));
        lemma_join_windows(s, off + 144, off + 152, off + 160);
        lemma_join_windows(s, off + 144, off + 160, off + 168);
        lemma_join_windows(s, off + 144, off + 168, off + 176);
        lemma_join_windows(s, off + 144, off + 176, off + 184);
        lemma_join_windows(s, off + 144, off + 184, off + 192);
    }

    /// The bytes of the fields from offset 192 on, of a record read at `off`, are the bytes read.
    proof fn lemma_read_bytes_part_7(s: Seq<u8>, off: int)
        requires
            0 <= off,
            off + 224 <= s.len(),
        ensures
            Self::spec_read(s, off).spec_bytes_part_7() == s.subrange(off + 192, off + 224),
    {
        reveal(IMAGE_OPTIONAL_HEADER32::spec_bytes_part_7);
        IMAGE_DATA_DIRECTORY::lemma_read_bytes(s, off + 192);
        IMAGE_DATA_DIRECTORY::lemma_read_bytes(s, off + 200);
        IMAGE_DATA_DIRECTORY::lemma_read_bytes(s, off + 208);
        IMAGE_DATA_DIRECTORY::lemma_read_bytes(s, off + 216);
        lemma_empty_join(s.subrange(off + 192, off + 200));
        lemma_join_windows(s, off + 192, off + 200, off + 208);
        lemma_join_windows(s, off + 192, off + 208, off + 216);
        lemma_join_windows(s, off + 192, off + 216, off + 224);
    }

    /// The bytes of a record read at `off` are the bytes it was read from.
    pub proof fn lemma_read_bytes(s: Seq<u8>, off: int)
        requires
            0 <= off,
            off + 224 <= s.len(),
        ensures
            Self::spec_read(s, off).spec_bytes() == s.subrange(off, off + 224),
    {
        reveal(IMAGE_OPTIONAL_HEADER32::spec_bytes);
        Self::lemma_read_bytes_part_0(s, off);
        Self::lemma_read_bytes_part_1(s, off);
        Self::lemma_read_bytes_part_2(s, off);
        Self::lemma_read_bytes_part_3(s, off);
        Self::lemma_read_bytes_part_4(s, off);
        Self::lemma_read_bytes_part_5(s, off);
        Self::lemma_read_bytes_part_6(s, off);
        Self::lemma_read_bytes_part_7(s, off);
        lemma_empty_join(s.subrange(off + 0, off + 16));
        lemma_join_windows(s, off + 0, off + 16, off + 40);
        lemma_join_windows(s, off + 0, off + 40, off + 52);
        lemma_join_windows(s, off + 0, off + 52, off + 72);
        lemma_join_windows(s, off + 0, off + 72, off + 96);
        lemma_join_windows(s, off + 0, off + 96, off + 144);
        lemma_join_windows(s, off + 0, off + 144, off + 192);
        lemma_join_windows(s, off + 0, off + 192, off + 224);
    }
}

/// The optional header of a PE32+ image.
#[allow(non_camel_case_types)]
#[derive(Debug, Clone, Copy)]
pub struct IMAGE_OPTIONAL_HEADER64 {
    pub magic: u16,
    pub major_linker_version: u8,
    pub minor_linker_version: u8,
    pub size_of_code: u32,
    pub size_of_initialized_data: u32,
    pub size_of_uninitialized_data: u32,
    pub address_of_entry_point: u32,
    pub base_of_code: u32,
    pub image_base: u64,
    pub section_alignment: u32,
    pub file_alignment: u32,
    pub major_operating_system_version: u16,
    pub minor_operating_system_version: u16,
    pub major_image_version: u16,
    pub minor_image_version: u16,
    pub major_subsystem_version: u16,
    pub minor_subsystem_version: u16,
    pub win32_version_value: u32,
    pub size_of_image: u32,
    pub size_of_headers: u32,
    pub check_sum: u32,
    pub subsystem: u16,
    pub dll_characteristics: u16,
    pub size_of_stack_reserve: u64,
    pub size_of_stack_commit: u64,
    pub size_of_heap_reserve: u64,
    pub size_of_heap_commit: u64,
    pub loader_flags: u32,
    pub number_of_rva_and_sizes: u32,
    pub data_directory: [IMAGE_DATA_DIRECTORY; 16],
}

impl RawStruct for IMAGE_OPTIONAL_HEADER64 {
    open spec fn spec_size() -> nat {
        240
    }

    open spec fn spec_read(s: Seq<u8>, off: int) -> Self {
        IMAGE_OPTIONAL_HEADER64 {
            magic: le_u16(s, off + 0),
            major_linker_version: s[off + 2],
            minor_linker_version: s[off + 3],
            size_of_code: le_u32(s, off + 4),
            size_of_initialized_data: le_u32(s, off + 8),
            size_of_uninitialized_data: le_u32(s, off + 12),
            address_of_entry_point: le_u32(s, off + 16),
            base_of_code: le_u32(s, off + 20),
            image_base: le_u64(s, off + 24),
            section_alignment: le_u32(s, off + 32),
            file_alignment: le_u32(s, off + 36),
            major_operating_system_version: le_u16(s, off + 40),
            minor_operating_system_version: le_u16(s, off + 42),
            major_image_version: le_u16(s, off + 44),
            minor_image_version: le_u16(s, off + 46),
            major_subsystem_version: le_u16(s, off + 48),
            minor_subsystem_version: le_u16(s, off + 50),
            win32_version_value: le_u32(s, off + 52),
            size_of_image: le_u32(s, off + 56),
            size_of_headers: le_u32(s, off + 60),
            check_sum: le_u32(s, off + 64),
            subsystem: le_u16(s, off + 68),
            dll_characteristics: le_u16(s, off + 70),
            size_of_stack_reserve: le_u64(s, off + 72),
            size_of_stack_commit: le_u64(s, off + 80),
            size_of_heap_reserve: le_u64(s, off + 88),
            size_of_heap_commit: le_u64(s, off + 96),
            loader_flags: le_u32(s, off + 104),
            number_of_rva_and_sizes: le_u32(s, off + 108),
            data_directory: [IMAGE_DATA_DIRECTORY::spec_read(s, off + 112 + 0), IMAGE_DATA_DIRECTORY::spec_read(s, off + 112 + 8), IMAGE_DATA_DIRECTORY::spec_read(s, off + 112 + 16), IMAGE_DATA_DIRECTORY::spec_read(s, off + 112 + 24), IMAGE_DATA_DIRECTORY::spec_read(s, off + 112 + 32), IMAGE_DATA_DIRECTORY::spec_read(s, off + 112 + 40), IMAGE_DATA_DIRECTORY::spec_read(s, off + 112 + 48), IMAGE_DATA_DIRECTORY::spec_read(s, off + 112 + 56), IMAGE_DATA_DIRECTORY::spec_read(s, off + 112 + 64), IMAGE_DATA_DIRECTORY::spec_read(s, off + 112 + 72), IMAGE_DATA_DIRECTORY::spec_read(s, off + 112 + 80), IMAGE_DATA_DIRECTORY::spec_read(s, off + 112 + 88), IMAGE_DATA_DIRECTORY::spec_read(s, off + 112 + 96), IMAGE_DATA_DIRECTORY::spec_read(s, off + 112 + 104), IMAGE_DATA_DIRECTORY::spec_read(s, off + 112 + 112), IMAGE_DATA_DIRECTORY::spec_read(s, off + 112 + 120)],
        }
    }

    proof fn lemma_read_window(s1: Seq<u8>, o1: int, s2: Seq<u8>, o2: int) {
        lemma_sub_window(s1, o1, s2, o2, 240, 0, 2);
        lemma_le_window(s1, o1 + 0, s2, o2 + 0, 2);
        lemma_sub_window(s1, o1, s2, o2, 240, 2, 1);
        assert(s1[o1 + 2] == s2[o2 + 2]);
        lemma_sub_window(s1, o1, s2, o2, 240, 3, 1);
        assert(s1[o1 + 3] == s2[o2 + 3]);
        lemma_sub_window(s1, o1, s2, o2, 240, 4, 4);
        lemma_le_window(s1, o1 + 4, s2, o2 + 4, 4);
        lemma_sub_window(s1, o1, s2, o2, 240, 8, 4);
        lemma_le_window(s1, o1 + 8, s2, o2 + 8, 4);
        lemma_sub_window(s1, o1, s2, o2, 240, 12, 4);
        lemma_le_window(s1, o1 + 12, s2, o2 + 12, 4);
        lemma_sub_window(s1, o1, s2, o2, 240, 16, 4);
        lemma_le_window(s1, o1 + 16, s2, o2 + 16, 4);
        lemma_sub_window(s1, o1, s2, o2, 240, 20, 4);
        lemma_le_window(s1, o1 + 20, s2, o2 + 20, 4);
        lemma_sub_window(s1, o1, s2, o2, 240, 24, 8);
        lemma_le_window(s1, o1 + 24, s2, o2 + 24, 8);
        lemma_sub_window(s1, o1, s2, o2, 240, 32, 4);
        lemma_le_window(s1, o1 + 32, s2, o2 + 32, 4);
        lemma_sub_window(s1, o1, s2, o2, 240, 36, 4);
        lemma_le_window(s1, o1 + 36, s2, o2 + 36, 4);
        lemma_sub_window(s1, o1, s2, o2, 240, 40, 2);
        lemma_le_window(s1, o1 + 40, s2, o2 + 40, 2);
        lemma_sub_window(s1, o1, s2, o2, 240, 42, 2);
        lemma_le_window(s1, o1 + 42, s2, o2 + 42, 2);
        lemma_sub_window(s1, o1, s2, o2, 240, 44, 2);
        lemma_le_window(s1, o1 + 44, s2, o2 + 44, 2);
        lemma_sub_window(s1, o1, s2, o2, 240, 46, 2);
        lemma_le_window(s1, o1 + 46, s2, o2 + 46, 2);
        lemma_sub_window(s1, o1, s2, o2, 240, 48, 2);
        lemma_le_window(s1, o1 + 48, s2, o2 + 48, 2);
        lemma_sub_window(s1, o1, s2, o2, 240, 50, 2);
        lemma_le_window(s1, o1 + 50, s2, o2 + 50, 2);
        lemma_sub_window(s1, o1, s2, o2, 240, 52, 4);
        lemma_le_window(s1, o1 + 52, s2, o2 + 52, 4);
        lemma_sub_window(s1, o1, s2, o2, 240, 56, 4);
        lemma_le_window(s1, o1 + 56, s2, o2 + 56, 4);
        lemma_sub_window(s1, o1, s2, o2, 240, 60, 4);
        lemma_le_window(s1, o1 + 60, s2, o2 + 60, 4);
        lemma_sub_window(s1, o1, s2, o2, 240, 64, 4);
        lemma_le_window(s1, o1 + 64, s2, o2 + 64, 4);
        lemma_sub_window(s1, o1, s2, o2, 240, 68, 2);
        lemma_le_window(s1, o1 + 68, s2, o2 + 68, 2);
        lemma_sub_window(s1, o1, s2, o2, 240, 70, 2);
        lemma_le_window(s1, o1 + 70, s2, o2 + 70, 2);
        lemma_sub_window(s1, o1, s2, o2, 240, 72, 8);
        lemma_le_window(s1, o1 + 72, s2, o2 + 72, 8);
        lemma_sub_window(s1, o1, s2, o2, 240, 80, 8);
        lemma_le_window(s1, o1 + 80, s2, o2 + 80, 8);
        lemma_sub_window(s1, o1, s2, o2, 240, 88, 8);
        lemma_le_window(s1, o1 + 88, s2, o2 + 88, 8);
        lemma_sub_window(s1, o1, s2, o2, 240, 96, 8);
        lemma_le_window(s1, o1 + 96, s2, o2 + 96, 8);
        lemma_sub_window(s1, o1, s2, o2, 240, 104, 4);
        lemma_le_window(s1, o1 + 104, s2, o2 + 104, 4);
        lemma_sub_window(s1, o1, s2, o2, 240, 108, 4);
        lemma_le_window(s1, o1 + 108, s2, o2 + 108, 4);
        lemma_sub_window(s1, o1, s2, o2, 240, 112, 8);
        IMAGE_DATA_DIRECTORY::lemma_read_window(s1, o1 + 112, s2, o2 + 112);
        lemma_sub_window(s1, o1, s2, o2, 240, 120, 8);
        IMAGE_DATA_DIRECTORY::lemma_read_window(s1, o1 + 120, s2, o2 + 120);
        lemma_sub_window(s1, o1, s2, o2, 240, 128, 8);
        IMAGE_DATA_DIRECTORY::lemma_read_window(s1, o1 + 128, s2, o2 + 128);
        lemma_sub_window(s1, o1, s2, o2, 240, 136, 8);
        IMAGE_DATA_DIRECTORY::lemma_read_window(s1, o1 + 136, s2, o2 + 136);
        lemma_sub_window(s1, o1, s2, o2, 240, 144, 8);
        IMAGE_DATA_DIRECTORY::lemma_read_window(s1, o1 + 144, s2, o2 + 144);
        lemma_sub_window(s1, o1, s2, o2, 240, 152, 8);
        IMAGE_DATA_DIRECTORY::lemma_read_window(s1, o1 + 152, s2, o2 + 152);
        lemma_sub_window(s1, o1, s2, o2, 240, 160, 8);
        IMAGE_DATA_DIRECTORY::lemma_read_window(s1, o1 + 160, s2, o2 + 160);
        lemma_sub_window(s1, o1, s2, o2, 240, 168, 8);
        IMAGE_DATA_DIRECTORY::lemma_read_window(s1, o1 + 168, s2, o2 + 168);
        lemma_sub_window(s1, o1, s2, o2, 240, 176, 8);
        IMAGE_DATA_DIRECTORY::lemma_read_window(s1, o1 + 176, s2, o2 + 176);
        lemma_sub_window(s1, o1, s2, o2, 240, 184, 8);
        IMAGE_DATA_DIRECTORY::lemma_read_window(s1, o1 + 184, s2, o2 + 184);
        lemma_sub_window(s1, o1, s2, o2, 240, 192, 8);
        IMAGE_DATA_DIRECTORY::lemma_read_window(s1, o1 + 192, s2, o2 + 192);
        lemma_sub_window(s1, o1, s2, o2, 240, 200, 8);
        IMAGE_DATA_DIRECTORY::lemma_read_window(s1, o1 + 200, s2, o2 + 200);
        lemma_sub_window(s1, o1, s2, o2, 240, 208, 8);
        IMAGE_DATA_DIRECTORY::lemma_read_window(s1, o1 + 208, s2, o2 + 208);
        lemma_sub_window(s1, o1, s2, o2, 240, 216, 8);
        IMAGE_DATA_DIRECTORY::lemma_read_window(s1, o1 + 216, s2, o2 + 216);
        lemma_sub_window(s1, o1, s2, o2, 240, 224, 8);
        IMAGE_DATA_DIRECTORY::lemma_read_window(s1, o1 + 224, s2, o2 + 224);
        lemma_sub_window(s1, o1, s2, o2, 240, 232, 8);
        IMAGE_DATA_DIRECTORY::lemma_read_window(s1, o1 + 232, s2, o2 + 232);
    }

    fn size() -> (n: usize) {
        240
    }

    fn read(bytes: &[u8], off: usize) -> (r: Self) {
        assert(bytes@.len() == bytes.len());
        IMAGE_OPTIONAL_HEADER64 {
            magic: read_u16(bytes, off + 0),
            major_linker_version: bytes[off + 2],
            minor_linker_version: bytes[off + 3],
            size_of_code: read_u32(bytes, off + 4),
            size_of_initialized_data: read_u32(bytes, off + 8),
            size_of_uninitialized_data: read_u32(bytes, off + 12),
            address_of_entry_point: read_u32(bytes, off + 16),
            base_of_code: read_u32(bytes, off + 20),
            image_base: read_u64(bytes, off + 24),
            section_alignment: read_u32(bytes, off + 32),
            file_alignment: read_u32(bytes, off + 36),
            major_operating_system_version: read_u16(bytes, off + 40),
            minor_operating_system_version: read_u16(bytes, off + 42),
            major_image_version: read_u16(bytes, off + 44),
            minor_image_version: read_u16(bytes, off + 46),
            major_subsystem_version: read_u16(bytes, off + 48),
            minor_subsystem_version: read_u16(bytes, off + 50),
            win32_version_value: read_u32(bytes, off + 52),
            size_of_image: read_u32(bytes, off + 56),
            size_of_headers: read_u32(bytes, off + 60),
            check_sum: read_u32(bytes, off + 64),
            subsystem: read_u16(bytes, off + 68),
            dll_characteristics: read_u16(bytes, off + 70),
            size_of_stack_reserve: read_u64(bytes, off + 72),
            size_of_stack_commit: read_u64(bytes, off + 80),
            size_of_heap_reserve: read_u64(bytes, off + 88),
            size_of_heap_commit: read_u64(bytes, off + 96),
            loader_flags: read_u32(bytes, off + 104),
            number_of_rva_and_sizes: read_u32(bytes, off + 108),
            data_directory: [IMAGE_DATA_DIRECTORY::read(bytes, off + 112 + 0), IMAGE_DATA_DIRECTORY::read(bytes, off + 112 + 8), IMAGE_DATA_DIRECTORY::read(bytes, off + 112 + 16), IMAGE_DATA_DIRECTORY::read(bytes, off + 112 + 24), IMAGE_DATA_DIRECTORY::read(bytes, off + 112 + 32), IMAGE_DATA_DIRECTORY::read(bytes, off + 112 + 40), IMAGE_DATA_DIRECTORY::read(bytes, off + 112 + 48), IMAGE_DATA_DIRECTORY::read(bytes, off + 112 + 56), IMAGE_DATA_DIRECTORY::read(bytes, off + 112 + 64), IMAGE_DATA_DIRECTORY::read(bytes, off + 112 + 72), IMAGE_DATA_DIRECTORY::read(bytes, off + 112 + 80), IMAGE_DATA_DIRECTORY::read(bytes, off + 112 + 88), IMAGE_DATA_DIRECTORY::read(bytes, off + 112 + 96), IMAGE_DATA_DIRECTORY::read(bytes, off + 112 + 104), IMAGE_DATA_DIRECTORY::read(bytes, off + 112 + 112), IMAGE_DATA_DIRECTORY::read(bytes, off + 112 + 120)],
        }
    }
}

impl IMAGE_OPTIONAL_HEADER64 {
    /// The bytes that store the record, field after field.
    #[verifier::opaque]
    pub open spec fn spec_bytes(self) -> Seq<u8> {
        Seq::<u8>::empty() + self.spec_bytes_part_0() + self.spec_bytes_part_1() + self.spec_bytes_part_2() + self.spec_bytes_part_3() + self.spec_bytes_part_4() + self.spec_bytes_part_5() + self.spec_bytes_part_6() + self.spec_bytes_part_7()
    }

    /// The bytes of the fields from offset 0 on, up to offset 16.
    #[verifier::opaque]
    pub open spec fn spec_bytes_part_0(self) -> Seq<u8> {
        Seq::<u8>::empty() + u16_bytes(self.magic) + u8_bytes(self.major_linker_version) + u8_bytes(self.minor_linker_version) + u32_bytes(self.size_of_code) + u32_bytes(self.size_of_initialized_data) + u32_bytes(self.size_of_uninitialized_data)
    }

    /// The bytes of the fields from offset 16 on, up to offset 42.
    #[verifier::opaque]
    pub open spec fn spec_bytes_part_1(self) -> Seq<u8> {
        Seq::<u8>::empty() + u32_bytes(self.address_of_entry_point) + u32_bytes(self.base_of_code) + u64_bytes(self.image_base) + u32_bytes(self.section_alignment) + u32_bytes(self.file_alignment) + u16_bytes(self.major_operating_system_version)
    }

    /// The bytes of the fields from offset 42 on, up to offset 56.
    #[verifier::opaque]
    pub open spec fn spec_bytes_part_2(self) -> Seq<u8> {
        Seq::<u8>::empty() + u16_bytes(self.minor_operating_system_version) + u16_bytes(self.major_image_version) + u16_bytes(self.minor_image_version) + u16_bytes(self.major_subsystem_version) + u16_bytes(self.minor_subsystem_version) + u32_bytes(self.win32_version_value)
    }

    /// The bytes of the fields from offset 56 on, up to offset 80.
    #[verifier::opaque]
    pub open spec fn spec_bytes_part_3(self) -> Seq<u8> {
        Seq::<u8>::empty() + u32_bytes(self.size_of_image) + u32_bytes(self.size_of_headers) + u32_bytes(self.check_sum) + u16_bytes(self.subsystem) + u16_bytes(self.dll_characteristics) + u64_bytes(self.size_of_stack_reserve)
    }

    /// The bytes of the fields from offset 80 on, up to offset 120.
    #[verifier::opaque]
    pub open spec fn spec_bytes_part_4(self) -> Seq<u8> {
        Seq::<u8>::empty() + u64_bytes(self.size_of_stack_commit) + u64_bytes(self.size_of_heap_reserve) + u64_bytes(self.size_of_heap_commit) + u32_bytes(self.loader_flags) + u32_bytes(self.number_of_rva_and_sizes) + self.data_directory[0].spec_bytes()
    }

    /// The bytes of the fields from offset 120 on, up to offset 168.
    #[verifier::opaque]
    pub open spec fn spec_bytes_part_5(self) -> Seq<u8> {
        Seq::<u8>::empty() + self.data_directory[1].spec_bytes() + self.data_directory[2].spec_bytes() + self.data_directory[3].spec_bytes() + self.data_directory[4].spec_bytes() + self.data_directory[5].spec_bytes() + self.data_directory[6].spec_bytes()
    }

    /// The bytes of the fields from offset 168 on, up to offset 216.
    #[verifier::opaque]
    pub open spec fn spec_bytes_part_6(self) -> Seq<u8> {
        Seq::<u8>::empty() + self.data_directory[7].spec_bytes() + self.data_directory[8].spec_bytes() + self.data_directory[9].spec_bytes() + self.data_directory[10].spec_bytes() + self.data_directory[11].spec_bytes() + self.data_directory[12].spec_bytes()
    }

    /// The bytes of the fields from offset 216 on, up to offset 240.
    #[verifier::opaque]
    pub open spec fn spec_bytes_part_7(self) -> Seq<u8> {
        Seq::<u8>::empty() + self.data_directory[13].spec_bytes() + self.data_directory[14].spec_bytes() + self.data_directory[15].spec_bytes()
    }

    /// The bytes that store the record.
    #[verifier::rlimit(50)]
    #[verifier::spinoff_prover]
    pub fn to_le_bytes(&self) -> (r: Vec<u8>)
        ensures
            r@ == self.spec_bytes(),
    {
        proof {
            reveal(IMAGE_OPTIONAL_HEADER64::spec_bytes);
            reveal(IMAGE_OPTIONAL_HEADER64::spec_bytes_part_0);
            reveal(IMAGE_OPTIONAL_HEADER64::spec_bytes_part_1);
            reveal(IMAGE_OPTIONAL_HEADER64::spec_bytes_part_2);
            reveal(IMAGE_OPTIONAL_HEADER64::spec_bytes_part_3);
            reveal(IMAGE_OPTIONAL_HEADER64::spec_bytes_part_4);
            reveal(IMAGE_OPTIONAL_HEADER64::spec_bytes_part_5);
            reveal(IMAGE_OPTIONAL_HEADER64::spec_bytes_part_6);
            reveal(IMAGE_OPTIONAL_HEADER64::spec_bytes_part_7);
        }
        let mut r: Vec<u8> = Vec::new();
        {
            let mut c: Vec<u8> = Vec::new();
            c.extend_from_slice(&le_bytes_u16(self.magic));
            c.extend_from_slice(&le_bytes_u8(self.major_linker_version));
            c.extend_from_slice(&le_bytes_u8(self.minor_linker_version));
            c.extend_from_slice(&le_bytes_u32(self.size_of_code));
            c.extend_from_slice(&le_bytes_u32(self.size_of_initialized_data));
            c.extend_from_slice(&le_bytes_u32(self.size_of_uninitialized_data));
            r.append(&mut c);
        }
        {
            let mut c: Vec<u8> = Vec::new();
            c.extend_from_slice(&le_bytes_u32(self.address_of_entry_point));
            c.extend_from_slice(&le_bytes_u32(self.base_of_code));
            c.extend_from_slice(&le_bytes_u64(self.image_base));
            c.extend_from_slice(&le_bytes_u32(self.section_alignment));
            c.extend_from_slice(&le_bytes_u32(self.file_alignment));
            c.extend_from_slice(&le_bytes_u16(self.major_operating_system_version));
            r.append(&mut c);
        }
        {
            let mut c: Vec<u8> = Vec::new();
            c.extend_from_slice(&le_bytes_u16(self.minor_operating_system_version));
            c.extend_from_slice(&le_bytes_u16(self.major_image_version));
            c.extend_from_slice(&le_bytes_u16(self.minor_image_version));
            c.extend_from_slice(&le_bytes_u16(self.major_subsystem_version));
            c.extend_from_slice(&le_bytes_u16(self.minor_subsystem_version));
            c.extend_from_slice(&le_bytes_u32(self.win32_version_value));
            r.append(&mut c);
        }
        {
            let mut c: Vec<u8> = Vec::new();
            c.extend_from_slice(&le_bytes_u32(self.size_of_image));
            c.extend_from_slice(&le_bytes_u32(self.size_of_headers));
            c.extend_from_slice(&le_bytes_u32(self.check_sum));
            c.extend_from_slice(&le_bytes_u16(self.subsystem));
            c.extend_from_slice(&le_bytes_u16(self.dll_characteristics));
            c.extend_from_slice(&le_bytes_u64(self.size_of_stack_reserve));
            r.append(&mut c);
        }
        {
            let mut c: Vec<u8> = Vec::new();
            c.extend_from_slice(&le_bytes_u64(self.size_of_stack_commit));
            c.extend_from_slice(&le_bytes_u64(self.size_of_heap_reserve));
            c.extend_from_slice(&le_bytes_u64(self.size_of_heap_commit));
            c.extend_from_slice(&le_bytes_u32(self.loader_flags));
            c.extend_from_slice(&le_bytes_u32(self.number_of_rva_and_sizes));
            c.extend_from_slice(self.data_directory[0].to_le_bytes().as_slice());
            r.append(&mut c);
        }
        {
            let mut c: Vec<u8> = Vec::new();
            c.extend_from_slice(self.data_directory[1].to_le_bytes().as_slice());
            c.extend_from_slice(self.data_directory[2].to_le_bytes().as_slice());
            c.extend_from_slice(self.data_directory[3].to_le_bytes().as_slice());
            c.extend_from_slice(self.data_directory[4].to_le_bytes().as_slice());
            c.extend_from_slice(self.data_directory[5].to_le_bytes().as_slice());
            c.extend_from_slice(self.data_directory[6].to_le_bytes().as_slice());
            r.append(&mut c);
        }
        {
            let mut c: Vec<u8> = Vec::new();
            c.extend_from_slice(self.data_directory[7].to_le_bytes().as_slice());
            c.extend_from_slice(self.data_directory[8].to_le_bytes().as_slice());
            c.extend_from_slice(self.data_directory[9].to_le_bytes().as_slice());
            c.extend_from_slice(self.data_directory[10].to_le_bytes().as_slice());
            c.extend_from_slice(self.data_directory[11].to_le_bytes().as_slice());
            c.extend_from_slice(self.data_directory[12].to_le_bytes().as_slice());
            r.append(&mut c);
        }
        {
            let mut c: Vec<u8> = Vec::new();
            c.extend_from_slice(self.data_directory[13].to_le_bytes().as_slice());
            c.extend_from_slice(self.data_directory[14].to_le_bytes().as_slice());
            c.extend_from_slice(self.data_directory[15].to_le_bytes().as_slice());
            r.append(&mut c);
        }
        r
    }
}

impl IMAGE_OPTIONAL_HEADER64 {
    /// The record is stored in 240 bytes.
    pub proof fn lemma_bytes_len(self)
        ensures
            self.spec_bytes().len() == 240,
    {
        reveal(IMAGE_OPTIONAL_HEADER64::spec_bytes);
        self.data_directory[0].lemma_bytes_len();
        self.data_directory[1].lemma_bytes_len();
        self.data_directory[2].lemma_bytes_len();
        self.data_directory[3].lemma_bytes_len();
        self.data_directory[4].lemma_bytes_len();
        self.data_directory[5].lemma_bytes_len();
        self.data_directory[6].lemma_bytes_len();
        self.data_directory[7].lemma_bytes_len();
        self.data_directory[8].lemma_bytes_len();
        self.data_directory[9].lemma_bytes_len();
        self.data_directory[10].lemma_bytes_len();
        self.data_directory[11].lemma_bytes_len();
        self.data_directory[12].lemma_bytes_len();
        self.data_directory[13].lemma_bytes_len();
        self.data_directory[14].lemma_bytes_len();
        self.data_directory[15].lemma_bytes_len();
        assert(self.spec_bytes_part_0().len() == 16) by {
            reveal(IMAGE_OPTIONAL_HEADER64::spec_bytes_part_0);
        }
        assert(self.spec_bytes_part_1().len() == 26) by {
            reveal(IMAGE_OPTIONAL_HEADER64::spec_bytes_part_1);
        }
        assert(self.spec_bytes_part_2().len() == 14) by {
            reveal(IMAGE_OPTIONAL_HEADER64::spec_bytes_part_2);
        }
        assert(self.spec_bytes_part_3().len() == 24) by {
            reveal(IMAGE_OPTIONAL_HEADER64::spec_bytes_part_3);
        }
        assert(self.spec_bytes_part_4().len() == 40) by {
            reveal(IMAGE_OPTIONAL_HEADER64::spec_bytes_part_4);
        }
        assert(self.spec_bytes_part_5().len() == 48) by {
            reveal(IMAGE_OPTIONAL_HEADER64::spec_bytes_part_5);
        }
        assert(self.spec_bytes_part_6().len() == 48) by {
            reveal(IMAGE_OPTIONAL_HEADER64::spec_bytes_part_6);
        }
        assert(self.spec_bytes_part_7().len() == 24) by {
            reveal(IMAGE_OPTIONAL_HEADER64::spec_bytes_part_7);
        }
    }

    /// The fields from offset 0 on read back from the record's bytes.
    #[verifier::rlimit(100)]
    #[verifier::spinoff_prover]
    proof fn lemma_bytes_roundtrip_part_0(self)
        ensures
            Self::spec_read(self.spec_bytes(), 0).magic == self.magic,
            Self::spec_read(self.spec_bytes(), 0).major_linker_version == self.major_linker_version,
            Self::spec_read(self.spec_bytes(), 0).minor_linker_version == self.minor_linker_version,
            Self::spec_read(self.spec_bytes(), 0).size_of_code == self.size_of_code,
            Self::spec_read(self.spec_bytes(), 0).size_of_initialized_data == self.size_of_initialized_data,
            Self::spec_read(self.spec_bytes(), 0).size_of_uninitialized_data == self.size_of_uninitialized_data,
    {
        reveal(IMAGE_OPTIONAL_HEADER64::spec_bytes);
        self.data_directory[0].lemma_bytes_len();
        self.data_directory[1].lemma_bytes_len();
        self.data_directory[2].lemma_bytes_len();
        self.data_directory[3].lemma_bytes_len();
        self.data_directory[4].lemma_bytes_len();
        self.data_directory[5].lemma_bytes_len();
        self.data_directory[6].lemma_bytes_len();
        self.data_directory[7].lemma_bytes_len();
        self.data_directory[8].lemma_bytes_len();
        self.data_directory[9].lemma_bytes_len();
        self.data_directory[10].lemma_bytes_len();
        self.data_directory[11].lemma_bytes_len();
        self.data_directory[12].lemma_bytes_len();
        self.data_directory[13].lemma_bytes_len();
        self.data_directory[14].lemma_bytes_len();
        self.data_directory[15].lemma_bytes_len();
        assert(self.spec_bytes_part_0().len() == 16) by {
            reveal(IMAGE_OPTIONAL_HEADER64::spec_bytes_part_0);
        }
        assert(self.spec_bytes_part_1().len() == 26) by {
            reveal(IMAGE_OPTIONAL_HEADER64::spec_bytes_part_1);
        }
        assert(self.spec_bytes_part_2().len() == 14) by {
            reveal(IMAGE_OPTIONAL_HEADER64::spec_bytes_part_2);
        }
        assert(self.spec_bytes_part_3().len() == 24) by {
            reveal(IMAGE_OPTIONAL_HEADER64::spec_bytes_part_3);
        }
        assert(self.spec_bytes_part_4().len() == 40) by {
            reveal(IMAGE_OPTIONAL_HEADER64::spec_bytes_part_4);
        }
        assert(self.spec_bytes_part_5().len() == 48) by {
            reveal(IMAGE_OPTIONAL_HEADER64::spec_bytes_part_5);
        }
        assert(self.spec_bytes_part_6().len() == 48) by {
            reveal(IMAGE_OPTIONAL_HEADER64::spec_bytes_part_6);
        }
        assert(self.spec_bytes_part_7().len() == 24) by {
            reveal(IMAGE_OPTIONAL_HEADER64::spec_bytes_part_7);
        }
        let b = self.spec_bytes();
        let r = Self::spec_read(b, 0);
        assert(r.magic == self.magic) by {
            reveal(IMAGE_OPTIONAL_HEADER64::spec_bytes_part_0);
            assert(b[0int] == (u16_bytes(self.magic))[0int]);
            assert(b[1int] == (u16_bytes(self.magic))[1int]);
            lemma_u16_roundtrip(self.magic);
        }
        assert(r.major_linker_version == self.major_linker_version) by {
            reveal(IMAGE_OPTIONAL_HEADER64::spec_bytes_part_0);
            assert(b[2int] == (u8_bytes(self.major_linker_version))[0int]);
        }
        assert(r.minor_linker_version == self.minor_linker_version) by {
            reveal(IMAGE_OPTIONAL_HEADER64::spec_bytes_part_0);
            assert(b[3int] == (u8_bytes(self.minor_linker_version))[0int]);
        }
        assert(r.size_of_code == self.size_of_code) by {
            reveal(IMAGE_OPTIONAL_HEADER64::spec_bytes_part_0);
            assert(b[4int] == (u32_bytes(self.size_of_code))[0int]);
            assert(b[5int] == (u32_bytes(self.size_of_code))[1int]);
            assert(b[6int] == (u32_bytes(self.size_of_code))[2int]);
            assert(b[7int] == (u32_bytes(self.size_of_code))[3int]);
            lemma_u32_roundtrip(self.size_of_code);
        }
        assert(r.size_of_initialized_data == self.size_of_initialized_data) by {
            reveal(IMAGE_OPTIONAL_HEADER64::spec_bytes_part_0);
            assert(b[8int] == (u32_bytes(self.size_of_initialized_data))[0int]);
            assert(b[9int] == (u32_bytes(self.size_of_initialized_data))[1int]);
            assert(b[10int] == (u32_bytes(self.size_of_initialized_data))[2int]);
            assert(b[11int] == (u32_bytes(self.size_of_initialized_data))[3int]);
            lemma_u32_roundtrip(self.size_of_initialized_data);
        }
        assert(r.size_of_uninitialized_data == self.size_of_uninitialized_data) by {
            reveal(IMAGE_OPTIONAL_HEADER64::spec_bytes_part_0);
            assert(b[12int] == (u32_bytes(self.size_of_uninitialized_data))[0int]);
            assert(b[13int] == (u32_bytes(self.size_of_uninitialized_data))[1int]);
            assert(b[14int] == (u32_bytes(self.size_of_uninitialized_data))[2int]);
            assert(b[15int] == (u32_bytes(self.size_of_uninitialized_data))[3int]);
            lemma_u32_roundtrip(self.size_of_uninitialized_data);
        }
    }

    /// The fields from offset 16 on read back from the record's bytes.
    #[verifier::rlimit(100)]
    #[verifier::spinoff_prover]
    proof fn lemma_bytes_roundtrip_part_1(self)
        ensures
            Self::spec_read(self.spec_bytes(), 0).address_of_entry_point == self.address_of_entry_point,
            Self::spec_read(self.spec_bytes(), 0).base_of_code == self.base_of_code,
            Self::spec_read(self.spec_bytes(), 0).image_base == self.image_base,
            Self::spec_read(self.spec_bytes(), 0).section_alignment == self.section_alignment,
            Self::spec_read(self.spec_bytes(), 0).file_alignment == self.file_alignment,
            Self::spec_read(self.spec_bytes(), 0).major_operating_system_version == self.major_operating_system_version,
    {
        reveal(IMAGE_OPTIONAL_HEADER64::spec_bytes);
        self.data_directory[0].lemma_bytes_len();
        self.data_directory[1].lemma_bytes_len();
        self.data_directory[2].lemma_bytes_len();
        self.data_directory[3].lemma_bytes_len();
        self.data_directory[4].lemma_bytes_len();
        self.data_directory[5].lemma_bytes_len();
        self.data_directory[6].lemma_bytes_len();
        self.data_directory[7].lemma_bytes_len();
        self.data_directory[8].lemma_bytes_len();
        self.data_directory[9].lemma_bytes_len();
        self.data_directory[10].lemma_bytes_len();
        self.data_directory[11].lemma_bytes_len();
        self.data_directory[12].lemma_bytes_len();
        self.data_directory[13].lemma_bytes_len();
        self.data_directory[14].lemma_bytes_len();
        self.data_directory[15].lemma_bytes_len();
        assert(self.spec_bytes_part_0().len() == 16) by {
            reveal(IMAGE_OPTIONAL_HEADER64::spec_bytes_part_0);
        }
        assert(self.spec_bytes_part_1().len() == 26) by {
            reveal(IMAGE_OPTIONAL_HEADER64::spec_bytes_part_1);
        }
        assert(self.spec_bytes_part_2().len() == 14) by {
            reveal(IMAGE_OPTIONAL_HEADER64::spec_bytes_part_2);
        }
        assert(self.spec_bytes_part_3().len() == 24) by {
            reveal(IMAGE_OPTIONAL_HEADER64::spec_bytes_part_3);
        }
        assert(self.spec_bytes_part_4().len() == 40) by {
            reveal(IMAGE_OPTIONAL_HEADER64::spec_bytes_part_4);
        }
        assert(self.spec_bytes_part_5().len() == 48) by {
            reveal(IMAGE_OPTIONAL_HEADER64::spec_bytes_part_5);
        }
        assert(self.spec_bytes_part_6().len() == 48) by {
            reveal(IMAGE_OPTIONAL_HEADER64::spec_bytes_part_6);
        }
        assert(self.spec_bytes_part_7().len() == 24) by {
            reveal(IMAGE_OPTIONAL_HEADER64::spec_bytes_part_7);
        }
        let b = self.spec_bytes();
        let r = Self::spec_read(b, 0);
        assert(r.address_of_entry_point == self.address_of_entry_point) by {
            reveal(IMAGE_OPTIONAL_HEADER64::spec_bytes_part_1);
            assert(b[16int] == (u32_bytes(self.address_of_entry_point))[0int]);
            assert(b[17int] == (u32_bytes(self.address_of_entry_point))[1int]);
            assert(b[18int] == (u32_bytes(self.address_of_entry_point))[2int]);
            assert(b[19int] == (u32_bytes(self.address_of_entry_point))[3int]);
            lemma_u32_roundtrip(self.address_of_entry_point);
        }
        assert(r.base_of_code == self.base_of_code) by {
            reveal(IMAGE_OPTIONAL_HEADER64::spec_bytes_part_1);
            assert(b[20int] == (u32_bytes(self.base_of_code))[0int]);
            assert(b[21int] == (u32_bytes(self.base_of_code))[1int]);
            assert(b[22int] == (u32_bytes(self.base_of_code))[2int]);
            assert(b[23int] == (u32_bytes(self.base_of_code))[3int]);
            lemma_u32_roundtrip(self.base_of_code);
        }
        assert(r.image_base == self.image_base) by {
            reveal(IMAGE_OPTIONAL_HEADER64::spec_bytes_part_1);
            assert(b[24int] == (u64_bytes(self.image_base))[0int]);
            assert(b[25int] == (u64_bytes(self.image_base))[1int]);
            assert(b[26int] == (u64_bytes(self.image_base))[2int]);
            assert(b[27int] == (u64_bytes(self.image_base))[3int]);
            assert(b[28int] == (u64_bytes(self.image_base))[4int]);
            assert(b[29int] == (u64_bytes(self.image_base))[5int]);
            assert(b[30int] == (u64_bytes(self.image_base))[6int]);
            assert(b[31int] == (u64_bytes(self.image_base))[7int]);
            lemma_u64_roundtrip(self.image_base);
        }
        assert(r.section_alignment == self.section_alignment) by {
            reveal(IMAGE_OPTIONAL_HEADER64::spec_bytes_part_1);
            assert(b[32int] == (u32_bytes(self.section_alignment))[0int]);
            assert(b[33int] == (u32_bytes(self.section_alignment))[1int]);
            assert(b[34int] == (u32_bytes(self.section_alignment))[2int]);
            assert(b[35int] == (u32_bytes(self.section_alignment))[3int]);
            lemma_u32_roundtrip(self.section_alignment);
        }
        assert(r.file_alignment == self.file_alignment) by {
            reveal(IMAGE_OPTIONAL_HEADER64::spec_bytes_part_1);
            assert(b[36int] == (u32_bytes(self.file_alignment))[0int]);
            assert(b[37int] == (u32_bytes(self.file_alignment))[1int]);
            assert(b[38int] == (u32_bytes(self.file_alignment))[2int]);
            assert(b[39int] == (u32_bytes(self.file_alignment))[3int]);
            lemma_u32_roundtrip(self.file_alignment);
        }
        assert(r.major_operating_system_version == self.major_operating_system_version) by {
            reveal(IMAGE_OPTIONAL_HEADER64::spec_bytes_part_1);
            assert(b[40int] == (u16_bytes(self.major_operating_system_version))[0int]);
            assert(b[41int] == (u16_bytes(self.major_operating_system_version))[1int]);
            lemma_u16_roundtrip(self.major_operating_system_version);
        }
    }

    /// The fields from offset 42 on read back from the record's bytes.
    #[verifier::rlimit(100)]
    #[verifier::spinoff_prover]
    proof fn lemma_bytes_roundtrip_part_2(self)
        ensures
            Self::spec_read(self.spec_bytes(), 0).minor_operating_system_version == self.minor_operating_system_version,
            Self::spec_read(self.spec_bytes(), 0).major_image_version == self.major_image_version,
            Self::spec_read(self.spec_bytes(), 0).minor_image_version == self.minor_image_version,
            Self::spec_read(self.spec_bytes(), 0).major_subsystem_version == self.major_subsystem_version,
            Self::spec_read(self.spec_bytes(), 0).minor_subsystem_version == self.minor_subsystem_version,
            Self::spec_read(self.spec_bytes(), 0).win32_version_value == self.win32_version_value,
    {
        reveal(IMAGE_OPTIONAL_HEADER64::spec_bytes);
        self.data_directory[0].lemma_bytes_len();
        self.data_directory[1].lemma_bytes_len();
        self.data_directory[2].lemma_bytes_len();
        self.data_directory[3].lemma_bytes_len();
        self.data_directory[4].lemma_bytes_len();
        self.data_directory[5].lemma_bytes_len();
        self.data_directory[6].lemma_bytes_len();
        self.data_directory[7].lemma_bytes_len();
        self.data_directory[8].lemma_bytes_len();
        self.data_directory[9].lemma_bytes_len();
        self.data_directory[10].lemma_bytes_len();
        self.data_directory[11].lemma_bytes_len();
        self.data_directory[12].lemma_bytes_len();
        self.data_directory[13].lemma_bytes_len();
        self.data_directory[14].lemma_bytes_len();
        self.data_directory[15].lemma_bytes_len();
        assert(self.spec_bytes_part_0().len() == 16) by {
            reveal(IMAGE_OPTIONAL_HEADER64::spec_bytes_part_0);
        }
        assert(self.spec_bytes_part_1().len() == 26) by {
            reveal(IMAGE_OPTIONAL_HEADER64::spec_bytes_part_1);
        }
        assert(self.spec_bytes_part_2().len() == 14) by {
            reveal(IMAGE_OPTIONAL_HEADER64::spec_bytes_part_2);
        }
        assert(self.spec_bytes_part_3().len() == 24) by {
            reveal(IMAGE_OPTIONAL_HEADER64::spec_bytes_part_3);
        }
        assert(self.spec_bytes_part_4().len() == 40) by {
            reveal(IMAGE_OPTIONAL_HEADER64::spec_bytes_part_4);
        }
        assert(self.spec_bytes_part_5().len() == 48) by {
            reveal(IMAGE_OPTIONAL_HEADER64::spec_bytes_part_5);
        }
        assert(self.spec_bytes_part_6().len() == 48) by {
            reveal(IMAGE_OPTIONAL_HEADER64::spec_bytes_part_6);
        }
        assert(self.spec_bytes_part_7().len() == 24) by {
            reveal(IMAGE_OPTIONAL_HEADER64::spec_bytes_part_7);
        }
        let b = self.spec_bytes();
        let r = Self::spec_read(b, 0);
        assert(r.minor_operating_system_version == self.minor_operating_system_version) by {
            reveal(IMAGE_OPTIONAL_HEADER64::spec_bytes_part_2);
            assert(b[42int] == (u16_bytes(self.minor_operating_system_version))[0int]);
            assert(b[43int] == (u16_bytes(self.minor_operating_system_version))[1int]);
            lemma_u16_roundtrip(self.minor_operating_system_version);
        }
        assert(r.major_image_version == self.major_image_version) by {
            reveal(IMAGE_OPTIONAL_HEADER64::spec_bytes_part_2);
            assert(b[44int] == (u16_bytes(self.major_image_version))[0int]);
            assert(b[45int] == (u16_bytes(self.major_image_version))[1int]);
            lemma_u16_roundtrip(self.major_image_version);
        }
        assert(r.minor_image_version == self.minor_image_version) by {
            reveal(IMAGE_OPTIONAL_HEADER64::spec_bytes_part_2);
            assert(b[46int] == (u16_bytes(self.minor_image_version))[0int]);
            assert(b[47int] == (u16_bytes(self.minor_image_version))[1int]);
            lemma_u16_roundtrip(self.minor_image_version);
        }
        assert(r.major_subsystem_version == self.major_subsystem_version) by {
            reveal(IMAGE_OPTIONAL_HEADER64::spec_bytes_part_2);
            assert(b[48int] == (u16_bytes(self.major_subsystem_version))[0int]);
            assert(b[49int] == (u16_bytes(self.major_subsystem_version))[1int]);
            lemma_u16_roundtrip(self.major_subsystem_version);
        }
        assert(r.minor_subsystem_version == self.minor_subsystem_version) by {
            reveal(IMAGE_OPTIONAL_HEADER64::spec_bytes_part_2);
            assert(b[50int] == (u16_bytes(self.minor_subsystem_version))[0int]);
            assert(b[51int] == (u16_bytes(self.minor_subsystem_version))[1int]);
            lemma_u16_roundtrip(self.minor_subsystem_version);
        }
        assert(r.win32_version_value == self.win32_version_value) by {
            reveal(IMAGE_OPTIONAL_HEADER64::spec_bytes_part_2);
            assert(b[52int] == (u32_bytes(self.win32_version_value))[0int]);
            assert(b[53int] == (u32_bytes(self.win32_version_value))[1int]);
            assert(b[54int] == (u32_bytes(self.win32_version_value))[2int]);
            assert(b[55int] == (u32_bytes(self.win32_version_value))[3int]);
            lemma_u32_roundtrip(self.win32_version_value);
        }
    }

    /// The fields from offset 56 on read back from the record's bytes.
    #[verifier::rlimit(100)]
    #[verifier::spinoff_prover]
    proof fn lemma_bytes_roundtrip_part_3(self)
        ensures
            Self::spec_read(self.spec_bytes(), 0).size_of_image == self.size_of_image,
            Self::spec_read(self.spec_bytes(), 0).size_of_headers == self.size_of_headers,
            Self::spec_read(self.spec_bytes(), 0).check_sum == self.check_sum,
            Self::spec_read(self.spec_bytes(), 0).subsystem == self.subsystem,
            Self::spec_read(self.spec_bytes(), 0).dll_characteristics == self.dll_characteristics,
            Self::spec_read(self.spec_bytes(), 0).size_of_stack_reserve == self.size_of_stack_reserve,
    {
        reveal(IMAGE_OPTIONAL_HEADER64::spec_bytes);
        self.data_directory[0].lemma_bytes_len();
        self.data_directory[1].lemma_bytes_len();
        self.data_directory[2].lemma_bytes_len();
        self.data_directory[3].lemma_bytes_len();
        self.data_directory[4].lemma_bytes_len();
        self.data_directory[5].lemma_bytes_len();
        self.data_directory[6].lemma_bytes_len();
        self.data_directory[7].lemma_bytes_len();
        self.data_directory[8].lemma_bytes_len();
        self.data_directory[9].lemma_bytes_len();
        self.data_directory[10].lemma_bytes_len();
        self.data_directory[11].lemma_bytes_len();
        self.data_directory[12].lemma_bytes_len();
        self.data_directory[13].lemma_bytes_len();
        self.data_directory[14].lemma_bytes_len();
        self.data_directory[15].lemma_bytes_len();
        assert(self.spec_bytes_part_0().len() == 16) by {
            reveal(IMAGE_OPTIONAL_HEADER64::spec_bytes_part_0);
        }
        assert(self.spec_bytes_part_1().len() == 26) by {
            reveal(IMAGE_OPTIONAL_HEADER64::spec_bytes_part_1);
        }
        assert(self.spec_bytes_part_2().len() == 14) by {
            reveal(IMAGE_OPTIONAL_HEADER64::spec_bytes_part_2);
        }
        assert(self.spec_bytes_part_3().len() == 24) by {
            reveal(IMAGE_OPTIONAL_HEADER64::spec_bytes_part_3);
        }
        assert(self.spec_bytes_part_4().len() == 40) by {
            reveal(IMAGE_OPTIONAL_HEADER64::spec_bytes_part_4);
        }
        assert(self.spec_bytes_part_5().len() == 48) by {
            reveal(IMAGE_OPTIONAL_HEADER64::spec_bytes_part_5);
        }
        assert(self.spec_bytes_part_6().len() == 48) by {
            reveal(IMAGE_OPTIONAL_HEADER64::spec_bytes_part_6);
        }
        assert(self.spec_bytes_part_7().len() == 24) by {
            reveal(IMAGE_OPTIONAL_HEADER64::spec_bytes_part_7);
        }
        let b = self.spec_bytes();
        let r = Self::spec_read(b, 0);
        assert(r.size_of_image == self.size_of_image) by {
            reveal(IMAGE_OPTIONAL_HEADER64::spec_bytes_part_3);
            assert(b[56int] == (u32_bytes(self.size_of_image))[0int]);
            assert(b[57int] == (u32_bytes(self.size_of_image))[1int]);
            assert(b[58int] == (u32_bytes(self.size_of_image))[2int]);
            assert(b[59int] == (u32_bytes(self.size_of_image))[3int]);
            lemma_u32_roundtrip(self.size_of_image);
        }
        assert(r.size_of_headers == self.size_of_headers) by {
            reveal(IMAGE_OPTIONAL_HEADER64::spec_bytes_part_3);
            assert(b[60int] == (u32_bytes(self.size_of_headers))[0int]);
            assert(b[61int] == (u32_bytes(self.size_of_headers))[1int]);
            assert(b[62int] == (u32_bytes(self.size_of_headers))[2int]);
            assert(b[63int] == (u32_bytes(self.size_of_headers))[3int]);
            lemma_u32_roundtrip(self.size_of_headers);
        }
        assert(r.check_sum == self.check_sum) by {
            reveal(IMAGE_OPTIONAL_HEADER64::spec_bytes_part_3);
            assert(b[64int] == (u32_bytes(self.check_sum))[0int]);
            assert(b[65int] == (u32_bytes(self.check_sum))[1int]);
            assert(b[66int] == (u32_bytes(self.check_sum))[2int]);
            assert(b[67int] == (u32_bytes(self.check_sum))[3int]);
            lemma_u32_roundtrip(self.check_sum);
        }
        assert(r.subsystem == self.subsystem) by {
            reveal(IMAGE_OPTIONAL_HEADER64::spec_bytes_part_3);
            assert(b[68int] == (u16_bytes(self.subsystem))[0int]);
            assert(b[69int] == (u16_bytes(self.subsystem))[1int]);
            lemma_u16_roundtrip(self.subsystem);
        }
        assert(r.dll_characteristics == self.dll_characteristics) by {
            reveal(IMAGE_OPTIONAL_HEADER64::spec_bytes_part_3);
            assert(b[70int] == (u16_bytes(self.dll_characteristics))[0int]);
            assert(b[71int] == (u16_bytes(self.dll_characteristics))[1int]);
            lemma_u16_roundtrip(self.dll_characteristics);
        }
        assert(r.size_of_stack_reserve == self.size_of_stack_reserve) by {
            reveal(IMAGE_OPTIONAL_HEADER64::spec_bytes_part_3);
            assert(b[72int] == (u64_bytes(self.size_of_stack_reserve))[0int]);
            assert(b[73int] == (u64_bytes(self.size_of_stack_reserve))[1int]);
            assert(b[74int] == (u64_bytes(self.size_of_stack_reserve))[2int]);
            assert(b[75int] == (u64_bytes(self.size_of_stack_reserve))[3int]);
            assert(b[76int] == (u64_bytes(self.size_of_stack_reserve))[4int]);
            assert(b[77int] == (u64_bytes(self.size_of_stack_reserve))[5int]);
            assert(b[78int] == (u64_bytes(self.size_of_stack_reserve))[6int]);
            assert(b[79int] == (u64_bytes(self.size_of_stack_reserve))[7int]);
            lemma_u64_roundtrip(self.size_of_stack_reserve);
        }
    }

    /// The fields from offset 80 on read back from the record's bytes.
    #[verifier::rlimit(100)]
    #[verifier::spinoff_prover]
    proof fn lemma_bytes_roundtrip_part_4(self)
        ensures
            Self::spec_read(self.spec_bytes(), 0).size_of_stack_commit == self.size_of_stack_commit,
            Self::spec_read(self.spec_bytes(), 0).size_of_heap_reserve == self.size_of_heap_reserve,
            Self::spec_read(self.spec_bytes(), 0).size_of_heap_commit == self.size_of_heap_commit,
            Self::spec_read(self.spec_bytes(), 0).loader_flags == self.loader_flags,
            Self::spec_read(self.spec_bytes(), 0).number_of_rva_and_sizes == self.number_of_rva_and_sizes,
            Self::spec_read(self.spec_bytes(), 0).data_directory[0] == self.data_directory[0],
    {
        reveal(IMAGE_OPTIONAL_HEADER64::spec_bytes);
        self.data_directory[0].lemma_bytes_len();
        self.data_directory[1].lemma_bytes_len();
        self.data_directory[2].lemma_bytes_len();
        self.data_directory[3].lemma_bytes_len();
        self.data_directory[4].lemma_bytes_len();
        self.data_directory[5].lemma_bytes_len();
        self.data_directory[6].lemma_bytes_len();
        self.data_directory[7].lemma_bytes_len();
        self.data_directory[8].lemma_bytes_len();
        self.data_directory[9].lemma_bytes_len();
        self.data_directory[10].lemma_bytes_len();
        self.data_directory[11].lemma_bytes_len();
        self.data_directory[12].lemma_bytes_len();
        self.data_directory[13].lemma_bytes_len();
        self.data_directory[14].lemma_bytes_len();
        self.data_directory[15].lemma_bytes_len();
        assert(self.spec_bytes_part_0().len() == 16) by {
            reveal(IMAGE_OPTIONAL_HEADER64::spec_bytes_part_0);
        }
        assert(self.spec_bytes_part_1().len() == 26) by {
            reveal(IMAGE_OPTIONAL_HEADER64::spec_bytes_part_1);
        }
        assert(self.spec_bytes_part_2().len() == 14) by {
            reveal(IMAGE_OPTIONAL_HEADER64::spec_bytes_part_2);
        }
        assert(self.spec_bytes_part_3().len() == 24) by {
            reveal(IMAGE_OPTIONAL_HEADER64::spec_bytes_part_3);
        }
        assert(self.spec_bytes_part_4().len() == 40) by {
            reveal(IMAGE_OPTIONAL_HEADER64::spec_bytes_part_4);
        }
        assert(self.spec_bytes_part_5().len() == 48) by {
            reveal(IMAGE_OPTIONAL_HEADER64::spec_bytes_part_5);
        }
        assert(self.spec_bytes_part_6().len() == 48) by {
            reveal(IMAGE_OPTIONAL_HEADER64::spec_bytes_part_6);
        }
        assert(self.spec_bytes_part_7().len() == 24) by {
            reveal(IMAGE_OPTIONAL_HEADER64::spec_bytes_part_7);
        }
        let b = self.spec_bytes();
        let r = Self::spec_read(b, 0);
        assert(r.size_of_stack_commit == self.size_of_stack_commit) by {
            reveal(IMAGE_OPTIONAL_HEADER64::spec_bytes_part_4);
            assert(b[80int] == (u64_bytes(self.size_of_stack_commit))[0int]);
            assert(b[81int] == (u64_bytes(self.size_of_stack_commit))[1int]);
            assert(b[82int] == (u64_bytes(self.size_of_stack_commit))[2int]);
            assert(b[83int] == (u64_bytes(self.size_of_stack_commit))[3int]);
            assert(b[84int] == (u64_bytes(self.size_of_stack_commit))[4int]);
            assert(b[85int] == (u64_bytes(self.size_of_stack_commit))[5int]);
            assert(b[86int] == (u64_bytes(self.size_of_stack_commit))[6int]);
            assert(b[87int] == (u64_bytes(self.size_of_stack_commit))[7int]);
            lemma_u64_roundtrip(self.size_of_stack_commit);
        }
        assert(r.size_of_heap_reserve == self.size_of_heap_reserve) by {
            reveal(IMAGE_OPTIONAL_HEADER64::spec_bytes_part_4);
            assert(b[88int] == (u64_bytes(self.size_of_heap_reserve))[0int]);
            assert(b[89int] == (u64_bytes(self.size_of_heap_reserve))[1int]);
            assert(b[90int] == (u64_bytes(self.size_of_heap_reserve))[2int]);
            assert(b[91int] == (u64_bytes(self.size_of_heap_reserve))[3int]);
            assert(b[92int] == (u64_bytes(self.size_of_heap_reserve))[4int]);
            assert(b[93int] == (u64_bytes(self.size_of_heap_reserve))[5int]);
            assert(b[94int] == (u64_bytes(self.size_of_heap_reserve))[6int]);
            assert(b[95int] == (u64_bytes(self.size_of_heap_reserve))[7int]);
            lemma_u64_roundtrip(self.size_of_heap_reserve);
        }
        assert(r.size_of_heap_commit == self.size_of_heap_commit) by {
            reveal(IMAGE_OPTIONAL_HEADER64::spec_bytes_part_4);
            assert(b[96int] == (u64_bytes(self.size_of_heap_commit))[0int]);
            assert(b[97int] == (u64_bytes(self.size_of_heap_commit))[1int]);
            assert(b[98int] == (u64_bytes(self.size_of_heap_commit))[2int]);
            assert(b[99int] == (u64_bytes(self.size_of_heap_commit))[3int]);
            assert(b[100int] == (u64_bytes(self.size_of_heap_commit))[4int]);
            assert(b[101int] == (u64_bytes(self.size_of_heap_commit))[5int]);
            assert(b[102int] == (u64_bytes(self.size_of_heap_commit))[6int]);
            assert(b[103int] == (u64_bytes(self.size_of_heap_commit))[7int]);
            lemma_u64_roundtrip(self.size_of_heap_commit);
        }
        assert(r.loader_flags == self.loader_flags) by {
            reveal(IMAGE_OPTIONAL_HEADER64::spec_bytes_part_4);
            assert(b[104int] == (u32_bytes(self.loader_flags))[0int]);
            assert(b[105int] == (u32_bytes(self.loader_flags))[1int]);
            assert(b[106int] == (u32_bytes(self.loader_flags))[2int]);
            assert(b[107int] == (u32_bytes(self.loader_flags))[3int]);
            lemma_u32_roundtrip(self.loader_flags);
        }
        assert(r.number_of_rva_and_sizes == self.number_of_rva_and_sizes) by {
            reveal(IMAGE_OPTIONAL_HEADER64::spec_bytes_part_4);
            assert(b[108int] == (u32_bytes(self.number_of_rva_and_sizes))[0int]);
            assert(b[109int] == (u32_bytes(self.number_of_rva_and_sizes))[1int]);
            assert(b[110int] == (u32_bytes(self.number_of_rva_and_sizes))[2int]);
            assert(b[111int] == (u32_bytes(self.number_of_rva_and_sizes))[3int]);
            lemma_u32_roundtrip(self.number_of_rva_and_sizes);
        }
        assert(r.data_directory[0] == self.data_directory[0]) by {
            reveal(IMAGE_OPTIONAL_HEADER64::spec_bytes_part_4);
            self.data_directory[0].lemma_bytes_roundtrip();
            assert(same_window(b, 112, self.data_directory[0].spec_bytes(), 0, 8)) by {
                assert forall|k: int| 0 <= k < 8 implies #[trigger] b[112 + k] == (self.data_directory[0].spec_bytes())[0 + k] by {}
            }
            IMAGE_DATA_DIRECTORY::lemma_read_window(b, 112, self.data_directory[0].spec_bytes(), 0);
        }
    }

    /// The fields from offset 120 on read back from the record's bytes.
    #[verifier::rlimit(100)]
    #[verifier::spinoff_prover]
    proof fn lemma_bytes_roundtrip_part_5(self)
        ensures
            Self::spec_read(self.spec_bytes(), 0).data_directory[1] == self.data_directory[1],
            Self::spec_read(self.spec_bytes(), 0).data_directory[2] == self.data_directory[2],
            Self::spec_read(self.spec_bytes(), 0).data_directory[3] == self.data_directory[3],
            Self::spec_read(self.spec_bytes(), 0).data_directory[4] == self.data_directory[4],
            Self::spec_read(self.spec_bytes(), 0).data_directory[5] == self.data_directory[5],
            Self::spec_read(self.spec_bytes(), 0).data_directory[6] == self.data_directory[6],
    {
        reveal(IMAGE_OPTIONAL_HEADER64::spec_bytes);
        self.data_directory[0].lemma_bytes_len();
        self.data_directory[1].lemma_bytes_len();
        self.data_directory[2].lemma_bytes_len();
        self.data_directory[3].lemma_bytes_len();
        self.data_directory[4].lemma_bytes_len();
        self.data_directory[5].lemma_bytes_len();
        self.data_directory[6].lemma_bytes_len();
        self.data_directory[7].lemma_bytes_len();
        self.data_directory[8].lemma_bytes_len();
        self.data_directory[9].lemma_bytes_len();
        self.data_directory[10].lemma_bytes_len();
        self.data_directory[11].lemma_bytes_len();
        self.data_directory[12].lemma_bytes_len();
        self.data_directory[13].lemma_bytes_len();
        self.data_directory[14].lemma_bytes_len();
        self.data_directory[15].lemma_bytes_len();
        assert(self.spec_bytes_part_0().len() == 16) by {
            reveal(IMAGE_OPTIONAL_HEADER64::spec_bytes_part_0);
        }
        assert(self.spec_bytes_part_1().len() == 26) by {
            reveal(IMAGE_OPTIONAL_HEADER64::spec_bytes_part_1);
        }
        assert(self.spec_bytes_part_2().len() == 14) by {
            reveal(IMAGE_OPTIONAL_HEADER64::spec_bytes_part_2);
        }
        assert(self.spec_bytes_part_3().len() == 24) by {
            reveal(IMAGE_OPTIONAL_HEADER64::spec_bytes_part_3);
        }
        assert(self.spec_bytes_part_4().len() == 40) by {
            reveal(IMAGE_OPTIONAL_HEADER64::spec_bytes_part_4);
        }
        assert(self.spec_bytes_part_5().len() == 48) by {
            reveal(IMAGE_OPTIONAL_HEADER64::spec_bytes_part_5);
        }
        assert(self.spec_bytes_part_6().len() == 48) by {
            reveal(IMAGE_OPTIONAL_HEADER64::spec_bytes_part_6);
        }
        assert(self.spec_bytes_part_7().len() == 24) by {
            reveal(IMAGE_OPTIONAL_HEADER64::spec_bytes_part_7);
        }
        let b = self.spec_bytes();
        let r = Self::spec_read(b, 0);
        assert(r.data_directory[1] == self.data_directory[1]) by {
            reveal(IMAGE_OPTIONAL_HEADER64::spec_bytes_part_5);
            self.data_directory[1].lemma_bytes_roundtrip();
            assert(same_window(b, 120, self.data_directory[1].spec_bytes(), 0, 8)) by {
                assert forall|k: int| 0 <= k < 8 implies #[trigger] b[120 + k] == (self.data_directory[1].spec_bytes())[0 + k] by {}
            }
            IMAGE_DATA_DIRECTORY::lemma_read_window(b, 120, self.data_directory[1].spec_bytes(), 0);
        }
        assert(r.data_directory[2] == self.data_directory[2]) by {
            reveal(IMAGE_OPTIONAL_HEADER64::spec_bytes_part_5);
            self.data_directory[2].lemma_bytes_roundtrip();
            assert(same_window(b, 128, self.data_directory[2].spec_bytes(), 0, 8)) by {
                assert forall|k: int| 0 <= k < 8 implies #[trigger] b[128 + k] == (self.data_directory[2].spec_bytes())[0 + k] by {}
            }
            IMAGE_DATA_DIRECTORY::lemma_read_window(b, 128, self.data_directory[2].spec_bytes(), 0);
        }
        assert(r.data_directory[3] == self.data_directory[3]) by {
            reveal(IMAGE_OPTIONAL_HEADER64::spec_bytes_part_5);
            self.data_directory[3].lemma_bytes_roundtrip();
            assert(same_window(b, 136, self.data_directory[3].spec_bytes(), 0, 8)) by {
                assert forall|k: int| 0 <= k < 8 implies #[trigger] b[136 + k] == (self.data_directory[3].spec_bytes())[0 + k] by {}
            }
            IMAGE_DATA_DIRECTORY::lemma_read_window(b, 136, self.data_directory[3].spec_bytes(), 0);
        }
        assert(r.data_directory[4] == self.data_directory[4]) by {
            reveal(IMAGE_OPTIONAL_HEADER64::spec_bytes_part_5);
            self.data_directory[4].lemma_bytes_roundtrip();
            assert(same_window(b, 144, self.data_directory[4].spec_bytes(), 0, 8)) by {
                assert forall|k: int| 0 <= k < 8 implies #[trigger] b[144 + k] == (self.data_directory[4].spec_bytes())[0 + k] by {}
            }
            IMAGE_DATA_DIRECTORY::lemma_read_window(b, 144, self.data_directory[4].spec_bytes(), 0);
        }
        assert(r.data_directory[5] == self.data_directory[5]) by {
            reveal(IMAGE_OPTIONAL_HEADER64::spec_bytes_part_5);
            self.data_directory[5].lemma_bytes_roundtrip();
            assert(same_window(b, 152, self.data_directory[5].spec_bytes(), 0, 8)) by {
                assert forall|k: int| 0 <= k < 8 implies #[trigger] b[152 + k] == (self.data_directory[5].spec_bytes())[0 + k] by {}
            }
            IMAGE_DATA_DIRECTORY::lemma_read_window(b, 152, self.data_directory[5].spec_bytes(), 0);
        }
        assert(r.data_directory[6] == self.data_directory[6]) by {
            reveal(IMAGE_OPTIONAL_HEADER64::spec_bytes_part_5);
            self.data_directory[6].lemma_bytes_roundtrip();
            assert(same_window(b, 160, self.data_directory[6].spec_bytes(), 0, 8)) by {
                assert forall|k: int| 0 <= k < 8 implies #[trigger] b[160 + k] == (self.data_directory[6].spec_bytes())[0 + k] by {}
            }
            IMAGE_DATA_DIRECTORY::lemma_read_window(b, 160, self.data_directory[6].spec_bytes(), 0);
        }
    }

    /// The fields from offset 168 on read back from the record's bytes.
    #[verifier::rlimit(100)]
    #[verifier::spinoff_prover]
    proof fn lemma_bytes_roundtrip_part_6(self)
        ensures
            Self::spec_read(self.spec_bytes(), 0).data_directory[7] == self.data_directory[7],
            Self::spec_read(self.spec_bytes(), 0).data_directory[8] == self.data_directory[8],
            Self::spec_read(self.spec_bytes(), 0).data_directory[9] == self.data_directory[9],
            Self::spec_read(self.spec_bytes(), 0).data_directory[10] == self.data_directory[10],
            Self::spec_read(self.spec_bytes(), 0).data_directory[11] == self.data_directory[11],
            Self::spec_read(self.spec_bytes(), 0).data_directory[12] == self.data_directory[12],
    {
        reveal(IMAGE_OPTIONAL_HEADER64::spec_bytes);
        self.data_directory[0].lemma_bytes_len();
        self.data_directory[1].lemma_bytes_len();
        self.data_directory[2].lemma_bytes_len();
        self.data_directory[3].lemma_bytes_len();
        self.data_directory[4].lemma_bytes_len();
        self.data_directory[5].lemma_bytes_len();
        self.data_directory[6].lemma_bytes_len();
        self.data_directory[7].lemma_bytes_len();
        self.data_directory[8].lemma_bytes_len();
        self.data_directory[9].lemma_bytes_len();
        self.data_directory[10].lemma_bytes_len();
        self.data_directory[11].lemma_bytes_len();
        self.data_directory[12].lemma_bytes_len();
        self.data_directory[13].lemma_bytes_len();
        self.data_directory[14].lemma_bytes_len();
        self.data_directory[15].lemma_bytes_len();
        assert(self.spec_bytes_part_0().len() == 16) by {
            reveal(IMAGE_OPTIONAL_HEADER64::spec_bytes_part_0);
        }
        assert(self.spec_bytes_part_1().len() == 26) by {
            reveal(IMAGE_OPTIONAL_HEADER64::spec_bytes_part_1);
        }
        assert(self.spec_bytes_part_2().len() == 14) by {
            reveal(IMAGE_OPTIONAL_HEADER64::spec_bytes_part_2);
        }
        assert(self.spec_bytes_part_3().len() == 24) by {
            reveal(IMAGE_OPTIONAL_HEADER64::spec_bytes_part_3);
        }
        assert(self.spec_bytes_part_4().len() == 40) by {
            reveal(IMAGE_OPTIONAL_HEADER64::spec_bytes_part_4);
        }
        assert(self.spec_bytes_part_5().len() == 48) by {
            reveal(IMAGE_OPTIONAL_HEADER64::spec_bytes_part_5);
        }
        assert(self.spec_bytes_part_6().len() == 48) by {
            reveal(IMAGE_OPTIONAL_HEADER64::spec_bytes_part_6);
        }
        assert(self.spec_bytes_part_7().len() == 24) by {
            reveal(IMAGE_OPTIONAL_HEADER64::spec_bytes_part_7);
        }
        let b = self.spec_bytes();
        let r = Self::spec_read(b, 0);
        assert(r.data_directory[7] == self.data_directory[7]) by {
            reveal(IMAGE_OPTIONAL_HEADER64::spec_bytes_part_6);
            self.data_directory[7].lemma_bytes_roundtrip();
            assert(same_window(b, 168, self.data_directory[7].spec_bytes(), 0, 8)) by {
                assert forall|k: int| 0 <= k < 8 implies #[trigger] b[168 + k] == (self.data_directory[7].spec_bytes())[0 + k] by {}
            }
            IMAGE_DATA_DIRECTORY::lemma_read_window(b, 168, self.data_directory[7].spec_bytes(), 0);
        }
        assert(r.data_directory[8] == self.data_directory[8]) by {
            reveal(IMAGE_OPTIONAL_HEADER64::spec_bytes_part_6);
            self.data_directory[8].lemma_bytes_roundtrip();
            assert(same_window(b, 176, self.data_directory[8].spec_bytes(), 0, 8)) by {
                assert forall|k: int| 0 <= k < 8 implies #[trigger] b[176 + k] == (self.data_directory[8].spec_bytes())[0 + k] by {}
            }
            IMAGE_DATA_DIRECTORY::lemma_read_window(b, 176, self.data_directory[8].spec_bytes(), 0);
        }
        assert(r.data_directory[9] == self.data_directory[9]) by {
            reveal(IMAGE_OPTIONAL_HEADER64::spec_bytes_part_6);
            self.data_directory[9].lemma_bytes_roundtrip();
            assert(same_window(b, 184, self.data_directory[9].spec_bytes(), 0, 8)) by {
                assert forall|k: int| 0 <= k < 8 implies #[trigger] b[184 + k] == (self.data_directory[9].spec_bytes())[0 + k] by {}
            }
            IMAGE_DATA_DIRECTORY::lemma_read_window(b, 184, self.data_directory[9].spec_bytes(), 0);
        }
        assert(r.data_directory[10] == self.data_directory[10]) by {
            reveal(IMAGE_OPTIONAL_HEADER64::spec_bytes_part_6);
            self.data_directory[10].lemma_bytes_roundtrip();
            assert(same_window(b, 192, self.data_directory[10].spec_bytes(), 0, 8)) by {
                assert forall|k: int| 0 <= k < 8 implies #[trigger] b[192 + k] == (self.data_directory[10].spec_bytes())[0 + k] by {}
            }
            IMAGE_DATA_DIRECTORY::lemma_read_window(b, 192, self.data_directory[10].spec_bytes(), 0);
        }
        assert(r.data_directory[11] == self.data_directory[11]) by {
            reveal(IMAGE_OPTIONAL_HEADER64::spec_bytes_part_6);
            self.data_directory[11].lemma_bytes_roundtrip();
            assert(same_window(b, 200, self.data_directory[11].spec_bytes(), 0, 8)) by {
                assert forall|k: int| 0 <= k < 8 implies #[trigger] b[200 + k] == (self.data_directory[11].spec_bytes())[0 + k] by {}
            }
            IMAGE_DATA_DIRECTORY::lemma_read_window(b, 200, self.data_directory[11].spec_bytes(), 0);
        }
        assert(r.data_directory[12] == self.data_directory[12]) by {
            reveal(IMAGE_OPTIONAL_HEADER64::spec_bytes_part_6);
            self.data_directory[12].lemma_bytes_roundtrip();
            assert(same_window(b, 208, self.data_directory[12].spec_bytes(), 0, 8)) by {
                assert forall|k: int| 0 <= k < 8 implies #[trigger] b[208 + k] == (self.data_directory[12].spec_bytes())[0 + k] by {}
            }
            IMAGE_DATA_DIRECTORY::lemma_read_window(b, 208, self.data_directory[12].spec_bytes(), 0);
        }
    }

    /// The fields from offset 216 on read back from the record's bytes.
    #[verifier::rlimit(100)]
    #[verifier::spinoff_prover]
    proof fn lemma_bytes_roundtrip_part_7(self)
        ensures
            Self::spec_read(self.spec_bytes(), 0).data_directory[13] == self.data_directory[13],
            Self::spec_read(self.spec_bytes(), 0).data_directory[14] == self.data_directory[14],
            Self::spec_read(self.spec_bytes(), 0).data_directory[15] == self.data_directory[15],
    {
        reveal(IMAGE_OPTIONAL_HEADER64::spec_bytes);
        self.data_directory[0].lemma_bytes_len();
        self.data_directory[1].lemma_bytes_len();
        self.data_directory[2].lemma_bytes_len();
        self.data_directory[3].lemma_bytes_len();
        self.data_directory[4].lemma_bytes_len();
        self.data_directory[5].lemma_bytes_len();
        self.data_directory[6].lemma_bytes_len();
        self.data_directory[7].lemma_bytes_len();
        self.data_directory[8].lemma_bytes_len();
        self.data_directory[9].lemma_bytes_len();
        self.data_directory[10].lemma_bytes_len();
        self.data_directory[11].lemma_bytes_len();
        self.data_directory[12].lemma_bytes_len();
        self.data_directory[13].lemma_bytes_len();
        self.data_directory[14].lemma_bytes_len();
        self.data_directory[15].lemma_bytes_len();
        assert(self.spec_bytes_part_0().len() == 16) by {
            reveal(IMAGE_OPTIONAL_HEADER64::spec_bytes_part_0);
        }
        assert(self.spec_bytes_part_1().len() == 26) by {
            reveal(IMAGE_OPTIONAL_HEADER64::spec_bytes_part_1);
        }
        assert(self.spec_bytes_part_2().len() == 14) by {
            reveal(IMAGE_OPTIONAL_HEADER64::spec_bytes_part_2);
        }
        assert(self.spec_bytes_part_3().len() == 24) by {
            reveal(IMAGE_OPTIONAL_HEADER64::spec_bytes_part_3);
        }
        assert(self.spec_bytes_part_4().len() == 40) by {
            reveal(IMAGE_OPTIONAL_HEADER64::spec_bytes_part_4);
        }
        assert(self.spec_bytes_part_5().len() == 48) by {
            reveal(IMAGE_OPTIONAL_HEADER64::spec_bytes_part_5);
        }
        assert(self.spec_bytes_part_6().len() == 48) by {
            reveal(IMAGE_OPTIONAL_HEADER64::spec_bytes_part_6);
        }
        assert(self.spec_bytes_part_7().len() == 24) by {
            reveal(IMAGE_OPTIONAL_HEADER64::spec_bytes_part_7);
        }
        let b = self.spec_bytes();
        let r = Self::spec_read(b, 0);
        assert(r.data_directory[13] == self.data_directory[13]) by {
            reveal(IMAGE_OPTIONAL_HEADER64::spec_bytes_part_7);
            self.data_directory[13].lemma_bytes_roundtrip();
            assert(same_window(b, 216, self.data_directory[13].spec_bytes(), 0, 8)) by {
                assert forall|k: int| 0 <= k < 8 implies #[trigger] b[216 + k] == (self.data_directory[13].spec_bytes())[0 + k] by {}
            }
            IMAGE_DATA_DIRECTORY::lemma_read_window(b, 216, self.data_directory[13].spec_bytes(), 0);
        }
        assert(r.data_directory[14] == self.data_directory[14]) by {
            reveal(IMAGE_OPTIONAL_HEADER64::spec_bytes_part_7);
            self.data_directory[14].lemma_bytes_roundtrip();
            assert(same_window(b, 224, self.data_directory[14].spec_bytes(), 0, 8)) by {
                assert forall|k: int| 0 <= k < 8 implies #[trigger] b[224 + k] == (self.data_directory[14].spec_bytes())[0 + k] by {}
            }
            IMAGE_DATA_DIRECTORY::lemma_read_window(b, 224, self.data_directory[14].spec_bytes(), 0);
        }
        assert(r.data_directory[15] == self.data_directory[15]) by {
            reveal(IMAGE_OPTIONAL_HEADER64::spec_bytes_part_7);
            self.data_directory[15].lemma_bytes_roundtrip();
            assert(same_window(b, 232, self.data_directory[15].spec_bytes(), 0, 8)) by {
                assert forall|k: int| 0 <= k < 8 implies #[trigger] b[232 + k] == (self.data_directory[15].spec_bytes())[0 + k] by {}
            }
            IMAGE_DATA_DIRECTORY::lemma_read_window(b, 232, self.data_directory[15].spec_bytes(), 0);
        }
    }

    /// The record read back from its own bytes is the record.
    #[verifier::rlimit(100)]
    #[verifier::spinoff_prover]
    pub proof fn lemma_bytes_roundtrip(self)
        ensures
            self.spec_bytes().len() == 240,
            Self::spec_read(self.spec_bytes(), 0) == self,
    {
        self.lemma_bytes_len();
        let r = Self::spec_read(self.spec_bytes(), 0);
        self.lemma_bytes_roundtrip_part_0();
        self.lemma_bytes_roundtrip_part_1();
        self.lemma_bytes_roundtrip_part_2();
        self.lemma_bytes_roundtrip_part_3();
        self.lemma_bytes_roundtrip_part_4();
        self.lemma_bytes_roundtrip_part_5();
        self.lemma_bytes_roundtrip_part_6();
        self.lemma_bytes_roundtrip_part_7();
        assert(r.data_directory =~= self.data_directory);
    }
}

impl IMAGE_OPTIONAL_HEADER64 {
    /// The bytes of the fields from offset 0 on, of a record read at `off`, are the bytes read.
    proof fn lemma_read_bytes_part_0(s: Seq<u8>, off: int)
        requires
            0 <= off,
            off + 240 <= s.len(),
        ensures
            Self::spec_read(s, off).spec_bytes_part_0() == s.subrange(off + 0, off + 16),
    {
        reveal(IMAGE_OPTIONAL_HEADER64::spec_bytes_part_0);
        lemma_u16_bytes_of(s, off + 0);
        assert(u8_bytes(s[off + 2]) =~= s.subrange(off + 2, off + 3));
        assert(u8_bytes(s[off + 3]) =~= s.subrange(off + 3, off + 4));
        lemma_u32_bytes_of(s, off + 4);
        lemma_u32_bytes_of(s, off + 8);
        lemma_u32_bytes_of(s, off + 12);
        lemma_empty_join(s.subrange(off + 0, off + 2));
        lemma_join_windows(s, off + 0, off + 2, off + 3);
        lemma_join_windows(s, off + 0, off + 3, off + 4);
        lemma_join_windows(s, off + 0, off + 4, off + 8);
        lemma_join_windows(s, off + 0, off + 8, off + 12);
        lemma_join_windows(s, off + 0, off + 12, off + 16);
    }

    /// The bytes of the fields from offset 16 on, of a record read at `off`, are the bytes read.
    proof fn lemma_read_bytes_part_1(s: Seq<u8>, off: int)
        requires
            0 <= off,
            off + 240 <= s.len(),
        ensures
            Self::spec_read(s, off).spec_bytes_part_1() == s.subrange(off + 16, off + 42),
    {
        reveal(IMAGE_OPTIONAL_HEADER64::spec_bytes_part_1);
        lemma_u32_bytes_of(s, off + 16);
        lemma_u32_bytes_of(s, off + 20);
        lemma_u64_bytes_of(s, off + 24);
        lemma_u32_bytes_of(s, off + 32);
        lemma_u32_bytes_of(s, off + 36);
        lemma_u16_bytes_of(s, off + 40);
        lemma_empty_join(s.subrange(off + 16, off + 20));
        lemma_join_windows(s, off + 16, off + 20, off + 24);
        lemma_join_windows(s, off + 16, off + 24, off + 32);
        lemma_join_windows(s, off + 16, off + 32, off + 36);
        lemma_join_windows(s, off + 16, off + 36, off + 40);
        lemma_join_windows(s, off + 16, off + 40, off + 42);
    }

    /// The bytes of the fields from offset 42 on, of a record read at `off`, are the bytes read.
    proof fn lemma_read_bytes_part_2(s: Seq<u8>, off: int)
        requires
            0 <= off,
            off + 240 <= s.len(),
        ensures
            Self::spec_read(s, off).spec_bytes_part_2() == s.subrange(off + 42, off + 56),
    {
        reveal(IMAGE_OPTIONAL_HEADER64::spec_bytes_part_2);
        lemma_u16_bytes_of(s, off + 42);
        lemma_u16_bytes_of(s, off + 44);
        lemma_u16_bytes_of(s, off + 46);
        lemma_u16_bytes_of(s, off + 48);
        lemma_u16_bytes_of(s, off + 50);
        lemma_u32_bytes_of(s, off + 52);
        lemma_empty_join(s.subrange(off + 42, off + 44));
        lemma_join_windows(s, off + 42, off + 44, off + 46);
        lemma_join_windows(s, off + 42, off + 46, off + 48);
        lemma_join_windows(s, off + 42, off + 48, off + 50);
        lemma_join_windows(s, off + 42, off + 50, off + 52);
        lemma_join_windows(s, off + 42, off + 52, off + 56);
    }

    /// The bytes of the fields from offset 56 on, of a record read at `off`, are the bytes read.
    proof fn lemma_read_bytes_part_3(s: Seq<u8>, off: int)
        requires
            0 <= off,
            off + 240 <= s.len(),
        ensures
            Self::spec_read(s, off).spec_bytes_part_3() == s.subrange(off + 56, off + 80),
    {
        reveal(IMAGE_OPTIONAL_HEADER64::spec_bytes_part_3);
        lemma_u32_bytes_of(s, off + 56);
        lemma_u32_bytes_of(s, off + 60);
        lemma_u32_bytes_of(s, off + 64);
        lemma_u16_bytes_of(s, off + 68);
        lemma_u16_bytes_of(s, off + 70);
        lemma_u64_bytes_of(s, off + 72);
        lemma_empty_join(s.subrange(off + 56, off + 60));
        lemma_join_windows(s, off + 56, off + 60, off + 64);
        lemma_join_windows(s, off + 56, off + 64, off + 68);
        lemma_join_windows(s, off + 56, off + 68, off + 70);
        lemma_join_windows(s, off + 56, off + 70, off + 72);
        lemma_join_windows(s, off + 56, off + 72, off + 80);
    }

    /// The bytes of the fields from offset 80 on, of a record read at `off`, are the bytes read.
    proof fn lemma_read_bytes_part_4(s: Seq<u8>, off: int)
        requires
            0 <= off,
            off + 240 <= s.len(),
        ensures
            Self::spec_read(s, off).spec_bytes_part_4() == s.subrange(off + 80, off + 120),
    {
        reveal(IMAGE_OPTIONAL_HEADER64::spec_bytes_part_4);
        lemma_u64_bytes_of(s, off + 80);
        lemma_u64_bytes_of(s, off + 88);
        lemma_u64_bytes_of(s, off + 96);
        lemma_u32_bytes_of(s, off + 104);
        lemma_u32_bytes_of(s, off + 108);
        IMAGE_DATA_DIRECTORY::lemma_read_bytes(s, off + 112);
        lemma_empty_join(s.subrange(off + 80, off + 88));
        lemma_join_windows(s, off + 80, off + 88, off + 96);
        lemma_join_windows(s, off + 80, off + 96, off + 104);
        lemma_join_windows(s, off + 80, off + 104, off + 108);
        lemma_join_windows(s, off + 80, off + 108, off + 112);
        lemma_join_windows(s, off + 80, off + 112, off + 120);
    }

    /// The bytes of the fields from offset 120 on, of a record read at `off`, are the bytes read.
    proof fn lemma_read_bytes_part_5(s: Seq<u8>, off: int)
        requires
            0 <= off,
            off + 240 <= s.len(),
        ensures
            Self::spec_read(s, off).spec_bytes_part_5() == s.subrange(off + 120, off + 168),
    {
        reveal(IMAGE_OPTIONAL_HEADER64::spec_bytes_part_5);
        IMAGE_DATA_DIRECTORY::lemma_read_bytes(s, off + 120);
        IMAGE_DATA_DIRECTORY::lemma_read_bytes(s, off + 128);
        IMAGE_DATA_DIRECTORY::lemma_read_bytes(s, off + 136);
        IMAGE_DATA_DIRECTORY::lemma_read_bytes(s, off + 144);
        IMAGE_DATA_DIRECTORY::lemma_read_bytes(s, off + 152);
        IMAGE_DATA_DIRECTORY::lemma_read_bytes(s, off + 160);
        lemma_empty_join(s.subrange(off + 120, off + 128));
        lemma_join_windows(s, off + 120, off + 128, off + 136);
        lemma_join_windows(s, off + 120, off + 136, off + 144);
        lemma_join_windows(s, off + 120, off + 144, off + 152);
        lemma_join_windows(s, off + 120, off + 152, off + 160);
        lemma_join_windows(s, off + 120, off + 160, off + 168);
    }

    /// The bytes of the fields from offset 168 on, of a record read at `off`, are the bytes read.
    proof fn lemma_read_bytes_part_6(s: Seq<u8>, off: int)
        requires
            0 <= off,
            off + 240 <= s.len(),
        ensures
            Self::spec_read(s, off).spec_bytes_part_6() == s.subrange(off + 168, off + 216),
    {
        reveal(IMAGE_OPTIONAL_HEADER64::spec_bytes_part_6);
        IMAGE_DATA_DIRECTORY::lemma_read_bytes(s, off + 168);
        IMAGE_DATA_DIRECTORY::lemma_read_bytes(s, off + 176);
        IMAGE_DATA_DIRECTORY::lemma_read_bytes(s, off + 184);
        IMAGE_DATA_DIRECTORY::lemma_read_bytes(s, off + 192);
        IMAGE_DATA_DIRECTORY::lemma_read_bytes(s, off + 200);
        IMAGE_DATA_DIRECTORY::lemma_read_bytes(s, off + 208);
        lemma_empty_join(s.subrange(off + 168, off + 176));
        lemma_join_windows(s, off + 168, off + 176, off + 184);
        lemma_join_windows(s, off + 168, off + 184, off + 192);
        lemma_join_windows(s, off + 168, off + 192, off + 200);
        lemma_join_windows(s, off + 168, off + 200, off + 208);
        lemma_join_windows(s, off + 168, off + 208, off + 216);
    }

    /// The bytes of the fields from offset 216 on, of a record read at `off`, are the bytes read.
    proof fn lemma_read_bytes_part_7(s: Seq<u8>, off: int)
        requires
            0 <= off,
            off + 240 <= s.len(),
        ensures
            Self::spec_read(s, off).spec_bytes_part_7() == s.subrange(off + 216, off + 240),
    {
        reveal(IMAGE_OPTIONAL_HEADER64::spec_bytes_part_7);
        IMAGE_DATA_DIRECTORY::lemma_read_bytes(s, off + 216);
        IMAGE_DATA_DIRECTORY::lemma_read_bytes(s, off + 224);
        IMAGE_DATA_DIRECTORY::lemma_read_bytes(s, off + 232);
        lemma_empty_join(s.subrange(off + 216, off + 224));
        lemma_join_windows(s, off + 216, off + 224, off + 232);
        lemma_join_windows(s, off + 216, off + 232, off + 240);
    }

    /// The bytes of a record read at `off` are the bytes it was read from.
    pub proof fn lemma_read_bytes(s: Seq<u8>, off: int)
        requires
            0 <= off,
            off + 240 <= s.len(),
        ensures
            Self::spec_read(s, off).spec_bytes() == s.subrange(off, off + 240),
    {
        reveal(IMAGE_OPTIONAL_HEADER64::spec_bytes);
        Self::lemma_read_bytes_part_0(s, off);
        Self::lemma_read_bytes_part_1(s, off);
        Self::lemma_read_bytes_part_2(s, off);
        Self::lemma_read_bytes_part_3(s, off);
        Self::lemma_read_bytes_part_4(s, off);
        Self::lemma_read_bytes_part_5(s, off);
        Self::lemma_read_bytes_part_6(s, off);
        Self::lemma_read_bytes_part_7(s, off);
        lemma_empty_join(s.subrange(off + 0, off + 16));
        lemma_join_windows(s, off + 0, off + 16, off + 42);
        lemma_join_windows(s, off + 0, off + 42, off + 56);
        lemma_join_windows(s, off + 0, off + 56, off + 80);
        lemma_join_windows(s, off + 0, off + 80, off + 120);
        lemma_join_windows(s, off + 0, off + 120, off + 168);
        lemma_join_windows(s, off + 0, off + 168, off + 216);
        lemma_join_windows(s, off + 0, off + 216, off + 240);
    }
}

/// The NT headers of a PE32+ image.
#[allow(non_camel_case_types)]
#[derive(Debug, Clone, Copy)]
pub struct IMAGE_NT_HEADERS64 {
    pub signature: u32,
    pub file_header: IMAGE_FILE_HEADER,
    pub optional_header: IMAGE_OPTIONAL_HEADER64,
}

impl RawStruct for IMAGE_NT_HEADERS64 {
    open spec fn spec_size() -> nat {
        264
    }

    open spec fn spec_read(s: Seq<u8>, off: int) -> Self {
        IMAGE_NT_HEADERS64 {
            signature: le_u32(s, off + 0),
            file_header: IMAGE_FILE_HEADER::spec_read(s, off + 4),
            optional_header: IMAGE_OPTIONAL_HEADER64::spec_read(s, off + 24),
        }
    }

    proof fn lemma_read_window(s1: Seq<u8>, o1: int, s2: Seq<u8>, o2: int) {
        lemma_sub_window(s1, o1, s2, o2, 264, 0, 4);
        lemma_le_window(s1, o1 + 0, s2, o2 + 0, 4);
        lemma_sub_window(s1, o1, s2, o2, 264, 4, 20);
        IMAGE_FILE_HEADER::lemma_read_window(s1, o1 + 4, s2, o2 + 4);
        lemma_sub_window(s1, o1, s2, o2, 264, 24, 240);
        IMAGE_OPTIONAL_HEADER64::lemma_read_window(s1, o1 + 24, s2, o2 + 24);
    }

    fn size() -> (n: usize) {
        264
    }

    fn read(bytes: &[u8], off: usize) -> (r: Self) {
        assert(bytes@.len() == bytes.len());
        IMAGE_NT_HEADERS64 {
            signature: read_u32(bytes, off + 0),
            file_header: IMAGE_FILE_HEADER::read(bytes, off + 4),
            optional_header: IMAGE_OPTIONAL_HEADER64::read(bytes, off + 24),
        }
    }
}

impl IMAGE_NT_HEADERS64 {
    /// The bytes that store the record, field after field.
    #[verifier::opaque]
    pub open spec fn spec_bytes(self) -> Seq<u8> {
        Seq::<u8>::empty() + u32_bytes(self.signature) + self.file_header.spec_bytes() + self.optional_header.spec_bytes()
    }

    /// The bytes that store the record.
    #[verifier::rlimit(50)]
    #[verifier::spinoff_prover]
    pub fn to_le_bytes(&self) -> (r: Vec<u8>)
        ensures
            r@ == self.spec_bytes(),
    {
        proof {
            reveal(IMAGE_NT_HEADERS64::spec_bytes);
        }
        let mut r: Vec<u8> = Vec::new();
        r.extend_from_slice(&le_bytes_u32(self.signature));
        r.extend_from_slice(self.file_header.to_le_bytes().as_slice());
        r.extend_from_slice(self.optional_header.to_le_bytes().as_slice());
        r
    }
}

impl IMAGE_NT_HEADERS64 {
    /// The record is stored in 264 bytes.
    pub proof fn lemma_bytes_len(self)
        ensures
            self.spec_bytes().len() == 264,
    {
        reveal(IMAGE_NT_HEADERS64::spec_bytes);
        self.file_header.lemma_bytes_len();
        self.optional_header.lemma_bytes_len();
    }

    /// The record read back from its own bytes is the record.
    #[verifier::rlimit(100)]
    #[verifier::spinoff_prover]
    pub proof fn lemma_bytes_roundtrip(self)
        ensures
            self.spec_bytes().len() == 264,
            Self::spec_read(self.spec_bytes(), 0) == self,
    {
        reveal(IMAGE_NT_HEADERS64::spec_bytes);
        let b = self.spec_bytes();
        let r = Self::spec_read(b, 0);
        self.file_header.lemma_bytes_len();
        self.optional_header.lemma_bytes_len();
        assert(r.signature == self.signature) by {
            assert(b[0int] == (u32_bytes(self.signature))[0int]);
            assert(b[1int] == (u32_bytes(self.signature))[1int]);
            assert(b[2int] == (u32_bytes(self.signature))[2int]);
            assert(b[3int] == (u32_bytes(self.signature))[3int]);
            lemma_u32_roundtrip(self.signature);
        }
        assert(r.file_header == self.file_header) by {
            self.file_header.lemma_bytes_roundtrip();
            assert(same_window(b, 4, self.file_header.spec_bytes(), 0, 20)) by {
                assert forall|k: int| 0 <= k < 20 implies #[trigger] b[4 + k] == (self.file_header.spec_bytes())[0 + k] by {}
            }
            IMAGE_FILE_HEADER::lemma_read_window(b, 4, self.file_header.spec_bytes(), 0);
        }
        assert(r.optional_header == self.optional_header) by {
            self.optional_header.lemma_bytes_roundtrip();
            assert(same_window(b, 24, self.optional_header.spec_bytes(), 0, 240)) by {
                assert forall|k: int| 0 <= k < 240 implies #[trigger] b[24 + k] == (self.optional_header.spec_bytes())[0 + k] by {}
            }
            IMAGE_OPTIONAL_HEADER64::lemma_read_window(b, 24, self.optional_header.spec_bytes(), 0);
        }
    }
}

impl IMAGE_NT_HEADERS64 {
    /// The bytes of a record read at `off` are the bytes it was read from.
    pub proof fn lemma_read_bytes(s: Seq<u8>, off: int)
        requires
            0 <= off,
            off + 264 <= s.len(),
        ensures
            Self::spec_read(s, off).spec_bytes() == s.subrange(off, off + 264),
    {
        reveal(IMAGE_NT_HEADERS64::spec_bytes);
        lemma_u32_bytes_of(s, off + 0);
        IMAGE_FILE_HEADER::lemma_read_bytes(s, off + 4);
        IMAGE_OPTIONAL_HEADER64::lemma_read_bytes(s, off + 24);
        lemma_empty_join(s.subrange(off + 0, off + 4));
        lemma_join_windows(s, off + 0, off + 4, off + 24);
        lemma_join_windows(s, off + 0, off + 24, off + 264);
    }
}

/// The NT headers of a PE32 image.
#[allow(non_camel_case_types)]
#[derive(Debug, Clone, Copy)]
pub struct IMAGE_NT_HEADERS32 {
    pub signature: u32,
    pub file_header: IMAGE_FILE_HEADER,
    pub optional_header: IMAGE_OPTIONAL_HEADER32,
}

impl RawStruct for IMAGE_NT_HEADERS32 {
    open spec fn spec_size() -> nat {
        248
    }

    open spec fn spec_read(s: Seq<u8>, off: int) -> Self {
        IMAGE_NT_HEADERS32 {
            signature: le_u32(s, off + 0),
            file_header: IMAGE_FILE_HEADER::spec_read(s, off + 4),
            optional_header: IMAGE_OPTIONAL_HEADER32::spec_read(s, off + 24),
        }
    }

    proof fn lemma_read_window(s1: Seq<u8>, o1: int, s2: Seq<u8>, o2: int) {
        lemma_sub_window(s1, o1, s2, o2, 248, 0, 4);
        lemma_le_window(s1, o1 + 0, s2, o2 + 0, 4);
        lemma_sub_window(s1, o1, s2, o2, 248, 4, 20);
        IMAGE_FILE_HEADER::lemma_read_window(s1, o1 + 4, s2, o2 + 4);
        lemma_sub_window(s1, o1, s2, o2, 248, 24, 224);
        IMAGE_OPTIONAL_HEADER32::lemma_read_window(s1, o1 + 24, s2, o2 + 24);
    }

    fn size() -> (n: usize) {
        248
    }

    fn read(bytes: &[u8], off: usize) -> (r: Self) {
        assert(bytes@.len() == bytes.len());
        IMAGE_NT_HEADERS32 {
            signature: read_u32(bytes, off + 0),
            file_header: IMAGE_FILE_HEADER::read(bytes, off + 4),
            optional_header: IMAGE_OPTIONAL_HEADER32::read(bytes, off + 24),
        }
    }
}

impl IMAGE_NT_HEADERS32 {
    /// The bytes that store the record, field after field.
    #[verifier::opaque]
    pub open spec fn spec_bytes(self) -> Seq<u8> {
        Seq::<u8>::empty() + u32_bytes(self.signature) + self.file_header.spec_bytes() + self.optional_header.spec_bytes()
    }

    /// The bytes that store the record.
    #[verifier::rlimit(50)]
    #[verifier::spinoff_prover]
    pub fn to_le_bytes(&self) -> (r: Vec<u8>)
        ensures
            r@ == self.spec_bytes(),
    {
        proof {
            reveal(IMAGE_NT_HEADERS32::spec_bytes);
        }
        let mut r: Vec<u8> = Vec::new();
        r.extend_from_slice(&le_bytes_u32(self.signature));
        r.extend_from_slice(self.file_header.to_le_bytes().as_slice());
        r.extend_from_slice(self.optional_header.to_le_bytes().as_slice());
        r
    }
}

impl IMAGE_NT_HEADERS32 {
    /// The record is stored in 248 bytes.
    pub proof fn lemma_bytes_len(self)
        ensures
            self.spec_bytes().len() == 248,
    {
        reveal(IMAGE_NT_HEADERS32::spec_bytes);
        self.file_header.lemma_bytes_len();
        self.optional_header.lemma_bytes_len();
    }

    /// The record read back from its own bytes is the record.
    #[verifier::rlimit(100)]
    #[verifier::spinoff_prover]
    pub proof fn lemma_bytes_roundtrip(self)
        ensures
            self.spec_bytes().len() == 248,
            Self::spec_read(self.spec_bytes(), 0) == self,
    {
        reveal(IMAGE_NT_HEADERS32::spec_bytes);
        let b = self.spec_bytes();
        let r = Self::spec_read(b, 0);
        self.file_header.lemma_bytes_len();
        self.optional_header.lemma_bytes_len();
        assert(r.signature == self.signature) by {
            assert(b[0int] == (u32_bytes(self.signature))[0int]);
            assert(b[1int] == (u32_bytes(self.signature))[1int]);
            assert(b[2int] == (u32_bytes(self.signature))[2int]);
            assert(b[3int] == (u32_bytes(self.signature))[3int]);
            lemma_u32_roundtrip(self.signature);
        }
        assert(r.file_header == self.file_header) by {
            self.file_header.lemma_bytes_roundtrip();
            assert(same_window(b, 4, self.file_header.spec_bytes(), 0, 20)) by {
                assert forall|k: int| 0 <= k < 20 implies #[trigger] b[4 + k] == (self.file_header.spec_bytes())[0 + k] by {}
            }
            IMAGE_FILE_HEADER::lemma_read_window(b, 4, self.file_header.spec_bytes(), 0);
        }
        assert(r.optional_header == self.optional_header) by {
            self.optional_header.lemma_bytes_roundtrip();
            assert(same_window(b, 24, self.optional_header.spec_bytes(), 0, 224)) by {
                assert forall|k: int| 0 <= k < 224 implies #[trigger] b[24 + k] == (self.optional_header.spec_bytes())[0 + k] by {}
            }
            IMAGE_OPTIONAL_HEADER32::lemma_read_window(b, 24, self.optional_header.spec_bytes(), 0);
        }
    }
}

impl IMAGE_NT_HEADERS32 {
    /// The bytes of a record read at `off` are the bytes it was read from.
    pub proof fn lemma_read_bytes(s: Seq<u8>, off: int)
        requires
            0 <= off,
            off + 248 <= s.len(),
        ensures
            Self::spec_read(s, off).spec_bytes() == s.subrange(off, off + 248),
    {
        reveal(IMAGE_NT_HEADERS32::spec_bytes);
        lemma_u32_bytes_of(s, off + 0);
        IMAGE_FILE_HEADER::lemma_read_bytes(s, off + 4);
        IMAGE_OPTIONAL_HEADER32::lemma_read_bytes(s, off + 24);
        lemma_empty_join(s.subrange(off + 0, off + 4));
        lemma_join_windows(s, off + 0, off + 4, off + 24);
        lemma_join_windows(s, off + 0, off + 24, off + 248);
    }
}

/// One entry of the section table.
#[allow(non_camel_case_types)]
#[derive(Debug, Clone, Copy)]
pub struct IMAGE_SECTION_HEADER {
    pub name: [u8; 8],
    pub virtual_size: u32,
    pub virtual_address: u32,
    pub size_of_raw_data: u32,
    pub pointer_to_raw_data: u32,
    pub pointer_to_relocations: u32,
    pub pointer_to_line_numbers: u32,
    pub number_of_relocations: u16,
    pub number_of_line_numbers: u16,
    pub characteristics: u32,
}

impl RawStruct for IMAGE_SECTION_HEADER {
    open spec fn spec_size() -> nat {
        40
    }

    open spec fn spec_read(s: Seq<u8>, off: int) -> Self {
        IMAGE_SECTION_HEADER {
            name: [s[off + 0 + 0], s[off + 0 + 1], s[off + 0 + 2], s[off + 0 + 3], s[off + 0 + 4], s[off + 0 + 5], s[off + 0 + 6], s[off + 0 + 7]],
            virtual_size: le_u32(s, off + 8),
            virtual_address: le_u32(s, off + 12),
            size_of_raw_data: le_u32(s, off + 16),
            pointer_to_raw_data: le_u32(s, off + 20),
            pointer_to_relocations: le_u32(s, off + 24),
            pointer_to_line_numbers: le_u32(s, off + 28),
            number_of_relocations: le_u16(s, off + 32),
            number_of_line_numbers: le_u16(s, off + 34),
            characteristics: le_u32(s, off + 36),
        }
    }

    proof fn lemma_read_window(s1: Seq<u8>, o1: int, s2: Seq<u8>, o2: int) {
        lemma_sub_window(s1, o1, s2, o2, 40, 0, 1);
        assert(s1[o1 + 0] == s2[o2 + 0]);
        lemma_sub_window(s1, o1, s2, o2, 40, 1, 1);
        assert(s1[o1 + 1] == s2[o2 + 1]);
        lemma_sub_window(s1, o1, s2, o2, 40, 2, 1);
        assert(s1[o1 + 2] == s2[o2 + 2]);
        lemma_sub_window(s1, o1, s2, o2, 40, 3, 1);
        assert(s1[o1 + 3] == s2[o2 + 3]);
        lemma_sub_window(s1, o1, s2, o2, 40, 4, 1);
        assert(s1[o1 + 4] == s2[o2 + 4]);
        lemma_sub_window(s1, o1, s2, o2, 40, 5, 1);
        assert(s1[o1 + 5] == s2[o2 + 5]);
        lemma_sub_window(s1, o1, s2, o2, 40, 6, 1);
        assert(s1[o1 + 6] == s2[o2 + 6]);
        lemma_sub_window(s1, o1, s2, o2, 40, 7, 1);
        assert(s1[o1 + 7] == s2[o2 + 7]);
        lemma_sub_window(s1, o1, s2, o2, 40, 8, 4);
        lemma_le_window(s1, o1 + 8, s2, o2 + 8, 4);
        lemma_sub_window(s1, o1, s2, o2, 40, 12, 4);
        lemma_le_window(s1, o1 + 12, s2, o2 + 12, 4);
        lemma_sub_window(s1, o1, s2, o2, 40, 16, 4);
        lemma_le_window(s1, o1 + 16, s2, o2 + 16, 4);
        lemma_sub_window(s1, o1, s2, o2, 40, 20, 4);
        lemma_le_window(s1, o1 + 20, s2, o2 + 20, 4);
        lemma_sub_window(s1, o1, s2, o2, 40, 24, 4);
        lemma_le_window(s1, o1 + 24, s2, o2 + 24, 4);
        lemma_sub_window(s1, o1, s2, o2, 40, 28, 4);
        lemma_le_window(s1, o1 + 28, s2, o2 + 28, 4);
        lemma_sub_window(s1, o1, s2, o2, 40, 32, 2);
        lemma_le_window(s1, o1 + 32, s2, o2 + 32, 2);
        lemma_sub_window(s1, o1, s2, o2, 40, 34, 2);
        lemma_le_window(s1, o1 + 34, s2, o2 + 34, 2);
        lemma_sub_window(s1, o1, s2, o2, 40, 36, 4);
        lemma_le_window(s1, o1 + 36, s2, o2 + 36, 4);
    }

    fn size() -> (n: usize) {
        40
    }

    fn read(bytes: &[u8], off: usize) -> (r: Self) {
        assert(bytes@.len() == bytes.len());
        IMAGE_SECTION_HEADER {
            name: [bytes[off + 0 + 0], bytes[off + 0 + 1], bytes[off + 0 + 2], bytes[off + 0 + 3], bytes[off + 0 + 4], bytes[off + 0 + 5], bytes[off + 0 + 6], bytes[off + 0 + 7]],
            virtual_size: read_u32(bytes, off + 8),
            virtual_address: read_u32(bytes, off + 12),
            size_of_raw_data: read_u32(bytes, off + 16),
            pointer_to_raw_data: read_u32(bytes, off + 20),
            pointer_to_relocations: read_u32(bytes, off + 24),
            pointer_to_line_numbers: read_u32(bytes, off + 28),
            number_of_relocations: read_u16(bytes, off + 32),
            number_of_line_numbers: read_u16(bytes, off + 34),
            characteristics: read_u32(bytes, off + 36),
        }
    }
}

impl IMAGE_SECTION_HEADER {
    /// The bytes that store the record, field after field.
    #[verifier::opaque]
    pub open spec fn spec_bytes(self) -> Seq<u8> {
        Seq::<u8>::empty() + self.spec_bytes_part_0() + self.spec_bytes_part_1() + self.spec_bytes_part_2()
    }

    /// The bytes of the fields from offset 0 on, up to offset 6.
    #[verifier::opaque]
    pub open spec fn spec_bytes_part_0(self) -> Seq<u8> {
        Seq::<u8>::empty() + u8_bytes(self.name[0]) + u8_bytes(self.name[1]) + u8_bytes(self.name[2]) + u8_bytes(self.name[3]) + u8_bytes(self.name[4]) + u8_bytes(self.name[5])
    }

    /// The bytes of the fields from offset 6 on, up to offset 24.
    #[verifier::opaque]
    pub open spec fn spec_bytes_part_1(self) -> Seq<u8> {
        Seq::<u8>::empty() + u8_bytes(self.name[6]) + u8_bytes(self.name[7]) + u32_bytes(self.virtual_size) + u32_bytes(self.virtual_address) + u32_bytes(self.size_of_raw_data) + u32_bytes(self.pointer_to_raw_data)
    }

    /// The bytes of the fields from offset 24 on, up to offset 40.
    #[verifier::opaque]
    pub open spec fn spec_bytes_part_2(self) -> Seq<u8> {
        Seq::<u8>::empty() + u32_bytes(self.pointer_to_relocations) + u32_bytes(self.pointer_to_line_numbers) + u16_bytes(self.number_of_relocations) + u16_bytes(self.number_of_line_numbers) + u32_bytes(self.characteristics)
    }

    /// The bytes that store the record.
    #[verifier::rlimit(50)]
    #[verifier::spinoff_prover]
    pub fn to_le_bytes(&self) -> (r: Vec<u8>)
        ensures
            r@ == self.spec_bytes(),
    {
        proof {
            reveal(IMAGE_SECTION_HEADER::spec_bytes);
            reveal(IMAGE_SECTION_HEADER::spec_bytes_part_0);
            reveal(IMAGE_SECTION_HEADER::spec_bytes_part_1);
            reveal(IMAGE_SECTION_HEADER::spec_bytes_part_2);
        }
        let mut r: Vec<u8> = Vec::new();
        {
            let mut c: Vec<u8> = Vec::new();
            c.extend_from_slice(&le_bytes_u8(self.name[0]));
            c.extend_from_slice(&le_bytes_u8(self.name[1]));
            c.extend_from_slice(&le_bytes_u8(self.name[2]));
            c.extend_from_slice(&le_bytes_u8(self.name[3]));
            c.extend_from_slice(&le_bytes_u8(self.name[4]));
            c.extend_from_slice(&le_bytes_u8(self.name[5]));
            r.append(&mut c);
        }
        {
            let mut c: Vec<u8> = Vec::new();
            c.extend_from_slice(&le_bytes_u8(self.name[6]));
            c.extend_from_slice(&le_bytes_u8(self.name[7]));
            c.extend_from_slice(&le_bytes_u32(self.virtual_size));
            c.extend_from_slice(&le_bytes_u32(self.virtual_address));
            c.extend_from_slice(&le_bytes_u32(self.size_of_raw_data));
            c.extend_from_slice(&le_bytes_u32(self.pointer_to_raw_data));
            r.append(&mut c);
        }
        {
            let mut c: Vec<u8> = Vec::new();
            c.extend_from_slice(&le_bytes_u32(self.pointer_to_relocations));
            c.extend_from_slice(&le_bytes_u32(self.pointer_to_line_numbers));
            c.extend_from_slice(&le_bytes_u16(self.number_of_relocations));
            c.extend_from_slice(&le_bytes_u16(self.number_of_line_numbers));
            c.extend_from_slice(&le_bytes_u32(self.characteristics));
            r.append(&mut c);
        }
        r
    }
}

impl IMAGE_SECTION_HEADER {
    /// The record is stored in 40 bytes.
    pub proof fn lemma_bytes_len(self)
        ensures
            self.spec_bytes().len() == 40,
    {
        reveal(IMAGE_SECTION_HEADER::spec_bytes);
        assert(self.spec_bytes_part_0().len() == 6) by {
            reveal(IMAGE_SECTION_HEADER::spec_bytes_part_0);
        }
        assert(self.spec_bytes_part_1().len() == 18) by {
            reveal(IMAGE_SECTION_HEADER::spec_bytes_part_1);
        }
        assert(self.spec_bytes_part_2().len() == 16) by {
            reveal(IMAGE_SECTION_HEADER::spec_bytes_part_2);
        }
    }

    /// The fields from offset 0 on read back from the record's bytes.
    #[verifier::rlimit(100)]
    #[verifier::spinoff_prover]
    proof fn lemma_bytes_roundtrip_part_0(self)
        ensures
            Self::spec_read(self.spec_bytes(), 0).name[0] == self.name[0],
            Self::spec_read(self.spec_bytes(), 0).name[1] == self.name[1],
            Self::spec_read(self.spec_bytes(), 0).name[2] == self.name[2],
            Self::spec_read(self.spec_bytes(), 0).name[3] == self.name[3],
            Self::spec_read(self.spec_bytes(), 0).name[4] == self.name[4],
            Self::spec_read(self.spec_bytes(), 0).name[5] == self.name[5],
    {
        reveal(IMAGE_SECTION_HEADER::spec_bytes);
        assert(self.spec_bytes_part_0().len() == 6) by {
            reveal(IMAGE_SECTION_HEADER::spec_bytes_part_0);
        }
        assert(self.spec_bytes_part_1().len() == 18) by {
            reveal(IMAGE_SECTION_HEADER::spec_bytes_part_1);
        }
        assert(self.spec_bytes_part_2().len() == 16) by {
            reveal(IMAGE_SECTION_HEADER::spec_bytes_part_2);
        }
        let b = self.spec_bytes();
        let r = Self::spec_read(b, 0);
        assert(r.name[0] == self.name[0]) by {
            reveal(IMAGE_SECTION_HEADER::spec_bytes_part_0);
            assert(b[0int] == (u8_bytes(self.name[0]))[0int]);
        }
        assert(r.name[1] == self.name[1]) by {
            reveal(IMAGE_SECTION_HEADER::spec_bytes_part_0);
            assert(b[1int] == (u8_bytes(self.name[1]))[0int]);
        }
        assert(r.name[2] == self.name[2]) by {
            reveal(IMAGE_SECTION_HEADER::spec_bytes_part_0);
            assert(b[2int] == (u8_bytes(self.name[2]))[0int]);
        }
        assert(r.name[3] == self.name[3]) by {
            reveal(IMAGE_SECTION_HEADER::spec_bytes_part_0);
            assert(b[3int] == (u8_bytes(self.name[3]))[0int]);
        }
        assert(r.name[4] == self.name[4]) by {
            reveal(IMAGE_SECTION_HEADER::spec_bytes_part_0);
            assert(b[4int] == (u8_bytes(self.name[4]))[0int]);
        }
        assert(r.name[5] == self.name[5]) by {
            reveal(IMAGE_SECTION_HEADER::spec_bytes_part_0);
            assert(b[5int] == (u8_bytes(self.name[5]))[0int]);
        }
    }

    /// The fields from offset 6 on read back from the record's bytes.
    #[verifier::rlimit(100)]
    #[verifier::spinoff_prover]
    proof fn lemma_bytes_roundtrip_part_1(self)
        ensures
            Self::spec_read(self.spec_bytes(), 0).name[6] == self.name[6],
            Self::spec_read(self.spec_bytes(), 0).name[7] == self.name[7],
            Self::spec_read(self.spec_bytes(), 0).virtual_size == self.virtual_size,
            Self::spec_read(self.spec_bytes(), 0).virtual_address == self.virtual_address,
            Self::spec_read(self.spec_bytes(), 0).size_of_raw_data == self.size_of_raw_data,
            Self::spec_read(self.spec_bytes(), 0).pointer_to_raw_data == self.pointer_to_raw_data,
    {
        reveal(IMAGE_SECTION_HEADER::spec_bytes);
        assert(self.spec_bytes_part_0().len() == 6) by {
            reveal(IMAGE_SECTION_HEADER::spec_bytes_part_0);
        }
        assert(self.spec_bytes_part_1().len() == 18) by {
            reveal(IMAGE_SECTION_HEADER::spec_bytes_part_1);
        }
        assert(self.spec_bytes_part_2().len() == 16) by {
            reveal(IMAGE_SECTION_HEADER::spec_bytes_part_2);
        }
        let b = self.spec_bytes();
        let r = Self::spec_read(b, 0);
        assert(r.name[6] == self.name[6]) by {
            reveal(IMAGE_SECTION_HEADER::spec_bytes_part_1);
            assert(b[6int] == (u8_bytes(self.name[6]))[0int]);
        }
        assert(r.name[7] == self.name[7]) by {
            reveal(IMAGE_SECTION_HEADER::spec_bytes_part_1);
            assert(b[7int] == (u8_bytes(self.name[7]))[0int]);
        }
        assert(r.virtual_size == self.virtual_size) by {
            reveal(IMAGE_SECTION_HEADER::spec_bytes_part_1);
            assert(b[8int] == (u32_bytes(self.virtual_size))[0int]);
            assert(b[9int] == (u32_bytes(self.virtual_size))[1int]);
            assert(b[10int] == (u32_bytes(self.virtual_size))[2int]);
            assert(b[11int] == (u32_bytes(self.virtual_size))[3int]);
            lemma_u32_roundtrip(self.virtual_size);
        }
        assert(r.virtual_address == self.virtual_address) by {
            reveal(IMAGE_SECTION_HEADER::spec_bytes_part_1);
            assert(b[12int] == (u32_bytes(self.virtual_address))[0int]);
            assert(b[13int] == (u32_bytes(self.virtual_address))[1int]);
            assert(b[14int] == (u32_bytes(self.virtual_address))[2int]);
            assert(b[15int] == (u32_bytes(self.virtual_address))[3int]);
            lemma_u32_roundtrip(self.virtual_address);
        }
        assert(r.size_of_raw_data == self.size_of_raw_data) by {
            reveal(IMAGE_SECTION_HEADER::spec_bytes_part_1);
            assert(b[16int] == (u32_bytes(self.size_of_raw_data))[0int]);
            assert(b[17int] == (u32_bytes(self.size_of_raw_data))[1int]);
            assert(b[18int] == (u32_bytes(self.size_of_raw_data))[2int]);
            assert(b[19int] == (u32_bytes(self.size_of_raw_data))[3int]);
            lemma_u32_roundtrip(self.size_of_raw_data);
        }
        assert(r.pointer_to_raw_data == self.pointer_to_raw_data) by {
            reveal(IMAGE_SECTION_HEADER::spec_bytes_part_1);
            assert(b[20int] == (u32_bytes(self.pointer_to_raw_data))[0int]);
            assert(b[21int] == (u32_bytes(self.pointer_to_raw_data))[1int]);
            assert(b[22int] == (u32_bytes(self.pointer_to_raw_data))[2int]);
            assert(b[23int] == (u32_bytes(self.pointer_to_raw_data))[3int]);
            lemma_u32_roundtrip(self.pointer_to_raw_data);
        }
    }

    /// The fields from offset 24 on read back from the record's bytes.
    #[verifier::rlimit(100)]
    #[verifier::spinoff_prover]
    proof fn lemma_bytes_roundtrip_part_2(self)
        ensures
            Self::spec_read(self.spec_bytes(), 0).pointer_to_relocations == self.pointer_to_relocations,
            Self::spec_read(self.spec_bytes(), 0).pointer_to_line_numbers == self.pointer_to_line_numbers,
            Self::spec_read(self.spec_bytes(), 0).number_of_relocations == self.number_of_relocations,
            Self::spec_read(self.spec_bytes(), 0).number_of_line_numbers == self.number_of_line_numbers,
            Self::spec_read(self.spec_bytes(), 0).characteristics == self.characteristics,
    {
        reveal(IMAGE_SECTION_HEADER::spec_bytes);
        assert(self.spec_bytes_part_0().len() == 6) by {
            reveal(IMAGE_SECTION_HEADER::spec_bytes_part_0);
        }
        assert(self.spec_bytes_part_1().len() == 18) by {
            reveal(IMAGE_SECTION_HEADER::spec_bytes_part_1);
        }
        assert(self.spec_bytes_part_2().len() == 16) by {
            reveal(IMAGE_SECTION_HEADER::spec_bytes_part_2);
        }
        let b = self.spec_bytes();
        let r = Self::spec_read(b, 0);
        assert(r.pointer_to_relocations == self.pointer_to_relocations) by {
            reveal(IMAGE_SECTION_HEADER::spec_bytes_part_2);
            assert(b[24int] == (u32_bytes(self.pointer_to_relocations))[0int]);
            assert(b[25int] == (u32_bytes(self.pointer_to_relocations))[1int]);
            assert(b[26int] == (u32_bytes(self.pointer_to_relocations))[2int]);
            assert(b[27int] == (u32_bytes(self.pointer_to_relocations))[3int]);
            lemma_u32_roundtrip(self.pointer_to_relocations);
        }
        assert(r.pointer_to_line_numbers == self.pointer_to_line_numbers) by {
            reveal(IMAGE_SECTION_HEADER::spec_bytes_part_2);
            assert(b[28int] == (u32_bytes(self.pointer_to_line_numbers))[0int]);
            assert(b[29int] == (u32_bytes(self.pointer_to_line_numbers))[1int]);
            assert(b[30int] == (u32_bytes(self.pointer_to_line_numbers))[2int]);
            assert(b[31int] == (u32_bytes(self.pointer_to_line_numbers))[3int]);
            lemma_u32_roundtrip(self.pointer_to_line_numbers);
        }
        assert(r.number_of_relocations == self.number_of_relocations) by {
            reveal(IMAGE_SECTION_HEADER::spec_bytes_part_2);
            assert(b[32int] == (u16_bytes(self.number_of_relocations))[0int]);
            assert(b[33int] == (u16_bytes(self.number_of_relocations))[1int]);
            lemma_u16_roundtrip(self.number_of_relocations);
        }
        assert(r.number_of_line_numbers == self.number_of_line_numbers) by {
            reveal(IMAGE_SECTION_HEADER::spec_bytes_part_2);
            assert(b[34int] == (u16_bytes(self.number_of_line_numbers))[0int]);
            assert(b[35int] == (u16_bytes(self.number_of_line_numbers))[1int]);
            lemma_u16_roundtrip(self.number_of_line_numbers);
        }
        assert(r.characteristics == self.characteristics) by {
            reveal(IMAGE_SECTION_HEADER::spec_bytes_part_2);
            assert(b[36int] == (u32_bytes(self.characteristics))[0int]);
            assert(b[37int] == (u32_bytes(self.characteristics))[1int]);
            assert(b[38int] == (u32_bytes(self.characteristics))[2int]);
            assert(b[39int] == (u32_bytes(self.characteristics))[3int]);
            lemma_u32_roundtrip(self.characteristics);
        }
    }

    /// The record read back from its own bytes is the record.
    #[verifier::rlimit(100)]
    #[verifier::spinoff_prover]
    pub proof fn lemma_bytes_roundtrip(self)
        ensures
            self.spec_bytes().len() == 40,
            Self::spec_read(self.spec_bytes(), 0) == self,
    {
        self.lemma_bytes_len();
        let r = Self::spec_read(self.spec_bytes(), 0);
        self.lemma_bytes_roundtrip_part_0();
        self.lemma_bytes_roundtrip_part_1();
        self.lemma_bytes_roundtrip_part_2();
        assert(r.name =~= self.name);
    }
}

impl IMAGE_SECTION_HEADER {
    /// The bytes of the fields from offset 0 on, of a record read at `off`, are the bytes read.
    proof fn lemma_read_bytes_part_0(s: Seq<u8>, off: int)
        requires
            0 <= off,
            off + 40 <= s.len(),
        ensures
            Self::spec_read(s, off).spec_bytes_part_0() == s.subrange(off + 0, off + 6),
    {
        reveal(IMAGE_SECTION_HEADER::spec_bytes_part_0);
        assert(u8_bytes(s[off + 0]) =~= s.subrange(off + 0, off + 1));
        assert(u8_bytes(s[off + 1]) =~= s.subrange(off + 1, off + 2));
        assert(u8_bytes(s[off + 2]) =~= s.subrange(off + 2, off + 3));
        assert(u8_bytes(s[off + 3]) =~= s.subrange(off + 3, off + 4));
        assert(u8_bytes(s[off + 4]) =~= s.subrange(off + 4, off + 5));
        assert(u8_bytes(s[off + 5]) =~= s.subrange(off + 5, off + 6));
        lemma_empty_join(s.subrange(off + 0, off + 1));
        lemma_join_windows(s, off + 0, off + 1, off + 2);
        lemma_join_windows(s, off + 0, off + 2, off + 3);
        lemma_join_windows(s, off + 0, off + 3, off + 4);
        lemma_join_windows(s, off + 0, off + 4, off + 5);
        lemma_join_windows(s, off + 0, off + 5, off + 6);
    }

    /// The bytes of the fields from offset 6 on, of a record read at `off`, are the bytes read.
    proof fn lemma_read_bytes_part_1(s: Seq<u8>, off: int)
        requires
            0 <= off,
            off + 40 <= s.len(),
        ensures
            Self::spec_read(s, off).spec_bytes_part_1() == s.subrange(off + 6, off + 24),
    {
        reveal(IMAGE_SECTION_HEADER::spec_bytes_part_1);
        assert(u8_bytes(s[off + 6]) =~= s.subrange(off + 6, off + 7));
        assert(u8_bytes(s[off + 7]) =~= s.subrange(off + 7, off + 8));
        lemma_u32_bytes_of(s, off + 8);
        lemma_u32_bytes_of(s, off + 12);
        lemma_u32_bytes_of(s, off + 16);
        lemma_u32_bytes_of(s, off + 20);
        lemma_empty_join(s.subrange(off + 6, off + 7));
        lemma_join_windows(s, off + 6, off + 7, off + 8);
        lemma_join_windows(s, off + 6, off + 8, off + 12);
        lemma_join_windows(s, off + 6, off + 12, off + 16);
        lemma_join_windows(s, off + 6, off + 16, off + 20);
        lemma_join_windows(s, off + 6, off + 20, off + 24);
    }

    /// The bytes of the fields from offset 24 on, of a record read at `off`, are the bytes read.
    proof fn lemma_read_bytes_part_2(s: Seq<u8>, off: int)
        requires
            0 <= off,
            off + 40 <= s.len(),
        ensures
            Self::spec_read(s, off).spec_bytes_part_2() == s.subrange(off + 24, off + 40),
    {
        reveal(IMAGE_SECTION_HEADER::spec_bytes_part_2);
        lemma_u32_bytes_of(s, off + 24);
        lemma_u32_bytes_of(s, off + 28);
        lemma_u16_bytes_of(s, off + 32);
        lemma_u16_bytes_of(s, off + 34);
        lemma_u32_bytes_of(s, off + 36);
        lemma_empty_join(s.subrange(off + 24, off + 28));
        lemma_join_windows(s, off + 24, off + 28, off + 32);
        lemma_join_windows(s, off + 24, off + 32, off + 34);
        lemma_join_windows(s, off + 24, off + 34, off + 36);
        lemma_join_windows(s, off + 24, off + 36, off + 40);
    }

    /// The bytes of a record read at `off` are the bytes it was read from.
    pub proof fn lemma_read_bytes(s: Seq<u8>, off: int)
        requires
            0 <= off,
            off + 40 <= s.len(),
        ensures
            Self::spec_read(s, off).spec_bytes() == s.subrange(off, off + 40),
    {
        reveal(IMAGE_SECTION_HEADER::spec_bytes);
        Self::lemma_read_bytes_part_0(s, off);
        Self::lemma_read_bytes_part_1(s, off);
        Self::lemma_read_bytes_part_2(s, off);
        lemma_empty_join(s.subrange(off + 0, off + 6));
        lemma_join_windows(s, off + 0, off + 6, off + 24);
        lemma_join_windows(s, off + 0, off + 24, off + 40);
    }
}

/// One entry of the import directory.
#[allow(non_camel_case_types)]
#[derive(Debug, Clone, Copy)]
pub struct IMAGE_IMPORT_DESCRIPTOR {
    pub original_first_thunk: u32,
    pub time_date_stamp: u32,
    pub forwarder_chain: u32,
    pub name: u32,
    pub first_thunk: u32,
}

impl RawStruct for IMAGE_IMPORT_DESCRIPTOR {
    open spec fn spec_size() -> nat {
        20
    }

    open spec fn spec_read(s: Seq<u8>, off: int) -> Self {
        IMAGE_IMPORT_DESCRIPTOR {
            original_first_thunk: le_u32(s, off + 0),
            time_date_stamp: le_u32(s, off + 4),
            forwarder_chain: le_u32(s, off + 8),
            name: le_u32(s, off + 12),
            first_thunk: le_u32(s, off + 16),
        }
    }

    proof fn lemma_read_window(s1: Seq<u8>, o1: int, s2: Seq<u8>, o2: int) {
        lemma_sub_window(s1, o1, s2, o2, 20, 0, 4);
        lemma_le_window(s1, o1 + 0, s2, o2 + 0, 4);
        lemma_sub_window(s1, o1, s2, o2, 20, 4, 4);
        lemma_le_window(s1, o1 + 4, s2, o2 + 4, 4);
        lemma_sub_window(s1, o1, s2, o2, 20, 8, 4);
        lemma_le_window(s1, o1 + 8, s2, o2 + 8, 4);
        lemma_sub_window(s1, o1, s2, o2, 20, 12, 4);
        lemma_le_window(s1, o1 + 12, s2, o2 + 12, 4);
        lemma_sub_window(s1, o1, s2, o2, 20, 16, 4);
        lemma_le_window(s1, o1 + 16, s2, o2 + 16, 4);
    }

    fn size() -> (n: usize) {
        20
    }

    fn read(bytes: &[u8], off: usize) -> (r: Self) {
        assert(bytes@.len() == bytes.len());
        IMAGE_IMPORT_DESCRIPTOR {
            original_first_thunk: read_u32(bytes, off + 0),
            time_date_stamp: read_u32(bytes, off + 4),
            forwarder_chain: read_u32(bytes, off + 8),
            name: read_u32(bytes, off + 12),
            first_thunk: read_u32(bytes, off + 16),
        }
    }
}

/// One entry of the exception directory.
#[allow(non_camel_case_types)]
#[derive(Debug, Clone, Copy)]
pub struct IMAGE_FUNCTION_ENTRY64 {
    pub starting_address: u32,
    pub ending_address: u32,
    pub unwind_info_address: u32,
}

impl RawStruct for IMAGE_FUNCTION_ENTRY64 {
    open spec fn spec_size() -> nat {
        12
    }

    open spec fn spec_read(s: Seq<u8>, off: int) -> Self {
        IMAGE_FUNCTION_ENTRY64 {
            starting_address: le_u32(s, off + 0),
            ending_address: le_u32(s, off + 4),
            unwind_info_address: le_u32(s, off + 8),
        }
    }

    proof fn lemma_read_window(s1: Seq<u8>, o1: int, s2: Seq<u8>, o2: int) {
        lemma_sub_window(s1, o1, s2, o2, 12, 0, 4);
        lemma_le_window(s1, o1 + 0, s2, o2 + 0, 4);
        lemma_sub_window(s1, o1, s2, o2, 12, 4, 4);
        lemma_le_window(s1, o1 + 4, s2, o2 + 4, 4);
        lemma_sub_window(s1, o1, s2, o2, 12, 8, 4);
        lemma_le_window(s1, o1 + 8, s2, o2 + 8, 4);
    }

    fn size() -> (n: usize) {
        12
    }

    fn read(bytes: &[u8], off: usize) -> (r: Self) {
        assert(bytes@.len() == bytes.len());
        IMAGE_FUNCTION_ENTRY64 {
            starting_address: read_u32(bytes, off + 0),
            ending_address: read_u32(bytes, off + 4),
            unwind_info_address: read_u32(bytes, off + 8),
        }
    }
}

/// The fixed head of an unwind information record.
#[allow(non_camel_case_types)]
#[derive(Debug, Clone, Copy)]
pub struct UNWIND_INFO {
    pub version_and_flag: u8,
    pub size_of_prolog: u8,
    pub count_of_unwind_codes: u8,
    pub frame_register_and_frame_register_offset: u8,
}

impl RawStruct for UNWIND_INFO {
    open spec fn spec_size() -> nat {
        4
    }

    open spec fn spec_read(s: Seq<u8>, off: int) -> Self {
        UNWIND_INFO {
            version_and_flag: s[off + 0],
            size_of_prolog: s[off + 1],
            count_of_unwind_codes: s[off + 2],
            frame_register_and_frame_register_offset: s[off + 3],
        }
    }

    proof fn lemma_read_window(s1: Seq<u8>, o1: int, s2: Seq<u8>, o2: int) {
        lemma_sub_window(s1, o1, s2, o2, 4, 0, 1);
        assert(s1[o1 + 0] == s2[o2 + 0]);
        lemma_sub_window(s1, o1, s2, o2, 4, 1, 1);
        assert(s1[o1 + 1] == s2[o2 + 1]);
        lemma_sub_window(s1, o1, s2, o2, 4, 2, 1);
        assert(s1[o1 + 2] == s2[o2 + 2]);
        lemma_sub_window(s1, o1, s2, o2, 4, 3, 1);
        assert(s1[o1 + 3] == s2[o2 + 3]);
    }

    fn size() -> (n: usize) {
        4
    }

    fn read(bytes: &[u8], off: usize) -> (r: Self) {
        assert(bytes@.len() == bytes.len());
        UNWIND_INFO {
            version_and_flag: bytes[off + 0],
            size_of_prolog: bytes[off + 1],
            count_of_unwind_codes: bytes[off + 2],
            frame_register_and_frame_register_offset: bytes[off + 3],
        }
    }
}

/// The export directory table.
#[allow(non_camel_case_types)]
#[derive(Debug, Clone, Copy)]
pub struct IMAGE_EXPORT_DIRECTORY {
    pub blank: u32,
    pub time_data_stamp: u32,
    pub major_version: u16,
    pub minor_version: u16,
    pub name: u32,
    pub base: u32,
    pub number_of_functions: u32,
    pub number_of_names: u32,
    pub address_of_functions: u32,
    pub address_of_names: u32,
    pub address_of_name_ordinals: u32,
}

impl RawStruct for IMAGE_EXPORT_DIRECTORY {
    open spec fn spec_size() -> nat {
        40
    }

    open spec fn spec_read(s: Seq<u8>, off: int) -> Self {
        IMAGE_EXPORT_DIRECTORY {
            blank: le_u32(s, off + 0),
            time_data_stamp: le_u32(s, off + 4),
            major_version: le_u16(s, off + 8),
            minor_version: le_u16(s, off + 10),
            name: le_u32(s, off + 12),
            base: le_u32(s, off + 16),
            number_of_functions: le_u32(s, off + 20),
            number_of_names: le_u32(s, off + 24),
            address_of_functions: le_u32(s, off + 28),
            address_of_names: le_u32(s, off + 32),
            address_of_name_ordinals: le_u32(s, off + 36),
        }
    }

    proof fn lemma_read_window(s1: Seq<u8>, o1: int, s2: Seq<u8>, o2: int) {
        lemma_sub_window(s1, o1, s2, o2, 40, 0, 4);
        lemma_le_window(s1, o1 + 0, s2, o2 + 0, 4);
        lemma_sub_window(s1, o1, s2, o2, 40, 4, 4);
        lemma_le_window(s1, o1 + 4, s2, o2 + 4, 4);
        lemma_sub_window(s1, o1, s2, o2, 40, 8, 2);
        lemma_le_window(s1, o1 + 8, s2, o2 + 8, 2);
        lemma_sub_window(s1, o1, s2, o2, 40, 10, 2);
        lemma_le_window(s1, o1 + 10, s2, o2 + 10, 2);
        lemma_sub_window(s1, o1, s2, o2, 40, 12, 4);
        lemma_le_window(s1, o1 + 12, s2, o2 + 12, 4);
        lemma_sub_window(s1, o1, s2, o2, 40, 16, 4);
        lemma_le_window(s1, o1 + 16, s2, o2 + 16, 4);
        lemma_sub_window(s1, o1, s2, o2, 40, 20, 4);
        lemma_le_window(s1, o1 + 20, s2, o2 + 20, 4);
        lemma_sub_window(s1, o1, s2, o2, 40, 24, 4);
        lemma_le_window(s1, o1 + 24, s2, o2 + 24, 4);
        lemma_sub_window(s1, o1, s2, o2, 40, 28, 4);
        lemma_le_window(s1, o1 + 28, s2, o2 + 28, 4);
        lemma_sub_window(s1, o1, s2, o2, 40, 32, 4);
        lemma_le_window(s1, o1 + 32, s2, o2 + 32, 4);
        lemma_sub_window(s1, o1, s2, o2, 40, 36, 4);
        lemma_le_window(s1, o1 + 36, s2, o2 + 36, 4);
    }

    fn size() -> (n: usize) {
        40
    }

    fn read(bytes: &[u8], off: usize) -> (r: Self) {
        assert(bytes@.len() == bytes.len());
        IMAGE_EXPORT_DIRECTORY {
            blank: read_u32(bytes, off + 0),
            time_data_stamp: read_u32(bytes, off + 4),
            major_version: read_u16(bytes, off + 8),
            minor_version: read_u16(bytes, off + 10),
            name: read_u32(bytes, off + 12),
            base: read_u32(bytes, off + 16),
            number_of_functions: read_u32(bytes, off + 20),
            number_of_names: read_u32(bytes, off + 24),
            address_of_functions: read_u32(bytes, off + 28),
            address_of_names: read_u32(bytes, off + 32),
            address_of_name_ordinals: read_u32(bytes, off + 36),
        }
    }
}

/// The head of one base relocation block: the page it fixes up and the size of the block.
#[allow(non_camel_case_types)]
#[derive(Debug, Clone, Copy)]
pub struct IMAGE_BASE_RELOCATION {
    pub virtual_address: u32,
    pub size: u32,
}

impl RawStruct for IMAGE_BASE_RELOCATION {
    open spec fn spec_size() -> nat {
        8
    }

    open spec fn spec_read(s: Seq<u8>, off: int) -> Self {
        IMAGE_BASE_RELOCATION {
            virtual_address: le_u32(s, off + 0),
            size: le_u32(s, off + 4),
        }
    }

    proof fn lemma_read_window(s1: Seq<u8>, o1: int, s2: Seq<u8>, o2: int) {
        lemma_sub_window(s1, o1, s2, o2, 8, 0, 4);
        lemma_le_window(s1, o1 + 0, s2, o2 + 0, 4);
        lemma_sub_window(s1, o1, s2, o2, 8, 4, 4);
        lemma_le_window(s1, o1 + 4, s2, o2 + 4, 4);
    }

    fn size() -> (n: usize) {
        8
    }

    fn read(bytes: &[u8], off: usize) -> (r: Self) {
        assert(bytes@.len() == bytes.len());
        IMAGE_BASE_RELOCATION {
            virtual_address: read_u32(bytes, off + 0),
            size: read_u32(bytes, off + 4),
        }
    }
}

/// The thread local storage directory of a PE32+ image.
#[allow(non_camel_case_types)]
#[derive(Debug, Clone, Copy)]
pub struct IMAGE_TLS_DIRECTORY64 {
    pub start_address_of_raw_data: u64,
    pub end_address_of_raw_data: u64,
    pub address_of_index: u64,
    pub address_of_callbacks: u64,
    pub size_of_zero_fill: u32,
    pub characteristics: u32,
}

impl RawStruct for IMAGE_TLS_DIRECTORY64 {
    open spec fn spec_size() -> nat {
        40
    }

    open spec fn spec_read(s: Seq<u8>, off: int) -> Self {
        IMAGE_TLS_DIRECTORY64 {
            start_address_of_raw_data: le_u64(s, off + 0),
            end_address_of_raw_data: le_u64(s, off + 8),
            address_of_index: le_u64(s, off + 16),
            address_of_callbacks: le_u64(s, off + 24),
            size_of_zero_fill: le_u32(s, off + 32),
            characteristics: le_u32(s, off + 36),
        }
    }

    proof fn lemma_read_window(s1: Seq<u8>, o1: int, s2: Seq<u8>, o2: int) {
        lemma_sub_window(s1, o1, s2, o2, 40, 0, 8);
        lemma_le_window(s1, o1 + 0, s2, o2 + 0, 8);
        lemma_sub_window(s1, o1, s2, o2, 40, 8, 8);
        lemma_le_window(s1, o1 + 8, s2, o2 + 8, 8);
        lemma_sub_window(s1, o1, s2, o2, 40, 16, 8);
        lemma_le_window(s1, o1 + 16, s2, o2 + 16, 8);
        lemma_sub_window(s1, o1, s2, o2, 40, 24, 8);
        lemma_le_window(s1, o1 + 24, s2, o2 + 24, 8);
        lemma_sub_window(s1, o1, s2, o2, 40, 32, 4);
        lemma_le_window(s1, o1 + 32, s2, o2 + 32, 4);
        lemma_sub_window(s1, o1, s2, o2, 40, 36, 4);
        lemma_le_window(s1, o1 + 36, s2, o2 + 36, 4);
    }

    fn size() -> (n: usize) {
        40
    }

    fn read(bytes: &[u8], off: usize) -> (r: Self) {
        assert(bytes@.len() == bytes.len());
        IMAGE_TLS_DIRECTORY64 {
            start_address_of_raw_data: read_u64(bytes, off + 0),
            end_address_of_raw_data: read_u64(bytes, off + 8),
            address_of_index: read_u64(bytes, off + 16),
            address_of_callbacks: read_u64(bytes, off + 24),
            size_of_zero_fill: read_u32(bytes, off + 32),
            characteristics: read_u32(bytes, off + 36),
        }
    }
}

/// The leading fields of the load configuration directory of a PE32+ image.
#[allow(non_camel_case_types)]
#[derive(Debug, Clone, Copy)]
pub struct IMAGE_LOAD_CONFIG_DIRECTORY64 {
    pub size: u32,
    pub time_date_stamp: u32,
    pub major_version: u16,
    pub minor_version: u16,
    pub global_flags_clear: u32,
    pub global_flags_set: u32,
    pub critical_section_default_timeout: u32,
    pub de_commit_free_block_threshold: u64,
    pub de_commit_total_free_threshold: u64,
    pub lock_prefix_table: u64,
    pub maximum_allocation_size: u64,
    pub virtual_memory_threshold: u64,
    pub process_affinity_mask: u64,
    pub process_heap_flags: u32,
    pub csd_version: u16,
    pub dependent_load_flags: u16,
    pub edit_list: u64,
    pub security_cookie: u64,
    pub se_handler_table: u64,
    pub se_handler_count: u64,
}

impl RawStruct for IMAGE_LOAD_CONFIG_DIRECTORY64 {
    open spec fn spec_size() -> nat {
        112
    }

    open spec fn spec_read(s: Seq<u8>, off: int) -> Self {
        IMAGE_LOAD_CONFIG_DIRECTORY64 {
            size: le_u32(s, off + 0),
            time_date_stamp: le_u32(s, off + 4),
            major_version: le_u16(s, off + 8),
            minor_version: le_u16(s, off + 10),
            global_flags_clear: le_u32(s, off + 12),
            global_flags_set: le_u32(s, off + 16),
            critical_section_default_timeout: le_u32(s, off + 20),
            de_commit_free_block_threshold: le_u64(s, off + 24),
            de_commit_total_free_threshold: le_u64(s, off + 32),
            lock_prefix_table: le_u64(s, off + 40),
            maximum_allocation_size: le_u64(s, off + 48),
            virtual_memory_threshold: le_u64(s, off + 56),
            process_affinity_mask: le_u64(s, off + 64),
            process_heap_flags: le_u32(s, off + 72),
            csd_version: le_u16(s, off + 76),
            dependent_load_flags: le_u16(s, off + 78),
            edit_list: le_u64(s, off + 80),
            security_cookie: le_u64(s, off + 88),
            se_handler_table: le_u64(s, off + 96),
            se_handler_count: le_u64(s, off + 104),
        }
    }

    proof fn lemma_read_window(s1: Seq<u8>, o1: int, s2: Seq<u8>, o2: int) {
        lemma_sub_window(s1, o1, s2, o2, 112, 0, 4);
        lemma_le_window(s1, o1 + 0, s2, o2 + 0, 4);
        lemma_sub_window(s1, o1, s2, o2, 112, 4, 4);
        lemma_le_window(s1, o1 + 4, s2, o2 + 4, 4);
        lemma_sub_window(s1, o1, s2, o2, 112, 8, 2);
        lemma_le_window(s1, o1 + 8, s2, o2 + 8, 2);
        lemma_sub_window(s1, o1, s2, o2, 112, 10, 2);
        lemma_le_window(s1, o1 + 10, s2, o2 + 10, 2);
        lemma_sub_window(s1, o1, s2, o2, 112, 12, 4);
        lemma_le_window(s1, o1 + 12, s2, o2 + 12, 4);
        lemma_sub_window(s1, o1, s2, o2, 112, 16, 4);
        lemma_le_window(s1, o1 + 16, s2, o2 + 16, 4);
        lemma_sub_window(s1, o1, s2, o2, 112, 20, 4);
        lemma_le_window(s1, o1 + 20, s2, o2 + 20, 4);
        lemma_sub_window(s1, o1, s2, o2, 112, 24, 8);
        lemma_le_window(s1, o1 + 24, s2, o2 + 24, 8);
        lemma_sub_window(s1, o1, s2, o2, 112, 32, 8);
        lemma_le_window(s1, o1 + 32, s2, o2 + 32, 8);
        lemma_sub_window(s1, o1, s2, o2, 112, 40, 8);
        lemma_le_window(s1, o1 + 40, s2, o2 + 40, 8);
        lemma_sub_window(s1, o1, s2, o2, 112, 48, 8);
        lemma_le_window(s1, o1 + 48, s2, o2 + 48, 8);
        lemma_sub_window(s1, o1, s2, o2, 112, 56, 8);
        lemma_le_window(s1, o1 + 56, s2, o2 + 56, 8);
        lemma_sub_window(s1, o1, s2, o2, 112, 64, 8);
        lemma_le_window(s1, o1 + 64, s2, o2 + 64, 8);
        lemma_sub_window(s1, o1, s2, o2, 112, 72, 4);
        lemma_le_window(s1, o1 + 72, s2, o2 + 72, 4);
        lemma_sub_window(s1, o1, s2, o2, 112, 76, 2);
        lemma_le_window(s1, o1 + 76, s2, o2 + 76, 2);
        lemma_sub_window(s1, o1, s2, o2, 112, 78, 2);
        lemma_le_window(s1, o1 + 78, s2, o2 + 78, 2);
        lemma_sub_window(s1, o1, s2, o2, 112, 80, 8);
        lemma_le_window(s1, o1 + 80, s2, o2 + 80, 8);
        lemma_sub_window(s1, o1, s2, o2, 112, 88, 8);
        lemma_le_window(s1, o1 + 88, s2, o2 + 88, 8);
        lemma_sub_window(s1, o1, s2, o2, 112, 96, 8);
        lemma_le_window(s1, o1 + 96, s2, o2 + 96, 8);
        lemma_sub_window(s1, o1, s2, o2, 112, 104, 8);
        lemma_le_window(s1, o1 + 104, s2, o2 + 104, 8);
    }

    fn size() -> (n: usize) {
        112
    }

    fn read(bytes: &[u8], off: usize) -> (r: Self) {
        assert(bytes@.len() == bytes.len());
        IMAGE_LOAD_CONFIG_DIRECTORY64 {
            size: read_u32(bytes, off + 0),
            time_date_stamp: read_u32(bytes, off + 4),
            major_version: read_u16(bytes, off + 8),
            minor_version: read_u16(bytes, off + 10),
            global_flags_clear: read_u32(bytes, off + 12),
            global_flags_set: read_u32(bytes, off + 16),
            critical_section_default_timeout: read_u32(bytes, off + 20),
            de_commit_free_block_threshold: read_u64(bytes, off + 24),
            de_commit_total_free_threshold: read_u64(bytes, off + 32),
            lock_prefix_table: read_u64(bytes, off + 40),
            maximum_allocation_size: read_u64(bytes, off + 48),
            virtual_memory_threshold: read_u64(bytes, off + 56),
            process_affinity_mask: read_u64(bytes, off + 64),
            process_heap_flags: read_u32(bytes, off + 72),
            csd_version: read_u16(bytes, off + 76),
            dependent_load_flags: read_u16(bytes, off + 78),
            edit_list: read_u64(bytes, off + 80),
            security_cookie: read_u64(bytes, off + 88),
            se_handler_table: read_u64(bytes, off + 96),
            se_handler_count: read_u64(bytes, off + 104),
        }
    }
}

/// An import named by its ordinal.
#[allow(non_camel_case_types)]
#[derive(Debug, Clone, Copy)]
pub struct IMAGE_IMPORT_BY_ORDINAL {
    pub ordinal_number: u16,
}

impl RawStruct for IMAGE_IMPORT_BY_ORDINAL {
    open spec fn spec_size() -> nat {
        2
    }

    open spec fn spec_read(s: Seq<u8>, off: int) -> Self {
        IMAGE_IMPORT_BY_ORDINAL {
            ordinal_number: le_u16(s, off + 0),
        }
    }

    proof fn lemma_read_window(s1: Seq<u8>, o1: int, s2: Seq<u8>, o2: int) {
        lemma_sub_window(s1, o1, s2, o2, 2, 0, 2);
        lemma_le_window(s1, o1 + 0, s2, o2 + 0, 2);
    }

    fn size() -> (n: usize) {
        2
    }

    fn read(bytes: &[u8], off: usize) -> (r: Self) {
        assert(bytes@.len() == bytes.len());
        IMAGE_IMPORT_BY_ORDINAL {
            ordinal_number: read_u16(bytes, off + 0),
        }
    }
}

/// The flags of a section's `characteristics` field, one by one.
#[derive(Debug, Clone, Copy)]
pub struct SectionCharaceristics {
    type_no_pad: bool,
    cnt_code: bool,
    cnt_initialized_data: bool,
    cnt_uninitialized_data: bool,
    lnk_other: bool,
    lnk_info: bool,
    lnk_remove: bool,
    lnk_comdat: bool,
    gprel: bool,
    mem_16bit: bool,
    mem_locked: bool,
    mem_preload: bool,
    align_1bytes: bool,
    align_2bytes: bool,
    align_8bytes: bool,
    align_128bytes: bool,
    lnk_nreloc_ovfl: bool,
    mem_discardable: bool,
    mem_not_cached: bool,
    mem_not_paged: bool,
    mem_shared: bool,
    mem_execute: bool,
    mem_read: bool,
    mem_write: bool,
}

} // verus!
