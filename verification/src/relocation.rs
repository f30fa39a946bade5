//! The base relocation directory of an image, read block by block.
use vstd::prelude::*;

use crate::error::PeError;
use crate::pe::{
    Image, Rva, rva_readable, slice_read_safe, spec_read_slice, spec_rva_to_fo, vec_result_view,
};
use crate::pe_headers::nt_header::NtHeader;
use crate::pe_headers::optional_header::OptionalHeader;
use crate::raw::{RawStruct, le_u16, le_u32, lemma_le_window, lemma_sub_window, read_u16, read_u32};
use crate::windows_types::{IMAGE_DATA_DIRECTORY, IMAGE_SECTION_HEADER};

verus! {

/// The index of the base relocation directory among the data directories.
pub const RELOCATION_DIRECTORY_TABLE_INDEX: usize = 5;

/// The size of a block's head.
pub const BASE_RELOC_SIZE: usize = 8;

/// The head of a relocation block: the page it fixes up and the block's size.
#[derive(Debug, Clone, Copy)]
pub struct BaseReloc {
    pub rva: u32,
    pub block_size: u32,
}

impl RawStruct for BaseReloc {
    open spec fn spec_size() -> nat {
        8
    }

    open spec fn spec_read(s: Seq<u8>, off: int) -> Self {
        BaseReloc { rva: le_u32(s, off), block_size: le_u32(s, off + 4) }
    }

    proof fn lemma_read_window(s1: Seq<u8>, o1: int, s2: Seq<u8>, o2: int) {
        lemma_sub_window(s1, o1, s2, o2, 8, 0, 4);
        lemma_le_window(s1, o1, s2, o2, 4);
        lemma_sub_window(s1, o1, s2, o2, 8, 4, 4);
        lemma_le_window(s1, o1 + 4, s2, o2 + 4, 4);
    }

    fn size() -> (n: usize) {
        8
    }

    fn read(bytes: &[u8], off: usize) -> (r: Self) {
        assert(bytes@.len() == bytes.len());
        BaseReloc { rva: read_u32(bytes, off), block_size: read_u32(bytes, off + 4) }
    }
}

/// The kinds of base relocation.
#[derive(Debug, Clone, Copy, PartialEq, Eq, Structural)]
pub enum RelocType {
    ImageRelBasedAbsolute,
    ImageRelBasedHigh,
    ImageRelBasedLow,
    ImageRelBasedHighlow,
    ImageRelBasedHighadj,
    ImageRelBasedMipsJmpaddr,
    ImageRelBasedThumbMov32,
    ImageRelBasedRiscvLow12s,
    ImageRelBasedMipsJmpaddr16,
    ImageRelBasedDir64,
    Unknown,
}

/// The kind of relocation a type number names.
pub open spec fn spec_reloc_type(typ: u8) -> RelocType {
    if typ == 0 {
        RelocType::ImageRelBasedAbsolute
    } else if typ == 1 {
        RelocType::ImageRelBasedHigh
    } else if typ == 2 {
        RelocType::ImageRelBasedLow
    } else if typ == 3 {
        RelocType::ImageRelBasedHighlow
    } else if typ == 4 {
        RelocType::ImageRelBasedHighadj
    } else if typ == 5 {
        RelocType::ImageRelBasedMipsJmpaddr
    } else if typ == 7 {
        RelocType::ImageRelBasedThumbMov32
    } else if typ == 8 {
        RelocType::ImageRelBasedRiscvLow12s
    } else if typ == 9 {
        RelocType::ImageRelBasedMipsJmpaddr16
    } else if typ == 10 {
        RelocType::ImageRelBasedDir64
    } else {
        RelocType::Unknown
    }
}

impl RelocType {
    pub fn new(typ: u8) -> (r: Self)
        ensures
            r == spec_reloc_type(typ),
    {
        match typ {
            0 => Self::ImageRelBasedAbsolute,
            1 => Self::ImageRelBasedHigh,
            2 => Self::ImageRelBasedLow,
            3 => Self::ImageRelBasedHighlow,
            4 => Self::ImageRelBasedHighadj,
            5 => Self::ImageRelBasedMipsJmpaddr,
            7 => Self::ImageRelBasedThumbMov32,
            8 => Self::ImageRelBasedRiscvLow12s,
            9 => Self::ImageRelBasedMipsJmpaddr16,
            10 => Self::ImageRelBasedDir64,
            _ => Self::Unknown,
        }
    }
}

/// One entry of a relocation block: a kind in the top four bits, an offset into
/// the page in the low twelve.
#[derive(Debug, Clone, Copy)]
pub struct TypeOffset(pub u16);

impl TypeOffset {
    /// The kind of relocation: the top four bits.
    pub fn typ(&self) -> (r: RelocType)
        ensures
            r == spec_reloc_type((self.0 >> 12u16) as u8),
    {
        RelocType::new((self.0 >> 12u16) as u8)
    }

    /// The offset into the page: the low twelve bits.
    pub fn offset(&self) -> (r: u16)
        ensures
            r == self.0 & 0x0FFFu16,
            r < 0x1000,
    {
        let v = self.0;
        assert(v & 0x0FFFu16 < 0x1000u16) by (bit_vector);
        v & 0x0FFF
    }
}

/// An entry is its kind number, in the top four bits, above the offset into its
/// page that `offset` gives, in the low twelve: the two put together give the
/// entry back.
pub proof fn law_type_offset_split(t: TypeOffset)
    ensures
        t.0 == (((t.0 >> 12u16) << 12u16) | (t.0 & 0x0FFFu16)),
        (t.0 >> 12u16) < 16,
{
    let v = t.0;
    assert(v == (((v >> 12u16) << 12u16) | (v & 0x0FFFu16))) by (bit_vector);
    assert((v >> 12u16) < 16) by (bit_vector);
}

impl RawStruct for TypeOffset {
    open spec fn spec_size() -> nat {
        2
    }

    open spec fn spec_read(s: Seq<u8>, off: int) -> Self {
        TypeOffset(le_u16(s, off))
    }

    proof fn lemma_read_window(s1: Seq<u8>, o1: int, s2: Seq<u8>, o2: int) {
        lemma_le_window(s1, o1, s2, o2, 2);
    }

    fn size() -> (n: usize) {
        2
    }

    fn read(bytes: &[u8], off: usize) -> (r: Self) {
        TypeOffset(read_u16(bytes, off))
    }
}

/// A relocation block: the page it fixes up, its size and its entries.
pub type RelocationBlockModel = (Rva, usize, Seq<u16>);

/// One relocation block.
#[derive(Debug)]
pub struct RelocationBlock {
    page_rva: Rva,
    block_size: usize,
    type_offsets: Vec<TypeOffset>,
}

/// The entry values of a list of entries.
pub open spec fn type_offset_values(tos: Seq<TypeOffset>) -> Seq<u16> {
    tos.map_values(|t: TypeOffset| t.0)
}

impl View for RelocationBlock {
    type V = RelocationBlockModel;

    closed spec fn view(&self) -> RelocationBlockModel {
        (self.page_rva, self.block_size, type_offset_values(self.type_offsets@))
    }
}

impl RelocationBlock {
    pub fn new(page_rva: u32, block_size: u32, type_offsets: &[TypeOffset]) -> (r: Result<Self, PeError>)
        ensures
            r matches Ok(b) && b@ == (page_rva as Rva, block_size as usize, type_offset_values(
                type_offsets@,
            )),
    {
        let v = vstd::slice::slice_to_vec(type_offsets);
        Ok(Self { page_rva: page_rva as Rva, block_size: block_size as usize, type_offsets: v })
    }
}

/// The number of entries of a block of `block_size` bytes.
pub open spec fn block_entry_count(block_size: u32) -> int {
    (block_size - BASE_RELOC_SIZE) / 2
}

/// A list of blocks with `b` in front, where the rest could be read.
pub open spec fn cons_block(b: RelocationBlockModel, rest: Result<Seq<RelocationBlockModel>, PeError>) -> Result<
    Seq<RelocationBlockModel>,
    PeError,
> {
    match rest {
        Ok(r) => Ok(seq![b] + r),
        Err(e) => Err(e),
    }
}

/// The blocks from `offset` bytes into the directory at `base` of `size` bytes:
/// block after block until `size` is reached, or the first error met. (A block
/// of fewer than eight bytes, which ends the walk here, is never reached; see
/// `relocation_blocks_readable_from`.)
pub open spec fn spec_blocks_from(
    secs: Seq<IMAGE_SECTION_HEADER>,
    s: Seq<u8>,
    base: int,
    size: int,
    offset: int,
) -> Result<Seq<RelocationBlockModel>, PeError>
    decreases size - offset,
{
    if offset >= size {
        Ok(Seq::empty())
    } else {
        match spec_rva_to_fo(secs, base + offset) {
            None => Err(PeError::RvaNotMapped),
            Some(fo) => {
                let head = BaseReloc::spec_read(s, fo);
                if head.block_size < BASE_RELOC_SIZE {
                    Ok(Seq::empty())
                } else {
                    match spec_read_slice::<TypeOffset>(
                        secs,
                        s,
                        base + BASE_RELOC_SIZE + offset,
                        block_entry_count(head.block_size),
                    ) {
                        Err(e) => Err(e),
                        Ok(tos) => cons_block(
                            (head.rva as Rva, head.block_size as usize, type_offset_values(tos)),
                            if offset + head.block_size >= size {
                                Ok(Seq::empty())
                            } else {
                                spec_blocks_from(secs, s, base, size, offset + head.block_size)
                            },
                        ),
                    }
                }
            },
        }
    }
}

/// Reading the blocks from `offset` on stays in the image, overflows no lookup or
/// offset, and meets no block shorter than its head, at each block it reaches.
pub open spec fn relocation_blocks_readable_from(
    secs: Seq<IMAGE_SECTION_HEADER>,
    s: Seq<u8>,
    base: int,
    size: int,
    offset: int,
) -> bool
    decreases size - offset,
{
    offset < size ==> {
        &&& base + offset + BASE_RELOC_SIZE <= usize::MAX
        &&& rva_readable(secs, s, base + offset, BASE_RELOC_SIZE as int)
        &&& spec_rva_to_fo(secs, base + offset) matches Some(fo) ==> {
            let head = BaseReloc::spec_read(s, fo);
            &&& head.block_size >= BASE_RELOC_SIZE
            &&& offset + head.block_size <= usize::MAX
            &&& slice_read_safe::<TypeOffset>(secs, s,
                base + BASE_RELOC_SIZE + offset,
                block_entry_count(head.block_size),
            )
            &&& spec_read_slice::<TypeOffset>(
                secs,
                s,
                base + BASE_RELOC_SIZE + offset,
                block_entry_count(head.block_size),
            ) is Ok && offset + head.block_size < size ==> relocation_blocks_readable_from(
                secs,
                s,
                base,
                size,
                offset + head.block_size,
            )
        }
    }
}

/// `prefix` in front of what could be read, or the error met.
pub open spec fn prepend_blocks(
    prefix: Seq<RelocationBlockModel>,
    rest: Result<Seq<RelocationBlockModel>, PeError>,
) -> Result<Seq<RelocationBlockModel>, PeError> {
    match rest {
        Ok(r) => Ok(prefix + r),
        Err(e) => Err(e),
    }
}

/// The base relocation directory entry of an image.
pub open spec fn spec_relocation_directory<I: Image>(image: &I) -> IMAGE_DATA_DIRECTORY {
    image.spec_headers().spec_nt_header().spec_data_directory()[RELOCATION_DIRECTORY_TABLE_INDEX as int]
}

/// A result holding a relocation table, seen as its blocks.
pub open spec fn relocation_result_view(r: Result<RelocationTable, PeError>) -> Result<
    Seq<RelocationBlockModel>,
    PeError,
> {
    match r {
        Ok(t) => Ok(t.spec_blocks()),
        Err(e) => Err(e),
    }
}

/// The base relocations of an image, block by block.
#[derive(Debug)]
pub struct RelocationTable {
    blocks: Vec<RelocationBlock>,
}

impl RelocationTable {
    pub closed spec fn spec_blocks(&self) -> Seq<RelocationBlockModel> {
        self.blocks@.map_values(|b: RelocationBlock| b@)
    }

    /// Reads the relocation blocks of an image. A directory that cannot be read
    /// (see `relocation_blocks_readable_from`) is not handled.
    pub fn from_image<I: Image>(image: &I) -> (r: Result<Self, PeError>)
        requires
            image.inv(),
            relocation_blocks_readable_from(
                image.spec_sections(),
                image.spec_bytes(),
                spec_relocation_directory(image).virtual_address as int,
                spec_relocation_directory(image).size as int,
                0,
            ),
        ensures
            relocation_result_view(r) == spec_blocks_from(
                image.spec_sections(),
                image.spec_bytes(),
                spec_relocation_directory(image).virtual_address as int,
                spec_relocation_directory(image).size as int,
                0,
            ),
    {
        let ghost secs = image.spec_sections();
        let ghost s = image.spec_bytes();
        let relocation_directory_image = image.headers().nt_header().optional_header().data_directory()[RELOCATION_DIRECTORY_TABLE_INDEX];

        let base = relocation_directory_image.virtual_address as Rva;
        let size = relocation_directory_image.size as usize;
        let ghost whole = spec_blocks_from(secs, s, base as int, size as int, 0);

        let mut relocation_blocks: Vec<RelocationBlock> = Vec::new();
        let mut offset: usize = 0;

        while offset < size
            invariant
                image.inv(),
                secs == image.spec_sections(),
                s == image.spec_bytes(),
                whole == spec_blocks_from(secs, s, base as int, size as int, 0),
                base == spec_relocation_directory(image).virtual_address,
                size == spec_relocation_directory(image).size,
                relocation_blocks_readable_from(secs, s, base as int, size as int, offset as int),
                whole == prepend_blocks(
                    relocation_blocks@.map_values(|b: RelocationBlock| b@),
                    spec_blocks_from(secs, s, base as int, size as int, offset as int),
                ),
            decreases if offset <= size {
                size - offset
            } else {
                0
            },
        {
            let ghost before = relocation_blocks@.map_values(|b: RelocationBlock| b@);
            let base_reloc = match image.read_from_rva::<BaseReloc>(base + offset) {
                Ok(b) => b,
                Err(e) => return Err(e),
            };

            proof {
                let fo = spec_rva_to_fo(secs, base + offset).unwrap();
                assert(base_reloc == BaseReloc::spec_read(s, fo));
                assert(base_reloc.block_size >= BASE_RELOC_SIZE);
            }
            let count = (base_reloc.block_size as usize - BASE_RELOC_SIZE) / 2;

            let type_offsets = match image.read_slice_from_rva::<TypeOffset>(
                base + BASE_RELOC_SIZE + offset,
                count,
            ) {
                Ok(t) => t,
                Err(e) => return Err(e),
            };

            let block = match RelocationBlock::new(
                base_reloc.rva,
                base_reloc.block_size,
                type_offsets.as_slice(),
            ) {
                Ok(b) => b,
                Err(e) => return Err(e),
            };
            relocation_blocks.push(block);

            offset = offset + base_reloc.block_size as usize;
            proof {
                let after = relocation_blocks@.map_values(|b: RelocationBlock| b@);
                assert(after =~= before + seq![block@]);
                let rest = spec_blocks_from(secs, s, base as int, size as int, offset as int);
                match rest {
                    Ok(r) => {
                        assert(before + (seq![block@] + r) =~= after + r);
                    },
                    Err(_) => {},
                }
            }
        }
        proof {
            let all = relocation_blocks@.map_values(|b: RelocationBlock| b@);
            assert(all + Seq::<RelocationBlockModel>::empty() =~= all);
        }

        Ok(Self { blocks: relocation_blocks })
    }
}

/// Reading the blocks from `offset` bytes into the directory at `base`: the
/// first is the block whose head lies at the file offset of `base + offset`,
/// with its page address, its size and all `(size - 8) / 2` of the 16-bit
/// entries after its head; the rest are the blocks read from the end of that
/// block on, up to the end of the directory.
pub proof fn law_relocation_block_read(
    secs: Seq<IMAGE_SECTION_HEADER>,
    s: Seq<u8>,
    base: int,
    size: int,
    offset: int,
)
    requires
        0 <= offset < size,
        spec_blocks_from(secs, s, base, size, offset) is Ok,
        spec_rva_to_fo(secs, base + offset) matches Some(fo) && BaseReloc::spec_read(s, fo).block_size
            >= BASE_RELOC_SIZE,
    ensures
        ({
            let fo = spec_rva_to_fo(secs, base + offset)->Some_0;
            let head = BaseReloc::spec_read(s, fo);
            let bs = spec_blocks_from(secs, s, base, size, offset)->Ok_0;
            &&& bs.len() >= 1
            &&& spec_read_slice::<TypeOffset>(
                secs,
                s,
                base + BASE_RELOC_SIZE + offset,
                (head.block_size - BASE_RELOC_SIZE) / 2,
            ) matches Ok(tos)
            &&& bs[0] == (
                head.rva as Rva,
                head.block_size as usize,
                spec_read_slice::<TypeOffset>(
                    secs,
                    s,
                    base + BASE_RELOC_SIZE + offset,
                    (head.block_size - BASE_RELOC_SIZE) / 2,
                )->Ok_0.map_values(|t: TypeOffset| t.0),
            )
            &&& offset + head.block_size < size ==> spec_blocks_from(
                secs,
                s,
                base,
                size,
                offset + head.block_size,
            ) == Ok::<Seq<RelocationBlockModel>, PeError>(bs.subrange(1, bs.len() as int))
            &&& offset + head.block_size >= size ==> bs.len() == 1
        }),
{
    let fo = spec_rva_to_fo(secs, base + offset)->Some_0;
    let head = BaseReloc::spec_read(s, fo);
    let bs = spec_blocks_from(secs, s, base, size, offset)->Ok_0;
    if offset + head.block_size < size {
        let rest = spec_blocks_from(secs, s, base, size, offset + head.block_size)->Ok_0;
        assert(bs.subrange(1, bs.len() as int) =~= rest);
    }
}

/// A block's head is two little-endian 32-bit values, its page address then its
/// size, and an entry is one little-endian 16-bit value, two bytes wide.
pub proof fn law_relocation_records(s: Seq<u8>, off: int)
    ensures
        BaseReloc::spec_read(s, off).rva == le_u32(s, off),
        BaseReloc::spec_read(s, off).block_size == le_u32(s, off + 4),
        TypeOffset::spec_read(s, off).0 == le_u16(s, off),
        TypeOffset::spec_size() == 2,
        BaseReloc::spec_size() == 8,
{
}

} // verus!
