//! A base relocation block read from a run of 16-bit words: the page it patches,
//! then its entries up to the first zero one.
use vstd::prelude::*;

use crate::image::Rva;

verus! {

/// One 16-bit word of a base relocation block.
#[derive(Debug, Clone, Copy)]
pub struct Block(pub u16);

/// The 32-bit little-endian value of the words at `i` and `i + 1`.
pub open spec fn word_pair(b: Seq<Block>, i: int) -> int {
    b[i].0 + 65536 * b[i + 1].0
}

/// The number of words the block's entries end at, by its size field.
pub open spec fn spec_block_end(b: Seq<Block>) -> int {
    word_pair(b, 2) / 2 - 4
}

/// The entries of the block: the words after its page and size, up to its end.
pub open spec fn spec_entries(b: Seq<Block>) -> Seq<Block> {
    b.subrange(4, spec_block_end(b))
}

/// The words hold a page and a size, and the size ends the block after the
/// header's four words and within the words given.
pub open spec fn block_readable(b: Seq<Block>) -> bool {
    &&& b.len() >= 4
    &&& 4 <= spec_block_end(b) <= b.len()
}

/// A base relocation block: the page it patches and its nonzero entries.
#[derive(Debug)]
pub struct BaseRelocationBlock {
    page_rva: Rva,
    blocks: Vec<Block>,
}

impl BaseRelocationBlock {
    /// The page the block patches.
    pub closed spec fn spec_page_rva(&self) -> Rva {
        self.page_rva
    }

    /// The block's entries.
    pub closed spec fn spec_blocks(&self) -> Seq<Block> {
        self.blocks@
    }

    /// Reads a block from `bytes`: the page from the first two words, the size from
    /// the next two, then the entries after them up to the first zero one or the
    /// block's end. Returns the block and the entries after those it kept, up to
    /// the block's end.
    pub fn from_bytes<'a>(bytes: &'a [Block]) -> (r: (Self, &'a [Block]))
        requires
            block_readable(bytes@),
        ensures
            r.0.spec_page_rva() == word_pair(bytes@, 0),
            r.0.spec_blocks().len() <= spec_entries(bytes@).len(),
            r.0.spec_blocks() == spec_entries(bytes@).take(r.0.spec_blocks().len() as int),
            forall|k: int| 0 <= k < r.0.spec_blocks().len() ==> (#[trigger] spec_entries(bytes@)[k]).0 != 0,
            r.0.spec_blocks().len() < spec_entries(bytes@).len() ==> spec_entries(
                bytes@,
            )[r.0.spec_blocks().len() as int].0 == 0,
            r.1@ == spec_entries(bytes@).skip(r.0.spec_blocks().len() as int),
            r.0.spec_blocks() + r.1@ == spec_entries(bytes@),
    {
        let page_rva = (bytes[0].0 as u32 + 65536 * bytes[1].0 as u32) as Rva;
        let size = bytes[2].0 as u32 + 65536 * bytes[3].0 as u32;
        let size_of_start: usize = 4;
        let block_len = size as usize / 2 - size_of_start;

        let entries = vstd::slice::slice_subrange(bytes, size_of_start, block_len);
        let mut blocks: Vec<Block> = Vec::new();
        let mut i: usize = 0;
        while i < entries.len()
            invariant
                0 <= i <= entries@.len(),
                blocks@ == entries@.take(i as int),
                forall|k: int| 0 <= k < i ==> (#[trigger] entries@[k]).0 != 0,
            ensures
                blocks@ == entries@.take(i as int),
                0 <= i <= entries@.len(),
                forall|k: int| 0 <= k < i ==> (#[trigger] entries@[k]).0 != 0,
                i < entries@.len() ==> entries@[i as int].0 == 0,
            decreases entries@.len() - i,
        {
            if entries[i].0 == 0 {
                break;
            }
            blocks.push(entries[i]);
            i = i + 1;
            assert(blocks@ =~= entries@.take(i as int));
        }
        let rest = vstd::slice::slice_subrange(entries, blocks.len(), entries.len());
        assert(rest@ =~= entries@.skip(i as int));
        assert(blocks@ + rest@ =~= entries@);
        (Self { page_rva, blocks }, rest)
    }
}

/// The entries of a block run from its fifth word to the word its size field
/// (the 32-bit value of its third and fourth words) halved, less four; its page
/// is the 32-bit value of its first two words.
pub proof fn law_block_words(b: Seq<Block>)
    ensures
        spec_entries(b) == b.subrange(4, (b[2].0 + 65536 * b[3].0) / 2 - 4),
        word_pair(b, 0) == b[0].0 + 65536 * b[1].0,
{
}

} // verus!
