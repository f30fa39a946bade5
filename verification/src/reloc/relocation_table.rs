//! The base relocation directory of an image, with the file offset of every
//! address it fixes up.
use vstd::prelude::*;

use super::{
    BaseRelocationBlock, Block, apply_relocs, lemma_apply_concat, lemma_apply_len, lemma_fit_prefix, relocs_fit,
    slots_of,
};
use crate::error::PeError;
use crate::exception_table::spec_directory;
use crate::image::{Fo, Image, Va, rva_resolvable, same_content, spec_fo};
use crate::raw::{RawStruct, le_u16};
use crate::windows_types::IMAGE_BASE_RELOCATION;

verus! {

/// The index of the base relocation directory among the data directories.
pub const IMAGE_RELOCATION_DIRECTORY_INDEX: usize = 5;

/// The kind of entry the walk accepts: a 64-bit address.
pub const IMAGE_REL_BASED_DIR64: u16 = 10;

/// A relocation block: its head, and each nonzero entry with the file offset of
/// the address it fixes up.
pub type RelocBlockModel = (IMAGE_BASE_RELOCATION, Seq<(u16, Fo)>);

/// The file offset of the relocation directory.
pub open spec fn spec_reloc_fo(image: &Image) -> int {
    spec_fo(
        image.spec_sections(),
        spec_directory(image, IMAGE_RELOCATION_DIRECTORY_INDEX as int).virtual_address as int,
    )
}

/// The head of the block `pos` bytes into the directory.
pub open spec fn spec_head(image: &Image, pos: int) -> IMAGE_BASE_RELOCATION {
    IMAGE_BASE_RELOCATION::spec_read(image.spec_bytes(), spec_reloc_fo(image) + pos)
}

/// The number of entries of a block with head `h`.
pub open spec fn spec_entry_count(h: IMAGE_BASE_RELOCATION) -> int {
    (h.size - 8) / 2
}

/// The `i`-th entry of the block `pos` bytes into the directory.
pub open spec fn spec_entry(image: &Image, pos: int, i: int) -> u16 {
    le_u16(image.spec_bytes(), spec_reloc_fo(image) + pos + 8 + 2 * i)
}

/// The file offset of the page of the block `pos` bytes into the directory.
pub open spec fn spec_page_fo(image: &Image, pos: int) -> int {
    spec_fo(image.spec_sections(), spec_head(image, pos).virtual_address as int)
}

/// The first `n` entries of the block at `pos` that are not zero, each with the
/// file offset of its address: the page's offset plus the entry's low twelve bits.
pub open spec fn spec_block_entries(image: &Image, pos: int, n: int) -> Seq<(u16, Fo)>
    decreases n,
{
    if n <= 0 {
        Seq::empty()
    } else {
        let e = spec_entry(image, pos, n - 1);
        spec_block_entries(image, pos, n - 1) + if e != 0 {
            seq![(e, (spec_page_fo(image, pos) + (e & 0xFFFu16)) as Fo)]
        } else {
            Seq::empty()
        }
    }
}

/// The blocks from `pos` bytes into a directory of `size` bytes on. (A block
/// shorter than its head, which ends the walk here, is never reached; see
/// `reloc_blocks_readable_from`.)
pub open spec fn spec_reloc_blocks_from(image: &Image, size: int, pos: int) -> Seq<RelocBlockModel>
    decreases size - pos,
{
    if pos >= size || spec_head(image, pos).size < 8 {
        Seq::empty()
    } else {
        let h = spec_head(image, pos);
        let b = (h, spec_block_entries(image, pos, spec_entry_count(h)));
        if pos + h.size >= size {
            seq![b]
        } else {
            seq![b] + spec_reloc_blocks_from(image, size, pos + h.size)
        }
    }
}

/// Each block from `pos` on has its head and entries inside the directory, a page
/// that maps, entries that are zero or of the 64-bit kind, and fix-up offsets
/// that fit in a signed offset.
pub open spec fn reloc_blocks_readable_from(image: &Image, size: int, pos: int) -> bool
    decreases size - pos,
{
    pos < size ==> {
        let h = spec_head(image, pos);
        &&& pos + 8 <= size
        &&& 8 <= h.size <= size - pos
        &&& rva_resolvable(image.spec_sections(), h.virtual_address as int)
        &&& spec_page_fo(image, pos) <= isize::MAX
        &&& forall|i: int|
            0 <= i < spec_entry_count(h) && #[trigger] spec_entry(image, pos, i) != 0 ==> {
                &&& spec_entry(image, pos, i) >> 12u16 == IMAGE_REL_BASED_DIR64
                &&& spec_page_fo(image, pos) + (spec_entry(image, pos, i) & 0xFFFu16)
                    <= isize::MAX
            }
        &&& pos + h.size < size ==> reloc_blocks_readable_from(image, size, pos + h.size)
    }
}

/// The relocation directory is empty, or it maps, lies in the image, and its
/// blocks can be walked.
pub open spec fn relocation_directory_readable(image: &Image) -> bool {
    let dir = spec_directory(image, IMAGE_RELOCATION_DIRECTORY_INDEX as int);
    &&& image.headers_in_bytes()
    &&& (dir.virtual_address != 0 && dir.size != 0 ==> {
        &&& rva_resolvable(image.spec_sections(), dir.virtual_address as int)
        &&& spec_reloc_fo(image) + dir.size <= image.spec_bytes().len()
        &&& reloc_blocks_readable_from(image, dir.size as int, 0)
    })
}

/// The file offsets of the addresses the first `n` blocks fix up, block after block.
pub open spec fn table_slots(blocks: Seq<BaseRelocationBlock>, n: int) -> Seq<Fo>
    decreases n,
{
    if n <= 0 {
        Seq::empty()
    } else {
        table_slots(blocks, n - 1) + blocks[n - 1].spec_slots()
    }
}

/// The base relocations of an image.
#[derive(Debug)]
pub struct RelocationTable {
    base_relocs: Vec<BaseRelocationBlock>,
}

impl RelocationTable {
    /// The blocks, each seen as its head and entries.
    pub closed spec fn spec_blocks(&self) -> Seq<RelocBlockModel> {
        self.base_relocs@.map_values(|b: BaseRelocationBlock| (b.spec_raw(), b.spec_entries()))
    }

    /// The file offsets of every address the table fixes up, in order.
    pub closed spec fn spec_slots(&self) -> Seq<Fo> {
        table_slots(self.base_relocs@, self.base_relocs@.len() as int)
    }

    /// Reads the relocation blocks; `None` where the directory is empty. A
    /// directory that cannot be walked (see `relocation_directory_readable`) is not
    /// handled.
    pub fn from_image(image: &Image) -> (r: Result<Option<Self>, PeError>)
        requires
            relocation_directory_readable(image),
        ensures
            match r {
                Ok(Some(t)) => {
                    let dir = spec_directory(image, IMAGE_RELOCATION_DIRECTORY_INDEX as int);
                    &&& dir.virtual_address != 0 && dir.size != 0
                    &&& t.spec_blocks() == spec_reloc_blocks_from(image, dir.size as int, 0)
                },
                Ok(None) => {
                    let dir = spec_directory(image, IMAGE_RELOCATION_DIRECTORY_INDEX as int);
                    dir.virtual_address == 0 || dir.size == 0
                },
                Err(_) => false,
            },
    {
        let relocation_directory = image.get_nt_header().get_optional_header().data_directory[IMAGE_RELOCATION_DIRECTORY_INDEX];

        if relocation_directory.virtual_address == 0 || relocation_directory.size == 0 {
            return Ok(None);
        }

        let total = relocation_directory.size as usize;
        let mut size = total;

        let reloc_fo = image.rva_to_fo(relocation_directory.virtual_address as usize).unwrap();
        let _ = image.bytes();

        let mut base_relocs: Vec<BaseRelocationBlock> = Vec::new();
        let mut pos: usize = 0;

        while size > 0
            invariant
                relocation_directory == spec_directory(image, IMAGE_RELOCATION_DIRECTORY_INDEX as int),
                total == relocation_directory.size,
                reloc_fo == spec_reloc_fo(image),
                reloc_fo + total <= image.spec_bytes().len(),
                image.spec_bytes().len() <= usize::MAX,
                pos + size == total,
                reloc_blocks_readable_from(image, total as int, pos as int),
                spec_reloc_blocks_from(image, total as int, 0) == base_relocs@.map_values(
                    |b: BaseRelocationBlock| (b.spec_raw(), b.spec_entries()),
                ) + spec_reloc_blocks_from(image, total as int, pos as int),
            decreases size,
        {
            let ghost before = base_relocs@.map_values(
                |b: BaseRelocationBlock| (b.spec_raw(), b.spec_entries()),
            );
            let base_reloc = image.read_from_fo::<IMAGE_BASE_RELOCATION>(reloc_fo + pos);
            assert(base_reloc == spec_head(image, pos as int));

            let base_reloc_fo = image.rva_to_fo(base_reloc.virtual_address as usize).unwrap();

            let reloc_size = base_reloc.size as usize;
            let count = (reloc_size - 8) / 2;

            let mut blocks: Vec<(Block, Fo)> = Vec::new();
            let mut i: usize = 0;
            while i < count
                invariant
                    0 <= i <= count,
                    count == spec_entry_count(base_reloc),
                    base_reloc == spec_head(image, pos as int),
                    base_reloc_fo == spec_page_fo(image, pos as int),
                    reloc_fo == spec_reloc_fo(image),
                    pos + base_reloc.size <= total,
                    reloc_fo + total <= image.spec_bytes().len(),
                    image.spec_bytes().len() <= usize::MAX,
                    reloc_blocks_readable_from(image, total as int, pos as int),
                    pos < total,
                    blocks@.map_values(|b: (Block, Fo)| (b.0@, b.1)) == spec_block_entries(
                        image,
                        pos as int,
                        i as int,
                    ),
                decreases count - i,
            {
                let value = image.read_from_fo::<u16>(reloc_fo + pos + 8 + 2 * i);
                assert(value == spec_entry(image, pos as int, i as int));
                let ghost prev = blocks@;
                if value != 0 {
                    let block = Block::new(value);
                    let offset = block.offset() as usize + base_reloc_fo;
                    blocks.push((block, offset));
                    assert(blocks@.map_values(|b: (Block, Fo)| (b.0@, b.1)) =~= spec_block_entries(
                        image,
                        pos as int,
                        i + 1,
                    ));
                } else {
                    assert(spec_block_entries(image, pos as int, i + 1) =~= spec_block_entries(
                        image,
                        pos as int,
                        i as int,
                    ));
                }
                i = i + 1;
            }

            let block = BaseRelocationBlock::new(base_reloc, blocks);
            base_relocs.push(block);

            size = size - reloc_size;
            pos = pos + reloc_size;
            proof {
                let after = base_relocs@.map_values(
                    |b: BaseRelocationBlock| (b.spec_raw(), b.spec_entries()),
                );
                assert(after =~= before + seq![(block.spec_raw(), block.spec_entries())]);
                if size == 0 {
                    assert(spec_reloc_blocks_from(image, total as int, pos as int) =~= Seq::empty());
                    assert(after + Seq::<RelocBlockModel>::empty() =~= after);
                } else {
                    assert(before + (seq![(block.spec_raw(), block.spec_entries())]
                        + spec_reloc_blocks_from(image, total as int, pos as int)) =~= after
                        + spec_reloc_blocks_from(image, total as int, pos as int));
                }
            }
        }
        proof {
            assert(spec_reloc_blocks_from(image, total as int, pos as int) =~= Seq::empty());
        }
        let t = Self { base_relocs };
        assert(t.spec_blocks() =~= spec_reloc_blocks_from(image, total as int, 0));

        Ok(Some(t))
    }

    /// Moves every address the table fixes up from `old_image_base` to
    /// `new_image_base`, block after block. A slot outside the bytes, an address
    /// below the old base, or one that would pass the address range is not handled.
    pub fn update_relocs(&self, bytes: &mut Vec<u8>, old_image_base: Va, new_image_base: Va)
        requires
            relocs_fit(
                old(bytes)@,
                self.spec_slots(),
                old_image_base as int,
                new_image_base as int,
                self.spec_slots().len() as int,
            ),
        ensures
            final(bytes)@ == apply_relocs(
                old(bytes)@,
                self.spec_slots(),
                old_image_base as int,
                new_image_base as int,
                self.spec_slots().len() as int,
            ),
    {
        let ghost start = bytes@;
        let ghost o = old_image_base as int;
        let ghost n = new_image_base as int;
        let mut k: usize = 0;
        while k < self.base_relocs.len()
            invariant
                0 <= k <= self.base_relocs@.len(),
                relocs_fit(start, self.spec_slots(), o, n, self.spec_slots().len() as int),
                self.spec_slots() == table_slots(self.base_relocs@, self.base_relocs@.len() as int),
                o == old_image_base,
                n == new_image_base,
                bytes@ == apply_relocs(
                    start,
                    table_slots(self.base_relocs@, k as int),
                    o,
                    n,
                    table_slots(self.base_relocs@, k as int).len() as int,
                ),
            decreases self.base_relocs@.len() - k,
        {
            let ghost done = table_slots(self.base_relocs@, k as int);
            let ghost next = self.base_relocs@[k as int].spec_slots();
            proof {
                lemma_table_slots_prefix(self.base_relocs@, k + 1, self.base_relocs@.len() as int);
                let rest = table_slots(self.base_relocs@, self.base_relocs@.len() as int).subrange(
                    (done.len() + next.len()) as int,
                    self.spec_slots().len() as int,
                );
                assert(self.spec_slots() =~= (done + next) + rest);
                lemma_fit_prefix(
                    start,
                    self.spec_slots(),
                    o,
                    n,
                    self.spec_slots().len() as int,
                    (done + next).len() as int,
                );
                lemma_apply_concat(start, done + next, rest, o, n, 0);
                lemma_apply_concat(start, done, next, o, n, next.len() as int);
                assert(done + next =~= table_slots(self.base_relocs@, k + 1));
            }
            self.base_relocs[k].update_relocs(bytes, old_image_base, new_image_base);
            proof {
                lemma_apply_concat(start, done, next, o, n, next.len() as int);
            }
            k = k + 1;
        }
    }
}

/// The slots of the first `m` blocks begin the slots of the first `n`.
pub proof fn lemma_table_slots_prefix(blocks: Seq<BaseRelocationBlock>, m: int, n: int)
    requires
        0 <= m <= n,
    ensures
        table_slots(blocks, m) == table_slots(blocks, n).subrange(0, table_slots(blocks, m).len() as int),
        table_slots(blocks, m).len() <= table_slots(blocks, n).len(),
    decreases n - m,
{
    if m < n {
        lemma_table_slots_prefix(blocks, m, n - 1);
        assert(table_slots(blocks, n).subrange(0, table_slots(blocks, n - 1).len() as int)
            =~= table_slots(blocks, n - 1));
        assert(table_slots(blocks, n).subrange(0, table_slots(blocks, m).len() as int)
            =~= table_slots(blocks, n - 1).subrange(0, table_slots(blocks, m).len() as int));
    } else {
        assert(table_slots(blocks, n).subrange(0, table_slots(blocks, n).len() as int)
            =~= table_slots(blocks, n));
    }
}

/// Images with the same bytes, headers and sections hold the same block entries.
pub(crate) proof fn lemma_block_entries_same(a: &Image, b: &Image, pos: int, n: int)
    requires
        same_content(a, b),
    ensures
        spec_block_entries(a, pos, n) == spec_block_entries(b, pos, n),
    decreases n,
{
    if n > 0 {
        lemma_block_entries_same(a, b, pos, n - 1);
    }
}

/// Images with the same bytes, headers and sections hold the same blocks.
pub(crate) proof fn lemma_reloc_blocks_same(a: &Image, b: &Image, size: int, pos: int)
    requires
        same_content(a, b),
    ensures
        spec_reloc_blocks_from(a, size, pos) == spec_reloc_blocks_from(b, size, pos),
    decreases size - pos,
{
    if !(pos >= size || spec_head(a, pos).size < 8) {
        let h = spec_head(a, pos);
        lemma_block_entries_same(a, b, pos, spec_entry_count(h));
        if pos + h.size < size {
            lemma_reloc_blocks_same(a, b, size, pos + h.size);
        }
    }
}

/// The `i`-th 16-bit value after the head of a block whose head is at `head` in `s`.
pub open spec fn block_word(s: Seq<u8>, head: int, i: int) -> u16 {
    le_u16(s, head + 8 + 2 * i)
}

/// Where the relocation reader looks: the directory's file offset is that of
/// the directory's address, the head of the block `pos` bytes in is the record
/// there, and its page's file offset is that of the address the head names.
pub proof fn law_reloc_positions(image: &Image, pos: int)
    ensures
        spec_reloc_fo(image) == spec_fo(
            image.spec_sections(),
            spec_directory(image, IMAGE_RELOCATION_DIRECTORY_INDEX as int).virtual_address as int,
        ),
        spec_head(image, pos) == IMAGE_BASE_RELOCATION::spec_read(image.spec_bytes(), spec_reloc_fo(image) + pos),
        spec_page_fo(image, pos) == spec_fo(image.spec_sections(), spec_head(image, pos).virtual_address as int),
        forall|i: int| #[trigger] spec_entry(image, pos, i) == block_word(image.spec_bytes(), spec_reloc_fo(image) + pos, i),
{
}

/// The blocks read from `pos` bytes into a directory of `size` bytes start with
/// the block whose head lies there, with all `(SizeOfBlock - 8) / 2` of its
/// values looked at, and go on with the blocks read from the end of that block;
/// the walk stops at the end of the directory.
pub proof fn law_reloc_blocks_walk(image: &Image, size: int, pos: int)
    requires
        0 <= pos < size,
        spec_head(image, pos).size >= 8,
    ensures
        ({
            let h = spec_head(image, pos);
            let blocks = spec_reloc_blocks_from(image, size, pos);
            &&& blocks.len() >= 1
            &&& blocks[0] == (h, spec_block_entries(image, pos, (h.size - 8) / 2))
            &&& pos + h.size < size ==> blocks.subrange(1, blocks.len() as int)
                == spec_reloc_blocks_from(image, size, pos + h.size)
            &&& pos + h.size >= size ==> blocks.len() == 1
        }),
{
    let h = spec_head(image, pos);
    let blocks = spec_reloc_blocks_from(image, size, pos);
    if pos + h.size < size {
        assert(blocks.subrange(1, blocks.len() as int) =~= spec_reloc_blocks_from(image, size, pos + h.size));
    }
}

/// Reading the block whose head lies `pos` bytes into the relocation directory
/// (at the directory's file offset plus `pos`), with `n` 16-bit values after its
/// head: each nonzero one of them is kept, with the file offset of the page its
/// head names plus its low twelve bits.
pub proof fn law_reloc_block_entries_kept(image: &Image, pos: int, n: int)
    requires
        0 <= n,
    ensures
        ({
            let head = spec_reloc_fo(image) + pos;
            let s = image.spec_bytes();
            let page = spec_page_fo(image, pos);
            let es = spec_block_entries(image, pos, n);
            forall|i: int|
                0 <= i < n && #[trigger] block_word(s, head, i) != 0 ==> exists|k: int|
                    0 <= k < es.len() && es[k] == (
                        block_word(s, head, i),
                        (page + (block_word(s, head, i) & 0xFFFu16)) as Fo,
                    )
        }),
    decreases n,
{
    let head = spec_reloc_fo(image) + pos;
    let s = image.spec_bytes();
    let page = spec_page_fo(image, pos);
    if n > 0 {
        law_reloc_block_entries_kept(image, pos, n - 1);
        let prev = spec_block_entries(image, pos, n - 1);
        let es = spec_block_entries(image, pos, n);
        assert(block_word(s, head, n - 1) == spec_entry(image, pos, n - 1));
        assert forall|i: int|
            0 <= i < n && #[trigger] block_word(s, head, i) != 0 implies exists|k: int|
                0 <= k < es.len() && es[k] == (
                    block_word(s, head, i),
                    (page + (block_word(s, head, i) & 0xFFFu16)) as Fo,
                ) by {
            if i < n - 1 {
                let k = choose|k: int|
                    0 <= k < prev.len() && prev[k] == (
                        block_word(s, head, i),
                        (page + (block_word(s, head, i) & 0xFFFu16)) as Fo,
                    );
                assert(es[k] == prev[k]);
            } else {
                assert(es[prev.len() as int] == (
                    block_word(s, head, i),
                    (page + (block_word(s, head, i) & 0xFFFu16)) as Fo,
                ));
            }
        }
    }
}

/// Reading the block whose head lies `pos` bytes into the relocation directory,
/// with `n` 16-bit values after its head: each entry kept is one of those values
/// that is not zero, with the file offset of the page its head names plus its
/// low twelve bits; nothing else is kept.
pub proof fn law_reloc_block_entries_only(image: &Image, pos: int, n: int)
    requires
        0 <= n,
    ensures
        ({
            let head = spec_reloc_fo(image) + pos;
            let s = image.spec_bytes();
            let page = spec_page_fo(image, pos);
            let es = spec_block_entries(image, pos, n);
            forall|k: int|
                0 <= k < es.len() ==> exists|i: int|
                    0 <= i < n && #[trigger] block_word(s, head, i) != 0 && #[trigger] es[k] == (
                        block_word(s, head, i),
                        (page + (block_word(s, head, i) & 0xFFFu16)) as Fo,
                    )
        }),
    decreases n,
{
    let head = spec_reloc_fo(image) + pos;
    let s = image.spec_bytes();
    let page = spec_page_fo(image, pos);
    if n > 0 {
        law_reloc_block_entries_only(image, pos, n - 1);
        let prev = spec_block_entries(image, pos, n - 1);
        let es = spec_block_entries(image, pos, n);
        assert(block_word(s, head, n - 1) == spec_entry(image, pos, n - 1));
        assert forall|k: int| 0 <= k < es.len() implies exists|i: int|
            0 <= i < n && #[trigger] block_word(s, head, i) != 0 && #[trigger] es[k] == (
                block_word(s, head, i),
                (page + (block_word(s, head, i) & 0xFFFu16)) as Fo,
            ) by {
            if k < prev.len() {
                assert(es[k] == prev[k]);
            } else {
                assert(es[k] == (
                    block_word(s, head, n - 1),
                    (page + (block_word(s, head, n - 1) & 0xFFFu16)) as Fo,
                ));
            }
        }
    }
}

/// The addresses a table fixes up are those of its first `n` blocks, block after
/// block: every address a block fixes up is among them, in that block's order
/// after the addresses of the blocks before it.
pub proof fn law_table_slots(blocks: Seq<BaseRelocationBlock>, n: int, j: int)
    requires
        0 <= j < n <= blocks.len(),
    ensures
        ({
            let before = table_slots(blocks, j).len();
            forall|k: int|
                0 <= k < blocks[j].spec_slots().len() ==> #[trigger] table_slots(blocks, n)[before + k]
                    == blocks[j].spec_slots()[k]
        }),
        table_slots(blocks, n).len() >= table_slots(blocks, j + 1).len(),
    decreases n,
{
    if n > j + 1 {
        law_table_slots(blocks, n - 1, j);
        let prev = table_slots(blocks, n - 1);
        let all = table_slots(blocks, n);
        assert forall|p: int| 0 <= p < prev.len() implies #[trigger] all[p] == prev[p] by {}
    } else {
        let prev = table_slots(blocks, j);
        let all = table_slots(blocks, n);
        assert(all == prev + blocks[j].spec_slots());
    }
}

} // verus!
