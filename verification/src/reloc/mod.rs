//! Base relocation blocks, whose entries point at the addresses to fix up when
//! the image moves.
use vstd::prelude::*;

pub mod relocation_table;

use crate::image::{Fo, Va};
use crate::raw::{RawEncode, RawStruct, lemma_le_window, lemma_splice_index, lemma_u64_bytes_of, lemma_u64_roundtrip, le_u64, splice, u64_bytes};
use crate::windows_types::IMAGE_BASE_RELOCATION;

verus! {

/// One entry of a relocation block: a kind in the top four bits, an offset into
/// the page in the low twelve.
#[derive(Debug, Clone, Copy)]
pub struct Block(u16);

impl View for Block {
    type V = u16;

    closed spec fn view(&self) -> u16 {
        self.0
    }
}

impl Block {
    pub fn new(value: u16) -> (r: Self)
        ensures
            r@ == value,
    {
        Block(value)
    }

    /// The offset into the page: the low twelve bits.
    pub fn offset(&self) -> (r: u16)
        ensures
            r == self@ & 0xFFFu16,
            r < 0x1000,
    {
        let v = self.0;
        assert(v & 0xFFFu16 < 0x1000u16) by (bit_vector);
        v & 0xFFF
    }

    /// The kind of relocation: the top four bits.
    pub fn typ(&self) -> (r: u16)
        ensures
            r == self@ >> 12u16,
            r < 16,
    {
        let v = self.0;
        assert(v >> 12u16 < 16u16) by (bit_vector);
        v >> 12
    }
}

/// The bytes after the address at `fo` has been moved from `old` to `new`.
pub open spec fn relocate(s: Seq<u8>, fo: int, old: int, new: int) -> Seq<u8> {
    splice(s, fo, u64_bytes(((le_u64(s, fo) as usize) - old + new) as u64))
}

/// The bytes after the addresses at the first `n` slots, in order, have been moved.
pub open spec fn apply_relocs(s: Seq<u8>, slots: Seq<Fo>, old: int, new: int, n: int) -> Seq<u8>
    decreases n,
{
    if n <= 0 {
        s
    } else {
        relocate(apply_relocs(s, slots, old, new, n - 1), slots[n - 1] as int, old, new)
    }
}

/// Moving the addresses at the first `n` slots reads and writes inside the bytes,
/// and no address falls below `old` or lands past the address range.
pub open spec fn relocs_fit(s: Seq<u8>, slots: Seq<Fo>, old: int, new: int, n: int) -> bool
    decreases n,
{
    n <= 0 || {
        let before = apply_relocs(s, slots, old, new, n - 1);
        let v = le_u64(before, slots[n - 1] as int) as usize;
        &&& relocs_fit(s, slots, old, new, n - 1)
        &&& slots[n - 1] + 8 <= s.len()
        &&& old <= v
        &&& v - old + new <= usize::MAX
    }
}

pub proof fn lemma_apply_len(s: Seq<u8>, slots: Seq<Fo>, old: int, new: int, n: int)
    requires
        relocs_fit(s, slots, old, new, n),
    ensures
        apply_relocs(s, slots, old, new, n).len() == s.len(),
    decreases n,
{
    if n > 0 {
        lemma_apply_len(s, slots, old, new, n - 1);
    }
}

/// Applying two lists of slots one after the other is applying their concatenation.
pub proof fn lemma_apply_concat(s: Seq<u8>, a: Seq<Fo>, b: Seq<Fo>, old: int, new: int, n: int)
    requires
        0 <= n <= b.len(),
    ensures
        apply_relocs(s, a + b, old, new, a.len() + n) == apply_relocs(
            apply_relocs(s, a, old, new, a.len() as int),
            b,
            old,
            new,
            n,
        ),
        relocs_fit(s, a + b, old, new, a.len() + n) == (relocs_fit(s, a, old, new, a.len() as int)
            && relocs_fit(apply_relocs(s, a, old, new, a.len() as int), b, old, new, n)),
    decreases n,
{
    if n == 0 {
        lemma_apply_prefix(s, a, b, old, new, a.len() as int);
    } else {
        lemma_apply_concat(s, a, b, old, new, n - 1);
        assert((a + b)[a.len() + n - 1] == b[n - 1]);
        lemma_apply_prefix(s, a, b, old, new, a.len() as int);
        if relocs_fit(s, a + b, old, new, a.len() + n) {
            lemma_fit_prefix(s, a + b, old, new, a.len() + n, a.len() as int);
        }
        if relocs_fit(s, a, old, new, a.len() as int) {
            lemma_apply_len(s, a, old, new, a.len() as int);
        }
    }
}

/// The first slots of a concatenation are those of its first part.
proof fn lemma_apply_prefix(s: Seq<u8>, a: Seq<Fo>, b: Seq<Fo>, old: int, new: int, n: int)
    requires
        0 <= n <= a.len(),
    ensures
        apply_relocs(s, a + b, old, new, n) == apply_relocs(s, a, old, new, n),
        relocs_fit(s, a + b, old, new, n) == relocs_fit(s, a, old, new, n),
    decreases n,
{
    if n > 0 {
        lemma_apply_prefix(s, a, b, old, new, n - 1);
        assert((a + b)[n - 1] == a[n - 1]);
    }
}

/// One base relocation block: its head, and each nonzero entry with the file
/// offset of the address it fixes up.
#[derive(Debug)]
pub struct BaseRelocationBlock {
    raw: IMAGE_BASE_RELOCATION,
    blocks: Vec<(Block, Fo)>,
}

/// The slots of a list of entries.
pub open spec fn slots_of(blocks: Seq<(Block, Fo)>) -> Seq<Fo> {
    blocks.map_values(|b: (Block, Fo)| b.1)
}

impl core::ops::Deref for BaseRelocationBlock {
    type Target = IMAGE_BASE_RELOCATION;

    fn deref(&self) -> (r: &IMAGE_BASE_RELOCATION)
        ensures
            *r == self.spec_raw(),
    {
        &self.raw
    }
}

impl BaseRelocationBlock {
    pub closed spec fn spec_raw(&self) -> IMAGE_BASE_RELOCATION {
        self.raw
    }

    /// Each entry's value, with the file offset of the address it fixes up.
    pub closed spec fn spec_entries(&self) -> Seq<(u16, Fo)> {
        self.blocks@.map_values(|b: (Block, Fo)| (b.0@, b.1))
    }

    /// The file offsets of the addresses the block fixes up, in order.
    pub closed spec fn spec_slots(&self) -> Seq<Fo> {
        slots_of(self.blocks@)
    }

    pub fn new(raw: IMAGE_BASE_RELOCATION, blocks: Vec<(Block, Fo)>) -> (r: Self)
        ensures
            r.spec_raw() == raw,
            r.spec_entries() == blocks@.map_values(|b: (Block, Fo)| (b.0@, b.1)),
            r.spec_slots() == slots_of(blocks@),
    {
        Self { raw, blocks }
    }

    /// Moves each address the block fixes up from `old_image_base` to
    /// `new_image_base`, in the image bytes. A slot outside the bytes, an address
    /// below the old base, or one that would pass the address range is not handled.
    pub fn update_relocs(&self, bytes: &mut Vec<u8>, old_image_base: Va, new_image_base: Va)
        requires
            relocs_fit(
                old(bytes)@,
                self.spec_slots(),
                old_image_base as int,
                new_image_base as int,
                self.spec_slots().len() as int,
            ),
        ensures
            final(bytes)@ == apply_relocs(
                old(bytes)@,
                self.spec_slots(),
                old_image_base as int,
                new_image_base as int,
                self.spec_slots().len() as int,
            ),
    {
        let ghost start = bytes@;
        let ghost slots = self.spec_slots();
        let mut i: usize = 0;
        while i < self.blocks.len()
            invariant
                0 <= i <= self.blocks@.len(),
                slots == self.spec_slots(),
                slots.len() == self.blocks@.len(),
                relocs_fit(start, slots, old_image_base as int, new_image_base as int, slots.len() as int),
                bytes@ == apply_relocs(start, slots, old_image_base as int, new_image_base as int, i as int),
            decreases self.blocks@.len() - i,
        {
            let fo = self.blocks[i].1;
            proof {
                lemma_fit_prefix(start, slots, old_image_base as int, new_image_base as int, slots.len() as int, i + 1);
                lemma_apply_len(start, slots, old_image_base as int, new_image_base as int, i as int);
            }
            let va = usize::read(bytes.as_slice(), fo);
            let moved = va - old_image_base + new_image_base;
            moved.write(bytes, fo);
            i = i + 1;
        }
    }
}

/// A fit for `n` slots is a fit for any fewer.
pub proof fn lemma_fit_prefix(s: Seq<u8>, slots: Seq<Fo>, old: int, new: int, n: int, m: int)
    requires
        relocs_fit(s, slots, old, new, n),
        0 <= m <= n,
    ensures
        relocs_fit(s, slots, old, new, m),
    decreases n - m,
{
    if m < n {
        lemma_fit_prefix(s, slots, old, new, n - 1, m);
    }
}

/// The eight-byte windows of the first `n` slots do not overlap.
pub open spec fn slots_disjoint(slots: Seq<Fo>, n: int) -> bool {
    forall|i: int, j: int|
        0 <= i < n && 0 <= j < n && i != j ==> #[trigger] slots[i] + 8 <= #[trigger] slots[j]
            || slots[j] + 8 <= slots[i]
}

/// The byte at `x` lies in the window of one of the first `n` slots.
pub open spec fn in_some_window(slots: Seq<Fo>, n: int, x: int) -> bool {
    exists|i: int| 0 <= i < n && #[trigger] slots[i] <= x < slots[i] + 8
}

/// The value an address at `fo` holds once it has been moved from `old` to `new`.
pub open spec fn moved(s: Seq<u8>, fo: int, old: int, new: int) -> u64 {
    ((le_u64(s, fo) as usize) - old + new) as u64
}

/// Moving the addresses of disjoint slots changes their windows only: each window
/// then stores its moved address, and every other byte is as it was.
pub proof fn lemma_apply_pointwise(s: Seq<u8>, slots: Seq<Fo>, old: int, new: int, n: int)
    requires
        0 <= n <= slots.len(),
        relocs_fit(s, slots, old, new, n),
        slots_disjoint(slots, n),
    ensures
        apply_relocs(s, slots, old, new, n).len() == s.len(),
        forall|x: int|
            0 <= x < s.len() && !in_some_window(slots, n, x) ==> #[trigger] apply_relocs(
                s,
                slots,
                old,
                new,
                n,
            )[x] == s[x],
        forall|i: int, k: int|
            0 <= i < n && 0 <= k < 8 ==> #[trigger] apply_relocs(s, slots, old, new, n)[slots[i]
                + k] == #[trigger] u64_bytes(moved(s, slots[i] as int, old, new))[k],
    decreases n,
{
    if n > 0 {
        let m = n - 1;
        let slot = slots[m] as int;
        lemma_apply_pointwise(s, slots, old, new, m);
        let prev = apply_relocs(s, slots, old, new, m);
        let t = apply_relocs(s, slots, old, new, n);
        let b = u64_bytes(moved(prev, slot, old, new));
        assert forall|k: int| 0 <= k < 8 implies #[trigger] prev[slot + k] == s[slot + k] by {
            if in_some_window(slots, m, slot + k) {
                let i = choose|i: int| 0 <= i < m && #[trigger] slots[i] <= slot + k < slots[i] + 8;
                assert(slots[i] + 8 <= slots[m] || slots[m] + 8 <= slots[i]);
            }
        }
        lemma_le_window(prev, slot, s, slot, 8);
        assert(moved(prev, slot, old, new) == moved(s, slot, old, new));
        assert(t == splice(prev, slot, b));
        assert(b.len() == 8);
        assert forall|x: int| 0 <= x < s.len() && !in_some_window(slots, n, x) implies #[trigger] t[x]
            == s[x] by {
            lemma_splice_index(prev, slot, b, x);
            if slot <= x < slot + 8 {
                assert(slots[m] <= x < slots[m] + 8);
                assert(in_some_window(slots, n, x));
            }
            if in_some_window(slots, m, x) {
                let i = choose|i: int| 0 <= i < m && #[trigger] slots[i] <= x < slots[i] + 8;
                assert(0 <= i < n && slots[i] <= x < slots[i] + 8);
                assert(in_some_window(slots, n, x));
            }
        }
        assert forall|i: int, k: int| 0 <= i < n && 0 <= k < 8 implies #[trigger] t[slots[i] + k]
            == #[trigger] u64_bytes(moved(s, slots[i] as int, old, new))[k] by {
            lemma_fit_prefix(s, slots, old, new, n, i + 1);
            lemma_splice_index(prev, slot, b, slots[i] + k);
            if i < m {
                assert(slots[i] + 8 <= slots[m] || slots[m] + 8 <= slots[i]);
                assert(prev[slots[i] + k] == u64_bytes(moved(s, slots[i] as int, old, new))[k]);
            }
        }
    }
}

/// Where the first `j` disjoint slots fit, moving them leaves the address at
/// slot `j` as it was.
proof fn lemma_untouched(s: Seq<u8>, slots: Seq<Fo>, old: int, new: int, j: int)
    requires
        0 <= j < slots.len(),
        relocs_fit(s, slots, old, new, j),
        slots_disjoint(slots, j + 1),
        slots[j] + 8 <= s.len(),
    ensures
        le_u64(apply_relocs(s, slots, old, new, j), slots[j] as int) == le_u64(s, slots[j] as int),
{
    lemma_apply_pointwise(s, slots, old, new, j);
    let prev = apply_relocs(s, slots, old, new, j);
    let slot = slots[j] as int;
    assert forall|k: int| 0 <= k < 8 implies #[trigger] prev[slot + k] == s[slot + k] by {
        if in_some_window(slots, j, slot + k) {
            let i = choose|i: int| 0 <= i < j && #[trigger] slots[i] <= slot + k < slots[i] + 8;
            assert(slots[i] + 8 <= slots[j] || slots[j] + 8 <= slots[i]);
        }
    }
    lemma_le_window(prev, slot, s, slot, 8);
}

/// Where the first `n` disjoint slots fit, the address at slot `i` is at least
/// `old` in the bytes as given, and moving it stays in the address range.
proof fn lemma_fit_at(s: Seq<u8>, slots: Seq<Fo>, old: int, new: int, n: int, i: int)
    requires
        0 <= i < n <= slots.len(),
        relocs_fit(s, slots, old, new, n),
        slots_disjoint(slots, n),
    ensures
        slots[i] + 8 <= s.len(),
        old <= le_u64(s, slots[i] as int) as usize,
        (le_u64(s, slots[i] as int) as usize) - old + new <= usize::MAX,
{
    lemma_fit_prefix(s, slots, old, new, n, i + 1);
    lemma_fit_prefix(s, slots, old, new, i + 1, i);
    lemma_untouched(s, slots, old, new, i);
}

/// In the moved bytes, the address at each slot is the moved one.
proof fn lemma_moved_values(s: Seq<u8>, slots: Seq<Fo>, old: int, new: int, n: int, i: int)
    requires
        0 <= i < n <= slots.len(),
        relocs_fit(s, slots, old, new, n),
        slots_disjoint(slots, n),
    ensures
        le_u64(apply_relocs(s, slots, old, new, n), slots[i] as int) == moved(
            s,
            slots[i] as int,
            old,
            new,
        ),
{
    let t = apply_relocs(s, slots, old, new, n);
    lemma_apply_pointwise(s, slots, old, new, n);
    let slot = slots[i] as int;
    let mv = moved(s, slot, old, new);
    lemma_u64_roundtrip(mv);
    assert forall|k: int| 0 <= k < 8 implies #[trigger] t[slot + k] == u64_bytes(mv)[0 + k] by {
        assert(t[slots[i] + k] == u64_bytes(moved(s, slots[i] as int, old, new))[k]);
    }
    lemma_le_window(t, slot, u64_bytes(mv), 0, 8);
}

/// Moving the moved addresses back fits, for the first `m` slots.
proof fn lemma_fit_back(s: Seq<u8>, slots: Seq<Fo>, old: int, new: int, n: int, m: int)
    requires
        0 <= old <= usize::MAX,
        0 <= new <= usize::MAX,
        0 <= m <= n <= slots.len(),
        relocs_fit(s, slots, old, new, n),
        slots_disjoint(slots, n),
        forall|i: int| 0 <= i < n ==> le_u64(s, #[trigger] slots[i] as int) <= usize::MAX,
    ensures
        relocs_fit(apply_relocs(s, slots, old, new, n), slots, new, old, m),
    decreases m,
{
    if m > 0 {
        lemma_fit_back(s, slots, old, new, n, m - 1);
        let t = apply_relocs(s, slots, old, new, n);
        let j = m - 1;
        lemma_apply_len(s, slots, old, new, n);
        lemma_fit_at(s, slots, old, new, n, j);
        lemma_moved_values(s, slots, old, new, n, j);
        assert(slots_disjoint(slots, j + 1));
        lemma_untouched(t, slots, new, old, j);
        let slot = slots[j] as int;
        let w = le_u64(s, slot) as usize;
        let v = le_u64(apply_relocs(t, slots, new, old, j), slot) as usize;
        assert(v == w - old + new);
    }
}

/// Moving the addresses of disjoint slots from `old` to `new`, then back from `new`
/// to `old`, gives the bytes back, where every address fits in a `usize`. (On a
/// 32-bit target an address above that range would come back truncated.)
pub proof fn law_relocs_undo(s: Seq<u8>, slots: Seq<Fo>, old: int, new: int, n: int)
    requires
        0 <= old <= usize::MAX,
        0 <= new <= usize::MAX,
        0 <= n <= slots.len(),
        relocs_fit(s, slots, old, new, n),
        slots_disjoint(slots, n),
        forall|i: int| 0 <= i < n ==> le_u64(s, #[trigger] slots[i] as int) <= usize::MAX,
    ensures
        relocs_fit(apply_relocs(s, slots, old, new, n), slots, new, old, n),
        apply_relocs(apply_relocs(s, slots, old, new, n), slots, new, old, n) == s,
{
    let t = apply_relocs(s, slots, old, new, n);
    lemma_apply_pointwise(s, slots, old, new, n);
    lemma_fit_back(s, slots, old, new, n, n);
    lemma_apply_pointwise(t, slots, new, old, n);
    let u = apply_relocs(t, slots, new, old, n);
    assert forall|x: int| 0 <= x < s.len() implies #[trigger] u[x] == s[x] by {
        if in_some_window(slots, n, x) {
            let i = choose|i: int| 0 <= i < n && #[trigger] slots[i] <= x < slots[i] + 8;
            let slot = slots[i] as int;
            let k = x - slot;
            lemma_fit_at(s, slots, old, new, n, i);
            lemma_moved_values(s, slots, old, new, n, i);
            let w = le_u64(s, slot) as usize;
            assert(0 <= w - old + new <= usize::MAX);
            assert(le_u64(t, slot) as usize == w - old + new);
            assert(moved(t, slot, new, old) == le_u64(s, slot));
            lemma_u64_bytes_of(s, slot);
            assert(u[slots[i] + k] == u64_bytes(moved(t, slots[i] as int, new, old))[k]);
            assert(u64_bytes(le_u64(s, slot))[k] == s.subrange(slot, slot + 8)[k]);
        }
    }
    assert(u =~= s);
}

/// The addresses a block fixes up are those of its entries, in order.
pub proof fn law_block_slots(b: BaseRelocationBlock)
    ensures
        b.spec_slots().len() == b.spec_entries().len(),
        forall|k: int| 0 <= k < b.spec_slots().len() ==> #[trigger] b.spec_slots()[k] == b.spec_entries()[k].1,
{
}

/// Moving the address at a slot rewrites its eight bytes with the address read
/// there, less the old base, plus the new one, and leaves the others as they
/// were.
pub proof fn law_relocate(s: Seq<u8>, fo: int, old: int, new: int)
    ensures
        relocate(s, fo, old, new) == splice(s, fo, u64_bytes(moved(s, fo, old, new))),
        moved(s, fo, old, new) == ((le_u64(s, fo) as usize) - old + new) as u64,
        u64_bytes(moved(s, fo, old, new)).len() == 8,
{
}

} // verus!
