//! Little-endian decoding and encoding of the fixed-layout records of a PE file.
//!
//! Every record of the format is read from, and written to, a byte buffer at a
//! file offset; the spec functions here say which bytes make which value.
use vstd::prelude::*;

verus! {

/// The 16-bit little-endian value stored at `off`.
pub open spec fn le_u16(s: Seq<u8>, off: int) -> u16 {
    ((s[off] as u16) | ((s[off + 1] as u16) << 8u16)) as u16
}

/// The 32-bit little-endian value stored at `off`.
pub open spec fn le_u32(s: Seq<u8>, off: int) -> u32 {
    ((s[off] as u32) | ((s[off + 1] as u32) << 8u32) | ((s[off + 2] as u32) << 16u32) | ((s[off
        + 3] as u32) << 24u32)) as u32
}

/// The 64-bit little-endian value stored at `off`.
pub open spec fn le_u64(s: Seq<u8>, off: int) -> u64 {
    ((le_u32(s, off) as u64) | ((le_u32(s, off + 4) as u64) << 32u64)) as u64
}

/// The byte that stores `v`.
pub open spec fn u8_bytes(v: u8) -> Seq<u8> {
    seq![v]
}

/// The two bytes that store `v` in little-endian order.
pub open spec fn u16_bytes(v: u16) -> Seq<u8> {
    seq![v as u8, (v >> 8u16) as u8]
}

/// The four bytes that store `v` in little-endian order.
pub open spec fn u32_bytes(v: u32) -> Seq<u8> {
    seq![v as u8, (v >> 8u32) as u8, (v >> 16u32) as u8, (v >> 24u32) as u8]
}

/// The eight bytes that store `v` in little-endian order.
pub open spec fn u64_bytes(v: u64) -> Seq<u8> {
    u32_bytes(v as u32) + u32_bytes((v >> 32u64) as u32)
}

/// `s` with the bytes `t` written over it from `off` on.
pub open spec fn splice(s: Seq<u8>, off: int, t: Seq<u8>) -> Seq<u8> {
    s.subrange(0, off) + t + s.subrange(off + t.len(), s.len() as int)
}

/// The `n` bytes of `s1` from `o1` on are those of `s2` from `o2` on.
pub open spec fn same_window(s1: Seq<u8>, o1: int, s2: Seq<u8>, o2: int, n: int) -> bool {
    forall|k: int| 0 <= k < n ==> #[trigger] s1[o1 + k] == s2[o2 + k]
}

pub proof fn lemma_u16_roundtrip(v: u16)
    ensures
        le_u16(u16_bytes(v), 0) == v,
{
    let b0 = v as u8;
    let b1 = (v >> 8u16) as u8;
    assert(((b0 as u16) | ((b1 as u16) << 8u16)) == v) by (bit_vector)
        requires
            b0 == v as u8,
            b1 == (v >> 8u16) as u8,
    ;
}

pub proof fn lemma_u32_roundtrip(v: u32)
    ensures
        le_u32(u32_bytes(v), 0) == v,
{
    let b0 = v as u8;
    let b1 = (v >> 8u32) as u8;
    let b2 = (v >> 16u32) as u8;
    let b3 = (v >> 24u32) as u8;
    assert(((b0 as u32) | ((b1 as u32) << 8u32) | ((b2 as u32) << 16u32) | ((b3 as u32)
        << 24u32)) == v) by (bit_vector)
        requires
            b0 == v as u8,
            b1 == (v >> 8u32) as u8,
            b2 == (v >> 16u32) as u8,
            b3 == (v >> 24u32) as u8,
    ;
}

pub proof fn lemma_u64_roundtrip(v: u64)
    ensures
        le_u64(u64_bytes(v), 0) == v,
{
    let lo = v as u32;
    let hi = (v >> 32u64) as u32;
    lemma_u32_roundtrip(lo);
    lemma_u32_roundtrip(hi);
    let s = u64_bytes(v);
    assert(le_u32(s, 0) == le_u32(u32_bytes(lo), 0));
    assert(le_u32(s, 4) == le_u32(u32_bytes(hi), 0));
    assert(((lo as u64) | ((hi as u64) << 32u64)) == v) by (bit_vector)
        requires
            lo == v as u32,
            hi == (v >> 32u64) as u32,
    ;
}

/// Storing the value read from two bytes gives those bytes back.
pub proof fn lemma_u16_bytes_of(s: Seq<u8>, off: int)
    requires
        0 <= off,
        off + 2 <= s.len(),
    ensures
        u16_bytes(le_u16(s, off)) == s.subrange(off, off + 2),
{
    let b0 = s[off];
    let b1 = s[off + 1];
    let v = le_u16(s, off);
    assert(v as u8 == b0 && (v >> 8u16) as u8 == b1) by (bit_vector)
        requires
            v == ((b0 as u16) | ((b1 as u16) << 8u16)) as u16,
    ;
    assert(u16_bytes(v) =~= s.subrange(off, off + 2));
}

/// An unsigned 32-bit value taken as signed bits and back is itself.
pub proof fn lemma_u32_as_i32(v: u32)
    ensures
        (v as i32) as u32 == v,
{
    assert((v as i32) as u32 == v) by (bit_vector);
}

/// Nothing put before a sequence leaves it as it is.
pub proof fn lemma_empty_join(t: Seq<u8>)
    ensures
        Seq::<u8>::empty() + t == t,
{
    assert(Seq::<u8>::empty() + t =~= t);
}

/// Two adjacent windows of `s` make up the window that spans both.
pub proof fn lemma_join_windows(s: Seq<u8>, x: int, y: int, z: int)
    requires
        0 <= x <= y <= z <= s.len(),
    ensures
        s.subrange(x, y) + s.subrange(y, z) == s.subrange(x, z),
{
    assert(s.subrange(x, y) + s.subrange(y, z) =~= s.subrange(x, z));
}

/// Storing the value read from four bytes gives those bytes back.
pub proof fn lemma_u32_bytes_of(s: Seq<u8>, off: int)
    requires
        0 <= off,
        off + 4 <= s.len(),
    ensures
        u32_bytes(le_u32(s, off)) == s.subrange(off, off + 4),
{
    let b0 = s[off];
    let b1 = s[off + 1];
    let b2 = s[off + 2];
    let b3 = s[off + 3];
    let v = le_u32(s, off);
    assert(v as u8 == b0 && (v >> 8u32) as u8 == b1 && (v >> 16u32) as u8 == b2 && (v >> 24u32)
        as u8 == b3) by (bit_vector)
        requires
            v == ((b0 as u32) | ((b1 as u32) << 8u32) | ((b2 as u32) << 16u32) | ((b3 as u32)
                << 24u32)) as u32,
    ;
    assert(u32_bytes(v) =~= s.subrange(off, off + 4));
}

/// Storing the value read from eight bytes gives those bytes back.
pub proof fn lemma_u64_bytes_of(s: Seq<u8>, off: int)
    requires
        0 <= off,
        off + 8 <= s.len(),
    ensures
        u64_bytes(le_u64(s, off)) == s.subrange(off, off + 8),
{
    let lo = le_u32(s, off);
    let hi = le_u32(s, off + 4);
    let v = le_u64(s, off);
    assert(v as u32 == lo && (v >> 32u64) as u32 == hi) by (bit_vector)
        requires
            v == ((lo as u64) | ((hi as u64) << 32u64)) as u64,
    ;
    lemma_u32_bytes_of(s, off);
    lemma_u32_bytes_of(s, off + 4);
    assert(u64_bytes(v) =~= s.subrange(off, off + 8));
}

/// A signed 32-bit value stored as its unsigned bits reads back as itself.
pub proof fn lemma_i32_as_u32(v: i32)
    ensures
        (v as u32) as i32 == v,
{
    assert((v as u32) as i32 == v) by (bit_vector);
}

/// The value stored at `off` depends only on the bytes of its own window.
pub proof fn lemma_le_window(s1: Seq<u8>, o1: int, s2: Seq<u8>, o2: int, n: int)
    requires
        same_window(s1, o1, s2, o2, n),
    ensures
        n >= 2 ==> le_u16(s1, o1) == le_u16(s2, o2),
        n >= 4 ==> le_u32(s1, o1) == le_u32(s2, o2),
        n >= 8 ==> le_u64(s1, o1) == le_u64(s2, o2),
{
    if n >= 2 {
        assert(s1[o1 + 0] == s2[o2 + 0] && s1[o1 + 1] == s2[o2 + 1]);
    }
    if n >= 4 {
        assert(s1[o1 + 2] == s2[o2 + 2] && s1[o1 + 3] == s2[o2 + 3]);
    }
    if n >= 8 {
        assert(s1[o1 + 4] == s2[o2 + 4] && s1[o1 + 5] == s2[o2 + 5]);
        assert(s1[o1 + 6] == s2[o2 + 6] && s1[o1 + 7] == s2[o2 + 7]);
    }
}

pub fn read_u16(bytes: &[u8], off: usize) -> (r: u16)
    requires
        off + 2 <= bytes@.len(),
    ensures
        r == le_u16(bytes@, off as int),
{
    (bytes[off] as u16) | ((bytes[off + 1] as u16) << 8u16)
}

pub fn read_u32(bytes: &[u8], off: usize) -> (r: u32)
    requires
        off + 4 <= bytes@.len(),
    ensures
        r == le_u32(bytes@, off as int),
{
    (bytes[off] as u32) | ((bytes[off + 1] as u32) << 8u32) | ((bytes[off + 2] as u32) << 16u32)
        | ((bytes[off + 3] as u32) << 24u32)
}

pub fn read_u64(bytes: &[u8], off: usize) -> (r: u64)
    requires
        off + 8 <= bytes@.len(),
    ensures
        r == le_u64(bytes@, off as int),
{
    assert(bytes@.len() == bytes.len());
    let lo = read_u32(bytes, off);
    let hi = read_u32(bytes, off + 4);
    (lo as u64) | ((hi as u64) << 32u64)
}

/// Writes the bytes of `t` over `bytes` from `off` on.
pub fn write_bytes(bytes: &mut Vec<u8>, off: usize, t: &[u8])
    requires
        off + t@.len() <= old(bytes)@.len(),
    ensures
        final(bytes)@ == splice(old(bytes)@, off as int, t@),
{
    let ghost start = bytes@;
    assert(start.len() == bytes.len());
    let mut i: usize = 0;
    while i < t.len()
        invariant
            off + t@.len() <= start.len(),
            start.len() <= usize::MAX,
            bytes@.len() == start.len(),
            0 <= i <= t@.len(),
            forall|k: int| 0 <= k < off ==> #[trigger] bytes@[k] == start[k],
            forall|k: int| off + t@.len() <= k < start.len() ==> #[trigger] bytes@[k] == start[k],
            forall|k: int| 0 <= k < i ==> #[trigger] bytes@[off + k] == t@[k],
            forall|k: int| i <= k < t@.len() ==> #[trigger] bytes@[off + k] == start[off + k],
        decreases t@.len() - i,
    {
        bytes.set(off + i, t[i]);
        i = i + 1;
    }
    assert(bytes@ =~= splice(start, off as int, t@)) by {
        assert forall|k: int| 0 <= k < bytes@.len() implies #[trigger] bytes@[k] == splice(
            start,
            off as int,
            t@,
        )[k] by {
            if off <= k < off + t@.len() {
                assert(bytes@[off + (k - off)] == t@[k - off]);
            }
        }
    }
}

/// Two sub-windows of equal windows are equal.
pub proof fn lemma_sub_window(s1: Seq<u8>, o1: int, s2: Seq<u8>, o2: int, n: int, a: int, m: int)
    requires
        same_window(s1, o1, s2, o2, n),
        0 <= a,
        a + m <= n,
    ensures
        same_window(s1, o1 + a, s2, o2 + a, m),
{
    assert forall|k: int| 0 <= k < m implies #[trigger] s1[(o1 + a) + k] == s2[(o2 + a) + k] by {
        assert(s1[o1 + (a + k)] == s2[o2 + (a + k)]);
    }
}

pub fn le_bytes_u8(v: u8) -> (r: [u8; 1])
    ensures
        r@ == u8_bytes(v),
{
    let r = [v];
    assert(r@ =~= u8_bytes(v));
    r
}

pub fn le_bytes_u16(v: u16) -> (r: [u8; 2])
    ensures
        r@ == u16_bytes(v),
{
    let r = [v as u8, (v >> 8u16) as u8];
    assert(r@ =~= u16_bytes(v));
    r
}

pub fn le_bytes_u32(v: u32) -> (r: [u8; 4])
    ensures
        r@ == u32_bytes(v),
{
    let r = [v as u8, (v >> 8u32) as u8, (v >> 16u32) as u8, (v >> 24u32) as u8];
    assert(r@ =~= u32_bytes(v));
    r
}

pub fn le_bytes_u64(v: u64) -> (r: [u8; 8])
    ensures
        r@ == u64_bytes(v),
{
    let lo = v as u32;
    let hi = (v >> 32u64) as u32;
    let r = [
        lo as u8,
        (lo >> 8u32) as u8,
        (lo >> 16u32) as u8,
        (lo >> 24u32) as u8,
        hi as u8,
        (hi >> 8u32) as u8,
        (hi >> 16u32) as u8,
        (hi >> 24u32) as u8,
    ];
    assert(r@ =~= u64_bytes(v));
    r
}

/// A record with a fixed size and a fixed little-endian layout.
pub trait RawStruct: Sized {
    /// The number of bytes the record takes.
    spec fn spec_size() -> nat;

    /// The record stored at `off`.
    spec fn spec_read(s: Seq<u8>, off: int) -> Self;

    /// The record depends only on the bytes of its own window.
    proof fn lemma_read_window(s1: Seq<u8>, o1: int, s2: Seq<u8>, o2: int)
        requires
            same_window(s1, o1, s2, o2, Self::spec_size() as int),
        ensures
            Self::spec_read(s1, o1) == Self::spec_read(s2, o2),
    ;

    fn size() -> (n: usize)
        ensures
            n == Self::spec_size(),
    ;

    fn read(bytes: &[u8], off: usize) -> (r: Self)
        requires
            off + Self::spec_size() <= bytes@.len(),
        ensures
            r == Self::spec_read(bytes@, off as int),
    ;
}

/// A record that can also be written back.
pub trait RawEncode: RawStruct {
    /// The bytes that store the record.
    spec fn spec_bytes(self) -> Seq<u8>;

    /// Reading back what was written gives the record again.
    proof fn lemma_roundtrip(v: Self)
        ensures
            v.spec_bytes().len() == Self::spec_size(),
            Self::spec_read(v.spec_bytes(), 0) == v,
    ;

    fn write(&self, bytes: &mut Vec<u8>, off: usize)
        requires
            off + Self::spec_size() <= old(bytes)@.len(),
        ensures
            final(bytes)@ == splice(old(bytes)@, off as int, self.spec_bytes()),
    ;
}

/// Each byte of a splice comes from the written bytes inside their window and
/// from the original bytes outside it.
pub proof fn lemma_splice_index(s: Seq<u8>, off: int, t: Seq<u8>, x: int)
    requires
        0 <= off,
        off + t.len() <= s.len(),
        0 <= x < s.len(),
    ensures
        splice(s, off, t).len() == s.len(),
        off <= x < off + t.len() ==> splice(s, off, t)[x] == t[x - off],
        !(off <= x < off + t.len()) ==> splice(s, off, t)[x] == s[x],
{
}

/// Where a record was written, it reads back as itself.
pub proof fn lemma_read_after_write<T: RawEncode>(s: Seq<u8>, off: int, v: T)
    requires
        0 <= off,
        off + T::spec_size() <= s.len(),
    ensures
        T::spec_read(splice(s, off, v.spec_bytes()), off) == v,
        splice(s, off, v.spec_bytes()).len() == s.len(),
{
    T::lemma_roundtrip(v);
    let t = v.spec_bytes();
    let w = splice(s, off, t);
    assert forall|k: int| 0 <= k < T::spec_size() implies #[trigger] w[off + k] == t[0 + k] by {}
    T::lemma_read_window(w, off, t, 0);
}

/// A write leaves every record outside its window as it was.
pub proof fn lemma_read_other_window<T: RawStruct>(s: Seq<u8>, off: int, t: Seq<u8>, at: int)
    requires
        0 <= off,
        off + t.len() <= s.len(),
        0 <= at,
        at + T::spec_size() <= s.len(),
        at + T::spec_size() <= off || off + t.len() <= at,
    ensures
        T::spec_read(splice(s, off, t), at) == T::spec_read(s, at),
{
    let w = splice(s, off, t);
    assert forall|k: int| 0 <= k < T::spec_size() implies #[trigger] w[at + k] == s[at + k] by {}
    T::lemma_read_window(w, at, s, at);
}

impl RawStruct for u8 {
    open spec fn spec_size() -> nat {
        1
    }

    open spec fn spec_read(s: Seq<u8>, off: int) -> Self {
        s[off]
    }

    proof fn lemma_read_window(s1: Seq<u8>, o1: int, s2: Seq<u8>, o2: int) {
        assert(s1[o1 + 0] == s2[o2 + 0]);
    }

    fn size() -> (n: usize) {
        1
    }

    fn read(bytes: &[u8], off: usize) -> (r: Self) {
        bytes[off]
    }
}

impl RawEncode for u8 {
    open spec fn spec_bytes(self) -> Seq<u8> {
        seq![self]
    }

    proof fn lemma_roundtrip(v: Self) {
    }

    fn write(&self, bytes: &mut Vec<u8>, off: usize) {
        let b = [*self];
        write_bytes(bytes, off, &b);
    }
}

impl RawStruct for u16 {
    open spec fn spec_size() -> nat {
        2
    }

    open spec fn spec_read(s: Seq<u8>, off: int) -> Self {
        le_u16(s, off)
    }

    proof fn lemma_read_window(s1: Seq<u8>, o1: int, s2: Seq<u8>, o2: int) {
        lemma_le_window(s1, o1, s2, o2, 2);
    }

    fn size() -> (n: usize) {
        2
    }

    fn read(bytes: &[u8], off: usize) -> (r: Self) {
        read_u16(bytes, off)
    }
}

impl RawEncode for u16 {
    open spec fn spec_bytes(self) -> Seq<u8> {
        u16_bytes(self)
    }

    proof fn lemma_roundtrip(v: Self) {
        lemma_u16_roundtrip(v);
    }

    fn write(&self, bytes: &mut Vec<u8>, off: usize) {
        let v = *self;
        let b = [v as u8, (v >> 8u16) as u8];
        assert(b@ =~= u16_bytes(v));
        write_bytes(bytes, off, &b);
    }
}

impl RawStruct for u32 {
    open spec fn spec_size() -> nat {
        4
    }

    open spec fn spec_read(s: Seq<u8>, off: int) -> Self {
        le_u32(s, off)
    }

    proof fn lemma_read_window(s1: Seq<u8>, o1: int, s2: Seq<u8>, o2: int) {
        lemma_le_window(s1, o1, s2, o2, 4);
    }

    fn size() -> (n: usize) {
        4
    }

    fn read(bytes: &[u8], off: usize) -> (r: Self) {
        read_u32(bytes, off)
    }
}

impl RawEncode for u32 {
    open spec fn spec_bytes(self) -> Seq<u8> {
        u32_bytes(self)
    }

    proof fn lemma_roundtrip(v: Self) {
        lemma_u32_roundtrip(v);
    }

    fn write(&self, bytes: &mut Vec<u8>, off: usize) {
        let v = *self;
        let b = [v as u8, (v >> 8u32) as u8, (v >> 16u32) as u8, (v >> 24u32) as u8];
        assert(b@ =~= u32_bytes(v));
        write_bytes(bytes, off, &b);
    }
}

impl RawStruct for u64 {
    open spec fn spec_size() -> nat {
        8
    }

    open spec fn spec_read(s: Seq<u8>, off: int) -> Self {
        le_u64(s, off)
    }

    proof fn lemma_read_window(s1: Seq<u8>, o1: int, s2: Seq<u8>, o2: int) {
        lemma_le_window(s1, o1, s2, o2, 8);
    }

    fn size() -> (n: usize) {
        8
    }

    fn read(bytes: &[u8], off: usize) -> (r: Self) {
        read_u64(bytes, off)
    }
}

impl RawEncode for u64 {
    open spec fn spec_bytes(self) -> Seq<u8> {
        u64_bytes(self)
    }

    proof fn lemma_roundtrip(v: Self) {
        lemma_u64_roundtrip(v);
    }

    fn write(&self, bytes: &mut Vec<u8>, off: usize) {
        let b = le_bytes_u64(*self);
        assert(b@ == self.spec_bytes());
        write_bytes(bytes, off, &b);
        assert(bytes@ == splice(old(bytes)@, off as int, b@));
    }
}

/// An address-sized value is stored in the eight bytes of a 64-bit field.
impl RawStruct for usize {
    open spec fn spec_size() -> nat {
        8
    }

    open spec fn spec_read(s: Seq<u8>, off: int) -> Self {
        le_u64(s, off) as usize
    }

    proof fn lemma_read_window(s1: Seq<u8>, o1: int, s2: Seq<u8>, o2: int) {
        lemma_le_window(s1, o1, s2, o2, 8);
    }

    fn size() -> (n: usize) {
        8
    }

    fn read(bytes: &[u8], off: usize) -> (r: Self) {
        read_u64(bytes, off) as usize
    }
}

impl RawEncode for usize {
    open spec fn spec_bytes(self) -> Seq<u8> {
        u64_bytes(self as u64)
    }

    proof fn lemma_roundtrip(v: Self) {
        lemma_u64_roundtrip(v as u64);
    }

    fn write(&self, bytes: &mut Vec<u8>, off: usize) {
        let v = *self as u64;
        v.write(bytes, off);
    }
}

} // verus!
