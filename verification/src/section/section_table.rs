//! The section table: the headers that follow the NT headers, with their sections.
use vstd::prelude::*;

use super::section_header::{
    SectionHeader, SectionHeaderOwned, SectionHeaderRef, section_data_in, spec_section_data,
    spec_section_name,
};
use crate::error::PeError;
use crate::raw::{RawStruct, same_window};
use crate::windows_types::IMAGE_SECTION_HEADER;

verus! {

/// The size of one section header.
pub const SECTION_HEADER_SIZE: usize = 40;

/// The `i`-th raw section header of a table that starts at `start`.
pub open spec fn spec_raw_section(s: Seq<u8>, start: int, i: int) -> IMAGE_SECTION_HEADER {
    IMAGE_SECTION_HEADER::spec_read(s, start + SECTION_HEADER_SIZE * i)
}

/// The table of `count` headers at `start` lies in `s`, and so does the data of
/// each of its sections.
pub open spec fn section_table_readable(s: Seq<u8>, count: int, start: int) -> bool {
    &&& 0 <= start
    &&& 0 <= count
    &&& start + SECTION_HEADER_SIZE * count <= s.len()
    &&& forall|i: int| 0 <= i < count ==> section_data_in(#[trigger] spec_raw_section(s, start, i), s)
}

/// The raw headers of a list of sections.
pub open spec fn raws_of<H: SectionHeader>(hs: Seq<H>) -> Seq<IMAGE_SECTION_HEADER> {
    hs.map_values(|h: H| h.spec_raw())
}

/// The sections are the ones the table at `start` in `s` describes.
pub open spec fn sections_read_from<H: SectionHeader>(hs: Seq<H>, s: Seq<u8>, count: int, start: int) -> bool {
    &&& hs.len() == count
    &&& forall|i: int|
        0 <= i < count ==> {
            &&& (#[trigger] hs[i]).spec_raw() == spec_raw_section(s, start, i)
            &&& hs[i].spec_name() == spec_section_name(spec_raw_section(s, start, i))
            &&& hs[i].spec_bytes() == spec_section_data(spec_raw_section(s, start, i), s)
        }
}

/// The two lists hold the same sections, in the same order: the same raw
/// headers, names and data.
pub open spec fn same_sections<H1: SectionHeader, H2: SectionHeader>(a: Seq<H1>, b: Seq<H2>) -> bool {
    &&& a.len() == b.len()
    &&& forall|i: int|
        0 <= i < a.len() ==> {
            &&& (#[trigger] a[i]).spec_raw() == b[i].spec_raw()
            &&& a[i].spec_name() == b[i].spec_name()
            &&& a[i].spec_bytes() == b[i].spec_bytes()
        }
}

/// The bytes of the first `n` raw headers, one after the other.
pub open spec fn headers_bytes<H: SectionHeader>(hs: Seq<H>, n: int) -> Seq<u8>
    decreases n,
{
    if n <= 0 {
        Seq::empty()
    } else {
        headers_bytes(hs, n - 1) + hs[n - 1].spec_raw().spec_bytes()
    }
}

/// The data of the first `n` sections, one after the other.
pub open spec fn sections_data<H: SectionHeader>(hs: Seq<H>, n: int) -> Seq<u8>
    decreases n,
{
    if n <= 0 {
        Seq::empty()
    } else {
        sections_data(hs, n - 1) + hs[n - 1].spec_bytes()
    }
}

/// What every section table offers.
pub trait SectionTable {
    type Header: SectionHeader;

    spec fn spec_headers(&self) -> Seq<Self::Header>;

    fn section_headers(&self) -> (r: &[Self::Header])
        ensures
            r@ == self.spec_headers(),
    ;
}

/// A section table whose sections own their data.
pub struct SectionTableOwned {
    sections: Vec<SectionHeaderOwned>,
}

impl SectionTable for SectionTableOwned {
    type Header = SectionHeaderOwned;

    closed spec fn spec_headers(&self) -> Seq<SectionHeaderOwned> {
        self.sections@
    }

    fn section_headers(&self) -> (r: &[SectionHeaderOwned]) {
        self.sections.as_slice()
    }
}

impl SectionTableOwned {
    /// Reads `section_count` section headers at `start`, copying each section's data.
    /// A start that does not fit in a signed offset is an error; a table or data
    /// outside the bytes is not handled.
    pub fn from_bytes(bytes: &[u8], section_count: usize, start: usize) -> (r: Result<Self, PeError>)
        requires
            start <= isize::MAX ==> section_table_readable(bytes@, section_count as int, start as int),
        ensures
            start > isize::MAX ==> r == Err::<Self, PeError>(PeError::OffsetTooLarge),
            start <= isize::MAX ==> (r matches Ok(t) && sections_read_from(
                t.spec_headers(),
                bytes@,
                section_count as int,
                start as int,
            )),
    {
        if start > isize::MAX as usize {
            return Err(PeError::OffsetTooLarge);
        }
        let mut sections: Vec<SectionHeaderOwned> = Vec::new();
        assert(bytes@.len() == bytes.len());
        let mut i: usize = 0;
        while i < section_count
            invariant
                0 <= i <= section_count,
                bytes@.len() <= usize::MAX,
                section_table_readable(bytes@, section_count as int, start as int),
                sections_read_from(sections@, bytes@, i as int, start as int),
            decreases section_count - i,
        {
            assert(section_data_in(spec_raw_section(bytes@, start as int, i as int), bytes@));
            let raw_header = IMAGE_SECTION_HEADER::read(bytes, start + SECTION_HEADER_SIZE * i);
            match SectionHeaderOwned::from_binary(raw_header, bytes) {
                Ok(section) => sections.push(section),
                Err(e) => return Err(e),
            }
            i = i + 1;
        }

        Ok(Self { sections })
    }

    pub fn from_sections(sections: Vec<SectionHeaderOwned>) -> (r: Self)
        ensures
            r.spec_headers() == sections@,
    {
        Self { sections }
    }

    /// The raw headers one after the other, then the sections' data one after the other.
    pub fn to_bytes(&self) -> (r: Vec<u8>)
        ensures
            r@ == headers_bytes(self.spec_headers(), self.spec_headers().len() as int)
                + sections_data(self.spec_headers(), self.spec_headers().len() as int),
    {
        let mut section_header_bytes: Vec<u8> = Vec::new();
        let mut section_bytes: Vec<u8> = Vec::new();

        let mut i: usize = 0;
        while i < self.sections.len()
            invariant
                0 <= i <= self.sections@.len(),
                section_header_bytes@ == headers_bytes(self.sections@, i as int),
                section_bytes@ == sections_data(self.sections@, i as int),
            decreases self.sections@.len() - i,
        {
            let section = &self.sections[i];
            let header_bytes = section.raw().to_le_bytes();

            section_header_bytes.extend_from_slice(header_bytes.as_slice());
            section_bytes.extend_from_slice(section.bytes());
            i = i + 1;
        }

        section_header_bytes.append(&mut section_bytes);

        section_header_bytes
    }
}

/// A section table whose sections borrow their data from the image bytes.
pub struct SectionTableRef<'a> {
    sections: Vec<SectionHeaderRef<'a>>,
}

impl<'a> SectionTable for SectionTableRef<'a> {
    type Header = SectionHeaderRef<'a>;

    closed spec fn spec_headers(&self) -> Seq<SectionHeaderRef<'a>> {
        self.sections@
    }

    fn section_headers(&self) -> (r: &[SectionHeaderRef<'a>]) {
        self.sections.as_slice()
    }
}

impl<'a> SectionTableRef<'a> {
    /// Reads `section_count` section headers at `start`, borrowing each section's
    /// data. A start that does not fit in a signed offset is an error; a table or
    /// data outside the bytes is not handled.
    pub fn from_bytes(bytes: &'a [u8], section_count: usize, start: usize) -> (r: Result<Self, PeError>)
        requires
            start <= isize::MAX ==> section_table_readable(bytes@, section_count as int, start as int),
        ensures
            start > isize::MAX ==> r == Err::<Self, PeError>(PeError::OffsetTooLarge),
            start <= isize::MAX ==> (r matches Ok(t) && sections_read_from(
                t.spec_headers(),
                bytes@,
                section_count as int,
                start as int,
            )),
    {
        if start > isize::MAX as usize {
            return Err(PeError::OffsetTooLarge);
        }
        let mut sections: Vec<SectionHeaderRef<'a>> = Vec::new();
        assert(bytes@.len() == bytes.len());
        let mut i: usize = 0;
        while i < section_count
            invariant
                0 <= i <= section_count,
                bytes@.len() <= usize::MAX,
                section_table_readable(bytes@, section_count as int, start as int),
                sections_read_from(sections@, bytes@, i as int, start as int),
            decreases section_count - i,
        {
            assert(section_data_in(spec_raw_section(bytes@, start as int, i as int), bytes@));
            let raw_header = IMAGE_SECTION_HEADER::read(bytes, start + SECTION_HEADER_SIZE * i);
            match SectionHeaderRef::from_binary(raw_header, bytes) {
                Ok(section) => sections.push(section),
                Err(e) => return Err(e),
            }
            i = i + 1;
        }

        Ok(Self { sections })
    }

    pub fn from_sections(sections: Vec<SectionHeaderRef<'a>>) -> (r: Self)
        ensures
            r.spec_headers() == sections@,
    {
        Self { sections }
    }

    /// The same table, its sections owning copies of their data.
    pub fn to_owned(self) -> (r: SectionTableOwned)
        ensures
            r.spec_headers().len() == self.spec_headers().len(),
            forall|i: int|
                0 <= i < self.spec_headers().len() ==> {
                    &&& (#[trigger] r.spec_headers()[i]).spec_raw() == self.spec_headers()[i].spec_raw()
                    &&& r.spec_headers()[i].spec_name() == self.spec_headers()[i].spec_name()
                    &&& r.spec_headers()[i].spec_bytes() == self.spec_headers()[i].spec_bytes()
                },
    {
        let ghost old_sections = self.sections@;
        let mut sections = self.sections;
        let mut owned: Vec<SectionHeaderOwned> = Vec::new();
        let mut rest: Vec<SectionHeaderRef<'a>> = Vec::new();
        // Take the sections from the back, then put the copies in order.
        while sections.len() > 0
            invariant
                sections@.len() + rest@.len() == old_sections.len(),
                forall|i: int| 0 <= i < sections@.len() ==> sections@[i] == old_sections[i],
                forall|k: int|
                    0 <= k < rest@.len() ==> #[trigger] rest@[k] == old_sections[old_sections.len() - 1 - k],
            decreases sections@.len(),
        {
            let s = sections.pop().unwrap();
            rest.push(s);
        }
        while rest.len() > 0
            invariant
                owned@.len() + rest@.len() == old_sections.len(),
                forall|k: int|
                    0 <= k < rest@.len() ==> #[trigger] rest@[k] == old_sections[old_sections.len() - 1 - k],
                forall|i: int|
                    0 <= i < owned@.len() ==> {
                        &&& (#[trigger] owned@[i]).spec_raw() == old_sections[i].spec_raw()
                        &&& owned@[i].spec_name() == old_sections[i].spec_name()
                        &&& owned@[i].spec_bytes() == old_sections[i].spec_bytes()
                    },
            decreases rest@.len(),
        {
            let s = rest.pop().unwrap();
            owned.push(s.to_owned());
        }
        SectionTableOwned::from_sections(owned)
    }
}

/// The headers of the first `n` sections are stored one after the other, 40 bytes each.
proof fn lemma_headers_bytes<H: SectionHeader>(hs: Seq<H>, n: int)
    requires
        0 <= n <= hs.len(),
    ensures
        headers_bytes(hs, n).len() == SECTION_HEADER_SIZE * n,
        forall|i: int|
            0 <= i < n ==> same_window(
                headers_bytes(hs, n),
                SECTION_HEADER_SIZE * i,
                (#[trigger] hs[i]).spec_raw().spec_bytes(),
                0,
                SECTION_HEADER_SIZE as int,
            ),
    decreases n,
{
    if n > 0 {
        lemma_headers_bytes(hs, n - 1);
        hs[n - 1].spec_raw().lemma_bytes_len();
        let prev = headers_bytes(hs, n - 1);
        let last = hs[n - 1].spec_raw().spec_bytes();
        let all = headers_bytes(hs, n);
        assert(all == prev + last);
        assert forall|i: int| 0 <= i < n implies same_window(
            all,
            SECTION_HEADER_SIZE * i,
            (#[trigger] hs[i]).spec_raw().spec_bytes(),
            0,
            SECTION_HEADER_SIZE as int,
        ) by {
            let w = hs[i].spec_raw().spec_bytes();
            assert forall|k: int| 0 <= k < SECTION_HEADER_SIZE implies #[trigger] all[SECTION_HEADER_SIZE
                * i + k] == w[0 + k] by {
                if i < n - 1 {
                    assert(same_window(prev, SECTION_HEADER_SIZE * i, w, 0, SECTION_HEADER_SIZE as int));
                    assert(prev[SECTION_HEADER_SIZE * i + k] == w[0 + k]);
                }
            }
        }
    }
}

/// The section headers `to_bytes` writes read back, from the start of its bytes,
/// as the table's raw headers.
pub proof fn law_section_headers_read_back(t: SectionTableOwned)
    ensures
        forall|i: int|
            0 <= i < t.spec_headers().len() ==> spec_raw_section(
                headers_bytes(t.spec_headers(), t.spec_headers().len() as int) + sections_data(
                    t.spec_headers(),
                    t.spec_headers().len() as int,
                ),
                0,
                i,
            ) == (#[trigger] t.spec_headers()[i]).spec_raw(),
{
    let hs = t.spec_headers();
    let n = hs.len() as int;
    let b = headers_bytes(hs, n) + sections_data(hs, n);
    lemma_headers_bytes(hs, n);
    assert forall|i: int| 0 <= i < n implies spec_raw_section(b, 0, i) == (#[trigger] hs[i]).spec_raw() by {
        let raw = hs[i].spec_raw();
        let w = raw.spec_bytes();
        raw.lemma_bytes_roundtrip();
        assert(same_window(headers_bytes(hs, n), SECTION_HEADER_SIZE * i, w, 0, SECTION_HEADER_SIZE as int));
        assert(same_window(b, 0 + SECTION_HEADER_SIZE * i, w, 0, SECTION_HEADER_SIZE as int)) by {
            assert forall|k: int| 0 <= k < SECTION_HEADER_SIZE implies #[trigger] b[0 + SECTION_HEADER_SIZE
                * i + k] == w[0 + k] by {
                assert(headers_bytes(hs, n)[SECTION_HEADER_SIZE * i + k] == w[0 + k]);
            }
        }
        IMAGE_SECTION_HEADER::lemma_read_window(b, 0 + SECTION_HEADER_SIZE * i, w, 0);
    }
}

} // verus!
