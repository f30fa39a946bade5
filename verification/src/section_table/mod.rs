//! The section table of an image.
use vstd::prelude::*;

pub mod section_header;

use crate::cstr::str_eq;
use crate::raw::RawStruct;
use crate::section::section_header::{section_data_in, spec_section_data, spec_section_name};
use crate::section::section_table::{section_table_readable, spec_raw_section};
use crate::windows_types::IMAGE_SECTION_HEADER;
use section_header::SectionHeader;

verus! {

/// The sections of an image, in table order.
#[derive(Debug)]
pub struct SectionTable {
    headers: Vec<SectionHeader>,
}

/// The first of the sections whose name is `name`.
pub open spec fn spec_first_named(hs: Seq<SectionHeader>, name: Seq<char>) -> Option<int> {
    if exists|i: int| 0 <= i < hs.len() && hs[i].spec_name() == name {
        Some(
            choose|i: int|
                0 <= i < hs.len() && hs[i].spec_name() == name && forall|j: int|
                    0 <= j < i ==> hs[j].spec_name() != name,
        )
    } else {
        None
    }
}

impl SectionTable {
    pub closed spec fn spec_headers(&self) -> Seq<SectionHeader> {
        self.headers@
    }

    /// The raw headers of the sections.
    pub open spec fn spec_raws(&self) -> Seq<IMAGE_SECTION_HEADER> {
        self.spec_headers().map_values(|h: SectionHeader| h.spec_raw())
    }

    /// Reads `section_count` section headers at `start`, with their data. A table
    /// or data outside the bytes is not handled.
    pub fn from_bytes(bytes: &[u8], start: usize, section_count: usize) -> (r: Self)
        requires
            section_table_readable(bytes@, section_count as int, start as int),
        ensures
            r.spec_headers().len() == section_count,
            forall|i: int|
                0 <= i < section_count ==> {
                    &&& (#[trigger] r.spec_headers()[i]).spec_raw() == spec_raw_section(
                        bytes@,
                        start as int,
                        i,
                    )
                    &&& r.spec_headers()[i].spec_name() == spec_section_name(
                        spec_raw_section(bytes@, start as int, i),
                    )
                    &&& r.spec_headers()[i].spec_bytes() == spec_section_data(
                        spec_raw_section(bytes@, start as int, i),
                        bytes@,
                    )
                },
    {
        assert(bytes@.len() == bytes.len());
        let mut headers: Vec<SectionHeader> = Vec::new();
        let mut i: usize = 0;
        while i < section_count
            invariant
                0 <= i <= section_count,
                bytes@.len() <= usize::MAX,
                section_table_readable(bytes@, section_count as int, start as int),
                headers@.len() == i,
                forall|k: int|
                    0 <= k < i ==> {
                        &&& (#[trigger] headers@[k]).spec_raw() == spec_raw_section(
                            bytes@,
                            start as int,
                            k,
                        )
                        &&& headers@[k].spec_name() == spec_section_name(
                            spec_raw_section(bytes@, start as int, k),
                        )
                        &&& headers@[k].spec_bytes() == spec_section_data(
                            spec_raw_section(bytes@, start as int, k),
                            bytes@,
                        )
                    },
            decreases section_count - i,
        {
            assert(section_data_in(spec_raw_section(bytes@, start as int, i as int), bytes@));
            let raw = IMAGE_SECTION_HEADER::read(bytes, start + 40 * i);
            headers.push(SectionHeader::from_bytes(raw, bytes));
            i = i + 1;
        }

        Self { headers }
    }

    /// Reads one section header per window at `start`, each section's data
    /// being the bytes of its window.
    pub fn from_windows(bytes: &[u8], start: usize, windows: &Vec<(usize, usize)>) -> (r: Self)
        requires
            start + 40 * windows@.len() <= bytes@.len(),
            forall|i: int| 0 <= i < windows@.len() ==> #[trigger] windows@[i].0 + windows@[i].1 <= bytes@.len(),
        ensures
            r.spec_headers().len() == windows@.len(),
            forall|i: int|
                0 <= i < windows@.len() ==> {
                    &&& (#[trigger] r.spec_headers()[i]).spec_raw() == spec_raw_section(
                        bytes@,
                        start as int,
                        i,
                    )
                    &&& r.spec_headers()[i].spec_name() == spec_section_name(
                        spec_raw_section(bytes@, start as int, i),
                    )
                    &&& r.spec_headers()[i].spec_bytes() == bytes@.subrange(
                        windows@[i].0 as int,
                        windows@[i].0 + windows@[i].1,
                    )
                    &&& r.spec_headers()[i].spec_window() == windows@[i]
                },
    {
        assert(bytes@.len() == bytes.len());
        let mut headers: Vec<SectionHeader> = Vec::new();
        let mut i: usize = 0;
        while i < windows.len()
            invariant
                0 <= i <= windows@.len(),
                bytes@.len() <= usize::MAX,
                start + 40 * windows@.len() <= bytes@.len(),
                forall|k: int| 0 <= k < windows@.len() ==> #[trigger] windows@[k].0 + windows@[k].1 <= bytes@.len(),
                headers@.len() == i,
                forall|k: int|
                    0 <= k < i ==> {
                        &&& (#[trigger] headers@[k]).spec_raw() == spec_raw_section(
                            bytes@,
                            start as int,
                            k,
                        )
                        &&& headers@[k].spec_name() == spec_section_name(
                            spec_raw_section(bytes@, start as int, k),
                        )
                        &&& headers@[k].spec_bytes() == bytes@.subrange(
                            windows@[k].0 as int,
                            windows@[k].0 + windows@[k].1,
                        )
                        &&& headers@[k].spec_window() == windows@[k]
                    },
            decreases windows@.len() - i,
        {
            let raw = IMAGE_SECTION_HEADER::read(bytes, start + 40 * i);
            let (at, len) = windows[i];
            assert(windows@[i as int].0 + windows@[i as int].1 <= bytes@.len());
            headers.push(SectionHeader::from_window(raw, bytes, at, len));
            i = i + 1;
        }

        Self { headers }
    }

    pub fn get_headers(&self) -> (r: &Vec<SectionHeader>)
        ensures
            r@ == self.spec_headers(),
    {
        &self.headers
    }

    /// The first section whose name is `name`, if there is one.
    pub fn find_section_by_name(&self, name: &str) -> (r: Option<&SectionHeader>)
        ensures
            match spec_first_named(self.spec_headers(), name@) {
                Some(i) => r == Some(&self.spec_headers()[i]),
                None => r is None,
            },
    {
        let mut i: usize = 0;
        while i < self.headers.len()
            invariant
                0 <= i <= self.headers@.len(),
                forall|j: int| 0 <= j < i ==> self.headers@[j].spec_name() != name@,
            decreases self.headers@.len() - i,
        {
            let header = &self.headers[i];
            if str_eq(header.name(), name) {
                proof {
                    let hs = self.headers@;
                    let w = choose|k: int|
                        0 <= k < hs.len() && hs[k].spec_name() == name@ && forall|j: int|
                            0 <= j < k ==> hs[j].spec_name() != name@;
                    assert(0 <= i < hs.len() && hs[i as int].spec_name() == name@ && forall|j: int|
                        0 <= j < i ==> hs[j].spec_name() != name@);
                    assert(w == i) by {
                        if w < i {
                            assert(hs[w].spec_name() != name@);
                        } else if w > i {
                            assert(hs[i as int].spec_name() != name@);
                        }
                    }
                }
                return Some(header);
            }
            i = i + 1;
        }
        None
    }
}

/// There is a first section named `name` at or before any section `i` so named.
proof fn lemma_first_named_at_most(hs: Seq<SectionHeader>, name: Seq<char>, i: int) -> (k: int)
    requires
        0 <= i < hs.len(),
        hs[i].spec_name() == name,
    ensures
        0 <= k <= i,
        hs[k].spec_name() == name,
        forall|j: int| 0 <= j < k ==> hs[j].spec_name() != name,
    decreases i,
{
    if exists|j: int| 0 <= j < i && hs[j].spec_name() == name {
        let j = choose|j: int| 0 <= j < i && hs[j].spec_name() == name;
        lemma_first_named_at_most(hs, name, j)
    } else {
        i
    }
}

/// Looking a name up among the sections finds the first section with that name,
/// wherever in the table it stands: where section `i` is named `name`, the
/// section found is named `name`, stands at or before `i`, and no section before
/// it is named `name`.
pub proof fn law_first_named_found(hs: Seq<SectionHeader>, name: Seq<char>, i: int)
    requires
        0 <= i < hs.len(),
        hs[i].spec_name() == name,
    ensures
        spec_first_named(hs, name) matches Some(k) && {
            &&& 0 <= k <= i
            &&& hs[k].spec_name() == name
            &&& forall|j: int| 0 <= j < k ==> hs[j].spec_name() != name
        },
{
    let m = lemma_first_named_at_most(hs, name, i);
    assert(0 <= m < hs.len() && hs[m].spec_name() == name && forall|j: int|
        0 <= j < m ==> hs[j].spec_name() != name);
    let k = choose|k: int|
        0 <= k < hs.len() && hs[k].spec_name() == name && forall|j: int|
            0 <= j < k ==> hs[j].spec_name() != name;
    assert(k == m) by {
        if k < m {
            assert(hs[k].spec_name() != name);
        } else if k > m {
            assert(hs[m].spec_name() != name);
        }
    }
}

/// Looking a name up finds nothing only where no section has that name.
pub proof fn law_first_named_absent(hs: Seq<SectionHeader>, name: Seq<char>)
    requires
        spec_first_named(hs, name) is None,
    ensures
        forall|i: int| 0 <= i < hs.len() ==> hs[i].spec_name() != name,
{
    assert forall|i: int| 0 <= i < hs.len() implies hs[i].spec_name() != name by {
        if hs[i].spec_name() == name {
            law_first_named_found(hs, name, i);
        }
    }
}

} // verus!
