//! The first look at a tracee's memory: the regions of its memory map
//! listing that no file backs.

use vstd::prelude::*;
use crate::protocol::{MapEntry, MappedRegion, MemState};

verus! {

/// The region that a line of the listing stands for: none if a file backs
/// it, or if it would end beyond the address space; else the line's range,
/// not resident.
pub open spec fn region_of(entry: MapEntry) -> Option<MappedRegion> {
    if !entry.file_backed && entry.start + entry.size <= u64::MAX {
        Some(
            MappedRegion {
                start: entry.start,
                end: (entry.start + entry.size) as u64,
                state: MemState::NotResident,
            },
        )
    } else {
        None
    }
}

/// The regions of a listing, in the order of its lines.
pub open spec fn anonymous_regions(entries: Seq<MapEntry>) -> Seq<MappedRegion>
    decreases entries.len(),
{
    if entries.len() == 0 {
        Seq::empty()
    } else {
        let before = anonymous_regions(entries.drop_last());
        match region_of(entries.last()) {
            Some(region) => before.push(region),
            None => before,
        }
    }
}

/// Computes the region that a line of the listing stands for.
pub fn entry_region(entry: &MapEntry) -> (region: Option<MappedRegion>)
    ensures
        region == region_of(*entry),
{
    if entry.file_backed {
        return None;
    }
    match entry.start.checked_add(entry.size) {
        Some(end) => Some(MappedRegion { start: entry.start, end, state: MemState::NotResident }),
        None => None,
    }
}

/// Collects the regions of a listing that no file backs.
pub fn collect_anonymous(entries: &Vec<MapEntry>) -> (regions: Vec<MappedRegion>)
    ensures
        regions@ == anonymous_regions(entries@),
{
    let mut regions: Vec<MappedRegion> = Vec::new();
    let mut i: usize = 0;
    while i < entries.len()
        invariant
            i <= entries@.len(),
            regions@ == anonymous_regions(entries@.take(i as int)),
        decreases entries@.len() - i,
    {
        assert(entries@.take(i + 1).drop_last() =~= entries@.take(i as int));
        assert(entries@.take(i + 1).last() == entries@[i as int]);
        match entry_region(&entries[i]) {
            Some(region) => {
                regions.push(region);
            },
            None => {},
        }
        i = i + 1;
    }
    assert(entries@.take(entries@.len() as int) =~= entries@);
    regions
}

/// Every region of a listing is not resident and is the range of a line
/// that no file backs; there are at most as many regions as lines.
pub proof fn lemma_regions_come_from_lines(entries: Seq<MapEntry>)
    ensures
        anonymous_regions(entries).len() <= entries.len(),
        forall|k: int|
            0 <= k < anonymous_regions(entries).len() ==> exists|i: int|
                0 <= i < entries.len() && region_of(#[trigger] entries[i]) == Some(
                    #[trigger] anonymous_regions(entries)[k],
                ),
    decreases entries.len(),
{
    if entries.len() > 0 {
        let before = entries.drop_last();
        lemma_regions_come_from_lines(before);
        let regions = anonymous_regions(entries);
        assert forall|k: int| 0 <= k < regions.len() implies exists|i: int|
            0 <= i < entries.len() && region_of(#[trigger] entries[i]) == Some(
                #[trigger] regions[k],
            ) by {
            if k < anonymous_regions(before).len() {
                let i = choose|i: int|
                    0 <= i < before.len() && region_of(#[trigger] before[i]) == Some(
                        anonymous_regions(before)[k],
                    );
                assert(entries[i] == before[i]);
            } else {
                assert(region_of(entries[entries.len() - 1]) == Some(regions[k]));
            }
        }
    }
}

/// If no line of the listing is empty, no region is empty or inverted.
pub proof fn lemma_listed_regions_nonempty(entries: Seq<MapEntry>)
    requires
        forall|i: int| 0 <= i < entries.len() ==> (#[trigger] entries[i]).size > 0,
    ensures
        forall|k: int|
            0 <= k < anonymous_regions(entries).len() ==> (#[trigger] anonymous_regions(
                entries,
            )[k]).nonempty(),
{
    lemma_regions_come_from_lines(entries);
    let regions = anonymous_regions(entries);
    assert forall|k: int| 0 <= k < regions.len() implies (#[trigger] regions[k]).nonempty() by {
        let i = choose|i: int|
            0 <= i < entries.len() && region_of(#[trigger] entries[i]) == Some(regions[k]);
        assert(entries[i].size > 0);
    }
}

} // verus!
