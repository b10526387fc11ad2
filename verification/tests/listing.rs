use mevi::maps::{collect_anonymous, entry_region};
use mevi::protocol::{MapEntry, MappedRegion, MemState};

fn line(start: u64, size: u64, file_backed: bool) -> MapEntry {
    MapEntry { start, size, file_backed }
}

fn not_resident(start: u64, end: u64) -> MappedRegion {
    MappedRegion { start, end, state: MemState::NotResident }
}

#[test]
fn a_line_without_a_file_is_a_region() {
    assert_eq!(
        entry_region(&line(0x7f00_0000, 0x2000, false)),
        Some(not_resident(0x7f00_0000, 0x7f00_2000))
    );
}

#[test]
fn a_line_with_a_file_is_none() {
    assert_eq!(entry_region(&line(0x40_0000, 0x1000, true)), None);
}

#[test]
fn a_line_that_ends_beyond_the_address_space_is_none() {
    assert_eq!(entry_region(&line(u64::MAX, 1, false)), None);
    assert_eq!(
        entry_region(&line(u64::MAX - 1, 1, false)),
        Some(not_resident(u64::MAX - 1, u64::MAX))
    );
}

#[test]
fn regions_keep_the_order_of_the_listing() {
    let listing = vec![
        line(0x40_0000, 0x1000, true),
        line(0x60_0000, 0x3000, false),
        line(0x7f00_0000, 0x2_1000, true),
        line(0x7f10_0000, 0x1000, false),
        line(0x7ffc_0000, 0x2_2000, false),
    ];
    assert_eq!(
        collect_anonymous(&listing),
        vec![
            not_resident(0x60_0000, 0x60_3000),
            not_resident(0x7f10_0000, 0x7f10_1000),
            not_resident(0x7ffc_0000, 0x7ffe_2000),
        ]
    );
}

#[test]
fn an_empty_listing_has_no_regions() {
    assert_eq!(collect_anonymous(&Vec::new()), Vec::new());
    assert_eq!(collect_anonymous(&vec![line(1, 2, true)]), Vec::new());
}
