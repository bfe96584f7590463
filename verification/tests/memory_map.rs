use limine::memory::ForeignMemory;
use limine::requests::memory_map::{
    InvalidRegionType, MemoryMapRequest, MemoryMapResponse, MemoryRegionInfo, MemoryRegionType,
};
use limine::requests::LimineRequest;
use limine::util::{ForeignRecord, PointerSlice};

const BASE: u64 = 0x20_0000;

/// The response at `BASE`, the slots behind it, and the entries behind the
/// slots in the reverse of their order in the map.
fn map_fixture(entries: &[(u64, u64, u64)]) -> Vec<u8> {
    let count = entries.len() as u64;
    let slots_at = BASE + 24;
    let entries_at = slots_at + 8 * count;
    let mut words = vec![0, count, slots_at];
    for i in 0..count {
        words.push(entries_at + 24 * (count - 1 - i));
    }
    for &(base, length, kind) in entries.iter().rev() {
        words.push(base);
        words.push(length);
        words.push(kind);
    }
    let mut bytes = Vec::new();
    for word in words {
        bytes.extend_from_slice(&word.to_le_bytes());
    }
    bytes
}

fn map_response(mem: &ForeignMemory) -> MemoryMapResponse {
    let mut request = MemoryMapRequest::new(0);
    assert!(request.respond(BASE));
    assert!(mem.contains(BASE, MemoryMapResponse::byte_size()));
    request.get_response(mem).unwrap()
}

#[test]
fn memory_map_yields_its_entries_in_order() {
    let bytes = map_fixture(&[(0x0, 0x1000, 0), (0x1000, 0x9000, 1), (0x100000, 0x700000, 5)]);
    let mem = ForeignMemory::new(BASE, &bytes).unwrap();
    let response = map_response(&mem);
    let entries = response.get_entries();
    assert_eq!(entries.len(), 3);
    for i in 0..3 {
        assert!(entries.is_readable(&mem, i));
    }
    let all = entries.iter(&mem);
    assert_eq!(
        all,
        vec![
            MemoryRegionInfo { base: 0x0, length: 0x1000, region_type: 0 },
            MemoryRegionInfo { base: 0x1000, length: 0x9000, region_type: 1 },
            MemoryRegionInfo { base: 0x100000, length: 0x700000, region_type: 5 },
        ]
    );
    assert_eq!(all[0].get_type(), Ok(MemoryRegionType::Usable));
    assert_eq!(all[1].get_type(), Ok(MemoryRegionType::Reserved));
    assert_eq!(all[2].get_type(), Ok(MemoryRegionType::BootloaderReclaimable));
}

#[test]
fn lookup_by_index_follows_the_slot() {
    let bytes = map_fixture(&[(0x0, 0x1000, 0), (0x1000, 0x9000, 1), (0x100000, 0x700000, 5)]);
    let mem = ForeignMemory::new(BASE, &bytes).unwrap();
    let entries = map_response(&mem).get_entries();
    assert_eq!(entries.base(), BASE + 24);
    assert_eq!(
        entries.get(&mem, 0),
        Some(MemoryRegionInfo { base: 0x0, length: 0x1000, region_type: 0 })
    );
    assert_eq!(
        entries.get(&mem, 1),
        Some(MemoryRegionInfo { base: 0x1000, length: 0x9000, region_type: 1 })
    );
    assert_eq!(
        entries.get(&mem, 2),
        Some(MemoryRegionInfo { base: 0x100000, length: 0x700000, region_type: 5 })
    );
}

#[test]
fn lookup_past_the_count_gives_nothing() {
    let bytes = map_fixture(&[(0x0, 0x1000, 0), (0x1000, 0x9000, 1), (0x100000, 0x700000, 5)]);
    let mem = ForeignMemory::new(BASE, &bytes).unwrap();
    let entries = map_response(&mem).get_entries();
    assert_eq!(entries.get(&mem, 3), None);
    assert_eq!(entries.get(&mem, 4), None);
    assert_eq!(entries.get(&mem, usize::MAX), None);
    assert!(!entries.is_readable(&mem, 3));
    assert!(!entries.is_readable(&mem, usize::MAX));
}

#[test]
fn traversal_can_be_repeated() {
    let bytes = map_fixture(&[(0x10, 0x20, 2), (0x30, 0x40, 8)]);
    let mem = ForeignMemory::new(BASE, &bytes).unwrap();
    let entries = map_response(&mem).get_entries();
    let first = entries.iter(&mem);
    let second = entries.iter(&mem);
    assert_eq!(first.len(), 2);
    assert_eq!(first, second);
    assert_eq!(first[1], MemoryRegionInfo { base: 0x30, length: 0x40, region_type: 8 });
}

#[test]
fn empty_map_has_no_entries() {
    let bytes = map_fixture(&[]);
    let mem = ForeignMemory::new(BASE, &bytes).unwrap();
    let entries = map_response(&mem).get_entries();
    assert_eq!(entries.len(), 0);
    assert!(entries.iter(&mem).is_empty());
    assert_eq!(entries.get(&mem, 0), None);
}

#[test]
fn view_does_not_reach_past_its_count() {
    let bytes = map_fixture(&[(0x10, 0x20, 2), (0x30, 0x40, 8)]);
    let mem = ForeignMemory::new(BASE, &bytes).unwrap();
    let shorter: PointerSlice<MemoryRegionInfo> = PointerSlice::new(BASE + 24, 1);
    assert_eq!(
        shorter.iter(&mem),
        vec![MemoryRegionInfo { base: 0x10, length: 0x20, region_type: 2 }]
    );
    assert_eq!(shorter.get(&mem, 1), None);
}

#[test]
fn unreadable_elements_are_told_apart() {
    let bytes = map_fixture(&[(0x10, 0x20, 2)]);
    let mem = ForeignMemory::new(BASE, &bytes).unwrap();
    let beyond: PointerSlice<MemoryRegionInfo> = PointerSlice::new(BASE + 24, 4);
    assert!(beyond.is_readable(&mem, 0));
    assert!(!beyond.is_readable(&mem, 1));
    assert!(!beyond.is_readable(&mem, 3));
    let outside: PointerSlice<MemoryRegionInfo> = PointerSlice::new(u64::MAX - 7, 2);
    assert!(!outside.is_readable(&mem, 0));
    assert!(!outside.is_readable(&mem, 1));
}

#[test]
fn region_codes_name_the_kinds_in_order() {
    assert_eq!(MemoryRegionType::from(0), Ok(MemoryRegionType::Usable));
    assert_eq!(MemoryRegionType::from(1), Ok(MemoryRegionType::Reserved));
    assert_eq!(MemoryRegionType::from(2), Ok(MemoryRegionType::AcpiReclaimable));
    assert_eq!(MemoryRegionType::from(3), Ok(MemoryRegionType::AcpiNvs));
    assert_eq!(MemoryRegionType::from(4), Ok(MemoryRegionType::BadMemory));
    assert_eq!(MemoryRegionType::from(5), Ok(MemoryRegionType::BootloaderReclaimable));
    assert_eq!(MemoryRegionType::from(6), Ok(MemoryRegionType::ExecutableAndModules));
    assert_eq!(MemoryRegionType::from(7), Ok(MemoryRegionType::Framebuffer));
    assert_eq!(MemoryRegionType::from(8), Ok(MemoryRegionType::AcpiTables));
}

#[test]
fn other_region_codes_are_errors() {
    assert_eq!(MemoryRegionType::from(9), Err(InvalidRegionType { code: 9 }));
    assert_eq!(MemoryRegionType::from(10), Err(InvalidRegionType { code: 10 }));
    assert_eq!(MemoryRegionType::from(0x1000), Err(InvalidRegionType { code: 0x1000 }));
    assert_eq!(MemoryRegionType::from(u64::MAX), Err(InvalidRegionType { code: u64::MAX }));
    let entry = MemoryRegionInfo { base: 0, length: 0, region_type: 9 };
    assert_eq!(entry.get_type(), Err(InvalidRegionType { code: 9 }));
}

#[test]
fn kinds_and_codes_round_trip() {
    for code in 0..9u64 {
        let kind = MemoryRegionType::from(code).unwrap();
        assert_eq!(kind.code(), code);
    }
    assert_eq!(MemoryRegionType::AcpiTables.code(), 8);
    assert_eq!(MemoryRegionType::Usable.code(), 0);
}
