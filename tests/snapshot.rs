use ff7_bridge::address_table::{AddressTable, FIELD_ID, GAME_MOMENT, STEAM_BUILD};
use ff7_bridge::error::CoreError;
use ff7_bridge::memory::MemoryRegion;
use ff7_bridge::snapshot::SnapshotBuilder;

fn table() -> AddressTable {
    AddressTable::for_build(STEAM_BUILD).unwrap()
}

fn fill(region: MemoryRegion) -> Vec<u8> {
    vec![(region.address & 0xFF) as u8; region.length as usize]
}

#[test]
fn snapshot_reads_every_field_in_table_order() {
    let t = table();
    let mut b = SnapshotBuilder::new();
    let mut asked = Vec::new();
    while let Some(region) = b.next_region(&t) {
        asked.push(region);
        b = b.accept(&t, Ok(fill(region))).unwrap();
    }
    assert_eq!(asked.len(), 4);
    assert_eq!(asked[0], MemoryRegion { address: 0xDBFD38, length: 0x10F4 });
    assert_eq!(asked[3], MemoryRegion { address: 0xE2A0C0, length: 0x1000 });
    let s = b.finish(&t);
    assert_eq!(s.len(), 4);
    assert_eq!(s.value_at(1), &vec![0xDC, 0xDC]);
    assert_eq!(s.value_of(&t, GAME_MOMENT).unwrap(), &vec![0xDC, 0xDC]);
    assert_eq!(s.value_of(&t, FIELD_ID).unwrap(), &vec![0xD0, 0xD0]);
    assert_eq!(s.value_of(&t, "nothing").unwrap_err(), CoreError::UnknownField);
}

#[test]
fn one_failed_read_fails_the_whole_snapshot() {
    let t = table();
    let b = SnapshotBuilder::new();
    let r0 = b.next_region(&t).unwrap();
    let b = b.accept(&t, Ok(fill(r0))).unwrap();
    assert_eq!(b.accept(&t, Err(CoreError::AccessDenied)).err(), Some(CoreError::AccessDenied));
}

#[test]
fn short_field_fails_the_whole_snapshot() {
    let t = table();
    let b = SnapshotBuilder::new();
    assert_eq!(b.accept(&t, Ok(vec![1, 2])).err(), Some(CoreError::PartialRead));
}
