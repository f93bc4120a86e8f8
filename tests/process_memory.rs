use ff7_bridge::address_table::{AddressTable, STEAM_BUILD, WORLD_MES_DATA};
use ff7_bridge::commands::{is_ff7_running, update_mes_data};
use ff7_bridge::error::CoreError;
use ff7_bridge::memory::{
    begin_read, begin_write, finish_read, finish_write, region_of, write_region_of, MemoryRegion,
    ReadOutcome, WriteOutcome,
};
use ff7_bridge::process::{find, is_alive, ProcessEntry, ProcessHandle, TARGET_PROCESS};

fn entry(pid: u32, start_time: u64, name: &str) -> ProcessEntry {
    ProcessEntry { pid, start_time, name: name.to_string() }
}

fn listing() -> Vec<ProcessEntry> {
    vec![
        entry(10, 100, "init"),
        entry(42, 500, TARGET_PROCESS),
        entry(43, 600, TARGET_PROCESS),
    ]
}

#[test]
fn find_gives_the_first_match() {
    let h = find(&listing(), TARGET_PROCESS).unwrap();
    assert_eq!(h, ProcessHandle { pid: 42, start_time: 500 });
}

#[test]
fn find_without_a_match_is_not_found() {
    assert_eq!(find(&listing(), "other.exe").unwrap_err(), CoreError::ProcessNotFound);
    assert_eq!(find(&Vec::new(), TARGET_PROCESS).unwrap_err(), CoreError::ProcessNotFound);
}

#[test]
fn liveness_follows_the_listing() {
    let h = ProcessHandle { pid: 42, start_time: 500 };
    assert!(is_alive(&h, &listing()));
    let restarted = vec![entry(42, 900, TARGET_PROCESS)];
    assert!(!is_alive(&h, &restarted));
    assert!(!is_alive(&h, &Vec::new()));
}

#[test]
fn running_check() {
    assert!(is_ff7_running(&listing()));
    assert!(!is_ff7_running(&vec![entry(1, 1, "init")]));
}

#[test]
fn no_transfer_starts_when_not_alive() {
    let region = MemoryRegion { address: 0x1000, length: 4 };
    assert_eq!(begin_read(false, region).err(), Some(CoreError::ProcessGone));
    assert_eq!(begin_write(false, region, vec![1, 2, 3, 4]).err(), Some(CoreError::ProcessGone));
}

#[test]
fn region_past_the_address_space_is_denied() {
    let region = MemoryRegion { address: u64::MAX - 1, length: 4 };
    assert_eq!(begin_read(true, region).err(), Some(CoreError::AccessDenied));
    assert_eq!(begin_write(true, region, vec![0; 4]).err(), Some(CoreError::AccessDenied));
}

#[test]
fn read_outcomes_map_to_results() {
    let region = MemoryRegion { address: 0x1000, length: 3 };
    let ok = finish_read(begin_read(true, region).unwrap(), ReadOutcome::Bytes(vec![7, 8, 9]));
    assert_eq!(ok.unwrap(), vec![7, 8, 9]);
    let short = finish_read(begin_read(true, region).unwrap(), ReadOutcome::Bytes(vec![7, 8]));
    assert_eq!(short.unwrap_err(), CoreError::PartialRead);
    let denied = finish_read(begin_read(true, region).unwrap(), ReadOutcome::Denied);
    assert_eq!(denied.unwrap_err(), CoreError::AccessDenied);
    let gone = finish_read(begin_read(true, region).unwrap(), ReadOutcome::Gone);
    assert_eq!(gone.unwrap_err(), CoreError::ProcessGone);
}

#[test]
fn write_outcomes_map_to_results() {
    let region = MemoryRegion { address: 0x2000, length: 2 };
    let t = || begin_write(true, region, vec![1, 2]).unwrap();
    assert_eq!(finish_write(t(), WriteOutcome::Written(2)), Ok(()));
    assert_eq!(finish_write(t(), WriteOutcome::Written(1)), Err(CoreError::WriteRejected));
    assert_eq!(finish_write(t(), WriteOutcome::NotWritable), Err(CoreError::WriteRejected));
    assert_eq!(finish_write(t(), WriteOutcome::Denied), Err(CoreError::AccessDenied));
    assert_eq!(finish_write(t(), WriteOutcome::Gone), Err(CoreError::ProcessGone));
}

#[test]
fn write_must_fill_its_region() {
    let region = MemoryRegion { address: 0x2000, length: 2 };
    assert_eq!(begin_write(true, region, vec![1]).err(), Some(CoreError::WriteRejected));
    let t = begin_write(true, region, vec![5, 6]).unwrap();
    assert_eq!(t.region(), region);
    assert_eq!(t.bytes(), &vec![5, 6]);
}

#[test]
fn field_regions() {
    let table = AddressTable::for_build(STEAM_BUILD).unwrap();
    let e = table.lookup(WORLD_MES_DATA).unwrap();
    assert_eq!(region_of(e), MemoryRegion { address: 0xE2A0C0, length: 0x1000 });
    assert_eq!(write_region_of(e, 10), Ok(MemoryRegion { address: 0xE2A0C0, length: 10 }));
    assert_eq!(write_region_of(e, 0x1001), Err(CoreError::WriteRejected));
}

#[test]
fn read_write_read_round_trip() {
    // A stand-in for the target's memory, at base 0x3000.
    let mut mem: Vec<u8> = (0..64u8).collect();
    let base = 0x3000u64;
    let region = MemoryRegion { address: base + 8, length: 4 };
    let at = (region.address - base) as usize;

    let t = begin_read(true, region).unwrap();
    let first = finish_read(t, ReadOutcome::Bytes(mem[at..at + 4].to_vec())).unwrap();
    assert_eq!(first, vec![8, 9, 10, 11]);

    let w = begin_write(true, region, first.clone()).unwrap();
    mem[at..at + 4].copy_from_slice(w.bytes());
    assert_eq!(finish_write(w, WriteOutcome::Written(4)), Ok(()));

    let t = begin_read(true, region).unwrap();
    let second = finish_read(t, ReadOutcome::Bytes(mem[at..at + 4].to_vec())).unwrap();
    assert_eq!(second, first);
}

#[test]
fn update_mes_data_without_the_game_is_not_found() {
    let table = AddressTable::for_build(STEAM_BUILD).unwrap();
    let r = update_mes_data(&table, &vec![entry(1, 1, "init")], vec![1, 2, 3]);
    assert_eq!(r.err(), Some(CoreError::ProcessNotFound));
}

#[test]
fn update_mes_data_targets_the_message_buffer() {
    let table = AddressTable::for_build(STEAM_BUILD).unwrap();
    let (h, t) = update_mes_data(&table, &listing(), vec![1, 2, 3]).unwrap();
    assert_eq!(h, ProcessHandle { pid: 42, start_time: 500 });
    assert_eq!(t.region(), MemoryRegion { address: 0xE2A0C0, length: 3 });
    assert_eq!(t.bytes(), &vec![1, 2, 3]);
}

#[test]
fn update_mes_data_too_long_is_rejected() {
    let table = AddressTable::for_build(STEAM_BUILD).unwrap();
    let r = update_mes_data(&table, &listing(), vec![0; 0x1001]);
    assert_eq!(r.err(), Some(CoreError::WriteRejected));
    let full = update_mes_data(&table, &listing(), vec![0; 0x1000]).unwrap();
    assert_eq!(full.1.region().length, 0x1000);
}
