use sys_info::error::InfoError;
use sys_info::linux::files::meminfo::{Meminfo, MEMINFO_PATH};

#[test]
fn totals_are_kept_with_their_unit() {
    let text = "MemTotal:        8192 kB\nMemFree:         1024 kB\nSwapCached:            0 kB\nSwapTotal:       2097148 kB\nSwapFree:        2097148 kB\n";
    let info = Meminfo::parse(Some(text)).unwrap();
    assert_eq!(info.mem_total().as_str(), "8192 kB");
    assert_eq!(info.swap_total().as_str(), "2097148 kB");
    let copy = info.clone();
    assert_eq!(copy.mem_total().as_str(), "8192 kB");
}

#[test]
fn absent_totals_are_empty() {
    let info = Meminfo::parse_text("MemFree: 1 kB\n");
    assert_eq!(info.mem_total().as_str(), "");
    assert_eq!(info.swap_total().as_str(), "");
    let info = Meminfo::parse_text("");
    assert_eq!(info.mem_total().as_str(), "");
}

#[test]
fn keys_are_compared_exactly() {
    let info = Meminfo::parse_text("memtotal: 1 kB\n MemTotal: 2 kB\nMemTotal : 3 kB\nMemTotal\nSwapTotal:4 kB: more\nSwapTotal:   \nMemTotal:\t5 kB\t\r\n");
    assert_eq!(info.mem_total().as_str(), "5 kB");
    assert_eq!(info.swap_total().as_str(), "");
    let info = Meminfo::parse_text("SwapTotal:4 kB: more\n");
    assert_eq!(info.swap_total().as_str(), "4 kB: more");
}

#[test]
fn missing_memory_table_is_not_found() {
    assert_eq!(Meminfo::parse(None).err(), Some(InfoError::NotFound));
    assert_eq!(MEMINFO_PATH, "/proc/meminfo");
}
