use argon_commander::text::{decimal_string, ends_with, parse_bigint, parse_u32, parse_u64, split, trim};
use argon_commander::vm::Vm;
use argon_commander::stats::Stats;

#[test]
fn trims_ascii_whitespace() {
    assert_eq!(trim("  a b \n"), "a b");
    assert_eq!(trim("\t\r\n"), "");
}

#[test]
fn splits_keep_empty_pieces() {
    assert_eq!(split("a--b", '-'), vec!["a", "", "b"]);
    assert_eq!(split("", '-'), vec![""]);
}

#[test]
fn decimal_numbers() {
    assert_eq!(parse_u32("4294967295"), Some(u32::MAX));
    assert_eq!(parse_u32("4294967296"), None);
    assert_eq!(parse_u64("18446744073709551615"), Some(u64::MAX));
    assert_eq!(parse_u64("18446744073709551616"), None);
    assert_eq!(parse_u64(""), None);
    assert_eq!(parse_u64("-1"), None);
    assert_eq!(decimal_string(0), "0");
    assert_eq!(decimal_string(907), "907");
    assert!(ends_with("run.sh", ".sh"));
    assert!(!ends_with("sh", ".sh"));
}

#[test]
fn bigint_amounts() {
    assert_eq!(parse_bigint("1500n"), Some(1500));
    assert_eq!(parse_bigint("42"), Some(42));
    assert_eq!(parse_bigint("7nn"), Some(7));
    assert_eq!(parse_bigint("n"), None);
}

#[test]
fn vm_port_from_compose_output() {
    assert_eq!(Vm::get_vm("0.0.0.0:32768"), Some(Vm { ssh_port: 32768 }));
    assert_eq!(Vm::get_vm("[::]:70000"), None);
    assert_eq!(Vm::get_vm("none"), None);
}

#[test]
fn sync_progress_blend() {
    assert_eq!(Stats::calculate_sync_progress(5000, 10000), 4500);
    assert_eq!(Stats::calculate_sync_progress(10000, 5000), 9500);
    assert_eq!(Stats::calculate_sync_progress(10000, 10000), 10000);
}
