use fskind::FileSystemKind;
use fskind::FileSystemName;
use fskind::hex::hex_render;
use fskind::linux::filesystem_from_magic;

fn recognized(code: i64) -> FileSystemName {
    match filesystem_from_magic(code) {
        FileSystemKind::Recognized(n) => n,
        FileSystemKind::Unrecognized(s) => panic!("code {:#x} was not recognized: {}", code, s),
    }
}

fn unrecognized(code: i64) -> String {
    match filesystem_from_magic(code) {
        FileSystemKind::Recognized(n) => panic!("code {:#x} was recognized as {:?}", code, n),
        FileSystemKind::Unrecognized(s) => s,
    }
}

#[test]
fn tmpfs_magic_is_recognized() {
    assert_eq!(recognized(0x0102_1994), FileSystemName::Tmpfs);
}

#[test]
fn unknown_magic_renders_exact_hex() {
    assert_eq!(unrecognized(0xDEAD_BEEF), "0xDEADBEEF");
}

#[test]
fn every_mapped_magic_resolves() {
    assert_eq!(recognized(0x5a3c_69f0), FileSystemName::AppArmorFs);
    assert_eq!(recognized(0x0187), FileSystemName::Autofs);
    assert_eq!(recognized(0x4249_4e4d), FileSystemName::Binfmtfs);
    assert_eq!(recognized(0x0027_e0eb), FileSystemName::Cgroup);
    assert_eq!(recognized(0x6367_7270), FileSystemName::Cgroup2);
    assert_eq!(recognized(0x1373), FileSystemName::Devfs);
    assert_eq!(recognized(0x1cd1), FileSystemName::Devpts);
    assert_eq!(recognized(0x6573_5546), FileSystemName::Fusefs);
    assert_eq!(recognized(0x1980_0202), FileSystemName::Mqueuefs);
    assert_eq!(recognized(0x4d44), FileSystemName::Fat);
    assert_eq!(recognized(0x6969), FileSystemName::Nfs);
    assert_eq!(recognized(0x6e73_6673), FileSystemName::Nsfs);
    assert_eq!(recognized(0x9fa0), FileSystemName::Procfs);
    assert_eq!(recognized(0x0001_1954), FileSystemName::Ufs);
    assert_eq!(recognized(0x2fc1_2fc1), FileSystemName::Zfs);
}

#[test]
fn shared_ext_magic_stays_unmapped() {
    // ext2, ext3 and ext4 share this code upstream; rather than guess
    // among them the resolver reports the code itself.
    assert_eq!(unrecognized(0xef53), "0xEF53");
}

#[test]
fn zero_code_renders_single_digit() {
    assert_eq!(unrecognized(0), "0x0");
}

#[test]
fn negative_code_renders_bit_pattern() {
    assert_eq!(unrecognized(-1), "0xFFFFFFFFFFFFFFFF");
}

#[test]
fn hex_rendering_exact_values() {
    assert_eq!(hex_render(0), "0x0");
    assert_eq!(hex_render(9), "0x9");
    assert_eq!(hex_render(10), "0xA");
    assert_eq!(hex_render(255), "0xFF");
    assert_eq!(hex_render(0x0102_1994), "0x1021994");
    assert_eq!(hex_render(u64::MAX), "0xFFFFFFFFFFFFFFFF");
}

#[test]
fn unknown_magic_round_trips_through_hex() {
    let s = unrecognized(0xDEAD_BEEF);
    let back = u64::from_str_radix(&s[2..], 16).unwrap();
    assert_eq!(back, 0xDEAD_BEEF);
    let s = unrecognized(-2);
    let back = u64::from_str_radix(&s[2..], 16).unwrap();
    assert_eq!(back, -2i64 as u64);
}

#[test]
fn resolution_is_deterministic() {
    assert_eq!(filesystem_from_magic(0x0102_1994), filesystem_from_magic(0x0102_1994));
    assert_eq!(filesystem_from_magic(0xDEAD_BEEF), filesystem_from_magic(0xDEAD_BEEF));
}
