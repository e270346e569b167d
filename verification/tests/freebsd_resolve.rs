use fskind::FileSystemKind;
use fskind::FileSystemName;
use fskind::freebsd::filesystem_from_type_name;
use fskind::freebsd::unsigned_bytes;

/// Builds a fixed-size name buffer the way the platform fills it: the
/// identifier's bytes, a null terminator, then arbitrary trailing content.
fn name_buffer(name: &str, trailing: &[i8]) -> Vec<i8> {
    let mut buf: Vec<i8> = name.as_bytes().iter().map(|b| *b as i8).collect();
    buf.push(0);
    buf.extend_from_slice(trailing);
    buf
}

fn resolve(buf: &[i8]) -> FileSystemKind {
    filesystem_from_type_name(buf).expect("the buffer violates the platform contract")
}

#[test]
fn ufs_with_trailing_garbage_decodes_exactly() {
    // "ufs\0" followed by garbage, including bytes that are not UTF-8:
    // everything after the first null is ignored.
    let buf = name_buffer("ufs", &[-1, -2, 97, 0, 33, -128]);
    assert_eq!(resolve(&buf), FileSystemKind::Recognized(FileSystemName::Ufs));
}

#[test]
fn high_bit_bytes_read_as_unsigned() {
    assert_eq!(unsigned_bytes(&[-1]), vec![255u8]);
    assert_eq!(unsigned_bytes(&[-128]), vec![128u8]);
    assert_eq!(unsigned_bytes(&[0, 1, 127]), vec![0u8, 1, 127]);
}

#[test]
fn non_ascii_identifier_is_preserved() {
    // 0xC3 0xA9 is the two-byte encoding of 'e' with an acute accent: the
    // signed buffer bytes -61 and -87 must decode through 195 and 169.
    let buf: Vec<i8> = vec![-61, -87, 0];
    assert_eq!(
        resolve(&buf),
        FileSystemKind::Unrecognized(String::from("\u{e9}"))
    );
}

#[test]
fn every_mapped_name_resolves() {
    let cases: Vec<(&str, FileSystemName)> = vec![
        ("autofs", FileSystemName::Autofs),
        ("devfs", FileSystemName::Devfs),
        ("ext2fs", FileSystemName::Ext2),
        ("ext3fs", FileSystemName::Ext3),
        ("ext4fs", FileSystemName::Ext4),
        ("fdescfs", FileSystemName::Fdescfs),
        ("fusefs", FileSystemName::Fusefs),
        ("linprocfs", FileSystemName::Linprocfs),
        ("linsysfs", FileSystemName::Linsysfs),
        ("mqueuefs", FileSystemName::Mqueuefs),
        ("msdosfs", FileSystemName::Fat),
        ("nfs", FileSystemName::Nfs),
        ("nullfs", FileSystemName::Nullfs),
        ("procfs", FileSystemName::Procfs),
        ("tmpfs", FileSystemName::Tmpfs),
        ("ufs", FileSystemName::Ufs),
        ("zfs", FileSystemName::Zfs),
    ];
    for (name, expected) in cases {
        let buf = name_buffer(name, &[]);
        assert_eq!(resolve(&buf), FileSystemKind::Recognized(expected));
    }
}

#[test]
fn lookup_is_case_sensitive() {
    let buf = name_buffer("UFS", &[]);
    assert_eq!(resolve(&buf), FileSystemKind::Unrecognized(String::from("UFS")));
}

#[test]
fn unknown_name_is_carried_verbatim() {
    let buf = name_buffer("xyzfs", &[12, 34]);
    assert_eq!(
        resolve(&buf),
        FileSystemKind::Unrecognized(String::from("xyzfs"))
    );
}

#[test]
fn empty_identifier_is_carried_verbatim() {
    let buf: Vec<i8> = vec![0, 117, 102];
    assert_eq!(resolve(&buf), FileSystemKind::Unrecognized(String::new()));
}

#[test]
fn missing_terminator_is_a_contract_violation() {
    let buf: Vec<i8> = vec![117, 102, 115];
    assert_eq!(filesystem_from_type_name(&buf), None);
}

#[test]
fn empty_buffer_is_a_contract_violation() {
    let buf: Vec<i8> = vec![];
    assert_eq!(filesystem_from_type_name(&buf), None);
}

#[test]
fn invalid_utf8_identifier_is_a_contract_violation() {
    // A lone high-bit byte before the terminator is not UTF-8.
    let buf: Vec<i8> = vec![-1, 0];
    assert_eq!(filesystem_from_type_name(&buf), None);
}

#[test]
fn buffer_resolution_is_deterministic() {
    let buf = name_buffer("zfs", &[5, -5]);
    assert_eq!(filesystem_from_type_name(&buf), filesystem_from_type_name(&buf));
}
