use fskind::FileSystemKind;
use fskind::FileSystemName;
use fskind::windows::filesystem_from_wide_name;

/// Builds a wide-character buffer the way the platform fills it: the
/// name's code units, a null terminator, then arbitrary trailing content.
fn wide_buffer(name: &str, trailing: &[u16]) -> Vec<u16> {
    let mut buf: Vec<u16> = name.encode_utf16().collect();
    buf.push(0);
    buf.extend_from_slice(trailing);
    buf
}

fn resolve(units: &[u16]) -> FileSystemKind {
    filesystem_from_wide_name(units).expect("the buffer violates the platform contract")
}

#[test]
fn ntfs_is_recognized() {
    let buf = wide_buffer("NTFS", &[0, 0, 0]);
    assert_eq!(resolve(&buf), FileSystemKind::Recognized(FileSystemName::Ntfs));
}

#[test]
fn refs_is_carried_verbatim() {
    let buf = wide_buffer("REFS", &[0]);
    assert_eq!(
        resolve(&buf),
        FileSystemKind::Unrecognized(String::from("REFS"))
    );
}

#[test]
fn every_mapped_wide_name_resolves() {
    let cases: Vec<(&str, FileSystemName)> = vec![
        ("BTRFS", FileSystemName::Btrfs),
        ("CDFS", FileSystemName::Cdfs),
        ("EXT2", FileSystemName::Ext2),
        ("EXT3", FileSystemName::Ext3),
        ("EXT4", FileSystemName::Ext4),
        ("FAT", FileSystemName::Fat),
        ("FAT32", FileSystemName::Fat32),
        ("FATX", FileSystemName::Fatx),
        ("NTFS", FileSystemName::Ntfs),
    ];
    for (name, expected) in cases {
        let buf = wide_buffer(name, &[]);
        assert_eq!(resolve(&buf), FileSystemKind::Recognized(expected));
    }
}

#[test]
fn fat_and_fat32_stay_distinct() {
    assert_ne!(resolve(&wide_buffer("FAT", &[])), resolve(&wide_buffer("FAT32", &[])));
}

#[test]
fn wide_lookup_is_case_sensitive() {
    let buf = wide_buffer("ntfs", &[]);
    assert_eq!(resolve(&buf), FileSystemKind::Unrecognized(String::from("ntfs")));
}

#[test]
fn surrogate_pair_name_is_preserved() {
    // One character outside the basic plane, encoded as a surrogate pair.
    let buf = wide_buffer("\u{1F600}", &[]);
    assert_eq!(
        resolve(&buf),
        FileSystemKind::Unrecognized(String::from("\u{1F600}"))
    );
}

#[test]
fn missing_wide_terminator_is_a_contract_violation() {
    let buf: Vec<u16> = vec![78, 84, 70, 83];
    assert_eq!(filesystem_from_wide_name(&buf), None);
}

#[test]
fn lone_surrogate_is_a_contract_violation() {
    let buf: Vec<u16> = vec![0xD800, 0];
    assert_eq!(filesystem_from_wide_name(&buf), None);
}

#[test]
fn wide_resolution_is_deterministic() {
    let buf = wide_buffer("REFS", &[7]);
    assert_eq!(filesystem_from_wide_name(&buf), filesystem_from_wide_name(&buf));
}
