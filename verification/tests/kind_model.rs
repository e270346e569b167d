use fskind::FileSystemKind;
use fskind::FileSystemName;

#[test]
fn recognized_values_compare_by_name() {
    assert_eq!(
        FileSystemKind::Recognized(FileSystemName::Tmpfs),
        FileSystemKind::Recognized(FileSystemName::Tmpfs)
    );
    assert_ne!(
        FileSystemKind::Recognized(FileSystemName::Tmpfs),
        FileSystemKind::Recognized(FileSystemName::Zfs)
    );
}

#[test]
fn unrecognized_values_compare_by_content() {
    assert_eq!(
        FileSystemKind::Unrecognized(String::from("0xEF53")),
        FileSystemKind::Unrecognized(String::from("0xEF53"))
    );
    assert_ne!(
        FileSystemKind::Unrecognized(String::from("0xEF53")),
        FileSystemKind::Unrecognized(String::from("0xEF54"))
    );
}

#[test]
fn recognized_never_equals_unrecognized() {
    assert_ne!(
        FileSystemKind::Recognized(FileSystemName::Ntfs),
        FileSystemKind::Unrecognized(String::from("NTFS"))
    );
}

#[test]
fn kinds_clone_to_equal_values() {
    let a = FileSystemKind::Unrecognized(String::from("somefs"));
    assert_eq!(a.clone(), a);
    let b = FileSystemKind::Recognized(FileSystemName::Nfs);
    assert_eq!(b.clone(), b);
}
