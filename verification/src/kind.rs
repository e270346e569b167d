use vstd::prelude::*;

verus! {

/// The canonical identity of a filesystem that a platform table can name.
///
/// The enumeration is open-ended: operating systems report identifiers that
/// are not yet mapped, and new variants are added as mappings are completed,
/// so consumers must treat it as non-exhaustive.  The variants are purely
/// nominal tags; no ordering among them is implied.
#[non_exhaustive]
#[derive(Clone, Copy, Debug, PartialEq, Eq, Structural)]
pub enum FileSystemName {
    AppArmorFs,
    Autofs,
    Binfmtfs,
    Btrfs,
    Cdfs,
    Cgroup,
    Cgroup2,
    Devfs,
    Devpts,
    Ext2,
    Ext3,
    Ext4,
    Fat,
    Fat32,
    Fatx,
    Fdescfs,
    Fusefs,
    Linprocfs,
    Linsysfs,
    Mqueuefs,
    Nfs,
    Nsfs,
    Ntfs,
    Nullfs,
    Procfs,
    Tmpfs,
    Ufs,
    Zfs,
}

/// The kind of filesystem that a file resides on.
///
/// Exactly one variant is populated.  `Unrecognized` never discards
/// information: it carries the identifier exactly as the operating system
/// reported it, either the hexadecimal rendering of a numeric type code or
/// the reported name string, so the original identifier stays recoverable.
#[derive(Clone, Debug)]
pub enum FileSystemKind {
    /// A recognized filesystem.
    Recognized(FileSystemName),
    /// An unrecognized filesystem, carrying the raw OS-reported identifier.
    Unrecognized(String),
}

/// The mathematical content of a [`FileSystemKind`]: the carried identifier
/// abstracted to its character sequence.
pub enum FileSystemKindView {
    Recognized(FileSystemName),
    Unrecognized(Seq<char>),
}

impl View for FileSystemKind {
    type V = FileSystemKindView;

    open spec fn view(&self) -> FileSystemKindView {
        match self {
            FileSystemKind::Recognized(n) => FileSystemKindView::Recognized(*n),
            FileSystemKind::Unrecognized(s) => FileSystemKindView::Unrecognized(s@),
        }
    }
}

impl vstd::std_specs::cmp::PartialEqSpecImpl for FileSystemKind {
    open spec fn obeys_eq_spec() -> bool {
        true
    }

    open spec fn eq_spec(&self, other: &Self) -> bool {
        self@ == other@
    }
}

impl PartialEq for FileSystemKind {
    /// Value equality: equal exactly when the views coincide, so an
    /// unrecognized identifier compares by its character content.
    fn eq(&self, other: &Self) -> (r: bool) {
        match (self, other) {
            (FileSystemKind::Recognized(a), FileSystemKind::Recognized(b)) => a == b,
            (FileSystemKind::Unrecognized(a), FileSystemKind::Unrecognized(b)) => crate::text::str_eq(
                a.as_str(),
                b.as_str(),
            ),
            _ => false,
        }
    }
}

impl Eq for FileSystemKind {

}

/// Relates an executable resolution result to its model: `r` reports exactly
/// the outcome `m`, where `None` stands for a raw response that violates the
/// operating system's own contract.
pub open spec fn resolves_to(r: Option<FileSystemKind>, m: Option<FileSystemKindView>) -> bool {
    match r {
        Some(k) => m == Some(k@),
        None => m is None,
    }
}

/// Law: two resolutions that report the same model outcome are
/// indistinguishable: both fail together, and when they succeed their
/// values have equal views -- and therefore compare equal, since equality
/// on [`FileSystemKind`] is view equality.
pub proof fn lemma_resolution_unique(
    r1: Option<FileSystemKind>,
    r2: Option<FileSystemKind>,
    m: Option<FileSystemKindView>,
)
    requires
        resolves_to(r1, m),
        resolves_to(r2, m),
    ensures
        r1 is Some <==> r2 is Some,
        r1 matches Some(k1) ==> (r2 matches Some(k2) && k1@ == k2@),
{
}

} // verus!
