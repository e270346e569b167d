use vstd::prelude::*;
use vstd::utf8::encode_utf8;
use crate::hex::hex_chars;
use crate::hex::hex_render;
use crate::hex::hex_val;
use crate::hex::lemma_hex_round_trip;
use crate::kind::FileSystemKind;
use crate::kind::FileSystemKindView;
use crate::kind::FileSystemName;

verus! {

// Magic numbers of the statfs interface (statfs(2), linux/magic.h): the
// numeric filesystem-type code that each named driver reports.  Many more
// codes exist than are mapped here; an unmapped code is a normal outcome,
// and the table is expected to gain entries over time.
pub const AAFS_MAGIC: i64 = 0x5a3c_69f0;

pub const AUTOFS_SUPER_MAGIC: i64 = 0x0187;

pub const BINFMTFS_MAGIC: i64 = 0x4249_4e4d;

pub const CGROUP_SUPER_MAGIC: i64 = 0x0027_e0eb;

pub const CGROUP2_SUPER_MAGIC: i64 = 0x6367_7270;

pub const DEVFS_SUPER_MAGIC: i64 = 0x1373;

pub const DEVPTS_SUPER_MAGIC: i64 = 0x1cd1;

pub const FUSE_SUPER_MAGIC: i64 = 0x6573_5546;

pub const MQUEUE_MAGIC: i64 = 0x1980_0202;

pub const MSDOS_SUPER_MAGIC: i64 = 0x4d44;

pub const NFS_SUPER_MAGIC: i64 = 0x6969;

pub const NSFS_MAGIC: i64 = 0x6e73_6673;

pub const PROC_SUPER_MAGIC: i64 = 0x9fa0;

pub const TMPFS_MAGIC: i64 = 0x0102_1994;

pub const UFS_MAGIC: i64 = 0x0001_1954;

pub const ZFS_SUPER_MAGIC: i64 = 0x2fc1_2fc1;

/// The static magic-number table: the name mapped to a numeric
/// filesystem-type code, or `None` where no mapping exists yet.
///
/// A known coarse-graining: ext2, ext3 and ext4 all report the one shared
/// code `0xef53` upstream, which the magic number alone cannot tell apart,
/// so that code is deliberately left unmapped rather than guessed at.
pub open spec fn linux_table(code: i64) -> Option<FileSystemName> {
    if code == AAFS_MAGIC {
        Some(FileSystemName::AppArmorFs)
    } else if code == AUTOFS_SUPER_MAGIC {
        Some(FileSystemName::Autofs)
    } else if code == BINFMTFS_MAGIC {
        Some(FileSystemName::Binfmtfs)
    } else if code == CGROUP_SUPER_MAGIC {
        Some(FileSystemName::Cgroup)
    } else if code == CGROUP2_SUPER_MAGIC {
        Some(FileSystemName::Cgroup2)
    } else if code == DEVFS_SUPER_MAGIC {
        Some(FileSystemName::Devfs)
    } else if code == DEVPTS_SUPER_MAGIC {
        Some(FileSystemName::Devpts)
    } else if code == FUSE_SUPER_MAGIC {
        Some(FileSystemName::Fusefs)
    } else if code == MQUEUE_MAGIC {
        Some(FileSystemName::Mqueuefs)
    } else if code == MSDOS_SUPER_MAGIC {
        Some(FileSystemName::Fat)
    } else if code == NFS_SUPER_MAGIC {
        Some(FileSystemName::Nfs)
    } else if code == NSFS_MAGIC {
        Some(FileSystemName::Nsfs)
    } else if code == PROC_SUPER_MAGIC {
        Some(FileSystemName::Procfs)
    } else if code == TMPFS_MAGIC {
        Some(FileSystemName::Tmpfs)
    } else if code == UFS_MAGIC {
        Some(FileSystemName::Ufs)
    } else if code == ZFS_SUPER_MAGIC {
        Some(FileSystemName::Zfs)
    } else {
        None
    }
}

/// The numeric codes the table maps, in the order the table states them.
pub open spec fn linux_table_keys() -> Seq<i64> {
    seq![
        AAFS_MAGIC,
        AUTOFS_SUPER_MAGIC,
        BINFMTFS_MAGIC,
        CGROUP_SUPER_MAGIC,
        CGROUP2_SUPER_MAGIC,
        DEVFS_SUPER_MAGIC,
        DEVPTS_SUPER_MAGIC,
        FUSE_SUPER_MAGIC,
        MQUEUE_MAGIC,
        MSDOS_SUPER_MAGIC,
        NFS_SUPER_MAGIC,
        NSFS_MAGIC,
        PROC_SUPER_MAGIC,
        TMPFS_MAGIC,
        UFS_MAGIC,
        ZFS_SUPER_MAGIC,
    ]
}

/// Law: the table's keys are pairwise distinct: no magic number stands in
/// the table twice, so no code could reach two different names.
pub proof fn lemma_linux_keys_distinct()
    ensures
        forall|i: int, j: int|
            0 <= i < j < linux_table_keys().len() ==> linux_table_keys()[i]
                != linux_table_keys()[j],
{
}

/// Law: the listed keys are exactly the codes the table recognizes.
pub proof fn lemma_linux_table_domain(code: i64)
    ensures
        linux_table(code) is Some <==> linux_table_keys().contains(code),
{
    if linux_table(code) is Some {
        assert(linux_table_keys().contains(code)) by {
            if code == AAFS_MAGIC {
                assert(linux_table_keys()[0] == code);
            } else if code == AUTOFS_SUPER_MAGIC {
                assert(linux_table_keys()[1] == code);
            } else if code == BINFMTFS_MAGIC {
                assert(linux_table_keys()[2] == code);
            } else if code == CGROUP_SUPER_MAGIC {
                assert(linux_table_keys()[3] == code);
            } else if code == CGROUP2_SUPER_MAGIC {
                assert(linux_table_keys()[4] == code);
            } else if code == DEVFS_SUPER_MAGIC {
                assert(linux_table_keys()[5] == code);
            } else if code == DEVPTS_SUPER_MAGIC {
                assert(linux_table_keys()[6] == code);
            } else if code == FUSE_SUPER_MAGIC {
                assert(linux_table_keys()[7] == code);
            } else if code == MQUEUE_MAGIC {
                assert(linux_table_keys()[8] == code);
            } else if code == MSDOS_SUPER_MAGIC {
                assert(linux_table_keys()[9] == code);
            } else if code == NFS_SUPER_MAGIC {
                assert(linux_table_keys()[10] == code);
            } else if code == NSFS_MAGIC {
                assert(linux_table_keys()[11] == code);
            } else if code == PROC_SUPER_MAGIC {
                assert(linux_table_keys()[12] == code);
            } else if code == TMPFS_MAGIC {
                assert(linux_table_keys()[13] == code);
            } else if code == UFS_MAGIC {
                assert(linux_table_keys()[14] == code);
            } else {
                assert(linux_table_keys()[15] == code);
            }
        }
    }
}

/// The model of one resolution on the magic-number platform: the reported
/// code resolves to its mapped name, or to the unrecognized bucket carrying
/// the hexadecimal rendering of the code's native bit pattern.
pub open spec fn linux_resolution(code: i64) -> FileSystemKindView {
    match linux_table(code) {
        Some(n) => FileSystemKindView::Recognized(n),
        None => FileSystemKindView::Unrecognized(hex_chars(code as u64)),
    }
}

/// Law: resolution is a function of the reported code alone: two queries of
/// an unchanged filesystem report the same code and classify the same way.
pub proof fn lemma_linux_resolution_deterministic(c1: i64, c2: i64)
    requires
        c1 == c2,
    ensures
        linux_resolution(c1) == linux_resolution(c2),
{
}

/// Law: an unrecognized code is carried losslessly: re-encoding the carried
/// characters and reading the digits back in base sixteen yields the code's
/// bit pattern.
pub proof fn lemma_linux_unrecognized_round_trip(code: i64, s: Seq<char>)
    requires
        linux_resolution(code) == FileSystemKindView::Unrecognized(s),
    ensures
        hex_val(encode_utf8(s)) == code as u64,
{
    lemma_hex_round_trip(code as u64);
}

fn lookup_magic(code: i64) -> (r: Option<FileSystemName>)
    ensures
        r == linux_table(code),
{
    if code == AAFS_MAGIC {
        Some(FileSystemName::AppArmorFs)
    } else if code == AUTOFS_SUPER_MAGIC {
        Some(FileSystemName::Autofs)
    } else if code == BINFMTFS_MAGIC {
        Some(FileSystemName::Binfmtfs)
    } else if code == CGROUP_SUPER_MAGIC {
        Some(FileSystemName::Cgroup)
    } else if code == CGROUP2_SUPER_MAGIC {
        Some(FileSystemName::Cgroup2)
    } else if code == DEVFS_SUPER_MAGIC {
        Some(FileSystemName::Devfs)
    } else if code == DEVPTS_SUPER_MAGIC {
        Some(FileSystemName::Devpts)
    } else if code == FUSE_SUPER_MAGIC {
        Some(FileSystemName::Fusefs)
    } else if code == MQUEUE_MAGIC {
        Some(FileSystemName::Mqueuefs)
    } else if code == MSDOS_SUPER_MAGIC {
        Some(FileSystemName::Fat)
    } else if code == NFS_SUPER_MAGIC {
        Some(FileSystemName::Nfs)
    } else if code == NSFS_MAGIC {
        Some(FileSystemName::Nsfs)
    } else if code == PROC_SUPER_MAGIC {
        Some(FileSystemName::Procfs)
    } else if code == TMPFS_MAGIC {
        Some(FileSystemName::Tmpfs)
    } else if code == UFS_MAGIC {
        Some(FileSystemName::Ufs)
    } else if code == ZFS_SUPER_MAGIC {
        Some(FileSystemName::Zfs)
    } else {
        None
    }
}

/// Resolves a numeric filesystem-type code as the magic-number platform
/// reports it.  Total by design: a code with no table entry is a normal
/// outcome, reported verbatim as its hexadecimal rendering, never an error
/// and never a guess.
pub fn filesystem_from_magic(f_type: i64) -> (r: FileSystemKind)
    ensures
        r@ == linux_resolution(f_type),
{
    match lookup_magic(f_type) {
        Some(n) => FileSystemKind::Recognized(n),
        None => FileSystemKind::Unrecognized(hex_render(#[verifier::truncate] (f_type as u64))),
    }
}

} // verus!
