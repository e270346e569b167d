use vstd::prelude::*;
use vstd::utf8::decode_utf8;
use vstd::utf8::decode_utf8_encode_utf8;
use vstd::utf8::encode_utf8;
use vstd::utf8::valid_utf8;
use crate::kind::FileSystemKind;
use crate::kind::FileSystemKindView;
use crate::kind::FileSystemName;
use crate::kind::resolves_to;
use crate::text::string_from_utf8;
use crate::text::str_eq;

verus! {

/// The unsigned value of one raw buffer byte.  The platform models the
/// buffer's bytes as signed; a high-bit byte must read as 128..=255, never
/// as a negative or sign-extended value.
pub open spec fn unsign(b: i8) -> u8 {
    if b >= 0 {
        b as u8
    } else {
        (b + 256) as u8
    }
}

/// A raw name buffer read byte for byte as unsigned values.
pub open spec fn unsigned_of(buf: Seq<i8>) -> Seq<u8> {
    Seq::new(buf.len(), |i: int| unsign(buf[i]))
}

/// The identifier held in a raw name buffer: the bytes before the first
/// null terminator.  `None` when no terminator exists, which on a
/// successful query would violate the platform's own contract.
pub open spec fn identifier_of(bytes: Seq<u8>) -> Option<Seq<u8>> {
    match bytes.index_of_first(0u8) {
        Some(i) => Some(bytes.take(i)),
        None => None,
    }
}

/// The static name table of the string-identifier platform: short
/// lowercase identifiers mapped to canonical names.  Identifiers with no
/// entry yet are a normal, expected outcome.
pub open spec fn freebsd_table(id: Seq<char>) -> Option<FileSystemName> {
    if id == "autofs"@ {
        Some(FileSystemName::Autofs)
    } else if id == "devfs"@ {
        Some(FileSystemName::Devfs)
    } else if id == "ext2fs"@ {
        Some(FileSystemName::Ext2)
    } else if id == "ext3fs"@ {
        Some(FileSystemName::Ext3)
    } else if id == "ext4fs"@ {
        Some(FileSystemName::Ext4)
    } else if id == "fdescfs"@ {
        Some(FileSystemName::Fdescfs)
    } else if id == "fusefs"@ {
        Some(FileSystemName::Fusefs)
    } else if id == "linprocfs"@ {
        Some(FileSystemName::Linprocfs)
    } else if id == "linsysfs"@ {
        Some(FileSystemName::Linsysfs)
    } else if id == "mqueuefs"@ {
        Some(FileSystemName::Mqueuefs)
    } else if id == "msdosfs"@ {
        Some(FileSystemName::Fat)
    } else if id == "nfs"@ {
        Some(FileSystemName::Nfs)
    } else if id == "nullfs"@ {
        Some(FileSystemName::Nullfs)
    } else if id == "procfs"@ {
        Some(FileSystemName::Procfs)
    } else if id == "tmpfs"@ {
        Some(FileSystemName::Tmpfs)
    } else if id == "ufs"@ {
        Some(FileSystemName::Ufs)
    } else if id == "zfs"@ {
        Some(FileSystemName::Zfs)
    } else {
        None
    }
}

/// The model of one resolution on the string-identifier platform: the raw
/// buffer is read unsigned, cut at the first null terminator, validated as
/// UTF-8, and looked up; a missing terminator or invalid text is a
/// violation of the platform's contract (`None`), not a classification.
pub open spec fn freebsd_resolution(buf: Seq<i8>) -> Option<FileSystemKindView> {
    let bytes = unsigned_of(buf);
    match identifier_of(bytes) {
        Some(id) => if valid_utf8(id) {
            Some(
                match freebsd_table(decode_utf8(id)) {
                    Some(n) => FileSystemKindView::Recognized(n),
                    None => FileSystemKindView::Unrecognized(decode_utf8(id)),
                },
            )
        } else {
            None
        },
        None => None,
    }
}

/// The identifiers the table maps, in the order the table states them.
pub open spec fn freebsd_table_keys() -> Seq<Seq<char>> {
    seq![
        "autofs"@,
        "devfs"@,
        "ext2fs"@,
        "ext3fs"@,
        "ext4fs"@,
        "fdescfs"@,
        "fusefs"@,
        "linprocfs"@,
        "linsysfs"@,
        "mqueuefs"@,
        "msdosfs"@,
        "nfs"@,
        "nullfs"@,
        "procfs"@,
        "tmpfs"@,
        "ufs"@,
        "zfs"@,
    ]
}

proof fn lemma_freebsd_key_literals()
    ensures
        "autofs"@.len() == 6 && "autofs"@[0] == 'a',
        "devfs"@.len() == 5 && "devfs"@[0] == 'd',
        "ext2fs"@.len() == 6 && "ext2fs"@[0] == 'e' && "ext2fs"@[3] == '2',
        "ext3fs"@.len() == 6 && "ext3fs"@[0] == 'e' && "ext3fs"@[3] == '3',
        "ext4fs"@.len() == 6 && "ext4fs"@[0] == 'e' && "ext4fs"@[3] == '4',
        "fdescfs"@.len() == 7 && "fdescfs"@[0] == 'f',
        "fusefs"@.len() == 6 && "fusefs"@[0] == 'f',
        "linprocfs"@.len() == 9 && "linprocfs"@[0] == 'l',
        "linsysfs"@.len() == 8 && "linsysfs"@[0] == 'l',
        "mqueuefs"@.len() == 8 && "mqueuefs"@[0] == 'm',
        "msdosfs"@.len() == 7 && "msdosfs"@[0] == 'm',
        "nfs"@.len() == 3 && "nfs"@[0] == 'n',
        "nullfs"@.len() == 6 && "nullfs"@[0] == 'n',
        "procfs"@.len() == 6 && "procfs"@[0] == 'p',
        "tmpfs"@.len() == 5 && "tmpfs"@[0] == 't',
        "ufs"@.len() == 3 && "ufs"@[0] == 'u',
        "zfs"@.len() == 3 && "zfs"@[0] == 'z',
{
    reveal_strlit("autofs");
    reveal_strlit("devfs");
    reveal_strlit("ext2fs");
    reveal_strlit("ext3fs");
    reveal_strlit("ext4fs");
    reveal_strlit("fdescfs");
    reveal_strlit("fusefs");
    reveal_strlit("linprocfs");
    reveal_strlit("linsysfs");
    reveal_strlit("mqueuefs");
    reveal_strlit("msdosfs");
    reveal_strlit("nfs");
    reveal_strlit("nullfs");
    reveal_strlit("procfs");
    reveal_strlit("tmpfs");
    reveal_strlit("ufs");
    reveal_strlit("zfs");
}

/// Law: the table's keys are pairwise distinct: no identifier stands in
/// the table twice, so no identifier could reach two different names.
pub proof fn lemma_freebsd_keys_distinct()
    ensures
        forall|i: int, j: int|
            0 <= i < j < freebsd_table_keys().len() ==> freebsd_table_keys()[i]
                != freebsd_table_keys()[j],
{
    lemma_freebsd_key_literals();
}

/// Law: the listed keys are exactly the identifiers the table recognizes.
pub proof fn lemma_freebsd_table_domain(id: Seq<char>)
    ensures
        freebsd_table(id) is Some <==> freebsd_table_keys().contains(id),
{
    lemma_freebsd_key_literals();
    if freebsd_table(id) is Some {
        assert(freebsd_table_keys().contains(id)) by {
            if id == "autofs"@ {
                assert(freebsd_table_keys()[0] == id);
            } else if id == "devfs"@ {
                assert(freebsd_table_keys()[1] == id);
            } else if id == "ext2fs"@ {
                assert(freebsd_table_keys()[2] == id);
            } else if id == "ext3fs"@ {
                assert(freebsd_table_keys()[3] == id);
            } else if id == "ext4fs"@ {
                assert(freebsd_table_keys()[4] == id);
            } else if id == "fdescfs"@ {
                assert(freebsd_table_keys()[5] == id);
            } else if id == "fusefs"@ {
                assert(freebsd_table_keys()[6] == id);
            } else if id == "linprocfs"@ {
                assert(freebsd_table_keys()[7] == id);
            } else if id == "linsysfs"@ {
                assert(freebsd_table_keys()[8] == id);
            } else if id == "mqueuefs"@ {
                assert(freebsd_table_keys()[9] == id);
            } else if id == "msdosfs"@ {
                assert(freebsd_table_keys()[10] == id);
            } else if id == "nfs"@ {
                assert(freebsd_table_keys()[11] == id);
            } else if id == "nullfs"@ {
                assert(freebsd_table_keys()[12] == id);
            } else if id == "procfs"@ {
                assert(freebsd_table_keys()[13] == id);
            } else if id == "tmpfs"@ {
                assert(freebsd_table_keys()[14] == id);
            } else if id == "ufs"@ {
                assert(freebsd_table_keys()[15] == id);
            } else {
                assert(freebsd_table_keys()[16] == id);
            }
        }
    }
}

/// Law: the name table is a well-formed function: one identifier never
/// maps to two different names.
pub proof fn lemma_freebsd_table_functional(
    id: Seq<char>,
    n1: FileSystemName,
    n2: FileSystemName,
)
    requires
        freebsd_table(id) == Some(n1),
        freebsd_table(id) == Some(n2),
    ensures
        n1 == n2,
{
}

/// Law: resolution is a function of the raw buffer alone: two queries of an
/// unchanged filesystem report the same buffer and classify the same way.
pub proof fn lemma_freebsd_resolution_deterministic(b1: Seq<i8>, b2: Seq<i8>)
    requires
        b1 == b2,
    ensures
        freebsd_resolution(b1) == freebsd_resolution(b2),
{
}

/// Law: an unrecognized identifier is carried byte-identically: re-encoding
/// the carried characters yields exactly the identifier bytes that stood in
/// the buffer before the terminator.
pub proof fn lemma_freebsd_unrecognized_round_trip(buf: Seq<i8>, s: Seq<char>)
    requires
        freebsd_resolution(buf) == Some(FileSystemKindView::Unrecognized(s)),
    ensures
        identifier_of(unsigned_of(buf)) matches Some(id) && encode_utf8(s) == id,
{
    let id = identifier_of(unsigned_of(buf)).unwrap();
    decode_utf8_encode_utf8(id);
}

/// Reads a raw buffer of platform-signed bytes as unsigned values, byte
/// for byte: `0xff` stays 255 and never becomes a negative intermediate.
pub fn unsigned_bytes(buf: &[i8]) -> (r: Vec<u8>)
    ensures
        r@ == unsigned_of(buf@),
{
    let mut out: Vec<u8> = Vec::new();
    let mut i: usize = 0;
    while i < buf.len()
        invariant
            0 <= i <= buf@.len(),
            out@.len() == i,
            forall|j: int| 0 <= j < i ==> out@[j] == unsign(buf@[j]),
        decreases buf@.len() - i,
    {
        let b: i8 = buf[i];
        let u: u8 = if b >= 0 {
            b as u8
        } else {
            ((b as i16) + 256) as u8
        };
        out.push(u);
        i += 1;
    }
    proof {
        assert(out@ =~= unsigned_of(buf@));
    }
    out
}

fn find_nul(bytes: &Vec<u8>) -> (r: Option<usize>)
    ensures
        r matches Some(i) ==> i < bytes@.len() && bytes@.index_of_first(0u8) == Some(i as int),
        r is None ==> bytes@.index_of_first(0u8) is None,
{
    let mut i: usize = 0;
    while i < bytes.len()
        invariant
            0 <= i <= bytes@.len(),
            forall|j: int| 0 <= j < i ==> bytes@[j] != 0,
        decreases bytes@.len() - i,
    {
        if bytes[i] == 0 {
            proof {
                bytes@.index_of_first_ensures(0u8);
                assert(bytes@.contains(0u8)) by {
                    assert(bytes@[i as int] == 0u8);
                }
            }
            return Some(i);
        }
        i += 1;
    }
    proof {
        bytes@.index_of_first_ensures(0u8);
        match bytes@.index_of_first(0u8) {
            Some(idx) => {
                assert(bytes@[idx] != 0);
            },
            None => {},
        }
    }
    None
}

fn lookup_type_name(name: &str) -> (r: Option<FileSystemName>)
    ensures
        r == freebsd_table(name@),
{
    if str_eq(name, "autofs") {
        Some(FileSystemName::Autofs)
    } else if str_eq(name, "devfs") {
        Some(FileSystemName::Devfs)
    } else if str_eq(name, "ext2fs") {
        Some(FileSystemName::Ext2)
    } else if str_eq(name, "ext3fs") {
        Some(FileSystemName::Ext3)
    } else if str_eq(name, "ext4fs") {
        Some(FileSystemName::Ext4)
    } else if str_eq(name, "fdescfs") {
        Some(FileSystemName::Fdescfs)
    } else if str_eq(name, "fusefs") {
        Some(FileSystemName::Fusefs)
    } else if str_eq(name, "linprocfs") {
        Some(FileSystemName::Linprocfs)
    } else if str_eq(name, "linsysfs") {
        Some(FileSystemName::Linsysfs)
    } else if str_eq(name, "mqueuefs") {
        Some(FileSystemName::Mqueuefs)
    } else if str_eq(name, "msdosfs") {
        Some(FileSystemName::Fat)
    } else if str_eq(name, "nfs") {
        Some(FileSystemName::Nfs)
    } else if str_eq(name, "nullfs") {
        Some(FileSystemName::Nullfs)
    } else if str_eq(name, "procfs") {
        Some(FileSystemName::Procfs)
    } else if str_eq(name, "tmpfs") {
        Some(FileSystemName::Tmpfs)
    } else if str_eq(name, "ufs") {
        Some(FileSystemName::Ufs)
    } else if str_eq(name, "zfs") {
        Some(FileSystemName::Zfs)
    } else {
        None
    }
}

/// Resolves the raw `f_fstypename` buffer of a successful statistics query
/// on the string-identifier platform.  `None` reports a response that
/// violates the platform's contract (no null terminator, or text that is
/// not UTF-8); the caller treats that as fatal rather than guessing.
pub fn filesystem_from_type_name(buf: &[i8]) -> (r: Option<FileSystemKind>)
    ensures
        resolves_to(r, freebsd_resolution(buf@)),
{
    let mut bytes = unsigned_bytes(buf);
    let i: usize = match find_nul(&bytes) {
        Some(i) => i,
        None => {
            return None;
        },
    };
    bytes.truncate(i);
    proof {
        assert(bytes@ =~= identifier_of(unsigned_of(buf@)).unwrap());
    }
    let s = match string_from_utf8(bytes) {
        Some(s) => s,
        None => {
            return None;
        },
    };
    match lookup_type_name(s.as_str()) {
        Some(n) => Some(FileSystemKind::Recognized(n)),
        None => Some(FileSystemKind::Unrecognized(s)),
    }
}

} // verus!
