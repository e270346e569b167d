use vstd::prelude::*;
use crate::kind::FileSystemKind;
use crate::kind::FileSystemKindView;
use crate::kind::FileSystemName;
use crate::kind::resolves_to;
use crate::text::ascii_units;
use crate::text::string_from_utf16;
use crate::text::str_eq;
use crate::text::utf16_decoded;
use crate::text::wide_chars;

verus! {

/// The identifier held in a raw wide-character buffer: the code units
/// before the first null entry.  `None` when no terminator exists, which
/// on a successful query would violate the platform's own contract.
pub open spec fn wide_identifier_of(units: Seq<u16>) -> Option<Seq<u16>> {
    match units.index_of_first(0u16) {
        Some(i) => Some(units.take(i)),
        None => None,
    }
}

/// The static name table of the wide-string platform: short uppercase
/// names mapped to canonical names.  The set of names the platform can
/// report is not exhaustively documented upstream, so the table is
/// inherently open-ended and expected to gain entries over time.
pub open spec fn windows_table(id: Seq<char>) -> Option<FileSystemName> {
    if id == "BTRFS"@ {
        Some(FileSystemName::Btrfs)
    } else if id == "CDFS"@ {
        Some(FileSystemName::Cdfs)
    } else if id == "EXT2"@ {
        Some(FileSystemName::Ext2)
    } else if id == "EXT3"@ {
        Some(FileSystemName::Ext3)
    } else if id == "EXT4"@ {
        Some(FileSystemName::Ext4)
    } else if id == "FAT"@ {
        Some(FileSystemName::Fat)
    } else if id == "FAT32"@ {
        Some(FileSystemName::Fat32)
    } else if id == "FATX"@ {
        Some(FileSystemName::Fatx)
    } else if id == "NTFS"@ {
        Some(FileSystemName::Ntfs)
    } else {
        None
    }
}

/// The model of one resolution on the wide-string platform: the buffer is
/// cut at the first null code unit, decoded from UTF-16, and looked up; a
/// missing terminator or an invalid encoding is a violation of the
/// platform's contract (`None`), not a classification.
pub open spec fn windows_resolution(units: Seq<u16>) -> Option<FileSystemKindView> {
    match wide_identifier_of(units) {
        Some(id) => match utf16_decoded(id) {
            Some(chars) => Some(
                match windows_table(chars) {
                    Some(n) => FileSystemKindView::Recognized(n),
                    None => FileSystemKindView::Unrecognized(chars),
                },
            ),
            None => None,
        },
        None => None,
    }
}

/// The outcome for an identifier made of ASCII code units, stated without
/// reference to the UTF-16 decoder: such units each stand for the
/// same-valued character.
pub open spec fn ascii_wide_outcome(id: Seq<u16>) -> FileSystemKindView {
    match windows_table(wide_chars(id)) {
        Some(n) => FileSystemKindView::Recognized(n),
        None => FileSystemKindView::Unrecognized(wide_chars(id)),
    }
}

/// The names the table maps, in the order the table states them.
pub open spec fn windows_table_keys() -> Seq<Seq<char>> {
    seq![
        "BTRFS"@,
        "CDFS"@,
        "EXT2"@,
        "EXT3"@,
        "EXT4"@,
        "FAT"@,
        "FAT32"@,
        "FATX"@,
        "NTFS"@,
    ]
}

proof fn lemma_windows_key_literals()
    ensures
        "BTRFS"@.len() == 5 && "BTRFS"@[0] == 'B',
        "CDFS"@.len() == 4 && "CDFS"@[0] == 'C',
        "EXT2"@.len() == 4 && "EXT2"@[0] == 'E' && "EXT2"@[3] == '2',
        "EXT3"@.len() == 4 && "EXT3"@[0] == 'E' && "EXT3"@[3] == '3',
        "EXT4"@.len() == 4 && "EXT4"@[0] == 'E' && "EXT4"@[3] == '4',
        "FAT"@.len() == 3 && "FAT"@[0] == 'F',
        "FAT32"@.len() == 5 && "FAT32"@[0] == 'F' && "FAT32"@[3] == '3',
        "FATX"@.len() == 4 && "FATX"@[0] == 'F',
        "NTFS"@.len() == 4 && "NTFS"@[0] == 'N',
{
    reveal_strlit("BTRFS");
    reveal_strlit("CDFS");
    reveal_strlit("EXT2");
    reveal_strlit("EXT3");
    reveal_strlit("EXT4");
    reveal_strlit("FAT");
    reveal_strlit("FAT32");
    reveal_strlit("FATX");
    reveal_strlit("NTFS");
}

/// Law: the table's keys are pairwise distinct: no name stands in the
/// table twice, so no name could reach two different canonical names.
pub proof fn lemma_windows_keys_distinct()
    ensures
        forall|i: int, j: int|
            0 <= i < j < windows_table_keys().len() ==> windows_table_keys()[i]
                != windows_table_keys()[j],
{
    lemma_windows_key_literals();
}

/// Law: the listed keys are exactly the names the table recognizes.
pub proof fn lemma_windows_table_domain(id: Seq<char>)
    ensures
        windows_table(id) is Some <==> windows_table_keys().contains(id),
{
    lemma_windows_key_literals();
    if windows_table(id) is Some {
        assert(windows_table_keys().contains(id)) by {
            if id == "BTRFS"@ {
                assert(windows_table_keys()[0] == id);
            } else if id == "CDFS"@ {
                assert(windows_table_keys()[1] == id);
            } else if id == "EXT2"@ {
                assert(windows_table_keys()[2] == id);
            } else if id == "EXT3"@ {
                assert(windows_table_keys()[3] == id);
            } else if id == "EXT4"@ {
                assert(windows_table_keys()[4] == id);
            } else if id == "FAT"@ {
                assert(windows_table_keys()[5] == id);
            } else if id == "FAT32"@ {
                assert(windows_table_keys()[6] == id);
            } else if id == "FATX"@ {
                assert(windows_table_keys()[7] == id);
            } else {
                assert(windows_table_keys()[8] == id);
            }
        }
    }
}

/// Law: the name table is a well-formed function: one name never maps to
/// two different canonical names.
pub proof fn lemma_windows_table_functional(
    id: Seq<char>,
    n1: FileSystemName,
    n2: FileSystemName,
)
    requires
        windows_table(id) == Some(n1),
        windows_table(id) == Some(n2),
    ensures
        n1 == n2,
{
}

/// Law: resolution is a function of the raw buffer alone: two queries of an
/// unchanged volume report the same code units and classify the same way.
pub proof fn lemma_windows_resolution_deterministic(u1: Seq<u16>, u2: Seq<u16>)
    requires
        u1 == u2,
    ensures
        windows_resolution(u1) == windows_resolution(u2),
{
}

fn find_wide_nul(units: &[u16]) -> (r: Option<usize>)
    ensures
        r matches Some(i) ==> i < units@.len() && units@.index_of_first(0u16) == Some(i as int),
        r is None ==> units@.index_of_first(0u16) is None,
{
    let mut i: usize = 0;
    while i < units.len()
        invariant
            0 <= i <= units@.len(),
            forall|j: int| 0 <= j < i ==> units@[j] != 0,
        decreases units@.len() - i,
    {
        if units[i] == 0 {
            proof {
                units@.index_of_first_ensures(0u16);
                assert(units@.contains(0u16)) by {
                    assert(units@[i as int] == 0u16);
                }
            }
            return Some(i);
        }
        i += 1;
    }
    proof {
        units@.index_of_first_ensures(0u16);
        match units@.index_of_first(0u16) {
            Some(idx) => {
                assert(units@[idx] != 0);
            },
            None => {},
        }
    }
    None
}

fn lookup_wide_name(name: &str) -> (r: Option<FileSystemName>)
    ensures
        r == windows_table(name@),
{
    if str_eq(name, "BTRFS") {
        Some(FileSystemName::Btrfs)
    } else if str_eq(name, "CDFS") {
        Some(FileSystemName::Cdfs)
    } else if str_eq(name, "EXT2") {
        Some(FileSystemName::Ext2)
    } else if str_eq(name, "EXT3") {
        Some(FileSystemName::Ext3)
    } else if str_eq(name, "EXT4") {
        Some(FileSystemName::Ext4)
    } else if str_eq(name, "FAT") {
        Some(FileSystemName::Fat)
    } else if str_eq(name, "FAT32") {
        Some(FileSystemName::Fat32)
    } else if str_eq(name, "FATX") {
        Some(FileSystemName::Fatx)
    } else if str_eq(name, "NTFS") {
        Some(FileSystemName::Ntfs)
    } else {
        None
    }
}

/// Resolves the raw filesystem-name buffer of a successful volume-
/// information query on the wide-string platform.  `None` reports a
/// response that violates the platform's contract (no null terminator, or
/// an invalid UTF-16 encoding); the caller treats that as fatal rather
/// than guessing.  For an identifier of ASCII code units the outcome is
/// additionally pinned down unit by unit.
pub fn filesystem_from_wide_name(units: &[u16]) -> (r: Option<FileSystemKind>)
    ensures
        resolves_to(r, windows_resolution(units@)),
        wide_identifier_of(units@) matches Some(id) ==> (ascii_units(id) ==> resolves_to(
            r,
            Some(ascii_wide_outcome(id)),
        )),
{
    let i: usize = match find_wide_nul(units) {
        Some(i) => i,
        None => {
            return None;
        },
    };
    let prefix: &[u16] = &units[0..i];
    proof {
        assert(prefix@ =~= wide_identifier_of(units@).unwrap());
    }
    let s = match string_from_utf16(prefix) {
        Some(s) => s,
        None => {
            return None;
        },
    };
    match lookup_wide_name(s.as_str()) {
        Some(n) => Some(FileSystemKind::Recognized(n)),
        None => Some(FileSystemKind::Unrecognized(s)),
    }
}

} // verus!
