use vstd::prelude::*;
use vstd::utf8::decode_utf8;
use vstd::utf8::valid_utf8;

verus! {

/// True when every code unit is in the ASCII range.
pub open spec fn ascii_units(units: Seq<u16>) -> bool {
    forall|i: int| 0 <= i < units.len() ==> units[i] < 0x80
}

/// The characters that a sequence of ASCII-range code units stands for,
/// unit by unit.
pub open spec fn wide_chars(units: Seq<u16>) -> Seq<char> {
    Seq::new(units.len(), |i: int| (units[i] as u32) as char)
}

/// The characters encoded by a sequence of UTF-16 code units, or `None`
/// when the units are not valid UTF-16.  The decoding is a function of the
/// units alone.
pub uninterp spec fn utf16_decoded(units: Seq<u16>) -> Option<Seq<char>>;

/// Relies on `alloc::string::String::from_utf8`: it returns `Ok` exactly
/// when the bytes are a valid UTF-8 encoding, and the returned string holds
/// precisely the characters those bytes encode.
#[verifier::external_body]
pub fn string_from_utf8(bytes: Vec<u8>) -> (r: Option<String>)
    ensures
        r is Some <==> valid_utf8(bytes@),
        r matches Some(s) ==> s@ == decode_utf8(bytes@),
{
    String::from_utf8(bytes).ok()
}

/// Relies on `alloc::string::String::from_utf16`: it decodes UTF-16 code
/// units into the characters they encode and returns `Err` exactly on
/// invalid UTF-16; a unit in the ASCII range always decodes to the
/// same-valued character.
#[verifier::external_body]
pub fn string_from_utf16(units: &[u16]) -> (r: Option<String>)
    ensures
        r is Some <==> utf16_decoded(units@) is Some,
        r matches Some(s) ==> utf16_decoded(units@) == Some(s@),
        r is None ==> !ascii_units(units@),
        r matches Some(s) ==> (ascii_units(units@) ==> s@ == wide_chars(units@)),
{
    String::from_utf16(units).ok()
}

/// Bytes that all lie in the ASCII range form a valid UTF-8 encoding.
pub proof fn lemma_ascii_bytes_valid_utf8(bytes: Seq<u8>)
    requires
        forall|i: int| 0 <= i < bytes.len() ==> #[trigger] bytes[i] < 0x80,
    ensures
        valid_utf8(bytes),
    decreases bytes.len(),
{
    if bytes.len() != 0 {
        let b0 = bytes[0];
        assert(b0 & 0x7f <= 0x7f) by (bit_vector);
        assert(vstd::utf8::pop_first_scalar(bytes) =~= bytes.drop_first());
        lemma_ascii_bytes_valid_utf8(bytes.drop_first());
    }
}

/// Relies on `str`'s `PartialEq`: two string slices compare equal exactly
/// when they hold the same characters.
#[verifier::external_body]
pub fn str_eq(a: &str, b: &str) -> (r: bool)
    ensures
        r == (a@ == b@),
{
    a == b
}

} // verus!
