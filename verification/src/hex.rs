use vstd::prelude::*;
use vstd::arithmetic::div_mod::lemma_fundamental_div_mod;
use vstd::utf8::decode_utf8;
use vstd::utf8::decode_utf8_encode_utf8;
use vstd::utf8::encode_utf8;
use crate::text::lemma_ascii_bytes_valid_utf8;
use crate::text::string_from_utf8;

verus! {

/// The ASCII byte of one uppercase hexadecimal digit.
pub open spec fn hex_digit_byte(d: nat) -> u8
    recommends
        d < 16,
{
    if d < 10 {
        (0x30 + d) as u8
    } else {
        (0x37 + d) as u8
    }
}

/// The uppercase hexadecimal digits of `v`, most significant first, with no
/// leading zeros (zero itself renders as the single digit `0`).
pub open spec fn hex_digit_bytes(v: nat) -> Seq<u8>
    decreases v,
{
    if v < 16 {
        seq![hex_digit_byte(v)]
    } else {
        hex_digit_bytes(v / 16).push(hex_digit_byte(v % 16))
    }
}

/// The byte rendering of a numeric filesystem-type code: `0x` followed by
/// the uppercase hexadecimal digits of the code's native bit pattern.
pub open spec fn hex_bytes(v: u64) -> Seq<u8> {
    seq![0x30u8, 0x78u8] + hex_digit_bytes(v as nat)
}

/// The characters of that rendering (every byte of it is ASCII).
pub open spec fn hex_chars(v: u64) -> Seq<char> {
    decode_utf8(hex_bytes(v))
}

/// The value an uppercase hexadecimal digit byte denotes.
pub open spec fn hex_digit_val(b: u8) -> nat
    recommends
        0x30 <= b <= 0x39 || 0x41 <= b <= 0x46,
{
    if 0x30 <= b <= 0x39 {
        (b - 0x30) as nat
    } else {
        (b - 0x37) as nat
    }
}

/// The value a sequence of uppercase hexadecimal digit bytes denotes,
/// most significant digit first.
pub open spec fn hex_seq_val(s: Seq<u8>) -> nat
    decreases s.len(),
{
    if s.len() == 0 {
        0
    } else {
        hex_seq_val(s.drop_last()) * 16 + hex_digit_val(s.last())
    }
}

/// The value a full `0x…` rendering denotes: its digits read back in
/// base sixteen.
pub open spec fn hex_val(s: Seq<u8>) -> nat {
    hex_seq_val(s.skip(2))
}

proof fn lemma_hex_digit_bytes_range(v: nat)
    ensures
        forall|i: int|
            0 <= i < hex_digit_bytes(v).len() ==> 0x30 <= #[trigger] hex_digit_bytes(v)[i] <= 0x46,
    decreases v,
{
    if v < 16 {
        assert(hex_digit_bytes(v) =~= seq![hex_digit_byte(v)]);
        assert(hex_digit_bytes(v)[0] == hex_digit_byte(v));
        assert(0x30 <= hex_digit_byte(v) <= 0x46);
    } else {
        lemma_hex_digit_bytes_range(v / 16);
        let pre = hex_digit_bytes(v / 16);
        let whole = hex_digit_bytes(v);
        assert(whole =~= pre.push(hex_digit_byte(v % 16)));
        assert(0x30 <= hex_digit_byte(v % 16) <= 0x46);
        assert forall|i: int| 0 <= i < whole.len() implies 0x30 <= #[trigger] whole[i] <= 0x46 by {
            if i < pre.len() {
                assert(whole[i] == pre[i]);
            } else {
                assert(whole[i] == hex_digit_byte(v % 16));
            }
        }
    }
}

proof fn lemma_hex_digit_bytes_val(v: nat)
    ensures
        hex_seq_val(hex_digit_bytes(v)) == v,
    decreases v,
{
    if v < 16 {
        assert(hex_digit_bytes(v) =~= seq![hex_digit_byte(v)]);
        assert(hex_digit_bytes(v).last() == hex_digit_byte(v));
        assert(hex_digit_bytes(v).drop_last() =~= Seq::<u8>::empty());
        assert(hex_seq_val(Seq::<u8>::empty()) == 0);
        assert(hex_digit_val(hex_digit_byte(v)) == v);
    } else {
        let pre = hex_digit_bytes(v / 16);
        let whole = hex_digit_bytes(v);
        lemma_hex_digit_bytes_val(v / 16);
        assert(whole =~= pre.push(hex_digit_byte(v % 16)));
        assert(whole.drop_last() =~= pre);
        assert(whole.last() == hex_digit_byte(v % 16));
        assert(hex_digit_val(hex_digit_byte(v % 16)) == v % 16);
        assert(hex_seq_val(whole) == hex_seq_val(pre) * 16 + v % 16);
        lemma_fundamental_div_mod(v as int, 16);
    }
}

proof fn lemma_hex_bytes_ascii(v: u64)
    ensures
        forall|i: int| 0 <= i < hex_bytes(v).len() ==> #[trigger] hex_bytes(v)[i] < 0x80,
{
    lemma_hex_digit_bytes_range(v as nat);
}

/// Law: the hexadecimal rendering of a numeric code is lossless.
/// Re-encoding the characters carried for an unrecognized numeric code and
/// reading the digits back in base sixteen yields the original code.
pub proof fn lemma_hex_round_trip(v: u64)
    ensures
        hex_val(encode_utf8(hex_chars(v))) == v,
{
    lemma_hex_bytes_ascii(v);
    lemma_ascii_bytes_valid_utf8(hex_bytes(v));
    decode_utf8_encode_utf8(hex_bytes(v));
    assert(hex_bytes(v).skip(2) =~= hex_digit_bytes(v as nat));
    lemma_hex_digit_bytes_val(v as nat);
}

fn push_hex_digits(v: u64, out: &mut Vec<u8>)
    ensures
        final(out)@ == old(out)@ + hex_digit_bytes(v as nat),
    decreases v,
{
    if v >= 16 {
        push_hex_digits(v / 16, out);
    }
    let d: u64 = v % 16;
    let b: u8 = if d < 10 {
        0x30 + (d as u8)
    } else {
        0x37 + (d as u8)
    };
    out.push(b);
    proof {
        assert(out@ =~= old(out)@ + hex_digit_bytes(v as nat));
    }
}

/// Renders `v` as `0x` followed by its uppercase hexadecimal digits, with
/// no leading zeros: the exact, lossless form carried for an unrecognized
/// numeric filesystem-type code.
pub fn hex_render(v: u64) -> (s: String)
    ensures
        s@ == hex_chars(v),
{
    let mut out: Vec<u8> = Vec::new();
    out.push(0x30);
    out.push(0x78);
    push_hex_digits(v, &mut out);
    proof {
        assert(out@ =~= hex_bytes(v));
        lemma_hex_bytes_ascii(v);
        lemma_ascii_bytes_valid_utf8(out@);
    }
    string_from_utf8(out).unwrap()
}

} // verus!
