//! Byte-level encodings shared by the whole crate: little-endian integer
//! encodings, Bitcoin's compact-size integer ("varint"), and hexadecimal
//! text. The spec functions here are the mathematical reference that every
//! serialization contract is stated against.

use vstd::prelude::*;

verus! {

/// The two little-endian bytes of a 16-bit integer.
pub open spec fn u16_le(x: u16) -> Seq<u8> {
    seq![(x % 256) as u8, ((x / 256) % 256) as u8]
}

/// The four little-endian bytes of a 32-bit integer.
pub open spec fn u32_le(x: u32) -> Seq<u8> {
    seq![
        (x % 256) as u8,
        ((x / 256) % 256) as u8,
        ((x / 65536) % 256) as u8,
        ((x / 16777216) % 256) as u8,
    ]
}

/// The eight little-endian bytes of a 64-bit integer.
pub open spec fn u64_le(x: u64) -> Seq<u8> {
    seq![
        (x % 256) as u8,
        ((x / 256) % 256) as u8,
        ((x / 65536) % 256) as u8,
        ((x / 16777216) % 256) as u8,
        ((x / 4294967296) % 256) as u8,
        ((x / 1099511627776) % 256) as u8,
        ((x / 281474976710656) % 256) as u8,
        ((x / 72057594037927936) % 256) as u8,
    ]
}

/// Bitcoin's compact-size integer: values below 253 take one byte; larger
/// values take a one-byte marker (0xFD, 0xFE or 0xFF) followed by the value
/// in 2, 4 or 8 little-endian bytes.
pub open spec fn varint_seq(n: nat) -> Seq<u8> {
    if n < 253 {
        seq![n as u8]
    } else if n < 65536 {
        seq![253u8] + u16_le(n as u16)
    } else if n < 4294967296 {
        seq![254u8] + u32_le(n as u32)
    } else {
        seq![255u8] + u64_le(n as u64)
    }
}

/// A compact-size integer encoding takes at most 9 bytes.
pub proof fn lemma_varint_seq_len(n: nat)
    ensures
        1 <= varint_seq(n).len() <= 9,
        n < 253 ==> varint_seq(n).len() == 1,
{
    if n < 253 {
    } else if n < 65536 {
        assert(varint_seq(n).len() == 3);
    } else if n < 4294967296 {
        assert(varint_seq(n).len() == 5);
    } else {
        assert(varint_seq(n).len() == 9);
    }
}

/// The value of a byte sequence read as a little-endian unsigned integer.
pub open spec fn le_val(s: Seq<u8>) -> nat
    decreases s.len(),
{
    if s.len() == 0 {
        0
    } else {
        (s[0] + 256 * le_val(s.skip(1))) as nat
    }
}

/// 256 raised to a power: the weight of the n-th byte of a little-endian
/// integer.
pub open spec fn pow256(n: nat) -> nat
    decreases n,
{
    if n == 0 {
        1
    } else {
        256 * pow256((n - 1) as nat)
    }
}

/// A little-endian byte sequence's value is bounded by 256 to its length.
pub proof fn lemma_le_val_bound(s: Seq<u8>)
    ensures
        le_val(s) < pow256(s.len()),
    decreases s.len(),
{
    if s.len() > 0 {
        lemma_le_val_bound(s.skip(1));
    }
}

/// Byte weights grow with position.
pub proof fn lemma_pow256_mono(i: nat, j: nat)
    requires
        i <= j,
    ensures
        pow256(i) <= pow256(j),
    decreases j,
{
    if i < j {
        lemma_pow256_mono(i, (j - 1) as nat);
    }
}

/// The weight of the ninth byte, the first that a u64 cannot hold.
pub proof fn lemma_pow256_value()
    ensures
        pow256(8) == 0x10000000000000000,
{
    assert(pow256(0) == 1);
    assert(pow256(1) == 256);
    assert(pow256(2) == 0x10000);
    assert(pow256(3) == 0x1000000);
    assert(pow256(4) == 0x100000000);
    assert(pow256(5) == 0x10000000000);
    assert(pow256(6) == 0x1000000000000);
    assert(pow256(7) == 0x100000000000000);
    assert(pow256(8) == 0x10000000000000000);
}

/// Whether a character is a hexadecimal digit (either case).
pub open spec fn is_hex_digit(c: char) -> bool {
    let u = c as u32;
    (48 <= u && u <= 57) || (65 <= u && u <= 70) || (97 <= u && u <= 102)
}

/// The numeric value of a hexadecimal digit character (0 for non-digits).
pub open spec fn hex_digit_val(c: char) -> u8 {
    let u = c as u32;
    if 48 <= u && u <= 57 {
        (u - 48) as u8
    } else if 65 <= u && u <= 70 {
        (u - 55) as u8
    } else if 97 <= u && u <= 102 {
        (u - 87) as u8
    } else {
        0
    }
}

/// The byte spelled by the pair of hex digits at positions 2i and 2i+1.
pub open spec fn hex_byte_at(s: Seq<char>, i: int) -> u8 {
    (hex_digit_val(s[2 * i]) * 16 + hex_digit_val(s[2 * i + 1])) as u8
}

/// The bytes spelled by a big-endian hexadecimal character sequence, two
/// digits per byte (a trailing odd digit is ignored).
pub open spec fn bytes_of_hex(s: Seq<char>) -> Seq<u8> {
    Seq::new((s.len() / 2) as nat, |i: int| hex_byte_at(s, i))
}

/// The uppercase hexadecimal digit character for a value below 16.
pub open spec fn hex_char_upper(d: u8) -> char {
    if d == 0 {
        '0'
    } else if d == 1 {
        '1'
    } else if d == 2 {
        '2'
    } else if d == 3 {
        '3'
    } else if d == 4 {
        '4'
    } else if d == 5 {
        '5'
    } else if d == 6 {
        '6'
    } else if d == 7 {
        '7'
    } else if d == 8 {
        '8'
    } else if d == 9 {
        '9'
    } else if d == 10 {
        'A'
    } else if d == 11 {
        'B'
    } else if d == 12 {
        'C'
    } else if d == 13 {
        'D'
    } else if d == 14 {
        'E'
    } else {
        'F'
    }
}

/// The uppercase hexadecimal spelling of a byte sequence, two characters
/// per byte.
pub open spec fn hex_upper_of_bytes(b: Seq<u8>) -> Seq<char> {
    Seq::new(b.len() * 2, |i: int|
        if i % 2 == 0 {
            hex_char_upper(b[i / 2] / 16)
        } else {
            hex_char_upper((b[i / 2] % 16) as u8)
        })
}

/// The lowercase hexadecimal digit character for a value below 16.
pub open spec fn hex_char_lower(d: u8) -> char {
    if d == 0 {
        '0'
    } else if d == 1 {
        '1'
    } else if d == 2 {
        '2'
    } else if d == 3 {
        '3'
    } else if d == 4 {
        '4'
    } else if d == 5 {
        '5'
    } else if d == 6 {
        '6'
    } else if d == 7 {
        '7'
    } else if d == 8 {
        '8'
    } else if d == 9 {
        '9'
    } else if d == 10 {
        'a'
    } else if d == 11 {
        'b'
    } else if d == 12 {
        'c'
    } else if d == 13 {
        'd'
    } else if d == 14 {
        'e'
    } else {
        'f'
    }
}

/// The lowercase hexadecimal spelling of a byte sequence, two characters
/// per byte.
pub open spec fn hex_lower_of_bytes(b: Seq<u8>) -> Seq<char> {
    Seq::new(b.len() * 2, |i: int|
        if i % 2 == 0 {
            hex_char_lower(b[i / 2] / 16)
        } else {
            hex_char_lower((b[i / 2] % 16) as u8)
        })
}

/// The decimal digit character for a value below 10.
pub open spec fn dec_char(d: u8) -> char {
    if d == 0 {
        '0'
    } else if d == 1 {
        '1'
    } else if d == 2 {
        '2'
    } else if d == 3 {
        '3'
    } else if d == 4 {
        '4'
    } else if d == 5 {
        '5'
    } else if d == 6 {
        '6'
    } else if d == 7 {
        '7'
    } else if d == 8 {
        '8'
    } else {
        '9'
    }
}

/// The eight decimal digit characters of a satoshi amount's fractional
/// part (a value below 100000000), most significant digit first.
pub open spec fn sat_frac_digits(n: u64) -> Seq<char> {
    seq![
        dec_char(((n / 10000000) % 10) as u8),
        dec_char(((n / 1000000) % 10) as u8),
        dec_char(((n / 100000) % 10) as u8),
        dec_char(((n / 10000) % 10) as u8),
        dec_char(((n / 1000) % 10) as u8),
        dec_char(((n / 100) % 10) as u8),
        dec_char(((n / 10) % 10) as u8),
        dec_char((n % 10) as u8),
    ]
}

/// A character sequence with its trailing '0' characters removed.
pub open spec fn strip_trailing_zeros(s: Seq<char>) -> Seq<char>
    decreases s.len(),
{
    if s.len() > 0 && s.last() == '0' {
        strip_trailing_zeros(s.drop_last())
    } else {
        s
    }
}

/// Characters with the same code point are the same character.
pub proof fn lemma_char_code_injective(c1: char, c2: char)
    requires
        c1 as u32 == c2 as u32,
    ensures
        c1 == c2,
{
    vstd::utf8::char_u32_cast(c1, c1 as u32);
    vstd::utf8::char_u32_cast(c2, c2 as u32);
}

/// An uppercase hex digit character spells its own value: reading the
/// digit back and spelling it again gives the character.
pub proof fn lemma_upper_char_of_val(c: char)
    requires
        is_hex_digit(c),
        !(97 <= c as u32 <= 102),
    ensures
        hex_char_upper(hex_digit_val(c)) == c,
{
    assert(hex_char_upper(hex_digit_val(c)) as u32 == c as u32);
    lemma_char_code_injective(hex_char_upper(hex_digit_val(c)), c);
}

/// A hex digit character other than '0' has a positive value.
pub proof fn lemma_nonzero_hex_digit(c: char)
    requires
        is_hex_digit(c),
        c != '0',
    ensures
        hex_digit_val(c) > 0,
{
    if c as u32 == 48 {
        lemma_char_code_injective(c, '0');
    }
}

/// An uppercase hex digit character's value is the digit it was made
/// from.
pub proof fn lemma_hex_char_upper_val(d: u8)
    requires
        d < 16,
    ensures
        is_hex_digit(hex_char_upper(d)),
        hex_digit_val(hex_char_upper(d)) == d,
{
}

/// Spelling bytes in hex and reading the digits back gives the bytes.
pub proof fn lemma_hex_upper_round_trip(b: Seq<u8>)
    ensures
        hex_upper_of_bytes(b).len() == 2 * b.len(),
        all_hex_digits(hex_upper_of_bytes(b)),
        bytes_of_hex(hex_upper_of_bytes(b)) == b,
{
    let h = hex_upper_of_bytes(b);
    assert forall|i: int| 0 <= i < h.len() implies is_hex_digit(#[trigger] h[i]) by {
        if i % 2 == 0 {
            lemma_hex_char_upper_val((b[i / 2] / 16) as u8);
        } else {
            lemma_hex_char_upper_val((b[i / 2] % 16) as u8);
        }
    }
    assert forall|i: int| 0 <= i < b.len() implies bytes_of_hex(h)[i] == b[i] by {
        lemma_hex_char_upper_val((b[i] / 16) as u8);
        lemma_hex_char_upper_val((b[i] % 16) as u8);
        assert(h[2 * i] == hex_char_upper(b[i] / 16));
        assert(h[2 * i + 1] == hex_char_upper((b[i] % 16) as u8));
        assert(hex_byte_at(h, i) == b[i] / 16 * 16 + b[i] % 16);
    }
    assert(bytes_of_hex(h) =~= b);
}

/// A hexadecimal character sequence in which every character is a digit.
pub open spec fn all_hex_digits(s: Seq<char>) -> bool {
    forall|i: int| 0 <= i < s.len() ==> is_hex_digit(#[trigger] s[i])
}

pub fn u16_le_vec(x: u16) -> (r: Vec<u8>)
    ensures
        r@ == u16_le(x),
{
    let mut v: Vec<u8> = Vec::new();
    v.push((x % 256) as u8);
    v.push(((x / 256) % 256) as u8);
    proof {
        assert(v@ =~= u16_le(x));
    }
    v
}

pub fn u32_le_vec(x: u32) -> (r: Vec<u8>)
    ensures
        r@ == u32_le(x),
{
    let mut v: Vec<u8> = Vec::new();
    v.push((x % 256) as u8);
    v.push(((x / 256) % 256) as u8);
    v.push(((x / 65536) % 256) as u8);
    v.push(((x / 16777216) % 256) as u8);
    proof {
        assert(v@ =~= u32_le(x));
    }
    v
}

pub fn u64_le_vec(x: u64) -> (r: Vec<u8>)
    ensures
        r@ == u64_le(x),
{
    let mut v: Vec<u8> = Vec::new();
    v.push((x % 256) as u8);
    v.push(((x / 256) % 256) as u8);
    v.push(((x / 65536) % 256) as u8);
    v.push(((x / 16777216) % 256) as u8);
    v.push(((x / 4294967296) % 256) as u8);
    v.push(((x / 1099511627776) % 256) as u8);
    v.push(((x / 281474976710656) % 256) as u8);
    v.push(((x / 72057594037927936) % 256) as u8);
    proof {
        assert(v@ =~= u64_le(x));
    }
    v
}

} // verus!
