//! The hex/byte codec: conversion between big-endian hexadecimal text and
//! byte sequences, byte-order reversal, little-endian integer reading, the
//! compact-size integer ("varint") encoder, and satoshi-amount formatting.

use vstd::prelude::*;
use vstd::string::StrSliceExecFns;

use crate::encoding::{
    all_hex_digits, bytes_of_hex, dec_char, hex_byte_at, hex_char_upper, hex_digit_val,
    hex_upper_of_bytes, is_hex_digit, le_val, pow256, sat_frac_digits, strip_trailing_zeros,
    u16_le, u32_le, u64_le, varint_seq, lemma_le_val_bound,
};
use crate::errors::TxError;
use crate::hashes::{sha256_bytes, sha256_of};
use crate::strutil::push_char;

verus! {

/// The value of a hexadecimal digit character, or None for any other
/// character.
pub fn hex_char_val(c: char) -> (r: Option<u8>)
    ensures
        match r {
            Some(d) => is_hex_digit(c) && d == hex_digit_val(c),
            None => !is_hex_digit(c),
        },
{
    let u = c as u32;
    if 48 <= u && u <= 57 {
        Some((u - 48) as u8)
    } else if 65 <= u && u <= 70 {
        Some((u - 55) as u8)
    } else if 97 <= u && u <= 102 {
        Some((u - 87) as u8)
    } else {
        None
    }
}

/// The uppercase hexadecimal digit character of a value below 16.
pub fn hex_upper_char(d: u8) -> (r: char)
    requires
        d < 16,
    ensures
        r == hex_char_upper(d),
{
    match d {
        0 => '0',
        1 => '1',
        2 => '2',
        3 => '3',
        4 => '4',
        5 => '5',
        6 => '6',
        7 => '7',
        8 => '8',
        9 => '9',
        10 => 'A',
        11 => 'B',
        12 => 'C',
        13 => 'D',
        14 => 'E',
        _ => 'F',
    }
}

/// The decimal digit character of a value below 10.
pub fn dec_digit_char(d: u8) -> (r: char)
    requires
        d < 10,
    ensures
        r == dec_char(d),
{
    match d {
        0 => '0',
        1 => '1',
        2 => '2',
        3 => '3',
        4 => '4',
        5 => '5',
        6 => '6',
        7 => '7',
        8 => '8',
        _ => '9',
    }
}

/// Converts a big-endian hex string to the byte sequence it spells.
pub fn hex_str_to_bytes(s: &str) -> (r: Result<Vec<u8>, TxError>)
    ensures
        match r {
            Ok(v) => s@.len() % 2 == 0 && all_hex_digits(s@) && v@ == bytes_of_hex(s@),
            Err(e) => (e == TxError::OddLengthHex && s@.len() % 2 == 1) || (
            e == TxError::InvalidHexDigit && s@.len() % 2 == 0 && !all_hex_digits(s@)),
        },
{
    let n = s.unicode_len();
    if n % 2 == 1 {
        return Err(TxError::OddLengthHex);
    }
    let mut v: Vec<u8> = Vec::new();
    let mut i: usize = 0;
    while i < n / 2
        invariant
            n == s@.len(),
            n % 2 == 0,
            i <= n / 2,
            forall|k: int| 0 <= k < 2 * i ==> is_hex_digit(#[trigger] s@[k]),
            v@ == bytes_of_hex(s@).take(i as int),
        decreases n / 2 - i,
    {
        let c0 = s.get_char(2 * i);
        let c1 = s.get_char(2 * i + 1);
        let d0 = match hex_char_val(c0) {
            Some(d) => d,
            None => {
                proof {
                    assert(!is_hex_digit(s@[2 * i]));
                }
                return Err(TxError::InvalidHexDigit);
            },
        };
        let d1 = match hex_char_val(c1) {
            Some(d) => d,
            None => {
                proof {
                    assert(!is_hex_digit(s@[2 * i + 1]));
                }
                return Err(TxError::InvalidHexDigit);
            },
        };
        v.push(d0 * 16 + d1);
        proof {
            assert(v@ =~= bytes_of_hex(s@).take(i + 1 as int));
        }
        i += 1;
    }
    proof {
        assert(v@ =~= bytes_of_hex(s@));
    }
    Ok(v)
}

/// Spells a byte sequence as an uppercase big-endian hex string.
pub fn bytes_to_hex_upper(b: &Vec<u8>) -> (r: String)
    ensures
        r@ == hex_upper_of_bytes(b@),
{
    let mut s = String::new();
    let mut i: usize = 0;
    while i < b.len()
        invariant
            i <= b@.len(),
            s@ == hex_upper_of_bytes(b@.take(i as int)),
        decreases b@.len() - i,
    {
        let byte = b[i];
        push_char(&mut s, hex_upper_char(byte / 16));
        push_char(&mut s, hex_upper_char(byte % 16));
        proof {
            assert(s@ =~= hex_upper_of_bytes(b@.take(i + 1 as int)));
        }
        i += 1;
    }
    proof {
        assert(s@ =~= hex_upper_of_bytes(b@));
    }
    s
}

/// Reverses the order of a byte sequence.
pub fn reverse_bytes(b: &Vec<u8>) -> (r: Vec<u8>)
    ensures
        r@ == b@.reverse(),
{
    let n = b.len();
    let mut v: Vec<u8> = Vec::new();
    let mut i: usize = 0;
    while i < n
        invariant
            n == b@.len(),
            i <= n,
            v@.len() == i,
            forall|k: int| 0 <= k < i ==> v@[k] == b@[n - 1 - k],
        decreases n - i,
    {
        v.push(b[n - 1 - i]);
        i += 1;
    }
    proof {
        assert(v@ =~= b@.reverse());
    }
    v
}

/// Reads a byte sequence of at most 8 bytes as a little-endian integer.
pub fn bytes_to_int_le(b: &Vec<u8>) -> (r: u64)
    requires
        b@.len() <= 8,
    ensures
        r as nat == le_val(b@),
{
    let n = b.len();
    let mut result: u64 = 0;
    let mut i: usize = n;
    proof {
        assert(b@.skip(n as int) =~= Seq::<u8>::empty());
        crate::encoding::lemma_pow256_mono((n - i) as nat, 8);
        crate::encoding::lemma_pow256_value();
    }
    while i > 0
        invariant
            n == b@.len() <= 8,
            i <= n,
            result as nat == le_val(b@.skip(i as int)),
            result < pow256((n - i) as nat),
        decreases i,
    {
        i -= 1;
        proof {
            assert(b@.skip(i as int)[0] == b@[i as int]);
            assert(b@.skip(i as int).skip(1) =~= b@.skip(i + 1 as int));
            crate::encoding::lemma_pow256_mono((n - i) as nat, 8);
            crate::encoding::lemma_pow256_value();
        }
        result = result * 256 + (b[i] as u64);
    }
    proof {
        assert(b@.skip(0) =~= b@);
    }
    result
}

/// Hex-string operations shared by `String` and `str`.
pub trait HexString {
    /// The character content of the string.
    spec fn hs(&self) -> Seq<char>;

    /// Converts the hex string to the bytes it spells; fails on an odd
    /// character count or a character that is no hex digit.
    fn to_bytes(&self) -> (r: Result<Vec<u8>, TxError>)
        ensures
            match r {
                Ok(v) => self.hs().len() % 2 == 0 && all_hex_digits(self.hs()) && v@
                    == bytes_of_hex(self.hs()),
                Err(e) => (e == TxError::OddLengthHex && self.hs().len() % 2 == 1) || (
                e == TxError::InvalidHexDigit && self.hs().len() % 2 == 0 && !all_hex_digits(
                    self.hs(),
                )),
            },
    ;

    /// Converts the hex string to exactly `len` bytes, left-padding with
    /// zero bytes; fails if the string spells more than `len` bytes.
    fn to_padded_bytes(&self, len: usize) -> (r: Result<Vec<u8>, TxError>)
        ensures
            match r {
                Ok(v) => self.hs().len() % 2 == 0 && all_hex_digits(self.hs()) && bytes_of_hex(
                    self.hs(),
                ).len() <= len && v@ == Seq::new(
                    (len - bytes_of_hex(self.hs()).len()) as nat,
                    |i: int| 0u8,
                ) + bytes_of_hex(self.hs()),
                Err(e) => (e == TxError::OddLengthHex && self.hs().len() % 2 == 1) || (
                e == TxError::InvalidHexDigit && self.hs().len() % 2 == 0 && !all_hex_digits(
                    self.hs(),
                )) || (e == TxError::SerializationLimit && self.hs().len() % 2 == 0
                    && all_hex_digits(self.hs()) && bytes_of_hex(self.hs()).len() > len),
            },
    ;

    /// Reverses the byte order of the hex string and spells the result in
    /// uppercase.
    fn reverse_hex(&self) -> (r: Result<String, TxError>)
        ensures
            match r {
                Ok(v) => self.hs().len() % 2 == 0 && all_hex_digits(self.hs()) && v@
                    == hex_upper_of_bytes(bytes_of_hex(self.hs()).reverse()),
                Err(e) => (e == TxError::OddLengthHex && self.hs().len() % 2 == 1) || (
                e == TxError::InvalidHexDigit && self.hs().len() % 2 == 0 && !all_hex_digits(
                    self.hs(),
                )),
            },
    ;

    /// Prepends the hex spelling of the string's byte count, as a
    /// compact-size integer, to the string itself.
    fn varint(&self) -> (r: String)
        ensures
            r@ == hex_upper_of_bytes(varint_seq((self.hs().len() / 2) as nat)) + self.hs(),
    ;

    /// The first `len + 1` characters of the string followed by "...".
    fn shorten(&self, len: usize) -> (r: String)
        ensures
            r@ == self.hs().take(
                if self.hs().len() <= len {
                    self.hs().len() as int
                } else {
                    len + 1
                },
            ) + seq!['.', '.', '.'],
    ;
}

/// Byte-vector operations: hex spelling, reversal, hashing and
/// little-endian integer reading.
pub trait StringHex {
    /// The byte content of the vector.
    spec fn bytes(&self) -> Seq<u8>;

    /// Spells the bytes as an uppercase hex string.
    fn to_string(&self) -> (r: String)
        ensures
            r@ == hex_upper_of_bytes(self.bytes()),
    ;

    /// The bytes in reversed order.
    fn reverse(&self) -> (r: Vec<u8>)
        ensures
            r@ == self.bytes().reverse(),
    ;

    /// The SHA-256 digest of the bytes.
    fn sha256(&self) -> (r: Vec<u8>)
        ensures
            r@ == sha256_of(self.bytes()),
            r@.len() == 32,
    ;

    /// The double-SHA-256 digest of the bytes.
    fn sha256d(&self) -> (r: Vec<u8>)
        ensures
            r@ == sha256_of(sha256_of(self.bytes())),
            r@.len() == 32,
    ;

    /// Reads the bytes as a little-endian integer.
    fn to_int_le(&self) -> (r: u64)
        requires
            self.bytes().len() <= 8,
        ensures
            r as nat == le_val(self.bytes()),
    ;
}

/// Byte-slice operations: hex spelling, reversal and little-endian
/// integer reading.
pub trait StringHexArray {
    /// The byte content of the slice.
    spec fn bytes(&self) -> Seq<u8>;

    /// Spells the bytes as an uppercase hex string.
    fn to_string(&self) -> (r: String)
        ensures
            r@ == hex_upper_of_bytes(self.bytes()),
    ;

    /// The bytes in reversed order.
    fn reverse(&self) -> (r: Vec<u8>)
        ensures
            r@ == self.bytes().reverse(),
    ;

    /// Reads the bytes as a little-endian integer.
    fn to_int_le(&self) -> (r: u64)
        requires
            self.bytes().len() <= 8,
        ensures
            r as nat == le_val(self.bytes()),
    ;
}

impl HexString for String {
    open spec fn hs(&self) -> Seq<char> {
        self@
    }

    fn to_bytes(&self) -> (r: Result<Vec<u8>, TxError>) {
        hex_str_to_bytes(self.as_str())
    }

    fn to_padded_bytes(&self, len: usize) -> (r: Result<Vec<u8>, TxError>) {
        hex_to_padded_bytes(self.as_str(), len)
    }

    fn reverse_hex(&self) -> (r: Result<String, TxError>) {
        let bytes = hex_str_to_bytes(self.as_str())?;
        let reversed = reverse_bytes(&bytes);
        Ok(bytes_to_hex_upper(&reversed))
    }

    fn varint(&self) -> (r: String) {
        hex_varint_prefix(self.as_str())
    }

    fn shorten(&self, len: usize) -> (r: String) {
        shorten_str(self.as_str(), len)
    }
}

impl HexString for str {
    open spec fn hs(&self) -> Seq<char> {
        self@
    }

    fn to_bytes(&self) -> (r: Result<Vec<u8>, TxError>) {
        hex_str_to_bytes(self)
    }

    fn to_padded_bytes(&self, len: usize) -> (r: Result<Vec<u8>, TxError>) {
        hex_to_padded_bytes(self, len)
    }

    fn reverse_hex(&self) -> (r: Result<String, TxError>) {
        let bytes = hex_str_to_bytes(self)?;
        let reversed = reverse_bytes(&bytes);
        Ok(bytes_to_hex_upper(&reversed))
    }

    fn varint(&self) -> (r: String) {
        hex_varint_prefix(self)
    }

    fn shorten(&self, len: usize) -> (r: String) {
        shorten_str(self, len)
    }
}

impl StringHex for Vec<u8> {
    open spec fn bytes(&self) -> Seq<u8> {
        self@
    }

    fn to_string(&self) -> (r: String) {
        bytes_to_hex_upper(self)
    }

    fn reverse(&self) -> (r: Vec<u8>) {
        reverse_bytes(self)
    }

    fn sha256(&self) -> (r: Vec<u8>) {
        sha256_bytes(self)
    }

    fn sha256d(&self) -> (r: Vec<u8>) {
        let once = sha256_bytes(self);
        sha256_bytes(&once)
    }

    fn to_int_le(&self) -> (r: u64) {
        bytes_to_int_le(self)
    }
}

impl StringHexArray for [u8] {
    open spec fn bytes(&self) -> Seq<u8> {
        self@
    }

    fn to_string(&self) -> (r: String) {
        let v = vstd::slice::slice_to_vec(self);
        bytes_to_hex_upper(&v)
    }

    fn reverse(&self) -> (r: Vec<u8>) {
        let v = vstd::slice::slice_to_vec(self);
        reverse_bytes(&v)
    }

    fn to_int_le(&self) -> (r: u64) {
        let v = vstd::slice::slice_to_vec(self);
        bytes_to_int_le(&v)
    }
}

/// Converts a hex string to a fixed number of bytes, left-padded with
/// zero bytes.
pub fn hex_to_padded_bytes(s: &str, len: usize) -> (r: Result<Vec<u8>, TxError>)
    ensures
        match r {
            Ok(v) => s@.len() % 2 == 0 && all_hex_digits(s@) && bytes_of_hex(s@).len() <= len && v@
                == Seq::new((len - bytes_of_hex(s@).len()) as nat, |i: int| 0u8) + bytes_of_hex(s@),
            Err(e) => (e == TxError::OddLengthHex && s@.len() % 2 == 1) || (
            e == TxError::InvalidHexDigit && s@.len() % 2 == 0 && !all_hex_digits(s@)) || (
            e == TxError::SerializationLimit && s@.len() % 2 == 0 && all_hex_digits(s@)
                && bytes_of_hex(s@).len() > len),
        },
{
    let mut bytes = hex_str_to_bytes(s)?;
    if bytes.len() > len {
        return Err(TxError::SerializationLimit);
    }
    let pad = len - bytes.len();
    let mut v: Vec<u8> = Vec::new();
    let mut i: usize = 0;
    while i < pad
        invariant
            i <= pad,
            v@ =~= Seq::new(i as nat, |k: int| 0u8),
        decreases pad - i,
    {
        v.push(0u8);
        proof {
            assert(v@ =~= Seq::new((i + 1) as nat, |k: int| 0u8));
        }
        i += 1;
    }
    crate::strutil::push_bytes(&mut v, &bytes);
    Ok(v)
}

/// Prepends the hex spelling of a hex string's byte count to the string.
pub fn hex_varint_prefix(s: &str) -> (r: String)
    ensures
        r@ == hex_upper_of_bytes(varint_seq((s@.len() / 2) as nat)) + s@,
{
    let n = s.unicode_len();
    let vi = varint(n / 2);
    let mut out = bytes_to_hex_upper(&vi);
    vstd::string::StringExecFns::append(&mut out, s);
    out
}

/// The first `len + 1` characters of a string followed by "...".
pub fn shorten_str(s: &str, len: usize) -> (r: String)
    ensures
        r@ == s@.take(
            if s@.len() <= len {
                s@.len() as int
            } else {
                len + 1
            },
        ) + seq!['.', '.', '.'],
{
    let n = s.unicode_len();
    let stop: usize = if n <= len {
        n
    } else {
        len + 1
    };
    let mut out = String::new();
    let mut i: usize = 0;
    while i < stop
        invariant
            n == s@.len(),
            stop <= n,
            i <= stop,
            out@ == s@.take(stop as int).take(i as int),
        decreases stop - i,
    {
        push_char(&mut out, s.get_char(i));
        proof {
            assert(s@.take(stop as int).take(i + 1 as int) =~= s@.take(stop as int).take(
                i as int,
            ).push(s@[i as int]));
        }
        i += 1;
    }
    proof {
        assert(out@ =~= s@.take(stop as int));
    }
    push_char(&mut out, '.');
    push_char(&mut out, '.');
    push_char(&mut out, '.');
    proof {
        assert(out@ =~= s@.take(stop as int) + seq!['.', '.', '.']);
    }
    out
}

/// Encodes a length as Bitcoin's compact-size integer (at most 9 bytes).
pub fn varint(num: usize) -> (r: Vec<u8>)
    ensures
        r@ == varint_seq(num as nat),
{
    if num < 253 {
        let mut v: Vec<u8> = Vec::new();
        v.push(num as u8);
        proof {
            assert(v@ =~= varint_seq(num as nat));
        }
        v
    } else if num < 65536 {
        let mut v: Vec<u8> = Vec::new();
        v.push(253u8);
        let mut tail = crate::encoding::u16_le_vec(num as u16);
        v.append(&mut tail);
        proof {
            assert(v@ =~= varint_seq(num as nat));
        }
        v
    } else if (num as u64) < 4294967296u64 {
        let mut v: Vec<u8> = Vec::new();
        v.push(254u8);
        let mut tail = crate::encoding::u32_le_vec(num as u32);
        v.append(&mut tail);
        proof {
            assert(v@ =~= varint_seq(num as nat));
        }
        v
    } else {
        let mut v: Vec<u8> = Vec::new();
        v.push(255u8);
        let mut tail = crate::encoding::u64_le_vec(num as u64);
        v.append(&mut tail);
        proof {
            assert(v@ =~= varint_seq(num as nat));
        }
        v
    }
}

/// Prepends a byte vector's length, as a compact-size integer, to the
/// vector itself.
pub fn var(input: Vec<u8>) -> (r: Vec<u8>)
    ensures
        r@ == varint_seq(input@.len()) + input@,
{
    let mut input = input;
    let mut bytes = varint(input.len());
    bytes.append(&mut input);
    bytes
}

/// The part of a satoshi amount, expressed in whole coins, that follows
/// the integer point: a '.' and the fraction's digits with trailing zeros
/// removed, or the empty string when the fraction is zero.
pub fn sat_decimal(n: u64) -> (r: String)
    ensures
        r@ == if n % 100000000 == 0 {
            Seq::<char>::empty()
        } else {
            seq!['.'] + strip_trailing_zeros(sat_frac_digits((n % 100000000) as u64))
        },
{
    let frac = n % 100000000;
    if frac == 0 {
        return String::new();
    }
    let mut digits: Vec<char> = Vec::new();
    digits.push(dec_digit_char(((frac / 10000000) % 10) as u8));
    digits.push(dec_digit_char(((frac / 1000000) % 10) as u8));
    digits.push(dec_digit_char(((frac / 100000) % 10) as u8));
    digits.push(dec_digit_char(((frac / 10000) % 10) as u8));
    digits.push(dec_digit_char(((frac / 1000) % 10) as u8));
    digits.push(dec_digit_char(((frac / 100) % 10) as u8));
    digits.push(dec_digit_char(((frac / 10) % 10) as u8));
    digits.push(dec_digit_char((frac % 10) as u8));
    proof {
        assert(digits@ =~= sat_frac_digits(frac));
    }
    while digits.len() > 0 && digits[digits.len() - 1] == '0'
        invariant
            strip_trailing_zeros(digits@) == strip_trailing_zeros(sat_frac_digits(frac)),
        decreases digits@.len(),
    {
        proof {
            assert(digits@.last() == '0');
        }
        digits.pop();
    }
    proof {
        assert(strip_trailing_zeros(digits@) == digits@);
    }
    let mut out = String::new();
    push_char(&mut out, '.');
    let mut i: usize = 0;
    while i < digits.len()
        invariant
            i <= digits@.len(),
            out@ == seq!['.'] + digits@.take(i as int),
        decreases digits@.len() - i,
    {
        push_char(&mut out, digits[i]);
        proof {
            assert(seq!['.'] + digits@.take(i + 1 as int) =~= (seq!['.'] + digits@.take(
                i as int,
            )).push(digits@[i as int]));
        }
        i += 1;
    }
    proof {
        assert(digits@.take(digits@.len() as int) =~= digits@);
    }
    out
}

} // verus!
