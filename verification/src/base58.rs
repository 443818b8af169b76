//! The base58check codec: arbitrary-precision base conversion between
//! big-endian hex text and the base58 alphabet, with leading-zero
//! preservation and a minimum-length pad. The big-integer arithmetic is
//! done by an outside crate behind one trusted wrapper whose contract is
//! value preservation.

use vstd::prelude::*;
use vstd::string::StrSliceExecFns;

use crate::encoding::{all_hex_digits, bytes_of_hex, hex_digit_val, hex_upper_of_bytes, is_hex_digit};
use crate::errors::TxError;
use crate::strutil::push_char;
use crate::traits::{bytes_to_hex_upper, hex_char_val};

verus! {

/// The value of a big-endian digit sequence in base `b`.
pub open spec fn base_val_be(b: nat, s: Seq<u8>) -> nat
    decreases s.len(),
{
    if s.len() == 0 {
        0
    } else {
        (base_val_be(b, s.drop_last()) * b + s.last()) as nat
    }
}

/// The canonical big-endian digit sequence of `n` in base `b`: empty for
/// zero, no leading zero digit otherwise.
pub open spec fn nat_digits_be(b: nat, n: nat) -> Seq<u8>
    recommends
        b >= 2,
    decreases n,
    via nat_digits_be_decreases
{
    if n == 0 || b < 2 {
        Seq::empty()
    } else {
        nat_digits_be(b, n / b).push((n % b) as u8)
    }
}

#[via_fn]
proof fn nat_digits_be_decreases(b: nat, n: nat) {
    if n != 0 && b >= 2 {
        assert(n / b < n) by (nonlinear_arith)
            requires
                n > 0 && b >= 2,
        ;
    }
}

/// The numeric values of a hexadecimal character sequence, one value per
/// character.
pub open spec fn hex_digit_vals(s: Seq<char>) -> Seq<u8> {
    s.map_values(|c: char| hex_digit_val(c))
}

/// The value of a hexadecimal character sequence read as one big-endian
/// number, digit by digit.
pub open spec fn hex_val_be(s: Seq<char>) -> nat {
    base_val_be(16, hex_digit_vals(s))
}

/// The base58 alphabet character of a digit value below 58.
pub open spec fn b58_char(d: u8) -> char {
    if d == 0 {
        '1'
    } else if d == 1 {
        '2'
    } else if d == 2 {
        '3'
    } else if d == 3 {
        '4'
    } else if d == 4 {
        '5'
    } else if d == 5 {
        '6'
    } else if d == 6 {
        '7'
    } else if d == 7 {
        '8'
    } else if d == 8 {
        '9'
    } else if d == 9 {
        'A'
    } else if d == 10 {
        'B'
    } else if d == 11 {
        'C'
    } else if d == 12 {
        'D'
    } else if d == 13 {
        'E'
    } else if d == 14 {
        'F'
    } else if d == 15 {
        'G'
    } else if d == 16 {
        'H'
    } else if d == 17 {
        'J'
    } else if d == 18 {
        'K'
    } else if d == 19 {
        'L'
    } else if d == 20 {
        'M'
    } else if d == 21 {
        'N'
    } else if d == 22 {
        'P'
    } else if d == 23 {
        'Q'
    } else if d == 24 {
        'R'
    } else if d == 25 {
        'S'
    } else if d == 26 {
        'T'
    } else if d == 27 {
        'U'
    } else if d == 28 {
        'V'
    } else if d == 29 {
        'W'
    } else if d == 30 {
        'X'
    } else if d == 31 {
        'Y'
    } else if d == 32 {
        'Z'
    } else if d == 33 {
        'a'
    } else if d == 34 {
        'b'
    } else if d == 35 {
        'c'
    } else if d == 36 {
        'd'
    } else if d == 37 {
        'e'
    } else if d == 38 {
        'f'
    } else if d == 39 {
        'g'
    } else if d == 40 {
        'h'
    } else if d == 41 {
        'i'
    } else if d == 42 {
        'j'
    } else if d == 43 {
        'k'
    } else if d == 44 {
        'm'
    } else if d == 45 {
        'n'
    } else if d == 46 {
        'o'
    } else if d == 47 {
        'p'
    } else if d == 48 {
        'q'
    } else if d == 49 {
        'r'
    } else if d == 50 {
        's'
    } else if d == 51 {
        't'
    } else if d == 52 {
        'u'
    } else if d == 53 {
        'v'
    } else if d == 54 {
        'w'
    } else if d == 55 {
        'x'
    } else if d == 56 {
        'y'
    } else {
        'z'
    }
}

/// The digit value of a base58 alphabet character, or None for any other
/// character.
pub open spec fn b58_digit_of(c: char) -> Option<u8> {
    if c == '1' {
        Some(0u8)
    } else if c == '2' {
        Some(1u8)
    } else if c == '3' {
        Some(2u8)
    } else if c == '4' {
        Some(3u8)
    } else if c == '5' {
        Some(4u8)
    } else if c == '6' {
        Some(5u8)
    } else if c == '7' {
        Some(6u8)
    } else if c == '8' {
        Some(7u8)
    } else if c == '9' {
        Some(8u8)
    } else if c == 'A' {
        Some(9u8)
    } else if c == 'B' {
        Some(10u8)
    } else if c == 'C' {
        Some(11u8)
    } else if c == 'D' {
        Some(12u8)
    } else if c == 'E' {
        Some(13u8)
    } else if c == 'F' {
        Some(14u8)
    } else if c == 'G' {
        Some(15u8)
    } else if c == 'H' {
        Some(16u8)
    } else if c == 'J' {
        Some(17u8)
    } else if c == 'K' {
        Some(18u8)
    } else if c == 'L' {
        Some(19u8)
    } else if c == 'M' {
        Some(20u8)
    } else if c == 'N' {
        Some(21u8)
    } else if c == 'P' {
        Some(22u8)
    } else if c == 'Q' {
        Some(23u8)
    } else if c == 'R' {
        Some(24u8)
    } else if c == 'S' {
        Some(25u8)
    } else if c == 'T' {
        Some(26u8)
    } else if c == 'U' {
        Some(27u8)
    } else if c == 'V' {
        Some(28u8)
    } else if c == 'W' {
        Some(29u8)
    } else if c == 'X' {
        Some(30u8)
    } else if c == 'Y' {
        Some(31u8)
    } else if c == 'Z' {
        Some(32u8)
    } else if c == 'a' {
        Some(33u8)
    } else if c == 'b' {
        Some(34u8)
    } else if c == 'c' {
        Some(35u8)
    } else if c == 'd' {
        Some(36u8)
    } else if c == 'e' {
        Some(37u8)
    } else if c == 'f' {
        Some(38u8)
    } else if c == 'g' {
        Some(39u8)
    } else if c == 'h' {
        Some(40u8)
    } else if c == 'i' {
        Some(41u8)
    } else if c == 'j' {
        Some(42u8)
    } else if c == 'k' {
        Some(43u8)
    } else if c == 'm' {
        Some(44u8)
    } else if c == 'n' {
        Some(45u8)
    } else if c == 'o' {
        Some(46u8)
    } else if c == 'p' {
        Some(47u8)
    } else if c == 'q' {
        Some(48u8)
    } else if c == 'r' {
        Some(49u8)
    } else if c == 's' {
        Some(50u8)
    } else if c == 't' {
        Some(51u8)
    } else if c == 'u' {
        Some(52u8)
    } else if c == 'v' {
        Some(53u8)
    } else if c == 'w' {
        Some(54u8)
    } else if c == 'x' {
        Some(55u8)
    } else if c == 'y' {
        Some(56u8)
    } else if c == 'z' {
        Some(57u8)
    } else {
        None
    }
}

/// The alphabet characters of a digit sequence.
pub open spec fn b58_chars(ds: Seq<u8>) -> Seq<char> {
    ds.map_values(|d: u8| b58_char(d))
}

/// A run of `n` '1' characters: the alphabet's zero digit.
pub open spec fn ones(n: nat) -> Seq<char> {
    Seq::new(n, |i: int| '1')
}

/// A run of `n` '0' characters.
pub open spec fn zeros(n: nat) -> Seq<char> {
    Seq::new(n, |i: int| '0')
}

/// The number of leading '0' characters.
pub open spec fn leading_zero_chars(s: Seq<char>) -> nat
    decreases s.len(),
{
    if s.len() > 0 && s[0] == '0' {
        (1 + leading_zero_chars(s.skip(1))) as nat
    } else {
        0
    }
}

/// The number of leading '1' characters.
pub open spec fn leading_one_chars(s: Seq<char>) -> nat
    decreases s.len(),
{
    if s.len() > 0 && s[0] == '1' {
        (1 + leading_one_chars(s.skip(1))) as nat
    } else {
        0
    }
}

/// Relies on num_bigint::BigUint::from_radix_be and
/// num_bigint::BigUint::to_radix_be: reads a big-endian digit sequence in
/// one base and writes the same value's digits in another base, with no
/// leading zero digit, except a single zero digit for the value zero.
#[verifier::external_body]
fn rebase_digits_be(digits: &Vec<u8>, from: u32, to: u32) -> (r: Vec<u8>)
    requires
        2 <= from <= 256,
        2 <= to <= 256,
        forall|i: int| 0 <= i < digits@.len() ==> (digits@[i] as u32) < from,
    ensures
        base_val_be(to as nat, r@) == base_val_be(from as nat, digits@),
        forall|i: int| 0 <= i < r@.len() ==> (r@[i] as u32) < to,
        r@.len() >= 1,
        base_val_be(from as nat, digits@) == 0 ==> r@ =~= seq![0u8],
        base_val_be(from as nat, digits@) != 0 ==> r@[0] != 0,
{
    let n = num_bigint::BigUint::from_radix_be(digits, from).unwrap();
    n.to_radix_be(to)
}

/// The alphabet character of a digit value below 58.
pub fn b58_digit_char(d: u8) -> (r: char)
    requires
        d < 58,
    ensures
        r == b58_char(d),
{
    match d {
        0 => '1',
        1 => '2',
        2 => '3',
        3 => '4',
        4 => '5',
        5 => '6',
        6 => '7',
        7 => '8',
        8 => '9',
        9 => 'A',
        10 => 'B',
        11 => 'C',
        12 => 'D',
        13 => 'E',
        14 => 'F',
        15 => 'G',
        16 => 'H',
        17 => 'J',
        18 => 'K',
        19 => 'L',
        20 => 'M',
        21 => 'N',
        22 => 'P',
        23 => 'Q',
        24 => 'R',
        25 => 'S',
        26 => 'T',
        27 => 'U',
        28 => 'V',
        29 => 'W',
        30 => 'X',
        31 => 'Y',
        32 => 'Z',
        33 => 'a',
        34 => 'b',
        35 => 'c',
        36 => 'd',
        37 => 'e',
        38 => 'f',
        39 => 'g',
        40 => 'h',
        41 => 'i',
        42 => 'j',
        43 => 'k',
        44 => 'm',
        45 => 'n',
        46 => 'o',
        47 => 'p',
        48 => 'q',
        49 => 'r',
        50 => 's',
        51 => 't',
        52 => 'u',
        53 => 'v',
        54 => 'w',
        55 => 'x',
        56 => 'y',
        _ => 'z',
    }
}

/// The digit value of an alphabet character, or None for any other
/// character.
pub fn b58_char_digit(c: char) -> (r: Option<u8>)
    ensures
        r == b58_digit_of(c),
        r is Some ==> r->0 < 58,
{
    proof {
        assert(b58_digit_of(c) is Some ==> b58_digit_of(c)->0 < 58);
    }
    match c {
        '1' => Some(0u8),
        '2' => Some(1u8),
        '3' => Some(2u8),
        '4' => Some(3u8),
        '5' => Some(4u8),
        '6' => Some(5u8),
        '7' => Some(6u8),
        '8' => Some(7u8),
        '9' => Some(8u8),
        'A' => Some(9u8),
        'B' => Some(10u8),
        'C' => Some(11u8),
        'D' => Some(12u8),
        'E' => Some(13u8),
        'F' => Some(14u8),
        'G' => Some(15u8),
        'H' => Some(16u8),
        'J' => Some(17u8),
        'K' => Some(18u8),
        'L' => Some(19u8),
        'M' => Some(20u8),
        'N' => Some(21u8),
        'P' => Some(22u8),
        'Q' => Some(23u8),
        'R' => Some(24u8),
        'S' => Some(25u8),
        'T' => Some(26u8),
        'U' => Some(27u8),
        'V' => Some(28u8),
        'W' => Some(29u8),
        'X' => Some(30u8),
        'Y' => Some(31u8),
        'Z' => Some(32u8),
        'a' => Some(33u8),
        'b' => Some(34u8),
        'c' => Some(35u8),
        'd' => Some(36u8),
        'e' => Some(37u8),
        'f' => Some(38u8),
        'g' => Some(39u8),
        'h' => Some(40u8),
        'i' => Some(41u8),
        'j' => Some(42u8),
        'k' => Some(43u8),
        'm' => Some(44u8),
        'n' => Some(45u8),
        'o' => Some(46u8),
        'p' => Some(47u8),
        'q' => Some(48u8),
        'r' => Some(49u8),
        's' => Some(50u8),
        't' => Some(51u8),
        'u' => Some(52u8),
        'v' => Some(53u8),
        'w' => Some(54u8),
        'x' => Some(55u8),
        'y' => Some(56u8),
        'z' => Some(57u8),
        _ => None,
    }
}

/// Converts a single hex character to its numeric value; any other
/// character is rejected.
pub fn char_to_int(c: char) -> (r: Result<u8, TxError>)
    ensures
        match r {
            Ok(d) => is_hex_digit(c) && d == hex_digit_val(c),
            Err(e) => !is_hex_digit(c) && e == TxError::InvalidHexDigit,
        },
{
    match hex_char_val(c) {
        Some(d) => Ok(d),
        None => Err(TxError::InvalidHexDigit),
    }
}

/// The numeric values of a hex string's characters.
fn hex_vals(s: &str) -> (r: Vec<u8>)
    requires
        all_hex_digits(s@),
    ensures
        r@ == hex_digit_vals(s@),
        forall|i: int| 0 <= i < r@.len() ==> (r@[i] as u32) < 16,
{
    let n = s.unicode_len();
    let mut v: Vec<u8> = Vec::new();
    let mut i: usize = 0;
    while i < n
        invariant
            all_hex_digits(s@),
            n == s@.len(),
            i <= n,
            v@ =~= hex_digit_vals(s@.take(i as int)),
            forall|k: int| 0 <= k < v@.len() ==> (v@[k] as u32) < 16,
        decreases n - i,
    {
        let c = s.get_char(i);
        proof {
            assert(is_hex_digit(s@[i as int]));
        }
        let d = hex_char_val(c).unwrap();
        v.push(d);
        proof {
            assert(v@ =~= hex_digit_vals(s@.take(i + 1 as int)));
        }
        i += 1;
    }
    proof {
        assert(s@.take(n as int) =~= s@);
    }
    v
}

/// The expected spelling of a number in base58: its canonical digit
/// characters, left-padded with '1' to at least 8 characters; zero has no
/// digits of its own and pads to eight '1's.
pub open spec fn spec_int_to_base58(n: nat) -> Seq<char> {
    let chars = b58_chars(nat_digits_be(58, n));
    ones(if chars.len() < 8 {
        (8 - chars.len()) as nat
    } else {
        0
    }) + chars
}

/// The number of '1' characters that a hex string's leading zero
/// characters contribute: half the run, rounded down; a string of only
/// zeros contributes none.
pub open spec fn lz_half(s: Seq<char>) -> nat {
    if leading_zero_chars(s) == s.len() {
        0
    } else {
        leading_zero_chars(s) / 2
    }
}

/// The base58 spelling of a big-endian hex string: one '1' per pair of
/// leading zero characters, then the value's base58 digits padded to at
/// least 8 characters.
pub open spec fn spec_hex_to_base58(s: Seq<char>) -> Seq<char> {
    ones(lz_half(s)) + spec_int_to_base58(hex_val_be(s))
}

/// The number of '0' characters that an address's leading '1' characters
/// contribute: two per '1'; a string of only '1's contributes none.
pub open spec fn lo_double(s: Seq<char>) -> nat {
    if leading_one_chars(s) == s.len() {
        0
    } else {
        (2 * leading_one_chars(s)) as nat
    }
}

/// The hex spelling of a base58 string: two '0' characters per leading
/// '1', then the uppercase hex of the value's big-endian bytes (a single
/// zero byte for the value zero).
pub open spec fn spec_base58_to_hex(s: Seq<char>) -> Seq<char> {
    let v = base58_val(s);
    zeros(lo_double(s)) + hex_upper_of_bytes(
        if v == 0 {
            seq![0u8]
        } else {
            nat_digits_be(256, v)
        },
    )
}

/// The digit values of a base58 character sequence (0 for characters
/// outside the alphabet).
pub open spec fn b58_digit_vals(s: Seq<char>) -> Seq<u8> {
    s.map_values(|c: char| match b58_digit_of(c) {
        Some(d) => d,
        None => 0u8,
    })
}

/// Whether every character belongs to the base58 alphabet.
pub open spec fn all_b58_chars(s: Seq<char>) -> bool {
    forall|i: int| 0 <= i < s.len() ==> b58_digit_of(#[trigger] s[i]) is Some
}

/// The value of a base58 character sequence.
pub open spec fn base58_val(s: Seq<char>) -> nat {
    base_val_be(58, b58_digit_vals(s))
}

/// The canonical digit sequence of `n` in base `b` really has value `n`,
/// digits below `b`, and no leading zero.
pub proof fn lemma_nat_digits_props(b: nat, n: nat)
    requires
        2 <= b <= 256,
    ensures
        base_val_be(b, nat_digits_be(b, n)) == n,
        forall|i: int|
            0 <= i < nat_digits_be(b, n).len() ==> (#[trigger] nat_digits_be(b, n)[i] as nat) < b,
        n > 0 ==> nat_digits_be(b, n).len() >= 1 && nat_digits_be(b, n)[0] != 0,
    decreases n,
{
    if n == 0 {
    } else {
        vstd::arithmetic::div_mod::lemma_fundamental_div_mod(n as int, b as int);
        vstd::arithmetic::div_mod::lemma_mod_bound(n as int, b as int);
        let q = n / b;
        let rem = n % b;
        assert(n == b * q + rem);
        assert(rem < b);
        assert(q < n) by (nonlinear_arith)
            requires
                n > 0 && b >= 2 && n == b * q + rem && rem >= 0,
        ;
        lemma_nat_digits_props(b, q);
        let ds = nat_digits_be(b, n);
        let prefix = nat_digits_be(b, q);
        assert(ds == prefix.push(rem as u8));
        assert(ds.drop_last() =~= prefix);
        assert(ds.last() == rem as u8);
        assert((rem as u8) as nat == rem);
        assert(base_val_be(b, ds) == base_val_be(b, prefix) * b + rem);
        assert(base_val_be(b, prefix) * b + rem == n) by (nonlinear_arith)
            requires
                base_val_be(b, prefix) == q && n == b * q + rem,
        ;
        if q == 0 {
            assert(prefix.len() == 0);
            assert(ds[0] == rem as u8);
            assert(b * q == 0) by (nonlinear_arith)
                requires
                    q == 0,
            ;
            assert(rem > 0);
        } else {
            assert(ds[0] == prefix[0]);
        }
    }
}

/// A nonempty digit sequence without a leading zero has a positive value.
pub proof fn lemma_base_val_pos(b: nat, s: Seq<u8>)
    requires
        b >= 2,
        s.len() > 0,
        s[0] != 0,
    ensures
        base_val_be(b, s) >= 1,
    decreases s.len(),
{
    if s.len() == 1 {
        assert(s.drop_last().len() == 0);
        assert(base_val_be(b, s.drop_last()) == 0);
        assert(base_val_be(b, s) == (0 * b + s.last()) as nat);
        assert(s.last() == s[0]);
    } else {
        lemma_base_val_pos(b, s.drop_last());
        let p = base_val_be(b, s.drop_last());
        assert(p * b >= b) by (nonlinear_arith)
            requires
                p >= 1 && b >= 2,
        ;
    }
}

/// Two digit sequences in the same base, neither with a leading zero and
/// both with digits below the base, that spell the same value are the same
/// sequence.
pub proof fn lemma_base_repr_unique(b: nat, s1: Seq<u8>, s2: Seq<u8>)
    requires
        b >= 2,
        forall|i: int| 0 <= i < s1.len() ==> (#[trigger] s1[i] as nat) < b,
        forall|i: int| 0 <= i < s2.len() ==> (#[trigger] s2[i] as nat) < b,
        s1.len() > 0 ==> s1[0] != 0,
        s2.len() > 0 ==> s2[0] != 0,
        base_val_be(b, s1) == base_val_be(b, s2),
    ensures
        s1 == s2,
    decreases s1.len() + s2.len(),
{
    if s1.len() == 0 && s2.len() == 0 {
        assert(s1 =~= s2);
    } else if s1.len() == 0 {
        lemma_base_val_pos(b, s2);
        assert(false);
    } else if s2.len() == 0 {
        lemma_base_val_pos(b, s1);
        assert(false);
    } else {
        let v = base_val_be(b, s1);
        let p1 = base_val_be(b, s1.drop_last());
        let p2 = base_val_be(b, s2.drop_last());
        let l1 = s1.last() as nat;
        let l2 = s2.last() as nat;
        assert(v == p1 * b + l1);
        assert(v == p2 * b + l2);
        assert(l1 == l2 && p1 == p2) by (nonlinear_arith)
            requires
                p1 * b + l1 == p2 * b + l2 && 0 <= l1 < b && 0 <= l2 < b && p1 >= 0 && p2 >= 0,
        ;
        if s1.len() == 1 && s2.len() == 1 {
            assert(s1 =~= s2);
        } else {
            assert(s1.drop_last().len() > 0 ==> s1.drop_last()[0] == s1[0]);
            assert(s2.drop_last().len() > 0 ==> s2.drop_last()[0] == s2[0]);
            lemma_base_repr_unique(b, s1.drop_last(), s2.drop_last());
            assert(s1 =~= s1.drop_last().push(s1.last()));
            assert(s2 =~= s2.drop_last().push(s2.last()));
        }
    }
}

/// Counting a run of leading characters: if the first `k` characters are
/// '0' and the next one (if any) is not, the leading-zero count is `k`.
pub proof fn lemma_leading_zero_chars(s: Seq<char>, k: nat)
    requires
        k <= s.len(),
        forall|i: int| 0 <= i < k ==> s[i] == '0',
        k < s.len() ==> s[k as int] != '0',
    ensures
        leading_zero_chars(s) == k,
    decreases s.len(),
{
    if s.len() > 0 && s[0] == '0' {
        assert(k >= 1);
        lemma_leading_zero_chars(s.skip(1), (k - 1) as nat);
    }
}

/// The same count for runs of '1' characters.
pub proof fn lemma_leading_one_chars(s: Seq<char>, k: nat)
    requires
        k <= s.len(),
        forall|i: int| 0 <= i < k ==> s[i] == '1',
        k < s.len() ==> s[k as int] != '1',
    ensures
        leading_one_chars(s) == k,
    decreases s.len(),
{
    if s.len() > 0 && s[0] == '1' {
        assert(k >= 1);
        lemma_leading_one_chars(s.skip(1), (k - 1) as nat);
    }
}

/// The alphabet is its own inverse: reading back the character of a digit
/// gives the digit, and spelling the digit of a character gives the
/// character.
#[verifier::rlimit(100)]
#[verifier::spinoff_prover]
pub proof fn lemma_b58_alphabet_inverse()
    ensures
        forall|d: u8| d < 58 ==> #[trigger] b58_digit_of(b58_char(d)) == Some(d),
        forall|c: char|
            #[trigger] b58_digit_of(c) is Some ==> b58_char(b58_digit_of(c)->0) == c,
{
}

/// A leading zero digit does not change a big-endian value.
pub proof fn lemma_base_val_skip_zero(b: nat, ds: Seq<u8>)
    requires
        ds.len() > 0,
        ds[0] == 0,
    ensures
        base_val_be(b, ds) == base_val_be(b, ds.skip(1)),
    decreases ds.len(),
{
    if ds.len() == 1 {
        assert(ds.drop_last().len() == 0);
        assert(ds.skip(1).len() == 0);
        assert(base_val_be(b, ds.drop_last()) == 0);
        assert(ds.last() == ds[0]);
        assert(base_val_be(b, ds) == (base_val_be(b, ds.drop_last()) * b + ds.last()) as nat);
        assert(base_val_be(b, ds) == 0);
        assert(base_val_be(b, ds.skip(1)) == 0);
    } else {
        lemma_base_val_skip_zero(b, ds.drop_last());
        assert(ds.drop_last()[0] == ds[0]);
        assert(ds.skip(1).drop_last() =~= ds.drop_last().skip(1));
        assert(ds.skip(1).last() == ds.last());
    }
}

/// Leading zero digits do not change a big-endian value.
pub proof fn lemma_base_val_skip_zeros(b: nat, ds: Seq<u8>, k: int)
    requires
        0 <= k <= ds.len(),
        forall|i: int| 0 <= i < k ==> ds[i] == 0,
    ensures
        base_val_be(b, ds) == base_val_be(b, ds.skip(k)),
    decreases k,
{
    if k > 0 {
        lemma_base_val_skip_zero(b, ds);
        assert forall|i: int| 0 <= i < k - 1 implies ds.skip(1)[i] == 0 by {
            assert(ds.skip(1)[i] == ds[i + 1]);
        }
        lemma_base_val_skip_zeros(b, ds.skip(1), k - 1);
        assert(ds.skip(1).skip(k - 1) =~= ds.skip(k));
    } else {
        assert(ds.skip(0) =~= ds);
    }
}

/// Reading hex digits two by two as bytes keeps the value: base 256 over
/// the bytes equals base 16 over the digits.
pub proof fn lemma_hex_pairs_val(t: Seq<char>)
    requires
        t.len() % 2 == 0,
    ensures
        base_val_be(256, bytes_of_hex(t)) == base_val_be(16, hex_digit_vals(t)),
    decreases t.len(),
{
    if t.len() == 0 {
        assert(bytes_of_hex(t) =~= Seq::<u8>::empty());
        assert(hex_digit_vals(t) =~= Seq::<u8>::empty());
    } else {
        let head = t.take(t.len() - 2);
        lemma_hex_pairs_val(head);
        let hd = hex_digit_vals(t);
        let d1 = hex_digit_val(t[t.len() - 2]) as nat;
        let d2 = hex_digit_val(t[t.len() - 1]) as nat;
        assert(hd.drop_last() =~= hex_digit_vals(t.drop_last()));
        assert(hex_digit_vals(t.drop_last()).drop_last() =~= hex_digit_vals(head));
        assert(base_val_be(16, hd) == base_val_be(16, hd.drop_last()) * 16 + d2);
        assert(base_val_be(16, hd.drop_last()) == base_val_be(16, hex_digit_vals(head)) * 16 + d1);
        let bs = bytes_of_hex(t);
        assert(bs.drop_last() =~= bytes_of_hex(head));
        assert(bs.last() == crate::encoding::hex_byte_at(t, (t.len() - 2) / 2));
        assert(bs.last() as nat == d1 * 16 + d2);
        let x = base_val_be(16, hex_digit_vals(head));
        assert((x * 16 + d1) * 16 + d2 == x * 256 + (d1 * 16 + d2)) by (nonlinear_arith);
    }
}

/// Spelling the bytes a hex string denotes gives back the string, when it
/// is written in uppercase digits.
pub proof fn lemma_upper_hex_inverse(t: Seq<char>)
    requires
        t.len() % 2 == 0,
        all_hex_digits(t),
        forall|i: int| 0 <= i < t.len() ==> !(97 <= (#[trigger] t[i]) as u32 <= 102),
    ensures
        hex_upper_of_bytes(bytes_of_hex(t)) == t,
{
    let bs = bytes_of_hex(t);
    assert forall|i: int| 0 <= i < t.len() implies hex_upper_of_bytes(bs)[i] == t[i] by {
        let k = i / 2;
        let d1 = hex_digit_val(t[2 * k]);
        let d2 = hex_digit_val(t[2 * k + 1]);
        assert(is_hex_digit(t[2 * k]));
        assert(is_hex_digit(t[2 * k + 1]));
        assert(bs[k] == (d1 * 16 + d2) as u8);
        assert(d1 < 16 && d2 < 16);
        assert((d1 * 16 + d2) / 16 == d1 as int && (d1 * 16 + d2) % 16 == d2 as int) by (nonlinear_arith)
            requires
                d1 < 16 && d2 < 16,
        ;
        crate::encoding::lemma_upper_char_of_val(t[i]);
        if i % 2 == 0 {
            assert(hex_upper_of_bytes(bs)[i] == crate::encoding::hex_char_upper(d1));
        } else {
            assert(hex_upper_of_bytes(bs)[i] == crate::encoding::hex_char_upper(d2));
        }
    }
    assert(hex_upper_of_bytes(bs) =~= t);
}

/// Encoding a hex payload in base58 and decoding it again gives back the
/// payload: the round trip holds for every even-length uppercase hex
/// string with a nonzero digit whose value needs at least eight base58
/// digits (every base58check address payload is of this form).
#[verifier::rlimit(100)]
#[verifier::spinoff_prover]
pub proof fn lemma_base58_decode_encode(s: Seq<char>)
    requires
        s.len() % 2 == 0,
        all_hex_digits(s),
        forall|i: int| 0 <= i < s.len() ==> !(97 <= (#[trigger] s[i]) as u32 <= 102),
        leading_zero_chars(s) < s.len(),
        nat_digits_be(58, hex_val_be(s)).len() >= 8,
    ensures
        spec_base58_to_hex(spec_hex_to_base58(s)) == s,
{
    lemma_b58_alphabet_inverse();
    let v = hex_val_be(s);
    let lz = leading_zero_chars(s) as int;
    let j = lz / 2;
    // the first non-zero character carries a nonzero digit, so the value is positive
    lemma_leading_zero_count_vals(s);
    assert forall|i: int| 0 <= i < 2 * j implies hex_digit_vals(s)[i] == 0 by {
        assert(s[i] == '0');
    }
    lemma_base_val_skip_zeros(16, hex_digit_vals(s), 2 * j);
    assert(hex_digit_vals(s).skip(2 * j) =~= hex_digit_vals(s.skip(2 * j)));
    lemma_hex_pairs_val(s.skip(2 * j));
    let body = s.skip(2 * j);
    let bs = bytes_of_hex(body);
    assert(v == base_val_be(256, bs));
    // the first byte of the body is not zero
    assert(bs.len() > 0);
    assert(bs[0] == crate::encoding::hex_byte_at(body, 0));
    assert(body[0] == s[2 * j] && body[1] == s[2 * j + 1]);
    if lz % 2 == 0 {
        assert(s[2 * j] != '0');
        crate::encoding::lemma_nonzero_hex_digit(s[2 * j]);
        assert(bs[0] as int >= 16 * hex_digit_val(s[2 * j]));
    } else {
        assert(s[2 * j] == '0' && s[2 * j + 1] != '0');
        crate::encoding::lemma_nonzero_hex_digit(s[2 * j + 1]);
    }
    assert(bs[0] != 0);
    lemma_base_val_pos(256, bs);
    assert(v >= 1);
    // the encoded form: j ones, then the value's base58 digit characters
    lemma_nat_digits_props(58, v);
    let ds = nat_digits_be(58, v);
    let e = spec_hex_to_base58(s);
    assert(e == ones(j as nat) + spec_int_to_base58(v));
    assert(spec_int_to_base58(v) == b58_chars(ds));
    assert(e == ones(j as nat) + b58_chars(ds));
    // its leading ones are exactly j: the first digit character is not '1'
    assert(b58_chars(ds)[0] == b58_char(ds[0]));
    assert(ds[0] != 0);
    assert(b58_digit_of(b58_char(ds[0])) == Some(ds[0]));
    assert(b58_char(ds[0]) != '1') by {
        if b58_char(ds[0]) == '1' {
            assert(b58_digit_of('1' as char) == Some(0u8));
        }
    }
    assert forall|i: int| 0 <= i < j implies e[i] == '1' by {
        assert(e[i] == ones(j as nat)[i]);
    }
    assert(e[j] == b58_chars(ds)[0]);
    lemma_leading_one_chars(e, j as nat);
    assert(leading_one_chars(e) == j);
    assert(leading_one_chars(e) < e.len());
    // the decoded digit values are j zeros then the digits of ds
    assert forall|i: int| 0 <= i < e.len() implies b58_digit_of(#[trigger] e[i]) is Some by {
        if i < j {
            assert(e[i] == '1');
        } else {
            assert(e[i] == b58_chars(ds)[i - j]);
            assert(e[i] == b58_char(ds[i - j]));
        }
    }
    let dv = b58_digit_vals(e);
    assert forall|i: int| 0 <= i < j implies dv[i] == 0 by {
        assert(e[i] == '1');
    }
    assert(dv.skip(j) =~= ds) by {
        assert forall|i: int| 0 <= i < ds.len() implies dv.skip(j)[i] == ds[i] by {
            assert(dv.skip(j)[i] == dv[i + j]);
            assert(e[i + j] == b58_char(ds[i]));
        }
    }
    lemma_base_val_skip_zeros(58, dv, j);
    assert(base58_val(e) == base_val_be(58, ds));
    assert(base58_val(e) == v);
    // the decoded bytes are the body's bytes, by uniqueness
    lemma_nat_digits_props(256, v);
    assert forall|i: int| 0 <= i < bs.len() implies (#[trigger] bs[i] as nat) < 256 by {}
    lemma_base_repr_unique(256, nat_digits_be(256, v), bs);
    let h = spec_base58_to_hex(e);
    assert(h == zeros(lo_double(e)) + hex_upper_of_bytes(bs));
    assert(lo_double(e) == 2 * j);
    // the body's hex spelling is the body itself
    assert(all_hex_digits(body)) by {
        assert forall|i: int| 0 <= i < body.len() implies is_hex_digit(#[trigger] body[i]) by {
            assert(body[i] == s[i + 2 * j]);
        }
    }
    assert forall|i: int| 0 <= i < body.len() implies !(97 <= (#[trigger] body[i]) as u32 <= 102) by {
        assert(body[i] == s[i + 2 * j]);
    }
    lemma_upper_hex_inverse(body);
    assert forall|i: int| 0 <= i < s.len() implies h[i] == s[i] by {
        if i < 2 * j {
            assert(h[i] == '0');
            assert(s[i] == '0');
        } else {
            assert(h[i] == hex_upper_of_bytes(bs)[i - 2 * j]);
            assert(hex_upper_of_bytes(bs)[i - 2 * j] == body[i - 2 * j]);
            assert(body[i - 2 * j] == s[i]);
        }
    }
    assert(h =~= s);
}

/// The characters before the leading-zero count are '0' and the one at it
/// (when inside the string) is not.
pub proof fn lemma_leading_zero_count_vals(s: Seq<char>)
    ensures
        leading_zero_chars(s) <= s.len(),
        forall|i: int| 0 <= i < leading_zero_chars(s) ==> s[i] == '0',
        leading_zero_chars(s) < s.len() ==> s[leading_zero_chars(s) as int] != '0',
    decreases s.len(),
{
    if s.len() > 0 && s[0] == '0' {
        lemma_leading_zero_count_vals(s.skip(1));
        assert forall|i: int| 0 <= i < leading_zero_chars(s) implies s[i] == '0' by {
            if i > 0 {
                assert(s.skip(1)[i - 1] == s[i]);
            }
        }
        if leading_zero_chars(s) < s.len() {
            assert(s.skip(1)[leading_zero_chars(s) - 1] == s[leading_zero_chars(s) as int]);
        }
    }
}

/// The characters before the leading-one count are '1' and the one at it
/// (when inside the string) is not.
pub proof fn lemma_leading_one_count_vals(s: Seq<char>)
    ensures
        leading_one_chars(s) <= s.len(),
        forall|i: int| 0 <= i < leading_one_chars(s) ==> s[i] == '1',
        leading_one_chars(s) < s.len() ==> s[leading_one_chars(s) as int] != '1',
    decreases s.len(),
{
    if s.len() > 0 && s[0] == '1' {
        lemma_leading_one_count_vals(s.skip(1));
        assert forall|i: int| 0 <= i < leading_one_chars(s) implies s[i] == '1' by {
            if i > 0 {
                assert(s.skip(1)[i - 1] == s[i]);
            }
        }
        if leading_one_chars(s) < s.len() {
            assert(s.skip(1)[leading_one_chars(s) - 1] == s[leading_one_chars(s) as int]);
        }
    }
}

/// The digit values of an alphabet string after its leading '1' run are
/// the canonical base58 digits of its value, and the decoded hex keeps the
/// value and turns each leading '1' into a '0' pair.
#[verifier::rlimit(100)]
#[verifier::spinoff_prover]
proof fn lemma_base58_decode_shape(a: Seq<char>)
    requires
        all_b58_chars(a),
        leading_one_chars(a) < a.len(),
    ensures
        base58_val(a) >= 1,
        nat_digits_be(58, base58_val(a)) == b58_digit_vals(a).skip(leading_one_chars(a) as int),
        lz_half(spec_base58_to_hex(a)) == leading_one_chars(a),
        hex_val_be(spec_base58_to_hex(a)) == base58_val(a),
        leading_zero_chars(spec_base58_to_hex(a)) < spec_base58_to_hex(a).len(),
{
    lemma_b58_alphabet_inverse();
    lemma_leading_one_count_vals(a);
    let m = leading_one_chars(a) as int;
    let dv = b58_digit_vals(a);
    assert forall|i: int| 0 <= i < m implies dv[i] == 0 by {
        assert(a[i] == '1');
    }
    assert forall|i: int| 0 <= i < dv.len() implies (#[trigger] dv[i] as nat) < 58 by {
        assert(b58_digit_of(a[i]) is Some);
    }
    let ds = dv.skip(m);
    assert forall|i: int| 0 <= i < ds.len() implies (#[trigger] ds[i] as nat) < 58 by {
        assert(ds[i] == dv[i + m]);
    }
    assert(b58_digit_of(a[m]) is Some);
    assert(ds[0] == b58_digit_of(a[m])->0);
    assert(ds[0] != 0) by {
        if b58_digit_of(a[m])->0 == 0 {
            assert(b58_char(b58_digit_of(a[m])->0) == a[m]);
            assert(b58_char(0) == '1');
        }
    }
    lemma_base_val_skip_zeros(58, dv, m);
    let v = base58_val(a);
    assert(v == base_val_be(58, ds));
    lemma_base_val_pos(58, ds);
    assert(v >= 1);
    lemma_nat_digits_props(58, v);
    lemma_base_repr_unique(58, nat_digits_be(58, v), ds);
    assert(nat_digits_be(58, v) == ds);
    lemma_nat_digits_props(256, v);
    let bsv = nat_digits_be(256, v);
    assert(bsv.len() >= 1 && bsv[0] != 0);
    let h = spec_base58_to_hex(a);
    assert(lo_double(a) == 2 * m);
    assert(h == zeros((2 * m) as nat) + hex_upper_of_bytes(bsv));
    crate::encoding::lemma_hex_upper_round_trip(bsv);
    assert forall|i: int| 0 <= i < 2 * m implies h[i] == '0' by {}
    assert(h[2 * m] == crate::encoding::hex_char_upper(bsv[0] / 16));
    assert(h.len() == 2 * m + 2 * bsv.len());
    if bsv[0] / 16 == 0 {
        assert(h[2 * m] == '0');
        assert(bsv[0] % 16 == bsv[0]);
        assert(h[2 * m + 1] == crate::encoding::hex_char_upper((bsv[0] % 16) as u8));
        assert(h[2 * m + 1] != '0');
        lemma_leading_zero_chars(h, (2 * m + 1) as nat);
    } else {
        assert(h[2 * m] != '0');
        lemma_leading_zero_chars(h, (2 * m) as nat);
    }
    assert(leading_zero_chars(h) < h.len());
    assert(lz_half(h) == m);
    assert(hex_digit_vals(h).skip(2 * m) =~= hex_digit_vals(h.skip(2 * m)));
    assert(h.skip(2 * m) =~= hex_upper_of_bytes(bsv));
    assert forall|i: int| 0 <= i < 2 * m implies hex_digit_vals(h)[i] == 0 by {
        assert(h[i] == '0');
    }
    lemma_base_val_skip_zeros(16, hex_digit_vals(h), 2 * m);
    lemma_hex_pairs_val(hex_upper_of_bytes(bsv));
    assert(bytes_of_hex(hex_upper_of_bytes(bsv)) == bsv);
    assert(hex_val_be(h) == base_val_be(256, bsv));
    assert(hex_val_be(h) == v);
}

/// Decoding a base58 address and encoding the result again gives back the
/// address: the round trip holds for every alphabet string whose body
/// after the leading '1' run is at least eight characters (every base58
/// address of a checksummed payload is of this form).
#[verifier::rlimit(100)]
#[verifier::spinoff_prover]
pub proof fn lemma_base58_encode_decode(a: Seq<char>)
    requires
        all_b58_chars(a),
        leading_one_chars(a) < a.len(),
        a.len() - leading_one_chars(a) >= 8,
    ensures
        spec_hex_to_base58(spec_base58_to_hex(a)) == a,
{
    lemma_b58_alphabet_inverse();
    lemma_leading_one_count_vals(a);
    lemma_base58_decode_shape(a);
    let m = leading_one_chars(a) as int;
    let dv = b58_digit_vals(a);
    let ds = dv.skip(m);
    let v = base58_val(a);
    let h = spec_base58_to_hex(a);
    let e = spec_hex_to_base58(h);
    assert(e == ones(m as nat) + spec_int_to_base58(v));
    assert(nat_digits_be(58, v) == ds);
    assert(ds.len() == a.len() - m);
    assert(b58_chars(ds).len() >= 8);
    assert(spec_int_to_base58(v) == b58_chars(ds));
    assert forall|i: int| 0 <= i < a.len() implies e[i] == a[i] by {
        if i < m {
            assert(e[i] == '1');
            assert(a[i] == '1');
        } else {
            assert(e[i] == b58_chars(ds)[i - m]);
            assert(b58_chars(ds)[i - m] == b58_char(ds[i - m]));
            assert(ds[i - m] == dv[i]);
            assert(b58_digit_of(a[i]) is Some);
            assert(dv[i] == b58_digit_of(a[i])->0);
            assert(b58_char(b58_digit_of(a[i])->0) == a[i]);
        }
    }
    assert(e =~= a);
}

/// Encodes a big-endian hex string in base58: one '1' per pair of leading
/// zero characters, then the value's base58 digits padded with '1' to at
/// least 8 characters.
pub fn hex_to_base58(hex: &str) -> (r: String)
    requires
        all_hex_digits(hex@),
    ensures
        r@ == spec_hex_to_base58(hex@),
{
    let n = hex.unicode_len();
    let mut k: usize = 0;
    while k < n && hex.get_char(k) == '0'
        invariant
            n == hex@.len(),
            k <= n,
            forall|i: int| 0 <= i < k ==> hex@[i] == '0',
        decreases n - k,
    {
        k += 1;
    }
    proof {
        lemma_leading_zero_chars(hex@, k as nat);
    }
    let j: usize = if k == n {
        0
    } else {
        k / 2
    };
    let digits = hex_vals(hex);
    let b58 = rebase_digits_be(&digits, 16, 58);
    let ghost v = hex_val_be(hex@);
    let mut out = String::new();
    let mut i: usize = 0;
    while i < j
        invariant
            i <= j,
            out@ =~= ones(i as nat),
        decreases j - i,
    {
        push_char(&mut out, '1');
        proof {
            assert(out@ =~= ones((i + 1) as nat));
        }
        i += 1;
    }
    if b58.len() == 1 && b58[0] == 0 {
        proof {
            if v != 0 {
                assert(b58@[0] != 0);
            }
            assert(nat_digits_be(58, v) =~= Seq::<u8>::empty());
            assert(b58_chars(nat_digits_be(58, v)) =~= Seq::<char>::empty());
        }
        let mut p: usize = 0;
        while p < 8
            invariant
                p <= 8,
                out@ =~= ones((j + p) as nat),
            decreases 8 - p,
        {
            push_char(&mut out, '1');
            proof {
                assert(out@ =~= ones((j + p + 1) as nat));
            }
            p += 1;
        }
        proof {
            assert(out@ =~= spec_hex_to_base58(hex@));
        }
        out
    } else {
        proof {
            if v == 0 {
                assert(b58@ =~= seq![0u8]);
                assert(false);
            }
            lemma_nat_digits_props(58, v);
            lemma_base_repr_unique(58, b58@, nat_digits_be(58, v));
        }
        let pad: usize = if b58.len() < 8 {
            8 - b58.len()
        } else {
            0
        };
        let mut p: usize = 0;
        while p < pad
            invariant
                p <= pad,
                out@ =~= ones((j + p) as nat),
            decreases pad - p,
        {
            push_char(&mut out, '1');
            proof {
                assert(out@ =~= ones((j + p + 1) as nat));
            }
            p += 1;
        }
        let mut q: usize = 0;
        while q < b58.len()
            invariant
                q <= b58@.len(),
                forall|i2: int| 0 <= i2 < b58@.len() ==> (b58@[i2] as u32) < 58,
                out@ =~= ones((j + pad) as nat) + b58_chars(b58@.take(q as int)),
            decreases b58@.len() - q,
        {
            push_char(&mut out, b58_digit_char(b58[q]));
            proof {
                assert(b58_chars(b58@.take(q + 1 as int)) =~= b58_chars(
                    b58@.take(q as int),
                ).push(b58_char(b58@[q as int])));
            }
            q += 1;
        }
        proof {
            assert(b58@.take(b58@.len() as int) =~= b58@);
            assert(ones((j + pad) as nat) =~= ones(j as nat) + ones(pad as nat));
            assert(out@ =~= spec_hex_to_base58(hex@));
        }
        out
    }
}

/// Decodes a base58 string to uppercase hex: two '0' characters per
/// leading '1', then the value's big-endian bytes in hex; fails on any
/// character outside the alphabet.
pub fn base58_to_hex(base58: &str) -> (r: Result<String, TxError>)
    ensures
        match r {
            Ok(h) => all_b58_chars(base58@) && h@ == spec_base58_to_hex(base58@),
            Err(e) => e == TxError::InvalidBase58Char && !all_b58_chars(base58@),
        },
{
    let n = base58.unicode_len();
    let mut digits: Vec<u8> = Vec::new();
    let mut i: usize = 0;
    while i < n
        invariant
            n == base58@.len(),
            i <= n,
            digits@ =~= b58_digit_vals(base58@.take(i as int)),
            forall|k: int| 0 <= k < i ==> b58_digit_of(#[trigger] base58@[k]) is Some,
            forall|k: int| 0 <= k < digits@.len() ==> (digits@[k] as u32) < 58,
        decreases n - i,
    {
        let c = base58.get_char(i);
        match b58_char_digit(c) {
            Some(d) => {
                digits.push(d);
                proof {
                    assert(digits@ =~= b58_digit_vals(base58@.take(i + 1 as int)));
                }
            },
            None => {
                proof {
                    assert(b58_digit_of(base58@[i as int]) is None);
                }
                return Err(TxError::InvalidBase58Char);
            },
        }
        i += 1;
    }
    proof {
        assert(base58@.take(n as int) =~= base58@);
    }
    let mut k: usize = 0;
    while k < n && base58.get_char(k) == '1'
        invariant
            n == base58@.len(),
            k <= n,
            forall|i2: int| 0 <= i2 < k ==> base58@[i2] == '1',
        decreases n - k,
    {
        k += 1;
    }
    proof {
        lemma_leading_one_chars(base58@, k as nat);
    }
    let bytes = rebase_digits_be(&digits, 58, 256);
    let ghost v = base58_val(base58@);
    proof {
        if v == 0 {
            assert(bytes@ =~= seq![0u8]);
        } else {
            lemma_nat_digits_props(256, v);
            assert(forall|i2: int| 0 <= i2 < bytes@.len() ==> (bytes@[i2] as u32) < 256);
            lemma_base_repr_unique(256, bytes@, nat_digits_be(256, v));
        }
    }
    let mut out = String::new();
    if k < n {
        let mut p: usize = 0;
        while p < k
            invariant
                p <= k,
                out@ =~= zeros((2 * p) as nat),
            decreases k - p,
        {
            push_char(&mut out, '0');
            push_char(&mut out, '0');
            proof {
                assert(out@ =~= zeros((2 * (p + 1)) as nat));
            }
            p += 1;
        }
    }
    let hex = bytes_to_hex_upper(&bytes);
    vstd::string::StringExecFns::append(&mut out, hex.as_str());
    proof {
        assert(out@ =~= spec_base58_to_hex(base58@));
    }
    Ok(out)
}

} // verus!
