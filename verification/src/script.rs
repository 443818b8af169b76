//! The script assembler: the closed opcode mnemonic table, the
//! case-insensitive token resolver, and the assembler that concatenates an
//! ordered token list into a script's hex spelling. Literal hex tokens pass
//! through verbatim; the caller is responsible for length-prefixing push
//! data before handing it in.

use vstd::prelude::*;
use vstd::string::StrSliceExecFns;

use crate::encoding::{hex_char_lower, hex_lower_of_bytes};
use crate::strutil::{push_char, str_eq};

verus! {

/// The ASCII uppercase counterpart of a character.
pub open spec fn upper_char(c: char) -> char {
    if c == 'a' {
        'A'
    } else if c == 'b' {
        'B'
    } else if c == 'c' {
        'C'
    } else if c == 'd' {
        'D'
    } else if c == 'e' {
        'E'
    } else if c == 'f' {
        'F'
    } else if c == 'g' {
        'G'
    } else if c == 'h' {
        'H'
    } else if c == 'i' {
        'I'
    } else if c == 'j' {
        'J'
    } else if c == 'k' {
        'K'
    } else if c == 'l' {
        'L'
    } else if c == 'm' {
        'M'
    } else if c == 'n' {
        'N'
    } else if c == 'o' {
        'O'
    } else if c == 'p' {
        'P'
    } else if c == 'q' {
        'Q'
    } else if c == 'r' {
        'R'
    } else if c == 's' {
        'S'
    } else if c == 't' {
        'T'
    } else if c == 'u' {
        'U'
    } else if c == 'v' {
        'V'
    } else if c == 'w' {
        'W'
    } else if c == 'x' {
        'X'
    } else if c == 'y' {
        'Y'
    } else if c == 'z' {
        'Z'
    } else {
        c
    }
}

/// A character sequence mapped to ASCII uppercase.
pub open spec fn upper_seq(s: Seq<char>) -> Seq<char> {
    s.map_values(|c: char| upper_char(c))
}

/// The opcode byte of an (uppercase) mnemonic, or None for any other word.
pub open spec fn spec_opcode(w: Seq<char>) -> Option<u8> {
    if w == "OP_FALSE"@ {
        Some(0x00u8)
    } else if w == "OP_0"@ {
        Some(0x00u8)
    } else if w == "OP_PUSHDATA1"@ {
        Some(0x4cu8)
    } else if w == "OP_PUSHDATA2"@ {
        Some(0x4du8)
    } else if w == "OP_PUSHDATA4"@ {
        Some(0x4eu8)
    } else if w == "OP_1NEGATE"@ {
        Some(0x4fu8)
    } else if w == "OP_TRUE"@ {
        Some(0x51u8)
    } else if w == "OP_1"@ {
        Some(0x51u8)
    } else if w == "OP_2"@ {
        Some(0x52u8)
    } else if w == "OP_3"@ {
        Some(0x53u8)
    } else if w == "OP_4"@ {
        Some(0x54u8)
    } else if w == "OP_5"@ {
        Some(0x55u8)
    } else if w == "OP_6"@ {
        Some(0x56u8)
    } else if w == "OP_7"@ {
        Some(0x57u8)
    } else if w == "OP_8"@ {
        Some(0x58u8)
    } else if w == "OP_9"@ {
        Some(0x59u8)
    } else if w == "OP_10"@ {
        Some(0x5au8)
    } else if w == "OP_11"@ {
        Some(0x5bu8)
    } else if w == "OP_12"@ {
        Some(0x5cu8)
    } else if w == "OP_13"@ {
        Some(0x5du8)
    } else if w == "OP_14"@ {
        Some(0x5eu8)
    } else if w == "OP_15"@ {
        Some(0x5fu8)
    } else if w == "OP_16"@ {
        Some(0x60u8)
    } else if w == "OP_NOP"@ {
        Some(0x61u8)
    } else if w == "OP_IF"@ {
        Some(0x63u8)
    } else if w == "OP_NOTIF"@ {
        Some(0x64u8)
    } else if w == "OP_ELSE"@ {
        Some(0x67u8)
    } else if w == "OP_ENDIF"@ {
        Some(0x68u8)
    } else if w == "OP_VERIFY"@ {
        Some(0x69u8)
    } else if w == "OP_RETURN"@ {
        Some(0x6au8)
    } else if w == "OP_TOALTSTACK"@ {
        Some(0x6bu8)
    } else if w == "OP_FROMALTSTACK"@ {
        Some(0x6cu8)
    } else if w == "OP_IFDUP"@ {
        Some(0x73u8)
    } else if w == "OP_DEPTH"@ {
        Some(0x74u8)
    } else if w == "OP_DROP"@ {
        Some(0x75u8)
    } else if w == "OP_DUP"@ {
        Some(0x76u8)
    } else if w == "OP_NIP"@ {
        Some(0x77u8)
    } else if w == "OP_OVER"@ {
        Some(0x78u8)
    } else if w == "OP_PICK"@ {
        Some(0x79u8)
    } else if w == "OP_ROLL"@ {
        Some(0x7au8)
    } else if w == "OP_ROT"@ {
        Some(0x7bu8)
    } else if w == "OP_SWAP"@ {
        Some(0x7cu8)
    } else if w == "OP_TUCK"@ {
        Some(0x7du8)
    } else if w == "OP_2DROP"@ {
        Some(0x6du8)
    } else if w == "OP_2DUP"@ {
        Some(0x6eu8)
    } else if w == "OP_3DUP"@ {
        Some(0x6fu8)
    } else if w == "OP_2OVER"@ {
        Some(0x70u8)
    } else if w == "OP_2ROT"@ {
        Some(0x71u8)
    } else if w == "OP_2SWAP"@ {
        Some(0x72u8)
    } else if w == "OP_SIZE"@ {
        Some(0x82u8)
    } else if w == "OP_EQUAL"@ {
        Some(0x87u8)
    } else if w == "OP_EQUALVERIFY"@ {
        Some(0x88u8)
    } else if w == "OP_1ADD"@ {
        Some(0x8bu8)
    } else if w == "OP_1SUB"@ {
        Some(0x8cu8)
    } else if w == "OP_NEGATE"@ {
        Some(0x8fu8)
    } else if w == "OP_ABS"@ {
        Some(0x90u8)
    } else if w == "OP_NOT"@ {
        Some(0x91u8)
    } else if w == "OP_0NOTEQUAL"@ {
        Some(0x92u8)
    } else if w == "OP_ADD"@ {
        Some(0x93u8)
    } else if w == "OP_SUB"@ {
        Some(0x94u8)
    } else if w == "OP_BOOLAND"@ {
        Some(0x9au8)
    } else if w == "OP_BOOLOR"@ {
        Some(0x9bu8)
    } else if w == "OP_NUMEQUAL"@ {
        Some(0x9cu8)
    } else if w == "OP_NUMEQUALVERIFY"@ {
        Some(0x9du8)
    } else if w == "OP_NUMNOTEQUAL"@ {
        Some(0x9eu8)
    } else if w == "OP_LESSTHAN"@ {
        Some(0x9fu8)
    } else if w == "OP_GREATERTHAN"@ {
        Some(0xa0u8)
    } else if w == "OP_LESSTHANOREQUAL"@ {
        Some(0xa1u8)
    } else if w == "OP_GREATERTHANOREQUAL"@ {
        Some(0xa2u8)
    } else if w == "OP_MIN"@ {
        Some(0xa3u8)
    } else if w == "OP_MAX"@ {
        Some(0xa4u8)
    } else if w == "OP_WITHIN"@ {
        Some(0xa5u8)
    } else if w == "OP_RIPEMD160"@ {
        Some(0xa6u8)
    } else if w == "OP_SHA1"@ {
        Some(0xa7u8)
    } else if w == "OP_SHA256"@ {
        Some(0xa8u8)
    } else if w == "OP_HASH160"@ {
        Some(0xa9u8)
    } else if w == "OP_HASH256"@ {
        Some(0xaau8)
    } else if w == "OP_CODESEPARATOR"@ {
        Some(0xabu8)
    } else if w == "OP_CHECKSIG"@ {
        Some(0xacu8)
    } else if w == "OP_CHECKSIGVERIFY"@ {
        Some(0xadu8)
    } else if w == "OP_CHECKMULTISIG"@ {
        Some(0xaeu8)
    } else if w == "OP_CHECKMULTISIGVERIFY"@ {
        Some(0xafu8)
    } else if w == "OP_CHECKLOCKTIMEVERIFY"@ {
        Some(0xb1u8)
    } else if w == "OP_CHECKSEQUENCEVERIFY"@ {
        Some(0xb2u8)
    } else {
        None
    }
}

/// The hex spelling a single token contributes to an assembled script: a
/// recognized mnemonic becomes its opcode byte's two lowercase hex digits;
/// any other token passes through verbatim.
pub open spec fn word_hex(w: Seq<char>) -> Seq<char> {
    match spec_opcode(upper_seq(w)) {
        Some(b) => hex_lower_of_bytes(seq![b]),
        None => w,
    }
}

/// The hex spelling of a whole token list: the concatenation of each
/// token's contribution, in order.
pub open spec fn assembled(ws: Seq<Seq<char>>) -> Seq<char>
    decreases ws.len(),
{
    if ws.len() == 0 {
        Seq::empty()
    } else {
        assembled(ws.drop_last()) + word_hex(ws.last())
    }
}

/// The lowercase hexadecimal digit character of a value below 16.
pub fn hex_lower_char(d: u8) -> (r: char)
    requires
        d < 16,
    ensures
        r == hex_char_lower(d),
{
    match d {
        0 => '0',
        1 => '1',
        2 => '2',
        3 => '3',
        4 => '4',
        5 => '5',
        6 => '6',
        7 => '7',
        8 => '8',
        9 => '9',
        10 => 'a',
        11 => 'b',
        12 => 'c',
        13 => 'd',
        14 => 'e',
        _ => 'f',
    }
}

/// Maps a character to ASCII uppercase.
pub fn to_upper_char(c: char) -> (r: char)
    ensures
        r == upper_char(c),
{
    match c {
        'a' => 'A',
        'b' => 'B',
        'c' => 'C',
        'd' => 'D',
        'e' => 'E',
        'f' => 'F',
        'g' => 'G',
        'h' => 'H',
        'i' => 'I',
        'j' => 'J',
        'k' => 'K',
        'l' => 'L',
        'm' => 'M',
        'n' => 'N',
        'o' => 'O',
        'p' => 'P',
        'q' => 'Q',
        'r' => 'R',
        's' => 'S',
        't' => 'T',
        'u' => 'U',
        'v' => 'V',
        'w' => 'W',
        'x' => 'X',
        'y' => 'Y',
        'z' => 'Z',
        _ => c,
    }
}

/// Maps a string to ASCII uppercase.
pub fn to_upper(s: &str) -> (r: String)
    ensures
        r@ == upper_seq(s@),
{
    let n = s.unicode_len();
    let mut out = String::new();
    let mut i: usize = 0;
    while i < n
        invariant
            n == s@.len(),
            i <= n,
            out@ == upper_seq(s@.take(i as int)),
        decreases n - i,
    {
        push_char(&mut out, to_upper_char(s.get_char(i)));
        proof {
            assert(upper_seq(s@.take(i + 1 as int)) =~= upper_seq(s@.take(i as int)).push(
                upper_char(s@[i as int]),
            ));
        }
        i += 1;
    }
    proof {
        assert(s@.take(n as int) =~= s@);
        assert(out@ =~= upper_seq(s@));
    }
    out
}

/// Resolves an already-uppercased word through the opcode table.
#[verifier::rlimit(50)]
pub fn opcode_byte(word: &str) -> (r: Option<u8>)
    ensures
        r == spec_opcode(word@),
{
    if str_eq(word, "OP_FALSE") {
        Some(0x00u8)
    } else if str_eq(word, "OP_0") {
        Some(0x00u8)
    } else if str_eq(word, "OP_PUSHDATA1") {
        Some(0x4cu8)
    } else if str_eq(word, "OP_PUSHDATA2") {
        Some(0x4du8)
    } else if str_eq(word, "OP_PUSHDATA4") {
        Some(0x4eu8)
    } else if str_eq(word, "OP_1NEGATE") {
        Some(0x4fu8)
    } else if str_eq(word, "OP_TRUE") {
        Some(0x51u8)
    } else if str_eq(word, "OP_1") {
        Some(0x51u8)
    } else if str_eq(word, "OP_2") {
        Some(0x52u8)
    } else if str_eq(word, "OP_3") {
        Some(0x53u8)
    } else if str_eq(word, "OP_4") {
        Some(0x54u8)
    } else if str_eq(word, "OP_5") {
        Some(0x55u8)
    } else if str_eq(word, "OP_6") {
        Some(0x56u8)
    } else if str_eq(word, "OP_7") {
        Some(0x57u8)
    } else if str_eq(word, "OP_8") {
        Some(0x58u8)
    } else if str_eq(word, "OP_9") {
        Some(0x59u8)
    } else if str_eq(word, "OP_10") {
        Some(0x5au8)
    } else if str_eq(word, "OP_11") {
        Some(0x5bu8)
    } else if str_eq(word, "OP_12") {
        Some(0x5cu8)
    } else if str_eq(word, "OP_13") {
        Some(0x5du8)
    } else if str_eq(word, "OP_14") {
        Some(0x5eu8)
    } else if str_eq(word, "OP_15") {
        Some(0x5fu8)
    } else if str_eq(word, "OP_16") {
        Some(0x60u8)
    } else if str_eq(word, "OP_NOP") {
        Some(0x61u8)
    } else if str_eq(word, "OP_IF") {
        Some(0x63u8)
    } else if str_eq(word, "OP_NOTIF") {
        Some(0x64u8)
    } else if str_eq(word, "OP_ELSE") {
        Some(0x67u8)
    } else if str_eq(word, "OP_ENDIF") {
        Some(0x68u8)
    } else if str_eq(word, "OP_VERIFY") {
        Some(0x69u8)
    } else if str_eq(word, "OP_RETURN") {
        Some(0x6au8)
    } else if str_eq(word, "OP_TOALTSTACK") {
        Some(0x6bu8)
    } else if str_eq(word, "OP_FROMALTSTACK") {
        Some(0x6cu8)
    } else if str_eq(word, "OP_IFDUP") {
        Some(0x73u8)
    } else if str_eq(word, "OP_DEPTH") {
        Some(0x74u8)
    } else if str_eq(word, "OP_DROP") {
        Some(0x75u8)
    } else if str_eq(word, "OP_DUP") {
        Some(0x76u8)
    } else if str_eq(word, "OP_NIP") {
        Some(0x77u8)
    } else if str_eq(word, "OP_OVER") {
        Some(0x78u8)
    } else if str_eq(word, "OP_PICK") {
        Some(0x79u8)
    } else if str_eq(word, "OP_ROLL") {
        Some(0x7au8)
    } else if str_eq(word, "OP_ROT") {
        Some(0x7bu8)
    } else if str_eq(word, "OP_SWAP") {
        Some(0x7cu8)
    } else if str_eq(word, "OP_TUCK") {
        Some(0x7du8)
    } else if str_eq(word, "OP_2DROP") {
        Some(0x6du8)
    } else if str_eq(word, "OP_2DUP") {
        Some(0x6eu8)
    } else if str_eq(word, "OP_3DUP") {
        Some(0x6fu8)
    } else if str_eq(word, "OP_2OVER") {
        Some(0x70u8)
    } else if str_eq(word, "OP_2ROT") {
        Some(0x71u8)
    } else if str_eq(word, "OP_2SWAP") {
        Some(0x72u8)
    } else if str_eq(word, "OP_SIZE") {
        Some(0x82u8)
    } else if str_eq(word, "OP_EQUAL") {
        Some(0x87u8)
    } else if str_eq(word, "OP_EQUALVERIFY") {
        Some(0x88u8)
    } else if str_eq(word, "OP_1ADD") {
        Some(0x8bu8)
    } else if str_eq(word, "OP_1SUB") {
        Some(0x8cu8)
    } else if str_eq(word, "OP_NEGATE") {
        Some(0x8fu8)
    } else if str_eq(word, "OP_ABS") {
        Some(0x90u8)
    } else if str_eq(word, "OP_NOT") {
        Some(0x91u8)
    } else if str_eq(word, "OP_0NOTEQUAL") {
        Some(0x92u8)
    } else if str_eq(word, "OP_ADD") {
        Some(0x93u8)
    } else if str_eq(word, "OP_SUB") {
        Some(0x94u8)
    } else if str_eq(word, "OP_BOOLAND") {
        Some(0x9au8)
    } else if str_eq(word, "OP_BOOLOR") {
        Some(0x9bu8)
    } else if str_eq(word, "OP_NUMEQUAL") {
        Some(0x9cu8)
    } else if str_eq(word, "OP_NUMEQUALVERIFY") {
        Some(0x9du8)
    } else if str_eq(word, "OP_NUMNOTEQUAL") {
        Some(0x9eu8)
    } else if str_eq(word, "OP_LESSTHAN") {
        Some(0x9fu8)
    } else if str_eq(word, "OP_GREATERTHAN") {
        Some(0xa0u8)
    } else if str_eq(word, "OP_LESSTHANOREQUAL") {
        Some(0xa1u8)
    } else if str_eq(word, "OP_GREATERTHANOREQUAL") {
        Some(0xa2u8)
    } else if str_eq(word, "OP_MIN") {
        Some(0xa3u8)
    } else if str_eq(word, "OP_MAX") {
        Some(0xa4u8)
    } else if str_eq(word, "OP_WITHIN") {
        Some(0xa5u8)
    } else if str_eq(word, "OP_RIPEMD160") {
        Some(0xa6u8)
    } else if str_eq(word, "OP_SHA1") {
        Some(0xa7u8)
    } else if str_eq(word, "OP_SHA256") {
        Some(0xa8u8)
    } else if str_eq(word, "OP_HASH160") {
        Some(0xa9u8)
    } else if str_eq(word, "OP_HASH256") {
        Some(0xaau8)
    } else if str_eq(word, "OP_CODESEPARATOR") {
        Some(0xabu8)
    } else if str_eq(word, "OP_CHECKSIG") {
        Some(0xacu8)
    } else if str_eq(word, "OP_CHECKSIGVERIFY") {
        Some(0xadu8)
    } else if str_eq(word, "OP_CHECKMULTISIG") {
        Some(0xaeu8)
    } else if str_eq(word, "OP_CHECKMULTISIGVERIFY") {
        Some(0xafu8)
    } else if str_eq(word, "OP_CHECKLOCKTIMEVERIFY") {
        Some(0xb1u8)
    } else if str_eq(word, "OP_CHECKSEQUENCEVERIFY") {
        Some(0xb2u8)
    } else {
        None
    }
}

/// Resolves one raw token: the opcode byte of a mnemonic (matched without
/// regard to case), or None for a literal token.
pub fn resolve_token(word: &str) -> (r: Option<u8>)
    ensures
        r == spec_opcode(upper_seq(word@)),
{
    let upper = to_upper(word);
    opcode_byte(upper.as_str())
}

/// Assembles an ordered token list into a script's hex spelling: mnemonics
/// become lowercase opcode hex, unknown tokens pass through verbatim.
pub fn script(tokens: Vec<&str>) -> (r: String)
    ensures
        r@ == assembled(tokens@.map_values(|w: &str| w@)),
{
    let ws = tokens;
    let ghost gws = ws@.map_values(|w: &str| w@);
    let mut out = String::new();
    let mut i: usize = 0;
    while i < ws.len()
        invariant
            gws == ws@.map_values(|w: &str| w@),
            i <= ws@.len(),
            out@ == assembled(gws.take(i as int)),
        decreases ws@.len() - i,
    {
        let word = ws[i];
        match resolve_token(word) {
            Some(b) => {
                push_char(&mut out, hex_lower_char(b / 16));
                push_char(&mut out, hex_lower_char(b % 16));
                proof {
                    assert(hex_lower_of_bytes(seq![b]) =~= seq![
                        hex_char_lower(b / 16),
                        hex_char_lower((b % 16) as u8),
                    ]);
                }
            },
            None => {
                vstd::string::StringExecFns::append(&mut out, word);
            },
        }
        proof {
            assert(gws.take(i + 1 as int).drop_last() =~= gws.take(i as int));
            assert(gws.take(i + 1 as int).last() == word@);
            assert(out@ =~= assembled(gws.take(i + 1 as int)));
        }
        i += 1;
    }
    proof {
        assert(gws.take(ws@.len() as int) =~= gws);
    }
    out
}



/// The character content of every mnemonic in the table.
proof fn lemma_table_strings()
    ensures
        "OP_FALSE"@ == seq!['O', 'P', '_', 'F', 'A', 'L', 'S', 'E'],
        "OP_0"@ == seq!['O', 'P', '_', '0'],
        "OP_PUSHDATA1"@ == seq!['O', 'P', '_', 'P', 'U', 'S', 'H', 'D', 'A', 'T', 'A', '1'],
        "OP_PUSHDATA2"@ == seq!['O', 'P', '_', 'P', 'U', 'S', 'H', 'D', 'A', 'T', 'A', '2'],
        "OP_PUSHDATA4"@ == seq!['O', 'P', '_', 'P', 'U', 'S', 'H', 'D', 'A', 'T', 'A', '4'],
        "OP_1NEGATE"@ == seq!['O', 'P', '_', '1', 'N', 'E', 'G', 'A', 'T', 'E'],
        "OP_TRUE"@ == seq!['O', 'P', '_', 'T', 'R', 'U', 'E'],
        "OP_1"@ == seq!['O', 'P', '_', '1'],
        "OP_2"@ == seq!['O', 'P', '_', '2'],
        "OP_3"@ == seq!['O', 'P', '_', '3'],
        "OP_4"@ == seq!['O', 'P', '_', '4'],
        "OP_5"@ == seq!['O', 'P', '_', '5'],
        "OP_6"@ == seq!['O', 'P', '_', '6'],
        "OP_7"@ == seq!['O', 'P', '_', '7'],
        "OP_8"@ == seq!['O', 'P', '_', '8'],
        "OP_9"@ == seq!['O', 'P', '_', '9'],
        "OP_10"@ == seq!['O', 'P', '_', '1', '0'],
        "OP_11"@ == seq!['O', 'P', '_', '1', '1'],
        "OP_12"@ == seq!['O', 'P', '_', '1', '2'],
        "OP_13"@ == seq!['O', 'P', '_', '1', '3'],
        "OP_14"@ == seq!['O', 'P', '_', '1', '4'],
        "OP_15"@ == seq!['O', 'P', '_', '1', '5'],
        "OP_16"@ == seq!['O', 'P', '_', '1', '6'],
        "OP_NOP"@ == seq!['O', 'P', '_', 'N', 'O', 'P'],
        "OP_IF"@ == seq!['O', 'P', '_', 'I', 'F'],
        "OP_NOTIF"@ == seq!['O', 'P', '_', 'N', 'O', 'T', 'I', 'F'],
        "OP_ELSE"@ == seq!['O', 'P', '_', 'E', 'L', 'S', 'E'],
        "OP_ENDIF"@ == seq!['O', 'P', '_', 'E', 'N', 'D', 'I', 'F'],
        "OP_VERIFY"@ == seq!['O', 'P', '_', 'V', 'E', 'R', 'I', 'F', 'Y'],
        "OP_RETURN"@ == seq!['O', 'P', '_', 'R', 'E', 'T', 'U', 'R', 'N'],
        "OP_TOALTSTACK"@ == seq!['O', 'P', '_', 'T', 'O', 'A', 'L', 'T', 'S', 'T', 'A', 'C', 'K'],
        "OP_FROMALTSTACK"@ == seq!['O', 'P', '_', 'F', 'R', 'O', 'M', 'A', 'L', 'T', 'S', 'T', 'A', 'C', 'K'],
        "OP_IFDUP"@ == seq!['O', 'P', '_', 'I', 'F', 'D', 'U', 'P'],
        "OP_DEPTH"@ == seq!['O', 'P', '_', 'D', 'E', 'P', 'T', 'H'],
        "OP_DROP"@ == seq!['O', 'P', '_', 'D', 'R', 'O', 'P'],
        "OP_DUP"@ == seq!['O', 'P', '_', 'D', 'U', 'P'],
        "OP_NIP"@ == seq!['O', 'P', '_', 'N', 'I', 'P'],
        "OP_OVER"@ == seq!['O', 'P', '_', 'O', 'V', 'E', 'R'],
        "OP_PICK"@ == seq!['O', 'P', '_', 'P', 'I', 'C', 'K'],
        "OP_ROLL"@ == seq!['O', 'P', '_', 'R', 'O', 'L', 'L'],
        "OP_ROT"@ == seq!['O', 'P', '_', 'R', 'O', 'T'],
        "OP_SWAP"@ == seq!['O', 'P', '_', 'S', 'W', 'A', 'P'],
        "OP_TUCK"@ == seq!['O', 'P', '_', 'T', 'U', 'C', 'K'],
        "OP_2DROP"@ == seq!['O', 'P', '_', '2', 'D', 'R', 'O', 'P'],
        "OP_2DUP"@ == seq!['O', 'P', '_', '2', 'D', 'U', 'P'],
        "OP_3DUP"@ == seq!['O', 'P', '_', '3', 'D', 'U', 'P'],
        "OP_2OVER"@ == seq!['O', 'P', '_', '2', 'O', 'V', 'E', 'R'],
        "OP_2ROT"@ == seq!['O', 'P', '_', '2', 'R', 'O', 'T'],
        "OP_2SWAP"@ == seq!['O', 'P', '_', '2', 'S', 'W', 'A', 'P'],
        "OP_SIZE"@ == seq!['O', 'P', '_', 'S', 'I', 'Z', 'E'],
        "OP_EQUAL"@ == seq!['O', 'P', '_', 'E', 'Q', 'U', 'A', 'L'],
        "OP_EQUALVERIFY"@ == seq!['O', 'P', '_', 'E', 'Q', 'U', 'A', 'L', 'V', 'E', 'R', 'I', 'F', 'Y'],
        "OP_1ADD"@ == seq!['O', 'P', '_', '1', 'A', 'D', 'D'],
        "OP_1SUB"@ == seq!['O', 'P', '_', '1', 'S', 'U', 'B'],
        "OP_NEGATE"@ == seq!['O', 'P', '_', 'N', 'E', 'G', 'A', 'T', 'E'],
        "OP_ABS"@ == seq!['O', 'P', '_', 'A', 'B', 'S'],
        "OP_NOT"@ == seq!['O', 'P', '_', 'N', 'O', 'T'],
        "OP_0NOTEQUAL"@ == seq!['O', 'P', '_', '0', 'N', 'O', 'T', 'E', 'Q', 'U', 'A', 'L'],
        "OP_ADD"@ == seq!['O', 'P', '_', 'A', 'D', 'D'],
        "OP_SUB"@ == seq!['O', 'P', '_', 'S', 'U', 'B'],
        "OP_BOOLAND"@ == seq!['O', 'P', '_', 'B', 'O', 'O', 'L', 'A', 'N', 'D'],
        "OP_BOOLOR"@ == seq!['O', 'P', '_', 'B', 'O', 'O', 'L', 'O', 'R'],
        "OP_NUMEQUAL"@ == seq!['O', 'P', '_', 'N', 'U', 'M', 'E', 'Q', 'U', 'A', 'L'],
        "OP_NUMEQUALVERIFY"@ == seq!['O', 'P', '_', 'N', 'U', 'M', 'E', 'Q', 'U', 'A', 'L', 'V', 'E', 'R', 'I', 'F', 'Y'],
        "OP_NUMNOTEQUAL"@ == seq!['O', 'P', '_', 'N', 'U', 'M', 'N', 'O', 'T', 'E', 'Q', 'U', 'A', 'L'],
        "OP_LESSTHAN"@ == seq!['O', 'P', '_', 'L', 'E', 'S', 'S', 'T', 'H', 'A', 'N'],
        "OP_GREATERTHAN"@ == seq!['O', 'P', '_', 'G', 'R', 'E', 'A', 'T', 'E', 'R', 'T', 'H', 'A', 'N'],
        "OP_LESSTHANOREQUAL"@ == seq!['O', 'P', '_', 'L', 'E', 'S', 'S', 'T', 'H', 'A', 'N', 'O', 'R', 'E', 'Q', 'U', 'A', 'L'],
        "OP_GREATERTHANOREQUAL"@ == seq!['O', 'P', '_', 'G', 'R', 'E', 'A', 'T', 'E', 'R', 'T', 'H', 'A', 'N', 'O', 'R', 'E', 'Q', 'U', 'A', 'L'],
        "OP_MIN"@ == seq!['O', 'P', '_', 'M', 'I', 'N'],
        "OP_MAX"@ == seq!['O', 'P', '_', 'M', 'A', 'X'],
        "OP_WITHIN"@ == seq!['O', 'P', '_', 'W', 'I', 'T', 'H', 'I', 'N'],
        "OP_RIPEMD160"@ == seq!['O', 'P', '_', 'R', 'I', 'P', 'E', 'M', 'D', '1', '6', '0'],
        "OP_SHA1"@ == seq!['O', 'P', '_', 'S', 'H', 'A', '1'],
        "OP_SHA256"@ == seq!['O', 'P', '_', 'S', 'H', 'A', '2', '5', '6'],
        "OP_HASH160"@ == seq!['O', 'P', '_', 'H', 'A', 'S', 'H', '1', '6', '0'],
        "OP_HASH256"@ == seq!['O', 'P', '_', 'H', 'A', 'S', 'H', '2', '5', '6'],
        "OP_CODESEPARATOR"@ == seq!['O', 'P', '_', 'C', 'O', 'D', 'E', 'S', 'E', 'P', 'A', 'R', 'A', 'T', 'O', 'R'],
        "OP_CHECKSIG"@ == seq!['O', 'P', '_', 'C', 'H', 'E', 'C', 'K', 'S', 'I', 'G'],
        "OP_CHECKSIGVERIFY"@ == seq!['O', 'P', '_', 'C', 'H', 'E', 'C', 'K', 'S', 'I', 'G', 'V', 'E', 'R', 'I', 'F', 'Y'],
        "OP_CHECKMULTISIG"@ == seq!['O', 'P', '_', 'C', 'H', 'E', 'C', 'K', 'M', 'U', 'L', 'T', 'I', 'S', 'I', 'G'],
        "OP_CHECKMULTISIGVERIFY"@ == seq!['O', 'P', '_', 'C', 'H', 'E', 'C', 'K', 'M', 'U', 'L', 'T', 'I', 'S', 'I', 'G', 'V', 'E', 'R', 'I', 'F', 'Y'],
        "OP_CHECKLOCKTIMEVERIFY"@ == seq!['O', 'P', '_', 'C', 'H', 'E', 'C', 'K', 'L', 'O', 'C', 'K', 'T', 'I', 'M', 'E', 'V', 'E', 'R', 'I', 'F', 'Y'],
        "OP_CHECKSEQUENCEVERIFY"@ == seq!['O', 'P', '_', 'C', 'H', 'E', 'C', 'K', 'S', 'E', 'Q', 'U', 'E', 'N', 'C', 'E', 'V', 'E', 'R', 'I', 'F', 'Y'],
{
    reveal_strlit("OP_FALSE");
    assert("OP_FALSE"@ =~= seq!['O', 'P', '_', 'F', 'A', 'L', 'S', 'E']);
    reveal_strlit("OP_0");
    assert("OP_0"@ =~= seq!['O', 'P', '_', '0']);
    reveal_strlit("OP_PUSHDATA1");
    assert("OP_PUSHDATA1"@ =~= seq!['O', 'P', '_', 'P', 'U', 'S', 'H', 'D', 'A', 'T', 'A', '1']);
    reveal_strlit("OP_PUSHDATA2");
    assert("OP_PUSHDATA2"@ =~= seq!['O', 'P', '_', 'P', 'U', 'S', 'H', 'D', 'A', 'T', 'A', '2']);
    reveal_strlit("OP_PUSHDATA4");
    assert("OP_PUSHDATA4"@ =~= seq!['O', 'P', '_', 'P', 'U', 'S', 'H', 'D', 'A', 'T', 'A', '4']);
    reveal_strlit("OP_1NEGATE");
    assert("OP_1NEGATE"@ =~= seq!['O', 'P', '_', '1', 'N', 'E', 'G', 'A', 'T', 'E']);
    reveal_strlit("OP_TRUE");
    assert("OP_TRUE"@ =~= seq!['O', 'P', '_', 'T', 'R', 'U', 'E']);
    reveal_strlit("OP_1");
    assert("OP_1"@ =~= seq!['O', 'P', '_', '1']);
    reveal_strlit("OP_2");
    assert("OP_2"@ =~= seq!['O', 'P', '_', '2']);
    reveal_strlit("OP_3");
    assert("OP_3"@ =~= seq!['O', 'P', '_', '3']);
    reveal_strlit("OP_4");
    assert("OP_4"@ =~= seq!['O', 'P', '_', '4']);
    reveal_strlit("OP_5");
    assert("OP_5"@ =~= seq!['O', 'P', '_', '5']);
    reveal_strlit("OP_6");
    assert("OP_6"@ =~= seq!['O', 'P', '_', '6']);
    reveal_strlit("OP_7");
    assert("OP_7"@ =~= seq!['O', 'P', '_', '7']);
    reveal_strlit("OP_8");
    assert("OP_8"@ =~= seq!['O', 'P', '_', '8']);
    reveal_strlit("OP_9");
    assert("OP_9"@ =~= seq!['O', 'P', '_', '9']);
    reveal_strlit("OP_10");
    assert("OP_10"@ =~= seq!['O', 'P', '_', '1', '0']);
    reveal_strlit("OP_11");
    assert("OP_11"@ =~= seq!['O', 'P', '_', '1', '1']);
    reveal_strlit("OP_12");
    assert("OP_12"@ =~= seq!['O', 'P', '_', '1', '2']);
    reveal_strlit("OP_13");
    assert("OP_13"@ =~= seq!['O', 'P', '_', '1', '3']);
    reveal_strlit("OP_14");
    assert("OP_14"@ =~= seq!['O', 'P', '_', '1', '4']);
    reveal_strlit("OP_15");
    assert("OP_15"@ =~= seq!['O', 'P', '_', '1', '5']);
    reveal_strlit("OP_16");
    assert("OP_16"@ =~= seq!['O', 'P', '_', '1', '6']);
    reveal_strlit("OP_NOP");
    assert("OP_NOP"@ =~= seq!['O', 'P', '_', 'N', 'O', 'P']);
    reveal_strlit("OP_IF");
    assert("OP_IF"@ =~= seq!['O', 'P', '_', 'I', 'F']);
    reveal_strlit("OP_NOTIF");
    assert("OP_NOTIF"@ =~= seq!['O', 'P', '_', 'N', 'O', 'T', 'I', 'F']);
    reveal_strlit("OP_ELSE");
    assert("OP_ELSE"@ =~= seq!['O', 'P', '_', 'E', 'L', 'S', 'E']);
    reveal_strlit("OP_ENDIF");
    assert("OP_ENDIF"@ =~= seq!['O', 'P', '_', 'E', 'N', 'D', 'I', 'F']);
    reveal_strlit("OP_VERIFY");
    assert("OP_VERIFY"@ =~= seq!['O', 'P', '_', 'V', 'E', 'R', 'I', 'F', 'Y']);
    reveal_strlit("OP_RETURN");
    assert("OP_RETURN"@ =~= seq!['O', 'P', '_', 'R', 'E', 'T', 'U', 'R', 'N']);
    reveal_strlit("OP_TOALTSTACK");
    assert("OP_TOALTSTACK"@ =~= seq!['O', 'P', '_', 'T', 'O', 'A', 'L', 'T', 'S', 'T', 'A', 'C', 'K']);
    reveal_strlit("OP_FROMALTSTACK");
    assert("OP_FROMALTSTACK"@ =~= seq!['O', 'P', '_', 'F', 'R', 'O', 'M', 'A', 'L', 'T', 'S', 'T', 'A', 'C', 'K']);
    reveal_strlit("OP_IFDUP");
    assert("OP_IFDUP"@ =~= seq!['O', 'P', '_', 'I', 'F', 'D', 'U', 'P']);
    reveal_strlit("OP_DEPTH");
    assert("OP_DEPTH"@ =~= seq!['O', 'P', '_', 'D', 'E', 'P', 'T', 'H']);
    reveal_strlit("OP_DROP");
    assert("OP_DROP"@ =~= seq!['O', 'P', '_', 'D', 'R', 'O', 'P']);
    reveal_strlit("OP_DUP");
    assert("OP_DUP"@ =~= seq!['O', 'P', '_', 'D', 'U', 'P']);
    reveal_strlit("OP_NIP");
    assert("OP_NIP"@ =~= seq!['O', 'P', '_', 'N', 'I', 'P']);
    reveal_strlit("OP_OVER");
    assert("OP_OVER"@ =~= seq!['O', 'P', '_', 'O', 'V', 'E', 'R']);
    reveal_strlit("OP_PICK");
    assert("OP_PICK"@ =~= seq!['O', 'P', '_', 'P', 'I', 'C', 'K']);
    reveal_strlit("OP_ROLL");
    assert("OP_ROLL"@ =~= seq!['O', 'P', '_', 'R', 'O', 'L', 'L']);
    reveal_strlit("OP_ROT");
    assert("OP_ROT"@ =~= seq!['O', 'P', '_', 'R', 'O', 'T']);
    reveal_strlit("OP_SWAP");
    assert("OP_SWAP"@ =~= seq!['O', 'P', '_', 'S', 'W', 'A', 'P']);
    reveal_strlit("OP_TUCK");
    assert("OP_TUCK"@ =~= seq!['O', 'P', '_', 'T', 'U', 'C', 'K']);
    reveal_strlit("OP_2DROP");
    assert("OP_2DROP"@ =~= seq!['O', 'P', '_', '2', 'D', 'R', 'O', 'P']);
    reveal_strlit("OP_2DUP");
    assert("OP_2DUP"@ =~= seq!['O', 'P', '_', '2', 'D', 'U', 'P']);
    reveal_strlit("OP_3DUP");
    assert("OP_3DUP"@ =~= seq!['O', 'P', '_', '3', 'D', 'U', 'P']);
    reveal_strlit("OP_2OVER");
    assert("OP_2OVER"@ =~= seq!['O', 'P', '_', '2', 'O', 'V', 'E', 'R']);
    reveal_strlit("OP_2ROT");
    assert("OP_2ROT"@ =~= seq!['O', 'P', '_', '2', 'R', 'O', 'T']);
    reveal_strlit("OP_2SWAP");
    assert("OP_2SWAP"@ =~= seq!['O', 'P', '_', '2', 'S', 'W', 'A', 'P']);
    reveal_strlit("OP_SIZE");
    assert("OP_SIZE"@ =~= seq!['O', 'P', '_', 'S', 'I', 'Z', 'E']);
    reveal_strlit("OP_EQUAL");
    assert("OP_EQUAL"@ =~= seq!['O', 'P', '_', 'E', 'Q', 'U', 'A', 'L']);
    reveal_strlit("OP_EQUALVERIFY");
    assert("OP_EQUALVERIFY"@ =~= seq!['O', 'P', '_', 'E', 'Q', 'U', 'A', 'L', 'V', 'E', 'R', 'I', 'F', 'Y']);
    reveal_strlit("OP_1ADD");
    assert("OP_1ADD"@ =~= seq!['O', 'P', '_', '1', 'A', 'D', 'D']);
    reveal_strlit("OP_1SUB");
    assert("OP_1SUB"@ =~= seq!['O', 'P', '_', '1', 'S', 'U', 'B']);
    reveal_strlit("OP_NEGATE");
    assert("OP_NEGATE"@ =~= seq!['O', 'P', '_', 'N', 'E', 'G', 'A', 'T', 'E']);
    reveal_strlit("OP_ABS");
    assert("OP_ABS"@ =~= seq!['O', 'P', '_', 'A', 'B', 'S']);
    reveal_strlit("OP_NOT");
    assert("OP_NOT"@ =~= seq!['O', 'P', '_', 'N', 'O', 'T']);
    reveal_strlit("OP_0NOTEQUAL");
    assert("OP_0NOTEQUAL"@ =~= seq!['O', 'P', '_', '0', 'N', 'O', 'T', 'E', 'Q', 'U', 'A', 'L']);
    reveal_strlit("OP_ADD");
    assert("OP_ADD"@ =~= seq!['O', 'P', '_', 'A', 'D', 'D']);
    reveal_strlit("OP_SUB");
    assert("OP_SUB"@ =~= seq!['O', 'P', '_', 'S', 'U', 'B']);
    reveal_strlit("OP_BOOLAND");
    assert("OP_BOOLAND"@ =~= seq!['O', 'P', '_', 'B', 'O', 'O', 'L', 'A', 'N', 'D']);
    reveal_strlit("OP_BOOLOR");
    assert("OP_BOOLOR"@ =~= seq!['O', 'P', '_', 'B', 'O', 'O', 'L', 'O', 'R']);
    reveal_strlit("OP_NUMEQUAL");
    assert("OP_NUMEQUAL"@ =~= seq!['O', 'P', '_', 'N', 'U', 'M', 'E', 'Q', 'U', 'A', 'L']);
    reveal_strlit("OP_NUMEQUALVERIFY");
    assert("OP_NUMEQUALVERIFY"@ =~= seq!['O', 'P', '_', 'N', 'U', 'M', 'E', 'Q', 'U', 'A', 'L', 'V', 'E', 'R', 'I', 'F', 'Y']);
    reveal_strlit("OP_NUMNOTEQUAL");
    assert("OP_NUMNOTEQUAL"@ =~= seq!['O', 'P', '_', 'N', 'U', 'M', 'N', 'O', 'T', 'E', 'Q', 'U', 'A', 'L']);
    reveal_strlit("OP_LESSTHAN");
    assert("OP_LESSTHAN"@ =~= seq!['O', 'P', '_', 'L', 'E', 'S', 'S', 'T', 'H', 'A', 'N']);
    reveal_strlit("OP_GREATERTHAN");
    assert("OP_GREATERTHAN"@ =~= seq!['O', 'P', '_', 'G', 'R', 'E', 'A', 'T', 'E', 'R', 'T', 'H', 'A', 'N']);
    reveal_strlit("OP_LESSTHANOREQUAL");
    assert("OP_LESSTHANOREQUAL"@ =~= seq!['O', 'P', '_', 'L', 'E', 'S', 'S', 'T', 'H', 'A', 'N', 'O', 'R', 'E', 'Q', 'U', 'A', 'L']);
    reveal_strlit("OP_GREATERTHANOREQUAL");
    assert("OP_GREATERTHANOREQUAL"@ =~= seq!['O', 'P', '_', 'G', 'R', 'E', 'A', 'T', 'E', 'R', 'T', 'H', 'A', 'N', 'O', 'R', 'E', 'Q', 'U', 'A', 'L']);
    reveal_strlit("OP_MIN");
    assert("OP_MIN"@ =~= seq!['O', 'P', '_', 'M', 'I', 'N']);
    reveal_strlit("OP_MAX");
    assert("OP_MAX"@ =~= seq!['O', 'P', '_', 'M', 'A', 'X']);
    reveal_strlit("OP_WITHIN");
    assert("OP_WITHIN"@ =~= seq!['O', 'P', '_', 'W', 'I', 'T', 'H', 'I', 'N']);
    reveal_strlit("OP_RIPEMD160");
    assert("OP_RIPEMD160"@ =~= seq!['O', 'P', '_', 'R', 'I', 'P', 'E', 'M', 'D', '1', '6', '0']);
    reveal_strlit("OP_SHA1");
    assert("OP_SHA1"@ =~= seq!['O', 'P', '_', 'S', 'H', 'A', '1']);
    reveal_strlit("OP_SHA256");
    assert("OP_SHA256"@ =~= seq!['O', 'P', '_', 'S', 'H', 'A', '2', '5', '6']);
    reveal_strlit("OP_HASH160");
    assert("OP_HASH160"@ =~= seq!['O', 'P', '_', 'H', 'A', 'S', 'H', '1', '6', '0']);
    reveal_strlit("OP_HASH256");
    assert("OP_HASH256"@ =~= seq!['O', 'P', '_', 'H', 'A', 'S', 'H', '2', '5', '6']);
    reveal_strlit("OP_CODESEPARATOR");
    assert("OP_CODESEPARATOR"@ =~= seq!['O', 'P', '_', 'C', 'O', 'D', 'E', 'S', 'E', 'P', 'A', 'R', 'A', 'T', 'O', 'R']);
    reveal_strlit("OP_CHECKSIG");
    assert("OP_CHECKSIG"@ =~= seq!['O', 'P', '_', 'C', 'H', 'E', 'C', 'K', 'S', 'I', 'G']);
    reveal_strlit("OP_CHECKSIGVERIFY");
    assert("OP_CHECKSIGVERIFY"@ =~= seq!['O', 'P', '_', 'C', 'H', 'E', 'C', 'K', 'S', 'I', 'G', 'V', 'E', 'R', 'I', 'F', 'Y']);
    reveal_strlit("OP_CHECKMULTISIG");
    assert("OP_CHECKMULTISIG"@ =~= seq!['O', 'P', '_', 'C', 'H', 'E', 'C', 'K', 'M', 'U', 'L', 'T', 'I', 'S', 'I', 'G']);
    reveal_strlit("OP_CHECKMULTISIGVERIFY");
    assert("OP_CHECKMULTISIGVERIFY"@ =~= seq!['O', 'P', '_', 'C', 'H', 'E', 'C', 'K', 'M', 'U', 'L', 'T', 'I', 'S', 'I', 'G', 'V', 'E', 'R', 'I', 'F', 'Y']);
    reveal_strlit("OP_CHECKLOCKTIMEVERIFY");
    assert("OP_CHECKLOCKTIMEVERIFY"@ =~= seq!['O', 'P', '_', 'C', 'H', 'E', 'C', 'K', 'L', 'O', 'C', 'K', 'T', 'I', 'M', 'E', 'V', 'E', 'R', 'I', 'F', 'Y']);
    reveal_strlit("OP_CHECKSEQUENCEVERIFY");
    assert("OP_CHECKSEQUENCEVERIFY"@ =~= seq!['O', 'P', '_', 'C', 'H', 'E', 'C', 'K', 'S', 'E', 'Q', 'U', 'E', 'N', 'C', 'E', 'V', 'E', 'R', 'I', 'F', 'Y']);
}

#[verifier::rlimit(100)]
#[verifier::spinoff_prover]
proof fn lemma_opcode_values_a()
    ensures
        spec_opcode("OP_DUP"@) == Some(0x76u8),
        spec_opcode("OP_HASH160"@) == Some(0xa9u8),
        spec_opcode("OP_EQUALVERIFY"@) == Some(0x88u8),
{
    lemma_table_strings();
    assert("OP_EQUALVERIFY"@.len() == 14);
    assert(spec_opcode("OP_EQUALVERIFY"@) == Some(0x88u8));
}

#[verifier::rlimit(100)]
#[verifier::spinoff_prover]
proof fn lemma_opcode_values_b()
    ensures
        spec_opcode("OP_CHECKSIG"@) == Some(0xacu8),
        spec_opcode("OP_EQUAL"@) == Some(0x87u8),
        spec_opcode("OP_IF"@) == Some(0x63u8),
        spec_opcode("OP_ELSE"@) == Some(0x67u8),
{
    lemma_table_strings();
}

#[verifier::rlimit(100)]
#[verifier::spinoff_prover]
proof fn lemma_opcode_values_c()
    ensures
        spec_opcode("OP_ENDIF"@) == Some(0x68u8),
        spec_opcode("OP_DROP"@) == Some(0x75u8),
        spec_opcode("OP_CHECKSEQUENCEVERIFY"@) == Some(0xb2u8),
{
    lemma_table_strings();
}

/// The opcode bytes of the mnemonics the address decoder and the vault
/// builder rely on.
pub proof fn lemma_opcode_values()
    ensures
        spec_opcode("OP_DUP"@) == Some(0x76u8),
        spec_opcode("OP_HASH160"@) == Some(0xa9u8),
        spec_opcode("OP_EQUALVERIFY"@) == Some(0x88u8),
        spec_opcode("OP_CHECKSIG"@) == Some(0xacu8),
        spec_opcode("OP_EQUAL"@) == Some(0x87u8),
        spec_opcode("OP_IF"@) == Some(0x63u8),
        spec_opcode("OP_ELSE"@) == Some(0x67u8),
        spec_opcode("OP_ENDIF"@) == Some(0x68u8),
        spec_opcode("OP_DROP"@) == Some(0x75u8),
        spec_opcode("OP_CHECKSEQUENCEVERIFY"@) == Some(0xb2u8),
{
    lemma_opcode_values_a();
    lemma_opcode_values_b();
    lemma_opcode_values_c();
}

/// A word that does not begin with 'O' is no mnemonic: every table entry
/// does.
#[verifier::rlimit(100)]
#[verifier::spinoff_prover]
pub proof fn lemma_non_opcode(w: Seq<char>)
    requires
        w.len() == 0 || w[0] != 'O',
    ensures
        spec_opcode(w) is None,
{
    lemma_table_strings();
    assert(w != "OP_FALSE"@);
    assert(w != "OP_0"@);
    assert(w != "OP_PUSHDATA1"@);
    assert(w != "OP_PUSHDATA2"@);
    assert(w != "OP_PUSHDATA4"@);
    assert(w != "OP_1NEGATE"@);
    assert(w != "OP_TRUE"@);
    assert(w != "OP_1"@);
    assert(w != "OP_2"@);
    assert(w != "OP_3"@);
    assert(w != "OP_4"@);
    assert(w != "OP_5"@);
    assert(w != "OP_6"@);
    assert(w != "OP_7"@);
    assert(w != "OP_8"@);
    assert(w != "OP_9"@);
    assert(w != "OP_10"@);
    assert(w != "OP_11"@);
    assert(w != "OP_12"@);
    assert(w != "OP_13"@);
    assert(w != "OP_14"@);
    assert(w != "OP_15"@);
    assert(w != "OP_16"@);
    assert(w != "OP_NOP"@);
    assert(w != "OP_IF"@);
    assert(w != "OP_NOTIF"@);
    assert(w != "OP_ELSE"@);
    assert(w != "OP_ENDIF"@);
    assert(w != "OP_VERIFY"@);
    assert(w != "OP_RETURN"@);
    assert(w != "OP_TOALTSTACK"@);
    assert(w != "OP_FROMALTSTACK"@);
    assert(w != "OP_IFDUP"@);
    assert(w != "OP_DEPTH"@);
    assert(w != "OP_DROP"@);
    assert(w != "OP_DUP"@);
    assert(w != "OP_NIP"@);
    assert(w != "OP_OVER"@);
    assert(w != "OP_PICK"@);
    assert(w != "OP_ROLL"@);
    assert(w != "OP_ROT"@);
    assert(w != "OP_SWAP"@);
    assert(w != "OP_TUCK"@);
    assert(w != "OP_2DROP"@);
    assert(w != "OP_2DUP"@);
    assert(w != "OP_3DUP"@);
    assert(w != "OP_2OVER"@);
    assert(w != "OP_2ROT"@);
    assert(w != "OP_2SWAP"@);
    assert(w != "OP_SIZE"@);
    assert(w != "OP_EQUAL"@);
    assert(w != "OP_EQUALVERIFY"@);
    assert(w != "OP_1ADD"@);
    assert(w != "OP_1SUB"@);
    assert(w != "OP_NEGATE"@);
    assert(w != "OP_ABS"@);
    assert(w != "OP_NOT"@);
    assert(w != "OP_0NOTEQUAL"@);
    assert(w != "OP_ADD"@);
    assert(w != "OP_SUB"@);
    assert(w != "OP_BOOLAND"@);
    assert(w != "OP_BOOLOR"@);
    assert(w != "OP_NUMEQUAL"@);
    assert(w != "OP_NUMEQUALVERIFY"@);
    assert(w != "OP_NUMNOTEQUAL"@);
    assert(w != "OP_LESSTHAN"@);
    assert(w != "OP_GREATERTHAN"@);
    assert(w != "OP_LESSTHANOREQUAL"@);
    assert(w != "OP_GREATERTHANOREQUAL"@);
    assert(w != "OP_MIN"@);
    assert(w != "OP_MAX"@);
    assert(w != "OP_WITHIN"@);
    assert(w != "OP_RIPEMD160"@);
    assert(w != "OP_SHA1"@);
    assert(w != "OP_SHA256"@);
    assert(w != "OP_HASH160"@);
    assert(w != "OP_HASH256"@);
    assert(w != "OP_CODESEPARATOR"@);
    assert(w != "OP_CHECKSIG"@);
    assert(w != "OP_CHECKSIGVERIFY"@);
    assert(w != "OP_CHECKMULTISIG"@);
    assert(w != "OP_CHECKMULTISIGVERIFY"@);
    assert(w != "OP_CHECKLOCKTIMEVERIFY"@);
    assert(w != "OP_CHECKSEQUENCEVERIFY"@);
}

/// A token that begins with a hex digit is no mnemonic once uppercased:
/// no hex digit uppercases to 'O'.
pub proof fn lemma_hex_token_not_opcode(w: Seq<char>)
    requires
        w.len() == 0 || crate::encoding::is_hex_digit(w[0]),
    ensures
        spec_opcode(upper_seq(w)) is None,
{
    if w.len() > 0 {
        assert(upper_seq(w)[0] == upper_char(w[0]));
        assert(upper_char(w[0]) != 'O');
    }
    lemma_non_opcode(upper_seq(w));
}


/// The uppercase forms of the mnemonic spellings this crate writes in
/// scripts.
#[verifier::rlimit(100)]
#[verifier::spinoff_prover]
pub proof fn lemma_upper_variants()
    ensures
        upper_seq("OP_dup"@) == "OP_DUP"@,
        upper_seq("OP_hash160"@) == "OP_HASH160"@,
        upper_seq("OP_equalverify"@) == "OP_EQUALVERIFY"@,
        upper_seq("OP_checksig"@) == "OP_CHECKSIG"@,
        upper_seq("OP_equal"@) == "OP_EQUAL"@,
        upper_seq("OP_IF"@) == "OP_IF"@,
        upper_seq("OP_ELSE"@) == "OP_ELSE"@,
        upper_seq("OP_ENDIF"@) == "OP_ENDIF"@,
        upper_seq("OP_DROP"@) == "OP_DROP"@,
        upper_seq("OP_CHECKSEQUENCEVERIFY"@) == "OP_CHECKSEQUENCEVERIFY"@,
{
    reveal_strlit("OP_dup");
    reveal_strlit("OP_DUP");
    reveal_strlit("OP_hash160");
    reveal_strlit("OP_HASH160");
    reveal_strlit("OP_equalverify");
    reveal_strlit("OP_EQUALVERIFY");
    reveal_strlit("OP_checksig");
    reveal_strlit("OP_CHECKSIG");
    reveal_strlit("OP_equal");
    reveal_strlit("OP_EQUAL");
    reveal_strlit("OP_IF");
    reveal_strlit("OP_ELSE");
    reveal_strlit("OP_ENDIF");
    reveal_strlit("OP_DROP");
    reveal_strlit("OP_CHECKSEQUENCEVERIFY");
    assert(upper_seq("OP_dup"@) =~= "OP_DUP"@);
    assert(upper_seq("OP_hash160"@) =~= "OP_HASH160"@);
    assert(upper_seq("OP_equalverify"@) =~= "OP_EQUALVERIFY"@);
    assert(upper_seq("OP_checksig"@) =~= "OP_CHECKSIG"@);
    assert(upper_seq("OP_equal"@) =~= "OP_EQUAL"@);
    assert(upper_seq("OP_IF"@) =~= "OP_IF"@);
    assert(upper_seq("OP_ELSE"@) =~= "OP_ELSE"@);
    assert(upper_seq("OP_ENDIF"@) =~= "OP_ENDIF"@);
    assert(upper_seq("OP_DROP"@) =~= "OP_DROP"@);
    assert(upper_seq("OP_CHECKSEQUENCEVERIFY"@) =~= "OP_CHECKSEQUENCEVERIFY"@);
}

} // verus!
