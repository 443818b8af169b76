//! Address decoding, base58check wrapping, hashing over hex text, and the
//! construction and signing of transactions: the engine's top layer.

use vstd::prelude::*;
use vstd::string::StrSliceExecFns;
use vstd::string::StringExecFns;

use crate::base58::{
    all_b58_chars, base58_to_hex, hex_to_base58, spec_base58_to_hex, spec_hex_to_base58,
};
use crate::encoding::{
    all_hex_digits, bytes_of_hex, hex_upper_of_bytes, is_hex_digit, le_val,
    lemma_hex_upper_round_trip, pow256, u16_le, u32_le, u64_le, varint_seq,
};
use crate::errors::TxError;
use crate::hashes::{hash160_bytes, ripemd160_of, sha256_bytes, sha256_of, sha256d_bytes};
use crate::script::{
    assembled, lemma_hex_token_not_opcode, lemma_opcode_values, lemma_upper_variants, script,
    spec_opcode, upper_seq, word_hex,
};
use crate::strutil::{push_bytes, str_eq};
use crate::traits::{
    bytes_to_hex_upper, bytes_to_int_le, hex_str_to_bytes, hex_varint_prefix, varint,
};

verus! {

/// Double SHA-256 over the bytes a hex string spells.
pub fn sha256d(hex_string: &str) -> (r: Vec<u8>)
    requires
        hex_string@.len() % 2 == 0,
        all_hex_digits(hex_string@),
    ensures
        r@ == sha256_of(sha256_of(bytes_of_hex(hex_string@))),
        r@.len() == 32,
{
    let bytes = match hex_str_to_bytes(hex_string) {
        Ok(b) => b,
        Err(_) => {
            proof {
                assert(false);
            }
            Vec::new()
        },
    };
    sha256d_bytes(&bytes)
}

/// SHA-256 over the bytes a hex string spells.
pub fn sha256(hex_string: &str) -> (r: Vec<u8>)
    requires
        hex_string@.len() % 2 == 0,
        all_hex_digits(hex_string@),
    ensures
        r@ == sha256_of(bytes_of_hex(hex_string@)),
        r@.len() == 32,
{
    let bytes = match hex_str_to_bytes(hex_string) {
        Ok(b) => b,
        Err(_) => {
            proof {
                assert(false);
            }
            Vec::new()
        },
    };
    sha256_bytes(&bytes)
}

/// HASH160 (SHA-256 then RIPEMD-160) over the bytes a hex string spells.
pub fn hash160(hex_string: &str) -> (r: Vec<u8>)
    requires
        hex_string@.len() % 2 == 0,
        all_hex_digits(hex_string@),
    ensures
        r@ == ripemd160_of(sha256_of(bytes_of_hex(hex_string@))),
        r@.len() == 20,
{
    let bytes = match hex_str_to_bytes(hex_string) {
        Ok(b) => b,
        Err(_) => {
            proof {
                assert(false);
            }
            Vec::new()
        },
    };
    hash160_bytes(&bytes)
}

/// Reads a little-endian byte vector of at most 8 bytes as an integer.
pub fn bytes_le_to_int(bytes: Vec<u8>) -> (r: u64)
    requires
        bytes@.len() <= 8,
    ensures
        r as nat == le_val(bytes@),
{
    bytes_to_int_le(&bytes)
}

/// The minimal little-endian byte encoding of a 16-bit value: no trailing
/// zero bytes, empty for zero.
pub open spec fn min_le_bytes(n: u16) -> Seq<u8> {
    if n == 0 {
        Seq::empty()
    } else if n < 256 {
        seq![n as u8]
    } else {
        seq![(n % 256) as u8, (n / 256) as u8]
    }
}

/// Encodes a 16-bit value as its minimal little-endian bytes.
pub fn int_to_bytes_le(num: u16) -> (r: Vec<u8>)
    ensures
        r@ == min_le_bytes(num),
{
    let mut result: Vec<u8> = Vec::new();
    if num == 0 {
        proof {
            assert(result@ =~= min_le_bytes(num));
        }
        return result;
    }
    result.push((num % 256) as u8);
    if num >= 256 {
        result.push((num / 256) as u8);
    }
    proof {
        assert(result@ =~= min_le_bytes(num));
    }
    result
}

/// The hex spelling of a relative locktime: 1 through 16 use the minimal
/// small-integer push opcode (0x50 + n); any other value is its minimal
/// little-endian bytes, length-prefixed.
pub open spec fn spec_locktime_hex(n: u16) -> Seq<char> {
    if 1 <= n <= 16 {
        hex_upper_of_bytes(seq![(80 + n) as u8])
    } else {
        hex_upper_of_bytes(varint_seq(min_le_bytes(n).len())) + hex_upper_of_bytes(min_le_bytes(n))
    }
}

/// Encodes a relative locktime for use inside a script.
pub fn encode_locktime(locktime_blocks: u16) -> (r: String)
    ensures
        r@ == spec_locktime_hex(locktime_blocks),
{
    if 1 <= locktime_blocks && locktime_blocks <= 16 {
        let mut v: Vec<u8> = Vec::new();
        v.push((80 + locktime_blocks) as u8);
        proof {
            assert(v@ =~= seq![(80 + locktime_blocks) as u8]);
        }
        bytes_to_hex_upper(&v)
    } else {
        let bs = int_to_bytes_le(locktime_blocks);
        let hex = bytes_to_hex_upper(&bs);
        proof {
            lemma_hex_upper_round_trip(bs@);
        }
        let r = hex_varint_prefix(hex.as_str());
        proof {
            assert(hex@.len() / 2 == bs@.len());
        }
        r
    }
}

/// Wraps a witness script as a P2WSH locking script: OP_0 followed by the
/// length-prefixed SHA-256 of the script.
pub fn wrap_p2wsh(redeem_script: Vec<u8>) -> (r: Vec<u8>)
    ensures
        r@ == seq![0u8] + varint_seq(32) + sha256_of(redeem_script@),
{
    let mut result: Vec<u8> = Vec::new();
    result.push(0u8);
    let script_hash = sha256_bytes(&redeem_script);
    let mut prefix = varint(script_hash.len());
    result.append(&mut prefix);
    push_bytes(&mut result, &script_hash);
    proof {
        assert(result@ =~= seq![0u8] + varint_seq(32) + sha256_of(redeem_script@));
    }
    result
}

/// The base58check payload of a pay-to-pubkey-hash address: version byte,
/// HASH160 of the public key, then the first four bytes of the payload's
/// double SHA-256 as checksum.
pub open spec fn p2pkh_payload(version: u8, pubkey: Seq<char>) -> Seq<u8> {
    let body = seq![version] + ripemd160_of(sha256_of(bytes_of_hex(pubkey)));
    body + sha256_of(sha256_of(body)).take(4)
}

/// Builds the checksummed base58 address for a public key under a version
/// byte.
fn wrap_pubkey_address(version: u8, pubkey: &str) -> (r: String)
    requires
        pubkey@.len() % 2 == 0,
        all_hex_digits(pubkey@),
    ensures
        r@ == spec_hex_to_base58(hex_upper_of_bytes(p2pkh_payload(version, pubkey@))),
{
    let mut first: Vec<u8> = Vec::new();
    first.push(version);
    let mut h160 = hash160(pubkey);
    first.append(&mut h160);
    proof {
        assert(first@ =~= seq![version] + ripemd160_of(sha256_of(bytes_of_hex(pubkey@))));
        lemma_hex_upper_round_trip(first@);
    }
    let hex1 = bytes_to_hex_upper(&first);
    let digest = sha256d(hex1.as_str());
    let mut i: usize = 0;
    while i < 4
        invariant
            digest@.len() == 32,
            i <= 4,
            first@ =~= seq![version] + ripemd160_of(sha256_of(bytes_of_hex(pubkey@)))
                + digest@.take(i as int),
        decreases 4 - i,
    {
        first.push(digest[i]);
        proof {
            assert(first@ =~= seq![version] + ripemd160_of(sha256_of(bytes_of_hex(pubkey@)))
                + digest@.take(i + 1 as int));
        }
        i += 1;
    }
    proof {
        assert(first@ =~= p2pkh_payload(version, pubkey@));
        lemma_hex_upper_round_trip(first@);
    }
    let hex2 = bytes_to_hex_upper(&first);
    hex_to_base58(hex2.as_str())
}

/// Builds the mainnet P2PKH address of a public key (version byte 0x00).
pub fn wrap_p2pkh(pubkey: &str) -> (r: String)
    requires
        pubkey@.len() % 2 == 0,
        all_hex_digits(pubkey@),
    ensures
        r@ == spec_hex_to_base58(hex_upper_of_bytes(p2pkh_payload(0, pubkey@))),
{
    wrap_pubkey_address(0u8, pubkey)
}

/// Builds the testnet P2PKH address of a public key (version byte 0x6F).
pub fn wrap_p2pkh_testnet(pubkey: &str) -> (r: String)
    requires
        pubkey@.len() % 2 == 0,
        all_hex_digits(pubkey@),
    ensures
        r@ == spec_hex_to_base58(hex_upper_of_bytes(p2pkh_payload(111, pubkey@))),
{
    wrap_pubkey_address(111u8, pubkey)
}

/// What splitting the checksum off a decoded address yields: the 40-digit
/// body when the last 8 hex digits match the first four bytes of the
/// double SHA-256 of (version prefix ++ body).
pub open spec fn remove_checksum_spec(p: Seq<char>, a: Seq<char>) -> Result<Seq<char>, TxError> {
    if a.len() < 40 {
        Err(TxError::BadChecksum)
    } else if (p + a.take(40)).len() % 2 == 1 {
        Err(TxError::OddLengthHex)
    } else if !all_hex_digits(p + a.take(40)) {
        Err(TxError::InvalidHexDigit)
    } else if a.skip(40) == hex_upper_of_bytes(
        sha256_of(sha256_of(bytes_of_hex(p + a.take(40)))).take(4),
    ) {
        Ok(a.take(40))
    } else {
        Err(TxError::BadChecksum)
    }
}

/// Splits a decoded address into its 40-digit body and 8-digit checksum,
/// recomputes the checksum over (prefix ++ body) and compares.
pub fn remove_checksum(prefix: &str, address: &str) -> (r: Result<String, TxError>)
    ensures
        match r {
            Ok(b) => remove_checksum_spec(prefix@, address@) == Ok::<Seq<char>, TxError>(b@),
            Err(e) => remove_checksum_spec(prefix@, address@) == Err::<Seq<char>, TxError>(e),
        },
{
    let n = address.unicode_len();
    if n < 40 {
        return Err(TxError::BadChecksum);
    }
    let body = address.substring_char(0, 40);
    let checksum = address.substring_char(40, n);
    let mut cat = String::from_str(prefix);
    cat.append(body);
    proof {
        assert(cat@ == prefix@ + address@.take(40));
    }
    let cat_n = cat.as_str().unicode_len();
    if cat_n % 2 == 1 {
        return Err(TxError::OddLengthHex);
    }
    let digest = match hex_str_to_bytes(cat.as_str()) {
        Ok(_) => sha256d(cat.as_str()),
        Err(TxError::InvalidHexDigit) => {
            return Err(TxError::InvalidHexDigit);
        },
        Err(_) => {
            proof {
                assert(false);
            }
            return Err(TxError::InvalidHexDigit);
        },
    };
    let mut head: Vec<u8> = Vec::new();
    let mut i: usize = 0;
    while i < 4
        invariant
            digest@.len() == 32,
            i <= 4,
            head@ =~= digest@.take(i as int),
        decreases 4 - i,
    {
        head.push(digest[i]);
        proof {
            assert(head@ =~= digest@.take(i + 1 as int));
        }
        i += 1;
    }
    let head_hex = bytes_to_hex_upper(&head);
    if str_eq(head_hex.as_str(), checksum) {
        proof {
            assert(address@.skip(40) == hex_upper_of_bytes(
                sha256_of(sha256_of(bytes_of_hex(prefix@ + address@.take(40)))).take(4),
            ));
        }
        Ok(String::from_str(body))
    } else {
        Err(TxError::BadChecksum)
    }
}

/// The script a P2PKH body resolves to: OP_DUP OP_HASH160, the
/// length-prefixed hash, OP_EQUALVERIFY OP_CHECKSIG.
pub open spec fn p2pkh_script_chars(body: Seq<char>) -> Seq<char> {
    seq!['7', '6', 'a', '9'] + hex_upper_of_bytes(varint_seq((body.len() / 2) as nat)) + body
        + seq!['8', '8', 'a', 'c']
}

/// The script a P2SH body resolves to: OP_HASH160, the length-prefixed
/// hash, OP_EQUAL.
pub open spec fn p2sh_script_chars(body: Seq<char>) -> Seq<char> {
    seq!['a', '9'] + hex_upper_of_bytes(varint_seq((body.len() / 2) as nat)) + body + seq![
        '8',
        '7',
    ]
}

/// The script a bare public key resolves to: the length-prefixed key,
/// OP_CHECKSIG.
pub open spec fn pubkey_script_chars(h: Seq<char>) -> Seq<char> {
    hex_upper_of_bytes(varint_seq((h.len() / 2) as nat)) + h + seq!['a', 'c']
}

/// The locking script a decoded address resolves to, or the exact error:
/// version 00 and 6F give the P2PKH template (mainnet and testnet), 02, 03
/// and 04 a bare public key, 05 the P2SH template; anything else is
/// unsupported.
pub open spec fn spec_address_result(h: Seq<char>) -> Result<Seq<char>, TxError> {
    if h.len() < 2 {
        Err(TxError::UnsupportedAddressType)
    } else {
        let p = h.take(2);
        let rest = h.skip(2);
        if p == "00"@ || p == "6F"@ {
            match remove_checksum_spec(p, rest) {
                Ok(body) => Ok(p2pkh_script_chars(body)),
                Err(e) => Err(e),
            }
        } else if p == "02"@ || p == "03"@ || p == "04"@ {
            Ok(pubkey_script_chars(h))
        } else if p == "05"@ {
            match remove_checksum_spec(p, rest) {
                Ok(body) => Ok(p2sh_script_chars(body)),
                Err(e) => Err(e),
            }
        } else {
            Err(TxError::UnsupportedAddressType)
        }
    }
}

/// Resolves a decoded (hex) address to its locking script and a flag that
/// says whether the template is a segwit form (never, for these
/// templates).
pub fn address_to_lockingscript(address: &str) -> (r: Result<(String, bool), TxError>)
    ensures
        match r {
            Ok((s, w)) => spec_address_result(address@) == Ok::<Seq<char>, TxError>(s@) && w
                == false,
            Err(e) => spec_address_result(address@) == Err::<Seq<char>, TxError>(e),
        },
{
    let n = address.unicode_len();
    if n < 2 {
        return Err(TxError::UnsupportedAddressType);
    }
    let first_byte = address.substring_char(0, 2);
    let rest = address.substring_char(2, n);
    proof {
        assert(first_byte@ == address@.take(2));
        assert(rest@ == address@.skip(2));
    }
    if str_eq(first_byte, "00") || str_eq(first_byte, "6F") {
        let body = match remove_checksum(first_byte, rest) {
            Ok(b) => b,
            Err(e) => {
                return Err(e);
            },
        };
        let script_hex = p2pkh_script_for(body.as_str());
        Ok((script_hex, false))
    } else if str_eq(first_byte, "02") || str_eq(first_byte, "03") || str_eq(first_byte, "04") {
        let token = hex_varint_prefix(address);
        let mut s = token;
        let toks = vec!["OP_checksig"];
        proof {
            assert(toks@ =~= seq!["OP_checksig"]);
            assert(toks@[0]@ == "OP_checksig"@);
        }
        let ghost gws = toks@.map_values(|w: &str| w@);
        let tail = script(toks);
        s.append(tail.as_str());
        proof {
            lemma_opcode_values();
            lemma_upper_variants();
            let ws = seq!["OP_checksig"@];
            assert(gws =~= ws);
            assert(ws.drop_last() =~= Seq::<Seq<char>>::empty());
            assert(assembled(ws) == assembled(Seq::empty()) + word_hex("OP_checksig"@));
            assert(word_hex("OP_checksig"@) =~= seq!['a', 'c']);
            assert(s@ =~= pubkey_script_chars(address@));
        }
        Ok((s, false))
    } else if str_eq(first_byte, "05") {
        let body = match remove_checksum(first_byte, rest) {
            Ok(b) => b,
            Err(e) => {
                return Err(e);
            },
        };
        let script_hex = p2sh_script_for(body.as_str());
        Ok((script_hex, false))
    } else {
        Err(TxError::UnsupportedAddressType)
    }
}

/// Assembles the P2PKH locking script around a 40-digit hash body.
fn p2pkh_script_for(body: &str) -> (r: String)
    ensures
        r@ == p2pkh_script_chars(body@),
{
    let token = hex_varint_prefix(body);
    let tok_ref = token.as_str();
    let toks = vec!["OP_dup", "OP_hash160", tok_ref, "OP_equalverify", "OP_checksig"];
    proof {
        assert(toks@ =~= seq!["OP_dup", "OP_hash160", tok_ref, "OP_equalverify", "OP_checksig"]);
    }
    let ghost gws = toks@.map_values(|w: &str| w@);
    let r = script(toks);
    proof {
        lemma_opcode_values();
        lemma_upper_variants();
        let tok = token@;
        let ws = seq!["OP_dup"@, "OP_hash160"@, tok, "OP_equalverify"@, "OP_checksig"@];
        assert(gws =~= ws);
        crate::encoding::lemma_hex_upper_round_trip(varint_seq((body@.len() / 2) as nat));
        assert(tok.len() > 0 && is_hex_digit(tok[0])) by {
            crate::encoding::lemma_varint_seq_len((body@.len() / 2) as nat);
        }
        lemma_hex_token_not_opcode(tok);
        assert(word_hex(tok) == tok);
        let s0 = Seq::<Seq<char>>::empty();
        let s1 = s0.push("OP_dup"@);
        let s2 = s1.push("OP_hash160"@);
        let s3 = s2.push(tok);
        let s4 = s3.push("OP_equalverify"@);
        let s5 = s4.push("OP_checksig"@);
        assert(ws =~= s5);
        assert(s1.drop_last() =~= s0);
        assert(s2.drop_last() =~= s1);
        assert(s3.drop_last() =~= s2);
        assert(s4.drop_last() =~= s3);
        assert(s5.drop_last() =~= s4);
        assert(word_hex("OP_dup"@) =~= seq!['7', '6']);
        assert(word_hex("OP_hash160"@) =~= seq!['a', '9']);
        assert(word_hex("OP_equalverify"@) =~= seq!['8', '8']);
        assert(word_hex("OP_checksig"@) =~= seq!['a', 'c']);
        assert(assembled(s5) == assembled(s4) + word_hex("OP_checksig"@));
        assert(assembled(s4) == assembled(s3) + word_hex("OP_equalverify"@));
        assert(assembled(s3) == assembled(s2) + word_hex(tok));
        assert(assembled(s2) == assembled(s1) + word_hex("OP_hash160"@));
        assert(assembled(s1) == assembled(s0) + word_hex("OP_dup"@));
        assert(r@ =~= p2pkh_script_chars(body@));
    }
    r
}

/// Assembles the P2SH locking script around a 40-digit hash body.
fn p2sh_script_for(body: &str) -> (r: String)
    ensures
        r@ == p2sh_script_chars(body@),
{
    let token = hex_varint_prefix(body);
    let tok_ref = token.as_str();
    let toks = vec!["OP_hash160", tok_ref, "OP_equal"];
    proof {
        assert(toks@ =~= seq!["OP_hash160", tok_ref, "OP_equal"]);
    }
    let ghost gws = toks@.map_values(|w: &str| w@);
    let r = script(toks);
    proof {
        lemma_opcode_values();
        lemma_upper_variants();
        let tok = token@;
        let ws = seq!["OP_hash160"@, tok, "OP_equal"@];
        assert(gws =~= ws);
        crate::encoding::lemma_hex_upper_round_trip(varint_seq((body@.len() / 2) as nat));
        assert(tok.len() > 0 && is_hex_digit(tok[0])) by {
            crate::encoding::lemma_varint_seq_len((body@.len() / 2) as nat);
        }
        lemma_hex_token_not_opcode(tok);
        assert(word_hex(tok) == tok);
        let s0 = Seq::<Seq<char>>::empty();
        let s1 = s0.push("OP_hash160"@);
        let s2 = s1.push(tok);
        let s3 = s2.push("OP_equal"@);
        assert(ws =~= s3);
        assert(s1.drop_last() =~= s0);
        assert(s2.drop_last() =~= s1);
        assert(s3.drop_last() =~= s2);
        assert(word_hex("OP_hash160"@) =~= seq!['a', '9']);
        assert(word_hex("OP_equal"@) =~= seq!['8', '7']);
        assert(assembled(s3) == assembled(s2) + word_hex("OP_equal"@));
        assert(assembled(s2) == assembled(s1) + word_hex(tok));
        assert(assembled(s1) == assembled(s0) + word_hex("OP_hash160"@));
        assert(r@ =~= p2sh_script_chars(body@));
    }
    r
}

/// One unspent output as the builder consumes it: the previous txid (in
/// display order), the output index, the previous output's locking script
/// in hex, and the value in satoshis.
#[derive(Debug, Clone)]
pub struct UtxoInput {
    pub txid: String,
    pub vout: u32,
    pub locking_script: String,
    pub value: u64,
}

/// Whether one unspent output, with the shared redeem-script word, can be
/// turned into an input: its hex fields are well formed and the word
/// resolves.
pub open spec fn utxo_vin_ok(u: UtxoInput, word: Seq<char>) -> bool {
    &&& u.txid@.len() % 2 == 0
    &&& all_hex_digits(u.txid@)
    &&& u.locking_script@.len() % 2 == 0
    &&& all_hex_digits(u.locking_script@)
    &&& crate::transaction_parts::word_ok(word)
}

/// The total value of the first `n` unspent outputs.
pub open spec fn prefix_total(utxos: Seq<UtxoInput>, n: int) -> int
    decreases n,
{
    if n <= 0 {
        0
    } else {
        prefix_total(utxos, n - 1) + utxos[n - 1].value
    }
}

/// Prefix totals only grow.
pub proof fn lemma_prefix_total_mono(utxos: Seq<UtxoInput>, m: int, n: int)
    requires
        0 <= m <= n,
    ensures
        prefix_total(utxos, m) <= prefix_total(utxos, n),
    decreases n,
{
    if m < n {
        lemma_prefix_total_mono(utxos, m, n - 1);
    }
}

/// How many unspent outputs the selection loop consumes, starting at
/// position `i` with `total` already gathered: outputs are taken in order
/// until the running total exceeds the target, or they run out.
pub open spec fn pick(utxos: Seq<UtxoInput>, target: int, i: nat, total: int) -> nat
    decreases utxos.len() - i,
{
    if i >= utxos.len() || total > target {
        i
    } else {
        pick(utxos, target, (i + 1) as nat, total + utxos[i as int].value)
    }
}

/// The position of the first consumed output that cannot be turned into an
/// input, if the selection loop reaches one.
pub open spec fn first_fail(
    utxos: Seq<UtxoInput>,
    target: int,
    word: Seq<char>,
    i: nat,
    total: int,
) -> Option<nat>
    decreases utxos.len() - i,
{
    if i >= utxos.len() || total > target {
        None
    } else if !utxo_vin_ok(utxos[i as int], word) {
        Some(i)
    } else {
        first_fail(utxos, target, word, (i + 1) as nat, total + utxos[i as int].value)
    }
}

/// The unsigned-skeleton view of a finished transaction: the same fields
/// minus marker and witnesses.
pub open spec fn raw_of_signed(t: crate::transaction_parts::SignedTransaction) -> crate::transaction_parts::RawTransaction {
    crate::transaction_parts::RawTransaction {
        version: t.version,
        vin_count: t.vin_count,
        vins: t.vins,
        vout_count: t.vout_count,
        vouts: t.vouts,
        locktime: t.locktime,
    }
}

/// Whether an input is the signed form of an unsigned input: every field
/// but the unlock proof unchanged, and the proof a legacy scriptSig built
/// from the given signature hex and the input's own bare redeem script.
pub open spec fn vin_signed_as(
    v: crate::transaction_parts::Vin,
    orig: crate::transaction_parts::Vin,
    sig_hex: Seq<char>,
) -> bool {
    &&& v.txid == orig.txid
    &&& v.vout == orig.vout
    &&& v.locking_script_length == orig.locking_script_length
    &&& v.locking_script == orig.locking_script
    &&& v.redeem_script == orig.redeem_script
    &&& v.sequence == orig.sequence
    &&& v.value == orig.value
    &&& v.sig_script is Legacy
    &&& crate::transaction_parts::sig_script_legacy_matches(
        v.sig_script->Legacy_0,
        sig_hex,
        crate::transaction_parts::stack_bare_enc(orig.redeem_script@),
        1,
    )
}

/// Whether a finished input was built from an unspent output and signed
/// with the given signature hex.
pub open spec fn vin_from_utxo_signed(
    v: crate::transaction_parts::Vin,
    u: UtxoInput,
    word: Seq<char>,
    sig_hex: Seq<char>,
) -> bool {
    &&& v.txid@ == bytes_of_hex(u.txid@).reverse()
    &&& v.vout@ == u32_le(u.vout)
    &&& v.locking_script_length@ == varint_seq((u.locking_script@.len() / 2) as nat)
    &&& v.locking_script@ == bytes_of_hex(u.locking_script@)
    &&& v.sequence@ == u32_le(4294967295u32)
    &&& v.value@ == u64_le(u.value)
    &&& v.redeem_script@.len() == 1
    &&& crate::transaction_parts::item_matches(v.redeem_script@[0], word)
    &&& v.sig_script is Legacy
    &&& crate::transaction_parts::sig_script_legacy_matches(
        v.sig_script->Legacy_0,
        sig_hex,
        crate::transaction_parts::stack_bare_enc(v.redeem_script@),
        1,
    )
}

/// Signs every input of a skeleton in place: each input's legacy sighash
/// preimage is serialized, hex-spelled, double-SHA-256 hashed and signed,
/// and the signature is installed as that input's scriptSig (sighash type
/// 1 throughout).
#[verifier::rlimit(100)]
#[verifier::spinoff_prover]
pub fn sign_inputs_legacy(
    raw: crate::transaction_parts::RawTransaction,
    secret_key: &Vec<u8>,
) -> (r: Result<crate::transaction_parts::RawTransaction, TxError>)
    requires
        secret_key@.len() == 32,
        forall|i: int|
            0 <= i < raw.vins@.len() ==> crate::transaction_parts::stack_bare_enc(
                (#[trigger] raw.vins@[i]).redeem_script@,
            ).len() + 240 <= usize::MAX,
    ensures
        match r {
            Ok(out) => {
                &&& (raw.vins@.len() > 0 ==> crate::secp::is_valid_seckey(secret_key@))
                &&& out.version == raw.version
                &&& out.vin_count == raw.vin_count
                &&& out.vout_count == raw.vout_count
                &&& out.vouts == raw.vouts
                &&& out.locktime == raw.locktime
                &&& out.vins@.len() == raw.vins@.len()
                &&& forall|i: int|
                    0 <= i < out.vins@.len() ==> vin_signed_as(
                        #[trigger] out.vins@[i],
                        raw.vins@[i],
                        crate::secp::sig_der_hex_of(
                            sha256_of(sha256_of(raw.legacy_preimage(i, 1))),
                            secret_key@,
                        ),
                    )
            },
            Err(e) => e == TxError::Signing && !crate::secp::is_valid_seckey(secret_key@),
        },
{
    let n = raw.vins.len();
    let mut sigs: Vec<String> = Vec::new();
    let mut i: usize = 0;
    while i < n
        invariant
            secret_key@.len() == 32,
            n == raw.vins@.len(),
            i <= n,
            sigs@.len() == i,
            i > 0 ==> crate::secp::is_valid_seckey(secret_key@),
            forall|j: int|
                0 <= j < i ==> (#[trigger] sigs@[j])@ == crate::secp::sig_der_hex_of(
                    sha256_of(sha256_of(raw.legacy_preimage(j, 1))),
                    secret_key@,
                ) && sigs@[j]@.len() % 2 == 0 && all_hex_digits(sigs@[j]@) && sigs@[j]@.len()
                    <= 144,
        decreases n - i,
    {
        let pre = raw.encode_legacy_preimage(i, 1);
        proof {
            lemma_hex_upper_round_trip(pre@);
        }
        let pre_hex = bytes_to_hex_upper(&pre);
        let msg = sha256d(pre_hex.as_str());
        let sig = match crate::secp::ecdsa_sign_der_hex(&msg, secret_key) {
            Ok(s) => s,
            Err(e) => {
                return Err(e);
            },
        };
        sigs.push(sig);
        i += 1;
    }
    let ghost gvins = raw.vins@;
    let crate::transaction_parts::RawTransaction {
        version,
        vin_count,
        vins,
        vout_count,
        vouts,
        locktime,
    } = raw;
    let mut vins = vins;
    let mut out_vins: Vec<crate::transaction_parts::Vin> = Vec::new();
    let mut i: usize = 0;
    while i < n
        invariant
            gvins == raw.vins@,
            secret_key@.len() == 32,
            n == gvins.len(),
            i <= n,
            vins@ =~= gvins.skip(i as int),
            out_vins@.len() == i,
            sigs@.len() == n,
            forall|j: int|
                0 <= j < n ==> (#[trigger] sigs@[j])@ == crate::secp::sig_der_hex_of(
                    sha256_of(sha256_of(raw.legacy_preimage(j, 1))),
                    secret_key@,
                ) && sigs@[j]@.len() % 2 == 0 && all_hex_digits(sigs@[j]@) && sigs@[j]@.len()
                    <= 144,
            forall|j: int|
                0 <= j < n ==> crate::transaction_parts::stack_bare_enc(
                    (#[trigger] gvins[j]).redeem_script@,
                ).len() + 240 <= usize::MAX,
            forall|j: int|
                0 <= j < i ==> vin_signed_as(
                    #[trigger] out_vins@[j],
                    gvins[j],
                    crate::secp::sig_der_hex_of(
                        sha256_of(sha256_of(raw.legacy_preimage(j, 1))),
                        secret_key@,
                    ),
                ),
        decreases n - i,
    {
        let mut v = vins.remove(0);
        proof {
            assert(gvins.skip(i as int)[0] == gvins[i as int]);
            assert(gvins.skip(i as int).remove(0) =~= gvins.skip(i + 1 as int));
        }
        let rs = crate::transaction_parts::encode_stack_bare(&v.redeem_script);
        let ghost grs = rs@;
        proof {
            assert(v == gvins[i as int]);
            assert(grs == crate::transaction_parts::stack_bare_enc(gvins[i as int].redeem_script@));
        }
        proof {
            let h = sigs@[i as int]@;
            crate::encoding::lemma_varint_seq_len((h.len() / 2 + 1) as nat);
            crate::encoding::lemma_varint_seq_len(grs.len());
            assert(crate::transaction_parts::sig_size_spec(h, 1).len() <= 9);
            assert(crate::transaction_parts::sig_bytes_spec(h).len() <= 72);
            assert(crate::transaction_parts::sig_ht_spec(h, 1).len() <= 1);
            assert(crate::transaction_parts::rs_len_spec(grs).len() <= 9);
            assert(crate::transaction_parts::sig_script_total_len(h, grs, 1) <= grs.len() + 91);
            assert(grs.len() + 240 <= usize::MAX);
        }
        let legacy = match crate::transaction_parts::SigScriptLegacy::new(sigs[i].as_str(), rs, 1) {
            Ok(l) => l,
            Err(e) => {
                proof {
                    assert(crate::transaction_parts::sig_hex_ok(sigs@[i as int]@));
                    assert(false);
                }
                return Err(TxError::Signing);
            },
        };
        v.sig_script = crate::transaction_parts::SigScript::Legacy(legacy);
        out_vins.push(v);
        i += 1;
    }
    Ok(
        crate::transaction_parts::RawTransaction {
            version,
            vin_count,
            vins: out_vins,
            vout_count,
            vouts,
            locktime,
        },
    )
}

/// The character contents of the version-byte spellings.
proof fn proof_literals()
    ensures
        "00"@ == seq!['0', '0'],
        "6F"@ == seq!['6', 'F'],
        "02"@ == seq!['0', '2'],
        "03"@ == seq!['0', '3'],
        "04"@ == seq!['0', '4'],
        "05"@ == seq!['0', '5'],
{
    reveal_strlit("00");
    reveal_strlit("6F");
    reveal_strlit("02");
    reveal_strlit("03");
    reveal_strlit("04");
    reveal_strlit("05");
    assert("00"@ =~= seq!['0', '0']);
    assert("6F"@ =~= seq!['6', 'F']);
    assert("02"@ =~= seq!['0', '2']);
    assert("03"@ =~= seq!['0', '3']);
    assert("04"@ =~= seq!['0', '4']);
    assert("05"@ =~= seq!['0', '5']);
}

/// A decoded locking script spells valid hex of even length.
#[verifier::rlimit(100)]
#[verifier::spinoff_prover]
pub proof fn lemma_decoded_script_hex(a: Seq<char>)
    requires
        spec_address_result(spec_base58_to_hex(a)) is Ok,
    ensures
        spec_address_result(spec_base58_to_hex(a))->Ok_0.len() % 2 == 0,
        all_hex_digits(spec_address_result(spec_base58_to_hex(a))->Ok_0),
{
    proof_literals();
    let h = spec_base58_to_hex(a);
    let v = crate::base58::base58_val(a);
    let bs = if v == 0 {
        seq![0u8]
    } else {
        crate::base58::nat_digits_be(256, v)
    };
    crate::encoding::lemma_hex_upper_round_trip(bs);
    assert forall|i: int| 0 <= i < h.len() implies is_hex_digit(#[trigger] h[i]) by {
        if i < crate::base58::lo_double(a) {
            assert(h[i] == '0');
        } else {
            assert(h[i] == hex_upper_of_bytes(bs)[i - crate::base58::lo_double(a)]);
        }
    }
    assert(h.len() % 2 == 0);
    let s = spec_address_result(h)->Ok_0;
    let p = h.take(2);
    let rest = h.skip(2);
    if p == "00"@ || p == "6F"@ || p == "05"@ {
        assert(remove_checksum_spec(p, rest) is Ok);
        assert(rest.len() >= 40);
        assert(rest.len() == h.len() - 2);
        let body = rest.take(40);
        assert(body.len() == 40);
        assert forall|i: int| 0 <= i < body.len() implies is_hex_digit(#[trigger] body[i]) by {
            assert(body[i] == rest[i]);
            assert(rest[i] == h[i + 2]);
        }
        crate::encoding::lemma_varint_seq_len((body.len() / 2) as nat);
        crate::encoding::lemma_hex_upper_round_trip(varint_seq((body.len() / 2) as nat));
        assert forall|i: int| 0 <= i < s.len() implies is_hex_digit(#[trigger] s[i]) by {}
        assert(s.len() % 2 == 0);
    } else {
        crate::encoding::lemma_varint_seq_len((h.len() / 2) as nat);
        crate::encoding::lemma_hex_upper_round_trip(varint_seq((h.len() / 2) as nat));
        assert forall|i: int| 0 <= i < s.len() implies is_hex_digit(#[trigger] s[i]) by {}
        assert(s.len() % 2 == 0);
    }
}

/// Builds and signs a legacy transaction paying `to_value` satoshis to
/// `to_address`: unspent outputs are consumed in order until they cover
/// amount plus fee, any surplus over amount plus fee returns to
/// `my_address` as change, every input carries the shared redeem-script
/// word, and each input is signed with sighash type 1. Fails with
/// InsufficientFunds when the consumed outputs cannot cover amount plus
/// fee.
#[verifier::rlimit(100)]
#[verifier::spinoff_prover]
pub fn create_transaction(
    to_address: &str,
    to_value: u64,
    fee: u64,
    my_address: &str,
    my_redeem_script: &str,
    secret_key: &Vec<u8>,
    utxos: &Vec<UtxoInput>,
) -> (r: Result<crate::transaction_parts::SignedTransaction, TxError>)
    requires
        secret_key@.len() == 32,
        to_value + fee <= u64::MAX,
        prefix_total(utxos@, utxos@.len() as int) <= u64::MAX,
    ensures
        ({
            let target = to_value + fee;
            let dec_to = spec_address_result(spec_base58_to_hex(to_address@));
            let dec_my = spec_address_result(spec_base58_to_hex(my_address@));
            let to_ok = all_b58_chars(to_address@) && dec_to is Ok;
            let my_ok = all_b58_chars(my_address@) && dec_my is Ok;
            let k = pick(utxos@, target as int, 0, 0);
            let ff = first_fail(utxos@, target as int, my_redeem_script@, 0, 0);
            let total = prefix_total(utxos@, k as int);
            match r {
                Ok(tx) => {
                    &&& to_ok
                    &&& my_ok
                    &&& ff is None
                    &&& total >= target
                    &&& tx.vins@.len() == k
                    &&& (k > 0 ==> crate::secp::is_valid_seckey(secret_key@))
                    &&& tx.version@ == u32_le(2)
                    &&& tx.marker@ == seq![0u8, 1u8]
                    &&& tx.vin_count@ == varint_seq(k)
                    &&& tx.vout_count@ == varint_seq(tx.vouts@.len())
                    &&& tx.locktime@ == u32_le(0)
                    &&& tx.witnesses@.len() == 0
                    &&& tx.has_segwit_input == false
                    &&& (forall|j: int|
                        0 <= j < k ==> vin_from_utxo_signed(
                            #[trigger] tx.vins@[j],
                            utxos@[j],
                            my_redeem_script@,
                            crate::secp::sig_der_hex_of(
                                sha256_of(sha256_of(raw_of_signed(tx).legacy_preimage(j, 1))),
                                secret_key@,
                            ),
                        ))
                    &&& tx.vouts@.len() == (if total > target {
                        2int
                    } else {
                        1int
                    })
                    &&& tx.vouts@[0].value@ == u64_le(to_value)
                    &&& tx.vouts@[0].locking_script@ == bytes_of_hex(dec_to->Ok_0)
                    &&& tx.vouts@[0].locking_script_length@ == varint_seq(
                        (dec_to->Ok_0.len() / 2) as nat,
                    )
                    &&& (total > target ==> tx.vouts@[1].value@ == u64_le(
                        (total - target) as u64,
                    ) && tx.vouts@[1].locking_script@ == bytes_of_hex(dec_my->Ok_0)
                        && tx.vouts@[1].locking_script_length@ == varint_seq(
                        (dec_my->Ok_0.len() / 2) as nat,
                    ))
                },
                Err(e) => {
                    ||| (e == TxError::InvalidBase58Char && !all_b58_chars(to_address@))
                    ||| (all_b58_chars(to_address@) && dec_to is Err && e == dec_to->Err_0)
                    ||| (to_ok && e == TxError::InvalidBase58Char && !all_b58_chars(my_address@))
                    ||| (to_ok && all_b58_chars(my_address@) && dec_my is Err && e
                        == dec_my->Err_0)
                    ||| (to_ok && my_ok && (e == TxError::OddLengthHex || e
                        == TxError::InvalidHexDigit) && ff is Some)
                    ||| (to_ok && my_ok && ff is None && e == TxError::InsufficientFunds && total
                        < target)
                    ||| (to_ok && my_ok && ff is None && total >= target && e == TxError::Signing
                        && !crate::secp::is_valid_seckey(secret_key@))
                },
            }
        }),
{
    let ghost target = (to_value + fee) as int;
    let (destination_locking_script, output_is_segwit) = decode_address(to_address)?;
    let has_segwit = output_is_segwit;
    let (my_locking_script, _) = decode_address(my_address)?;
    let mut input_total: u64 = 0;
    let mut vins: Vec<crate::transaction_parts::Vin> = Vec::new();
    let mut i: usize = 0;
    while i < utxos.len() && input_total <= to_value + fee
        invariant
            secret_key@.len() == 32,
            to_value + fee <= u64::MAX,
            prefix_total(utxos@, utxos@.len() as int) <= u64::MAX,
            target == (to_value + fee) as int,
            all_b58_chars(to_address@),
            spec_address_result(spec_base58_to_hex(to_address@)) is Ok,
            destination_locking_script@ == spec_address_result(
                spec_base58_to_hex(to_address@),
            )->Ok_0,
            all_b58_chars(my_address@),
            spec_address_result(spec_base58_to_hex(my_address@)) is Ok,
            my_locking_script@ == spec_address_result(spec_base58_to_hex(my_address@))->Ok_0,
            has_segwit == false,
            i <= utxos@.len(),
            input_total as int == prefix_total(utxos@, i as int),
            pick(utxos@, target, i as nat, input_total as int) == pick(utxos@, target, 0, 0),
            first_fail(utxos@, target, my_redeem_script@, i as nat, input_total as int)
                == first_fail(utxos@, target, my_redeem_script@, 0, 0),
            vins@.len() == i,
            forall|j: int|
                0 <= j < i ==> utxo_vin_ok(#[trigger] utxos@[j], my_redeem_script@),
            forall|j: int|
                0 <= j < i ==> (#[trigger] vins@[j]).txid@ == bytes_of_hex(
                    utxos@[j].txid@,
                ).reverse() && vins@[j].vout@ == u32_le(utxos@[j].vout)
                    && vins@[j].locking_script_length@ == varint_seq(
                    (utxos@[j].locking_script@.len() / 2) as nat,
                ) && vins@[j].locking_script@ == bytes_of_hex(utxos@[j].locking_script@)
                    && vins@[j].sequence@ == u32_le(4294967295u32) && vins@[j].value@ == u64_le(
                    utxos@[j].value,
                ) && vins@[j].redeem_script@.len() == 1 && crate::transaction_parts::item_matches(
                    vins@[j].redeem_script@[0],
                    my_redeem_script@,
                ) && vins@[j].sig_script == crate::transaction_parts::SigScript::Byte(0u8),
        decreases utxos@.len() - i,
    {
        let u = &utxos[i];
        let toks = vec![my_redeem_script];
        proof {
            assert(toks@ =~= seq![my_redeem_script]);
            assert(prefix_total(utxos@, i + 1 as int) == prefix_total(utxos@, i as int)
                + utxos@[i as int].value);
            lemma_prefix_total_mono(utxos@, i + 1 as int, utxos@.len() as int);
        }
        match crate::transaction_parts::Vin::new(
            u.txid.as_str(),
            u.vout,
            u.locking_script.as_str(),
            toks,
            4294967295u32,
            u.value,
        ) {
            Ok(vin) => {
                proof {
                    let gws = toks@.map_values(|w: &str| w@);
                    assert(gws[0] == my_redeem_script@);
                    assert(crate::transaction_parts::word_ok(my_redeem_script@));
                    assert(vin.redeem_script@.len() == 1);
                    assert(crate::transaction_parts::item_matches(
                        vin.redeem_script@[0],
                        gws[0],
                    ));
                    assert(utxo_vin_ok(utxos@[i as int], my_redeem_script@));
                }
                input_total = input_total + u.value;
                vins.push(vin);
                i += 1;
            },
            Err(e) => {
                proof {
                    let gws = toks@.map_values(|w: &str| w@);
                    assert(gws =~= seq![my_redeem_script@]);
                    if crate::transaction_parts::words_ok(gws) {
                        assert(!utxo_vin_ok(utxos@[i as int], my_redeem_script@));
                    } else {
                        assert(!crate::transaction_parts::word_ok(my_redeem_script@)) by {
                            assert(!crate::transaction_parts::word_ok(gws[0]));
                        }
                        assert(!utxo_vin_ok(utxos@[i as int], my_redeem_script@));
                    }
                    assert(first_fail(utxos@, target, my_redeem_script@, i as nat, input_total as int)
                        == Some(i as nat));
                }
                return Err(e);
            },
        }
    }
    proof {
        assert(pick(utxos@, target, i as nat, input_total as int) == i as nat);
        assert(first_fail(utxos@, target, my_redeem_script@, i as nat, input_total as int)
            is None);
    }
    let ghost k = i as nat;
    let mut vouts: Vec<crate::transaction_parts::Vout> = Vec::new();
    let v0 = match crate::transaction_parts::Vout::new(
        to_value,
        destination_locking_script.as_str(),
    ) {
        Ok(v) => v,
        Err(e) => {
            proof {
                lemma_decoded_script_hex(to_address@);
                assert(false);
            }
            return Err(e);
        },
    };
    vouts.push(v0);
    let subtotal = to_value + fee;
    if subtotal < input_total {
        let change = input_total - subtotal;
        let v1 = match crate::transaction_parts::Vout::new(change, my_locking_script.as_str()) {
            Ok(v) => v,
            Err(e) => {
                proof {
                    lemma_decoded_script_hex(my_address@);
                    assert(false);
                }
                return Err(e);
            },
        };
        vouts.push(v1);
    } else if subtotal > input_total {
        return Err(TxError::InsufficientFunds);
    }
    let ghost gvouts = vouts@;
    let raw = crate::transaction_parts::RawTransaction::new(2, vins, vouts, 0);
    let ghost graw = raw;
    let word_len = my_redeem_script.unicode_len();
    proof {
        assert forall|i2: int|
            0 <= i2 < raw.vins@.len() implies crate::transaction_parts::stack_bare_enc(
            (#[trigger] raw.vins@[i2]).redeem_script@,
        ).len() + 240 <= usize::MAX by {
            crate::transaction_parts::lemma_single_item_bare_len(
                raw.vins@[i2].redeem_script@,
                my_redeem_script@,
            );
            assert(word_len == my_redeem_script@.len());
        }
    }
    let signed_raw = match sign_inputs_legacy(raw, secret_key) {
        Ok(x) => x,
        Err(e) => {
            return Err(e);
        },
    };
    let witnesses: Vec<Option<crate::transaction_parts::Witness>> = Vec::new();
    let tx = crate::transaction_parts::SignedTransaction::new(signed_raw, witnesses, has_segwit);
    proof {
        assert(raw_of_signed(tx).vins == tx.vins);
        assert forall|j: int| 0 <= j < k implies raw_of_signed(tx).legacy_preimage(j, 1)
            == graw.legacy_preimage(j, 1) by {
            crate::transaction_parts::lemma_vins_legacy_enc_sig_independent(
                raw_of_signed(tx).vins@,
                graw.vins@,
                j,
            );
        }
    }
    Ok(tx)
}

/// The hex spelling of a vault witness script: an IF branch that lets the
/// owner redeem at once, an ELSE branch that lets the single-use key
/// redeem after the relative locktime matures.
pub open spec fn vault_witness_chars(parent_pk: Seq<char>, single_pk: Seq<char>, n: u16) -> Seq<
    char,
> {
    seq!['6', '3'] + hex_upper_of_bytes(varint_seq((parent_pk.len() / 2) as nat)) + parent_pk
        + seq!['a', 'c', '6', '7'] + spec_locktime_hex(n) + seq!['b', '2', '7', '5']
        + hex_upper_of_bytes(varint_seq((single_pk.len() / 2) as nat)) + single_pk + seq![
        'a',
        'c',
        '6',
        '8',
    ]
}

/// The locktime hex spelling is well-formed hex of even length.
proof fn lemma_locktime_hex_valid(n: u16)
    ensures
        spec_locktime_hex(n).len() % 2 == 0,
        all_hex_digits(spec_locktime_hex(n)),
        spec_locktime_hex(n).len() > 0,
{
    if 1 <= n <= 16 {
        lemma_hex_upper_round_trip(seq![(80 + n) as u8]);
    } else {
        lemma_hex_upper_round_trip(varint_seq(min_le_bytes(n).len()));
        lemma_hex_upper_round_trip(min_le_bytes(n));
        crate::encoding::lemma_varint_seq_len(min_le_bytes(n).len());
        let a = hex_upper_of_bytes(varint_seq(min_le_bytes(n).len()));
        let b = hex_upper_of_bytes(min_le_bytes(n));
        assert forall|i: int|
            0 <= i < spec_locktime_hex(n).len() implies is_hex_digit(
            #[trigger] spec_locktime_hex(n)[i],
        ) by {
            if i < a.len() {
                assert(spec_locktime_hex(n)[i] == a[i]);
            } else {
                assert(spec_locktime_hex(n)[i] == b[i - a.len()]);
            }
        }
    }
}

/// Generates the single-use keypair and assembles the vault: the witness
/// script guards the funds, and its P2WSH wrap is the locking script the
/// initiation transaction pays into.
#[verifier::rlimit(100)]
#[verifier::spinoff_prover]
pub fn generate_timelock_components(parent_pubkey: &str, locktime_blocks: u16) -> (r:
    crate::will_components::TimelockComponents)
    requires
        parent_pubkey@.len() % 2 == 0,
        all_hex_digits(parent_pubkey@),
    ensures
        r.single_use_private_key@.len() == 32,
        crate::secp::is_valid_seckey(r.single_use_private_key@),
        r.single_use_public_key@ == crate::secp::pubkey_hex_of(r.single_use_private_key@),
        r.single_use_public_key@.len() == 66,
        all_hex_digits(r.single_use_public_key@),
        r.sequence_locktime@ == u16_le(locktime_blocks),
        r.sequence_flags@ == seq![0u8, 0u8],
        r.witness_script@ == bytes_of_hex(
            vault_witness_chars(
                parent_pubkey@,
                crate::secp::pubkey_hex_of(r.single_use_private_key@),
                locktime_blocks,
            ),
        ),
        r.locking_script@ == seq![0u8] + varint_seq(32) + sha256_of(r.witness_script@),
{
    let (secret_key, public_key) = crate::secp::generate_keypair_hex();
    let locktime = encode_locktime(locktime_blocks);
    let parent_tok = hex_varint_prefix(parent_pubkey);
    let single_tok = hex_varint_prefix(public_key.as_str());
    let ptok = parent_tok.as_str();
    let ltok = locktime.as_str();
    let stok = single_tok.as_str();
    let toks = vec![
        "OP_IF",
        ptok,
        "OP_checksig",
        "OP_ELSE",
        ltok,
        "OP_CHECKSEQUENCEVERIFY",
        "OP_DROP",
        stok,
        "OP_checksig",
        "OP_ENDIF",
    ];
    proof {
        assert(toks@ =~= seq![
            "OP_IF",
            ptok,
            "OP_checksig",
            "OP_ELSE",
            ltok,
            "OP_CHECKSEQUENCEVERIFY",
            "OP_DROP",
            stok,
            "OP_checksig",
            "OP_ENDIF",
        ]);
    }
    let ghost gws = toks@.map_values(|w: &str| w@);
    let witness_script = script(toks);
    proof {
        lemma_opcode_values();
        lemma_upper_variants();
        lemma_locktime_hex_valid(locktime_blocks);
        lemma_hex_upper_round_trip(varint_seq((parent_pubkey@.len() / 2) as nat));
        lemma_hex_upper_round_trip(varint_seq((public_key@.len() / 2) as nat));
        crate::encoding::lemma_varint_seq_len((parent_pubkey@.len() / 2) as nat);
        crate::encoding::lemma_varint_seq_len((public_key@.len() / 2) as nat);
        assert(ptok@.len() > 0 && is_hex_digit(ptok@[0]));
        assert(ltok@.len() > 0 && is_hex_digit(ltok@[0]));
        assert(stok@.len() > 0 && is_hex_digit(stok@[0]));
        lemma_hex_token_not_opcode(ptok@);
        lemma_hex_token_not_opcode(ltok@);
        lemma_hex_token_not_opcode(stok@);
        let s0 = Seq::<Seq<char>>::empty();
        let s1 = s0.push("OP_IF"@);
        let s2 = s1.push(ptok@);
        let s3 = s2.push("OP_checksig"@);
        let s4 = s3.push("OP_ELSE"@);
        let s5 = s4.push(ltok@);
        let s6 = s5.push("OP_CHECKSEQUENCEVERIFY"@);
        let s7 = s6.push("OP_DROP"@);
        let s8 = s7.push(stok@);
        let s9 = s8.push("OP_checksig"@);
        let s10 = s9.push("OP_ENDIF"@);
        assert(gws =~= s10);
        assert(s1.drop_last() =~= s0);
        assert(s2.drop_last() =~= s1);
        assert(s3.drop_last() =~= s2);
        assert(s4.drop_last() =~= s3);
        assert(s5.drop_last() =~= s4);
        assert(s6.drop_last() =~= s5);
        assert(s7.drop_last() =~= s6);
        assert(s8.drop_last() =~= s7);
        assert(s9.drop_last() =~= s8);
        assert(s10.drop_last() =~= s9);
        assert(word_hex("OP_IF"@) =~= seq!['6', '3']);
        assert(word_hex("OP_checksig"@) =~= seq!['a', 'c']);
        assert(word_hex("OP_ELSE"@) =~= seq!['6', '7']);
        assert(word_hex("OP_CHECKSEQUENCEVERIFY"@) =~= seq!['b', '2']);
        assert(word_hex("OP_DROP"@) =~= seq!['7', '5']);
        assert(word_hex("OP_ENDIF"@) =~= seq!['6', '8']);
        assert(assembled(s10) == assembled(s9) + word_hex("OP_ENDIF"@));
        assert(assembled(s9) == assembled(s8) + word_hex("OP_checksig"@));
        assert(assembled(s8) == assembled(s7) + word_hex(stok@));
        assert(assembled(s7) == assembled(s6) + word_hex("OP_DROP"@));
        assert(assembled(s6) == assembled(s5) + word_hex("OP_CHECKSEQUENCEVERIFY"@));
        assert(assembled(s5) == assembled(s4) + word_hex(ltok@));
        assert(assembled(s4) == assembled(s3) + word_hex("OP_ELSE"@));
        assert(assembled(s3) == assembled(s2) + word_hex("OP_checksig"@));
        assert(assembled(s2) == assembled(s1) + word_hex(ptok@));
        assert(assembled(s1) == assembled(s0) + word_hex("OP_IF"@));
        assert(witness_script@ =~= vault_witness_chars(
            parent_pubkey@,
            public_key@,
            locktime_blocks,
        ));
        assert forall|i: int|
            0 <= i < witness_script@.len() implies is_hex_digit(#[trigger] witness_script@[i]) by {}
        assert(witness_script@.len() % 2 == 0);
    }
    let ws_bytes = match hex_str_to_bytes(witness_script.as_str()) {
        Ok(b) => b,
        Err(e) => {
            proof {
                assert(false);
            }
            Vec::new()
        },
    };
    let mut ws_copy: Vec<u8> = Vec::new();
    push_bytes(&mut ws_copy, &ws_bytes);
    let locking_script = wrap_p2wsh(ws_copy);
    let components = crate::will_components::TimelockComponents::new(
        secret_key,
        public_key,
        locktime_blocks,
        ws_bytes,
        locking_script,
    ).unwrap();
    components
}

/// Decodes a base58check address to its locking script and segwit flag.
pub fn decode_address(address: &str) -> (r: Result<(String, bool), TxError>)
    ensures
        match r {
            Ok((s, w)) => all_b58_chars(address@) && spec_address_result(
                spec_base58_to_hex(address@),
            ) == Ok::<Seq<char>, TxError>(s@) && w == false,
            Err(e) => (e == TxError::InvalidBase58Char && !all_b58_chars(address@)) || (
            all_b58_chars(address@) && spec_address_result(spec_base58_to_hex(address@))
                == Err::<Seq<char>, TxError>(e)),
        },
{
    let h = base58_to_hex(address)?;
    address_to_lockingscript(h.as_str())
}

/// Whether an address decodes to a locking script.
pub open spec fn addr_script_ok(a: Seq<char>) -> bool {
    all_b58_chars(a) && spec_address_result(spec_base58_to_hex(a)) is Ok
}

/// The exact error an undecodable address gives.
pub open spec fn addr_err(a: Seq<char>) -> TxError {
    if !all_b58_chars(a) {
        TxError::InvalidBase58Char
    } else {
        spec_address_result(spec_base58_to_hex(a))->Err_0
    }
}

/// The locking script an address decodes to.
pub open spec fn addr_script(a: Seq<char>) -> Seq<char> {
    spec_address_result(spec_base58_to_hex(a))->Ok_0
}

/// The first position below `n` whose address does not decode, if any.
pub open spec fn first_bad_addr(addrs: Seq<String>, n: int, j: int) -> Option<int>
    decreases n - j,
{
    if j >= n {
        None
    } else if !addr_script_ok(addrs[j]@) {
        Some(j)
    } else {
        first_bad_addr(addrs, n, j + 1)
    }
}

/// The first unspent output that cannot become an input, if any (all
/// outputs are consumed).
pub open spec fn first_bad_utxo(utxos: Seq<UtxoInput>, word: Seq<char>, j: int) -> Option<int>
    decreases utxos.len() - j,
{
    if j >= utxos.len() {
        None
    } else if !utxo_vin_ok(utxos[j], word) {
        Some(j)
    } else {
        first_bad_utxo(utxos, word, j + 1)
    }
}

/// The BIP143-style preimage (sighash type 1) of a single-input vault
/// spend: the transaction commitments around the first input's own
/// prevout, redeem script, value and sequence.
pub open spec fn vault_preimage(
    vins: Seq<crate::transaction_parts::Vin>,
    vouts: Seq<crate::transaction_parts::Vout>,
) -> Seq<u8> {
    u32_le(2) + sha256_of(sha256_of(crate::transaction_parts::prevouts_blob(vins))) + sha256_of(
        sha256_of(crate::transaction_parts::sequences_blob(vins)),
    ) + vins[0].txid@ + vins[0].vout@ + varint_seq(
        crate::transaction_parts::stack_bare_enc(vins[0].redeem_script@).len(),
    ) + crate::transaction_parts::stack_bare_enc(vins[0].redeem_script@) + vins[0].value@
        + vins[0].sequence@ + sha256_of(sha256_of(crate::transaction_parts::vouts_enc(vouts)))
        + u32_le(0) + seq![1u8, 0u8, 0u8, 0u8]
}

/// Builds, signs and assembles a one-input transaction that spends the
/// vault output (output 0) of the initiation transaction: the witness
/// stack carries the signature, the branch selector opcode and the witness
/// script.
#[verifier::rlimit(100)]
#[verifier::spinoff_prover]
fn build_vault_spend(
    will_initiation: &crate::transaction_parts::SignedTransaction,
    timelock_vault: &crate::will_components::TimelockComponents,
    sequence: u32,
    selector: u8,
    key: &Vec<u8>,
    vouts: Vec<crate::transaction_parts::Vout>,
) -> (r: Result<crate::transaction_parts::SignedTransaction, TxError>)
    requires
        key@.len() == 32,
        will_initiation.vouts@.len() > 0,
        will_initiation.vouts@[0].value@.len() <= 8,
    ensures
        match r {
            Ok(tx) => {
                &&& crate::secp::is_valid_seckey(key@)
                &&& tx.version@ == u32_le(2)
                &&& tx.marker@ == seq![0u8, 1u8]
                &&& tx.vin_count@ == varint_seq(1)
                &&& tx.vout_count@ == varint_seq(vouts@.len())
                &&& tx.vouts == vouts
                &&& tx.locktime@ == u32_le(0)
                &&& tx.has_segwit_input == true
                &&& tx.vins@.len() == 1
                &&& tx.vins@[0].txid@ == sha256_of(sha256_of(will_initiation.legacy_enc()))
                &&& tx.vins@[0].vout@ == u32_le(0)
                &&& tx.vins@[0].locking_script@ == timelock_vault.locking_script@
                &&& tx.vins@[0].locking_script_length@ == varint_seq(
                    timelock_vault.locking_script@.len(),
                )
                &&& tx.vins@[0].sig_script == crate::transaction_parts::SigScript::Byte(0u8)
                &&& tx.vins@[0].sequence@ == u32_le(sequence)
                &&& tx.vins@[0].value@ == u64_le(
                    le_val(will_initiation.vouts@[0].value@) as u64,
                )
                &&& tx.vins@[0].redeem_script@.len() == 1
                &&& tx.vins@[0].redeem_script@[0] is Data
                &&& tx.vins@[0].redeem_script@[0]->Data_0@ == timelock_vault.witness_script@
                &&& tx.witnesses@.len() == 1
                &&& tx.witnesses@[0] is Some
                &&& tx.witnesses@[0]->0.nitems@ == varint_seq(3)
                &&& tx.witnesses@[0]->0.code_separator@.len() == 0
                &&& tx.witnesses@[0]->0.signatures@.len() == 1
                &&& crate::transaction_parts::sig_matches(
                    tx.witnesses@[0]->0.signatures@[0],
                    crate::secp::sig_der_hex_of(
                        sha256_of(sha256_of(vault_preimage(tx.vins@, tx.vouts@))),
                        key@,
                    ),
                    1,
                )
                &&& tx.witnesses@[0]->0.redeem_script@.len() == 2
                &&& tx.witnesses@[0]->0.redeem_script@[0]
                    == crate::transaction_parts::StackItem::OP(selector)
                &&& tx.witnesses@[0]->0.redeem_script@[1] is Data
                &&& tx.witnesses@[0]->0.redeem_script@[1]->Data_0@
                    == timelock_vault.witness_script@
            },
            Err(e) => e == TxError::Signing && !crate::secp::is_valid_seckey(key@),
        },
{
    let init_bytes = will_initiation.encode_legacy();
    proof {
        lemma_hex_upper_round_trip(init_bytes@);
    }
    let init_hex = bytes_to_hex_upper(&init_bytes);
    let digest = sha256d(init_hex.as_str());
    let rev = crate::traits::reverse_bytes(&digest);
    proof {
        lemma_hex_upper_round_trip(rev@);
        assert(bytes_of_hex(hex_upper_of_bytes(rev@)).reverse() =~= digest@);
    }
    let prev_txid_hex = bytes_to_hex_upper(&rev);
    proof {
        lemma_hex_upper_round_trip(timelock_vault.locking_script@);
        lemma_hex_upper_round_trip(timelock_vault.witness_script@);
    }
    let locking_hex = bytes_to_hex_upper(&timelock_vault.locking_script);
    let witness_hex = bytes_to_hex_upper(&timelock_vault.witness_script);
    let mut valv: Vec<u8> = Vec::new();
    push_bytes(&mut valv, &will_initiation.vouts[0].value);
    let input_sat = bytes_to_int_le(&valv);
    let wtok = witness_hex.as_str();
    let toks = vec![wtok];
    proof {
        assert(toks@ =~= seq![wtok]);
    }
    let vin = match crate::transaction_parts::Vin::new(
        prev_txid_hex.as_str(),
        0,
        locking_hex.as_str(),
        toks,
        sequence,
        input_sat,
    ) {
        Ok(v) => v,
        Err(_) => {
            proof {
                assert(false);
            }
            return Err(TxError::Signing);
        },
    };
    proof {
        let gws = seq![wtok].map_values(|w: &str| w@);
        assert(gws[0] == witness_hex@);
        if witness_hex@.len() == 0 {
            lemma_hex_token_not_opcode(witness_hex@);
        } else {
            assert(is_hex_digit(witness_hex@[0]));
            lemma_hex_token_not_opcode(witness_hex@);
        }
        assert(crate::transaction_parts::item_matches(vin.redeem_script@[0], witness_hex@));
        assert(vin.redeem_script@[0] is Data);
        assert(vin.redeem_script@[0]->Data_0@ == timelock_vault.witness_script@);
        assert(vin.txid@ =~= digest@);
        assert(locking_hex@.len() / 2 == timelock_vault.locking_script@.len());
    }
    let mut vins: Vec<crate::transaction_parts::Vin> = Vec::new();
    vins.push(vin);
    let raw = crate::transaction_parts::RawTransaction::new(2, vins, vouts, 0);
    let mut unsigned = crate::transaction_parts::UnsignedSegwitTransaction::new(&raw, 0, 1);
    unsigned.change_vin_p2wsh(&raw.vins[0], 1, 0);
    let pre = unsigned.encode_preimage();
    proof {
        let bare = crate::transaction_parts::stack_bare_enc(raw.vins@[0].redeem_script@);
        assert(bare.skip(0) =~= bare);
        assert(unsigned.preimage() =~= vault_preimage(raw.vins@, raw.vouts@));
    }
    let h1 = sha256_bytes(&pre);
    let msg = sha256_bytes(&h1);
    let sig_hex = match crate::secp::ecdsa_sign_der_hex(&msg, key) {
        Ok(s) => s,
        Err(_) => {
            return Err(TxError::Signing);
        },
    };
    let ws_bytes = match hex_str_to_bytes(witness_hex.as_str()) {
        Ok(b) => b,
        Err(_) => {
            proof {
                assert(false);
            }
            return Err(TxError::Signing);
        },
    };
    let items = vec![
        crate::transaction_parts::StackItem::OP(selector),
        crate::transaction_parts::StackItem::Data(ws_bytes),
    ];
    let stok = sig_hex.as_str();
    let sig_toks = vec![stok];
    proof {
        assert(sig_toks@ =~= seq![stok]);
        assert(items@.len() == 2);
    }
    let w = match crate::transaction_parts::Witness::new(sig_toks, items, 1) {
        Ok(w) => w,
        Err(_) => {
            proof {
                assert(false);
            }
            return Err(TxError::Signing);
        },
    };
    let mut witnesses: Vec<Option<crate::transaction_parts::Witness>> = Vec::new();
    witnesses.push(Some(w));
    let tx = crate::transaction_parts::SignedTransaction::new(raw, witnesses, true);
    Ok(tx)
}

/// Builds the redemption transaction: after the relative locktime matures,
/// the heir path (branch selector OP_0, the single-use key) spends the
/// vault to the inheritors' addresses.
pub fn create_will_redemption(
    will_initiation: crate::transaction_parts::SignedTransaction,
    timelock_vault: crate::will_components::TimelockComponents,
    child_amounts: Vec<u64>,
    child_addresses: Vec<String>,
) -> (r: Result<crate::transaction_parts::SignedTransaction, TxError>)
    requires
        timelock_vault.single_use_private_key@.len() == 32,
        timelock_vault.sequence_locktime@.len() == 2,
        timelock_vault.sequence_flags@.len() == 2,
        will_initiation.vouts@.len() > 0,
        will_initiation.vouts@[0].value@.len() <= 8,
        child_addresses@.len() >= child_amounts@.len(),
    ensures
        match r {
            Ok(tx) => {
                &&& first_bad_addr(child_addresses@, child_amounts@.len() as int, 0) is None
                &&& crate::secp::is_valid_seckey(timelock_vault.single_use_private_key@)
                &&& tx.vouts@.len() == child_amounts@.len()
                &&& (forall|j: int|
                    0 <= j < child_amounts@.len() ==> (#[trigger] tx.vouts@[j]).value@ == u64_le(
                        child_amounts@[j],
                    ) && tx.vouts@[j].locking_script@ == bytes_of_hex(
                        addr_script(child_addresses@[j]@),
                    ) && tx.vouts@[j].locking_script_length@ == varint_seq(
                        (addr_script(child_addresses@[j]@).len() / 2) as nat,
                    ))
                &&& tx.version@ == u32_le(2)
                &&& tx.marker@ == seq![0u8, 1u8]
                &&& tx.vin_count@ == varint_seq(1)
                &&& tx.vout_count@ == varint_seq(tx.vouts@.len())
                &&& tx.locktime@ == u32_le(0)
                &&& tx.has_segwit_input == true
                &&& tx.vins@.len() == 1
                &&& tx.vins@[0].txid@ == sha256_of(sha256_of(will_initiation.legacy_enc()))
                &&& tx.vins@[0].vout@ == u32_le(0)
                &&& tx.vins@[0].locking_script@ == timelock_vault.locking_script@
                &&& tx.vins@[0].sequence@ == u32_le(
                    le_val(timelock_vault.sequence_locktime@ + timelock_vault.sequence_flags@) as u32,
                )
                &&& tx.vins@[0].value@ == u64_le(le_val(will_initiation.vouts@[0].value@) as u64)
                &&& tx.vins@[0].redeem_script@.len() == 1
                &&& tx.vins@[0].redeem_script@[0] is Data
                &&& tx.vins@[0].redeem_script@[0]->Data_0@ == timelock_vault.witness_script@
                &&& tx.witnesses@.len() == 1
                &&& tx.witnesses@[0] is Some
                &&& tx.witnesses@[0]->0.signatures@.len() == 1
                &&& crate::transaction_parts::sig_matches(
                    tx.witnesses@[0]->0.signatures@[0],
                    crate::secp::sig_der_hex_of(
                        sha256_of(sha256_of(vault_preimage(tx.vins@, tx.vouts@))),
                        timelock_vault.single_use_private_key@,
                    ),
                    1,
                )
                &&& tx.witnesses@[0]->0.redeem_script@.len() == 2
                &&& tx.witnesses@[0]->0.redeem_script@[0]
                    == crate::transaction_parts::StackItem::OP(0u8)
                &&& tx.witnesses@[0]->0.redeem_script@[1] is Data
                &&& tx.witnesses@[0]->0.redeem_script@[1]->Data_0@
                    == timelock_vault.witness_script@
            },
            Err(e) => {
                ||| (first_bad_addr(child_addresses@, child_amounts@.len() as int, 0) is Some && e
                    == addr_err(
                    child_addresses@[first_bad_addr(
                        child_addresses@,
                        child_amounts@.len() as int,
                        0,
                    )->0]@,
                ))
                ||| (first_bad_addr(child_addresses@, child_amounts@.len() as int, 0) is None && e
                    == TxError::Signing && !crate::secp::is_valid_seckey(
                    timelock_vault.single_use_private_key@,
                ))
            },
        },
{
    let seq_bytes = timelock_vault.sequence();
    proof {
        assert(pow256(0) == 1);
        assert(pow256(1) == 256);
        assert(pow256(2) == 0x10000);
        assert(pow256(3) == 0x1000000);
        assert(pow256(4) == 0x100000000);
        crate::encoding::lemma_le_val_bound(seq_bytes@);
    }
    let seq64 = bytes_to_int_le(&seq_bytes);
    let seq_u32 = seq64 as u32;
    let n = child_amounts.len();
    let mut vouts: Vec<crate::transaction_parts::Vout> = Vec::new();
    let mut i: usize = 0;
    while i < n
        invariant
            n == child_amounts@.len(),
            child_addresses@.len() >= n,
            i <= n,
            vouts@.len() == i,
            first_bad_addr(child_addresses@, n as int, i as int) == first_bad_addr(
                child_addresses@,
                n as int,
                0,
            ),
            forall|j: int| 0 <= j < i ==> addr_script_ok((#[trigger] child_addresses@[j])@),
            forall|j: int|
                0 <= j < i ==> (#[trigger] vouts@[j]).value@ == u64_le(child_amounts@[j])
                    && vouts@[j].locking_script@ == bytes_of_hex(addr_script(child_addresses@[j]@))
                    && vouts@[j].locking_script_length@ == varint_seq(
                    (addr_script(child_addresses@[j]@).len() / 2) as nat,
                ),
        decreases n - i,
    {
        let (out_script, _) = match decode_address(child_addresses[i].as_str()) {
            Ok(p) => p,
            Err(e) => {
                proof {
                    assert(!addr_script_ok(child_addresses@[i as int]@));
                    assert(first_bad_addr(child_addresses@, n as int, i as int) == Some(i as int));
                    assert(e == addr_err(child_addresses@[i as int]@));
                }
                return Err(e);
            },
        };
        let v = match crate::transaction_parts::Vout::new(child_amounts[i], out_script.as_str()) {
            Ok(v) => v,
            Err(e) => {
                proof {
                    lemma_decoded_script_hex(child_addresses@[i as int]@);
                    assert(false);
                }
                return Err(e);
            },
        };
        vouts.push(v);
        i += 1;
    }
    proof {
        assert(first_bad_addr(child_addresses@, n as int, n as int) is None);
    }
    build_vault_spend(
        &will_initiation,
        &timelock_vault,
        seq_u32,
        0u8,
        &timelock_vault.single_use_private_key,
        vouts,
    )
}

/// Builds the revocation transaction: the owner path (branch selector
/// OP_1, the owner's key) returns the vault's funds, less the fee, to the
/// owner's address at any time.
pub fn create_will_revocation(
    parent_secretkey: &Vec<u8>,
    will_initiation: crate::transaction_parts::SignedTransaction,
    timelock_vault: crate::will_components::TimelockComponents,
    return_address: &str,
    fee: u64,
) -> (r: Result<crate::transaction_parts::SignedTransaction, TxError>)
    requires
        parent_secretkey@.len() == 32,
        will_initiation.vouts@.len() > 0,
        will_initiation.vouts@[0].value@.len() <= 8,
        fee <= le_val(will_initiation.vouts@[0].value@),
    ensures
        match r {
            Ok(tx) => {
                &&& addr_script_ok(return_address@)
                &&& crate::secp::is_valid_seckey(parent_secretkey@)
                &&& tx.vouts@.len() == 1
                &&& tx.vouts@[0].value@ == u64_le(
                    (le_val(will_initiation.vouts@[0].value@) - fee) as u64,
                )
                &&& tx.vouts@[0].locking_script@ == bytes_of_hex(addr_script(return_address@))
                &&& tx.vouts@[0].locking_script_length@ == varint_seq(
                    (addr_script(return_address@).len() / 2) as nat,
                )
                &&& tx.version@ == u32_le(2)
                &&& tx.marker@ == seq![0u8, 1u8]
                &&& tx.vin_count@ == varint_seq(1)
                &&& tx.vout_count@ == varint_seq(1)
                &&& tx.locktime@ == u32_le(0)
                &&& tx.has_segwit_input == true
                &&& tx.vins@.len() == 1
                &&& tx.vins@[0].txid@ == sha256_of(sha256_of(will_initiation.legacy_enc()))
                &&& tx.vins@[0].vout@ == u32_le(0)
                &&& tx.vins@[0].locking_script@ == timelock_vault.locking_script@
                &&& tx.vins@[0].sequence@ == u32_le(4294967295u32)
                &&& tx.vins@[0].value@ == u64_le(le_val(will_initiation.vouts@[0].value@) as u64)
                &&& tx.vins@[0].redeem_script@.len() == 1
                &&& tx.vins@[0].redeem_script@[0] is Data
                &&& tx.vins@[0].redeem_script@[0]->Data_0@ == timelock_vault.witness_script@
                &&& tx.witnesses@.len() == 1
                &&& tx.witnesses@[0] is Some
                &&& tx.witnesses@[0]->0.signatures@.len() == 1
                &&& crate::transaction_parts::sig_matches(
                    tx.witnesses@[0]->0.signatures@[0],
                    crate::secp::sig_der_hex_of(
                        sha256_of(sha256_of(vault_preimage(tx.vins@, tx.vouts@))),
                        parent_secretkey@,
                    ),
                    1,
                )
                &&& tx.witnesses@[0]->0.redeem_script@.len() == 2
                &&& tx.witnesses@[0]->0.redeem_script@[0]
                    == crate::transaction_parts::StackItem::OP(1u8)
                &&& tx.witnesses@[0]->0.redeem_script@[1] is Data
                &&& tx.witnesses@[0]->0.redeem_script@[1]->Data_0@
                    == timelock_vault.witness_script@
            },
            Err(e) => {
                ||| (!addr_script_ok(return_address@) && e == addr_err(return_address@))
                ||| (addr_script_ok(return_address@) && e == TxError::Signing
                    && !crate::secp::is_valid_seckey(parent_secretkey@))
            },
        },
{
    let mut valv: Vec<u8> = Vec::new();
    push_bytes(&mut valv, &will_initiation.vouts[0].value);
    proof {
        crate::encoding::lemma_le_val_bound(valv@);
        crate::encoding::lemma_pow256_mono(valv@.len() as nat, 8);
        crate::encoding::lemma_pow256_value();
    }
    let input_satoshis = bytes_to_int_le(&valv);
    let (refund_script, _) = decode_address(return_address)?;
    let v0 = match crate::transaction_parts::Vout::new(
        input_satoshis - fee,
        refund_script.as_str(),
    ) {
        Ok(v) => v,
        Err(e) => {
            proof {
                lemma_decoded_script_hex(return_address@);
                assert(false);
            }
            return Err(e);
        },
    };
    let mut vouts: Vec<crate::transaction_parts::Vout> = Vec::new();
    vouts.push(v0);
    build_vault_spend(
        &will_initiation,
        &timelock_vault,
        4294967295u32,
        1u8,
        parent_secretkey,
        vouts,
    )
}

/// Builds and signs the initiation transaction: every supplied unspent
/// output is consumed, and their whole value, less the fee, moves into the
/// vault's locking script.
#[verifier::rlimit(100)]
#[verifier::spinoff_prover]
pub fn create_will_initiation(
    my_address: &str,
    secret_key: &Vec<u8>,
    timelock_locking_script: &str,
    my_redeem_script: &str,
    fee: u64,
    utxos: &Vec<UtxoInput>,
) -> (r: Result<crate::transaction_parts::SignedTransaction, TxError>)
    requires
        secret_key@.len() == 32,
        prefix_total(utxos@, utxos@.len() as int) <= u64::MAX,
        fee <= prefix_total(utxos@, utxos@.len() as int),
    ensures
        ({
            let dec_my = spec_address_result(spec_base58_to_hex(my_address@));
            let my_ok = all_b58_chars(my_address@) && dec_my is Ok;
            let n = utxos@.len() as int;
            let fb = first_bad_utxo(utxos@, my_redeem_script@, 0);
            let tls_ok = timelock_locking_script@.len() % 2 == 0 && all_hex_digits(
                timelock_locking_script@,
            );
            match r {
                Ok(tx) => {
                    &&& my_ok
                    &&& fb is None
                    &&& tls_ok
                    &&& (n > 0 ==> crate::secp::is_valid_seckey(secret_key@))
                    &&& tx.vins@.len() == n
                    &&& tx.version@ == u32_le(2)
                    &&& tx.marker@ == seq![0u8, 1u8]
                    &&& tx.vin_count@ == varint_seq(n as nat)
                    &&& tx.vout_count@ == varint_seq(1)
                    &&& tx.locktime@ == u32_le(0)
                    &&& tx.witnesses@.len() == 0
                    &&& tx.has_segwit_input == false
                    &&& (forall|j: int|
                        0 <= j < n ==> vin_from_utxo_signed(
                            #[trigger] tx.vins@[j],
                            utxos@[j],
                            my_redeem_script@,
                            crate::secp::sig_der_hex_of(
                                sha256_of(sha256_of(raw_of_signed(tx).legacy_preimage(j, 1))),
                                secret_key@,
                            ),
                        ))
                    &&& tx.vouts@.len() == 1
                    &&& tx.vouts@[0].value@ == u64_le((prefix_total(utxos@, n) - fee) as u64)
                    &&& tx.vouts@[0].locking_script@ == bytes_of_hex(timelock_locking_script@)
                    &&& tx.vouts@[0].locking_script_length@ == varint_seq(
                        (timelock_locking_script@.len() / 2) as nat,
                    )
                },
                Err(e) => {
                    ||| (e == TxError::InvalidBase58Char && !all_b58_chars(my_address@))
                    ||| (all_b58_chars(my_address@) && dec_my is Err && e == dec_my->Err_0)
                    ||| (my_ok && (e == TxError::OddLengthHex || e == TxError::InvalidHexDigit)
                        && fb is Some)
                    ||| (my_ok && fb is None && !tls_ok && (e == TxError::OddLengthHex || e
                        == TxError::InvalidHexDigit))
                    ||| (my_ok && fb is None && tls_ok && e == TxError::Signing
                        && !crate::secp::is_valid_seckey(secret_key@))
                },
            }
        }),
{
    let (_my_script, wallet_is_segwit) = decode_address(my_address)?;
    let mut input_satoshis: u64 = 0;
    let mut vins: Vec<crate::transaction_parts::Vin> = Vec::new();
    let mut i: usize = 0;
    while i < utxos.len()
        invariant
            secret_key@.len() == 32,
            prefix_total(utxos@, utxos@.len() as int) <= u64::MAX,
            fee <= prefix_total(utxos@, utxos@.len() as int),
            all_b58_chars(my_address@),
            spec_address_result(spec_base58_to_hex(my_address@)) is Ok,
            wallet_is_segwit == false,
            i <= utxos@.len(),
            input_satoshis as int == prefix_total(utxos@, i as int),
            first_bad_utxo(utxos@, my_redeem_script@, i as int) == first_bad_utxo(
                utxos@,
                my_redeem_script@,
                0,
            ),
            vins@.len() == i,
            forall|j: int|
                0 <= j < i ==> utxo_vin_ok(#[trigger] utxos@[j], my_redeem_script@),
            forall|j: int|
                0 <= j < i ==> (#[trigger] vins@[j]).txid@ == bytes_of_hex(
                    utxos@[j].txid@,
                ).reverse() && vins@[j].vout@ == u32_le(utxos@[j].vout)
                    && vins@[j].locking_script_length@ == varint_seq(
                    (utxos@[j].locking_script@.len() / 2) as nat,
                ) && vins@[j].locking_script@ == bytes_of_hex(utxos@[j].locking_script@)
                    && vins@[j].sequence@ == u32_le(4294967295u32) && vins@[j].value@ == u64_le(
                    utxos@[j].value,
                ) && vins@[j].redeem_script@.len() == 1 && crate::transaction_parts::item_matches(
                    vins@[j].redeem_script@[0],
                    my_redeem_script@,
                ) && vins@[j].sig_script == crate::transaction_parts::SigScript::Byte(0u8),
        decreases utxos@.len() - i,
    {
        let u = &utxos[i];
        let toks = vec![my_redeem_script];
        proof {
            assert(toks@ =~= seq![my_redeem_script]);
            assert(prefix_total(utxos@, i + 1 as int) == prefix_total(utxos@, i as int)
                + utxos@[i as int].value);
            lemma_prefix_total_mono(utxos@, i + 1 as int, utxos@.len() as int);
        }
        match crate::transaction_parts::Vin::new(
            u.txid.as_str(),
            u.vout,
            u.locking_script.as_str(),
            toks,
            4294967295u32,
            u.value,
        ) {
            Ok(vin) => {
                proof {
                    let gws = toks@.map_values(|w: &str| w@);
                    assert(gws[0] == my_redeem_script@);
                    assert(utxo_vin_ok(utxos@[i as int], my_redeem_script@));
                }
                input_satoshis = input_satoshis + u.value;
                vins.push(vin);
                i += 1;
            },
            Err(e) => {
                proof {
                    let gws = toks@.map_values(|w: &str| w@);
                    assert(gws =~= seq![my_redeem_script@]);
                    if crate::transaction_parts::words_ok(gws) {
                        assert(!utxo_vin_ok(utxos@[i as int], my_redeem_script@));
                    } else {
                        assert(!crate::transaction_parts::word_ok(my_redeem_script@)) by {
                            assert(!crate::transaction_parts::word_ok(gws[0]));
                        }
                        assert(!utxo_vin_ok(utxos@[i as int], my_redeem_script@));
                    }
                    assert(first_bad_utxo(utxos@, my_redeem_script@, i as int) == Some(i as int));
                }
                return Err(e);
            },
        }
    }
    let satoshis = input_satoshis - fee;
    let v0 = match crate::transaction_parts::Vout::new(satoshis, timelock_locking_script) {
        Ok(v) => v,
        Err(e) => {
            return Err(e);
        },
    };
    let mut vouts: Vec<crate::transaction_parts::Vout> = Vec::new();
    vouts.push(v0);
    let raw = crate::transaction_parts::RawTransaction::new(2, vins, vouts, 0);
    let ghost graw = raw;
    let word_len = my_redeem_script.unicode_len();
    proof {
        assert forall|i2: int|
            0 <= i2 < raw.vins@.len() implies crate::transaction_parts::stack_bare_enc(
            (#[trigger] raw.vins@[i2]).redeem_script@,
        ).len() + 240 <= usize::MAX by {
            crate::transaction_parts::lemma_single_item_bare_len(
                raw.vins@[i2].redeem_script@,
                my_redeem_script@,
            );
            assert(word_len == my_redeem_script@.len());
        }
    }
    let signed_raw = match sign_inputs_legacy(raw, secret_key) {
        Ok(x) => x,
        Err(e) => {
            return Err(e);
        },
    };
    let witnesses: Vec<Option<crate::transaction_parts::Witness>> = Vec::new();
    let tx = crate::transaction_parts::SignedTransaction::new(
        signed_raw,
        witnesses,
        wallet_is_segwit,
    );
    proof {
        assert forall|j: int| 0 <= j < graw.vins@.len() implies raw_of_signed(tx).legacy_preimage(
            j,
            1,
        ) == graw.legacy_preimage(j, 1) by {
            crate::transaction_parts::lemma_vins_legacy_enc_sig_independent(
                raw_of_signed(tx).vins@,
                graw.vins@,
                j,
            );
        }
    }
    Ok(tx)
}

/// The display-order txids (uppercase hex) that a transaction's inputs
/// consume.
pub open spec fn consumed_txids(vins: Seq<crate::transaction_parts::Vin>) -> Seq<Seq<char>> {
    vins.map_values(|v: crate::transaction_parts::Vin| hex_upper_of_bytes(v.txid@.reverse()))
}

/// The unspent outputs whose txids, uppercased, are not among the consumed
/// ones.
pub open spec fn kept_utxos(utxos: Seq<UtxoInput>, consumed: Seq<Seq<char>>) -> Seq<UtxoInput>
    decreases utxos.len(),
{
    if utxos.len() == 0 {
        Seq::empty()
    } else {
        let rest = kept_utxos(utxos.drop_last(), consumed);
        if consumed.contains(upper_seq(utxos.last().txid@)) {
            rest
        } else {
            rest.push(utxos.last())
        }
    }
}

/// The indices of a transaction's first `n` outputs that pay the given
/// locking script.
pub open spec fn matching_outputs(
    vouts: Seq<crate::transaction_parts::Vout>,
    script_bytes: Seq<u8>,
    n: int,
) -> Seq<int>
    decreases n,
{
    if n <= 0 {
        Seq::empty()
    } else {
        let rest = matching_outputs(vouts, script_bytes, n - 1);
        if vouts[n - 1].locking_script@ == script_bytes {
            rest.push(n - 1)
        } else {
            rest
        }
    }
}

/// The summed value of a transaction's first `n` outputs that pay the
/// given locking script.
pub open spec fn matched_vals(
    vouts: Seq<crate::transaction_parts::Vout>,
    script_bytes: Seq<u8>,
    n: int,
) -> int
    decreases n,
{
    if n <= 0 {
        0
    } else {
        matched_vals(vouts, script_bytes, n - 1) + (if vouts[n - 1].locking_script@
            == script_bytes {
            le_val(vouts[n - 1].value@) as int
        } else {
            0
        })
    }
}

/// Matched-output sums only grow with the prefix.
pub proof fn lemma_matched_vals_mono(
    vouts: Seq<crate::transaction_parts::Vout>,
    script_bytes: Seq<u8>,
    m: int,
    n: int,
)
    requires
        0 <= m <= n,
    ensures
        matched_vals(vouts, script_bytes, m) <= matched_vals(vouts, script_bytes, n),
    decreases n,
{
    if m < n {
        lemma_matched_vals_mono(vouts, script_bytes, m, n - 1);
    }
}

/// The matched-output index list only grows with the prefix.
pub proof fn lemma_matching_outputs_mono(
    vouts: Seq<crate::transaction_parts::Vout>,
    script_bytes: Seq<u8>,
    m: int,
    n: int,
)
    requires
        0 <= m <= n,
    ensures
        matching_outputs(vouts, script_bytes, m).len() <= matching_outputs(
            vouts,
            script_bytes,
            n,
        ).len(),
    decreases n,
{
    if m < n {
        lemma_matching_outputs_mono(vouts, script_bytes, m, n - 1);
    }
}

/// Appending an output leaves earlier prefix totals alone and adds its
/// value at the end.
pub proof fn lemma_prefix_total_push(s: Seq<UtxoInput>, x: UtxoInput, n: int)
    requires
        0 <= n <= s.len(),
    ensures
        prefix_total(s.push(x), n) == prefix_total(s, n),
        prefix_total(s.push(x), s.len() as int + 1) == prefix_total(s, s.len() as int) + x.value,
    decreases n,
{
    if n > 0 {
        lemma_prefix_total_push(s, x, n - 1);
    } else {
        lemma_prefix_total_push_full(s, x);
    }
}

/// The full total of an extended list.
proof fn lemma_prefix_total_push_full(s: Seq<UtxoInput>, x: UtxoInput)
    ensures
        prefix_total(s.push(x), s.len() as int + 1) == prefix_total(s, s.len() as int) + x.value,
    decreases s.len(),
{
    assert(s.push(x)[s.len() as int] == x);
    lemma_prefix_total_push_prefixes(s, x, s.len() as int);
}

/// Earlier prefix totals of an extended list are unchanged.
proof fn lemma_prefix_total_push_prefixes(s: Seq<UtxoInput>, x: UtxoInput, n: int)
    requires
        0 <= n <= s.len(),
    ensures
        prefix_total(s.push(x), n) == prefix_total(s, n),
    decreases n,
{
    if n > 0 {
        lemma_prefix_total_push_prefixes(s, x, n - 1);
        assert(s.push(x)[n - 1] == s[n - 1]);
    }
}

/// The total of the kept outputs only grows as more of the list is
/// scanned.
pub proof fn lemma_kept_total_mono(
    utxos: Seq<UtxoInput>,
    consumed: Seq<Seq<char>>,
    i: int,
    j: int,
)
    requires
        0 <= i <= j <= utxos.len(),
    ensures
        prefix_total(
            kept_utxos(utxos.take(i), consumed),
            kept_utxos(utxos.take(i), consumed).len() as int,
        ) <= prefix_total(
            kept_utxos(utxos.take(j), consumed),
            kept_utxos(utxos.take(j), consumed).len() as int,
        ),
    decreases j,
{
    if i < j {
        lemma_kept_total_mono(utxos, consumed, i, j - 1);
        let prev = kept_utxos(utxos.take(j - 1), consumed);
        let cur = kept_utxos(utxos.take(j), consumed);
        assert(utxos.take(j).drop_last() =~= utxos.take(j - 1));
        assert(utxos.take(j).last() == utxos[j - 1]);
        if consumed.contains(upper_seq(utxos[j - 1].txid@)) {
            assert(cur == prev);
        } else {
            assert(cur == prev.push(utxos[j - 1]));
            lemma_prefix_total_push(prev, utxos[j - 1], prev.len() as int);
        }
    }
}

/// The value the prediction gathers: the prior transaction's outputs that
/// pay the owner's script, plus the fetched unspent outputs it did not
/// already consume.
pub open spec fn predicted_total(
    prev: crate::transaction_parts::SignedTransaction,
    script_bytes: Seq<u8>,
    utxos: Seq<UtxoInput>,
) -> int {
    matched_vals(prev.vouts@, script_bytes, prev.vouts@.len() as int) + prefix_total(
        kept_utxos(utxos, consumed_txids(prev.vins@)),
        kept_utxos(utxos, consumed_txids(prev.vins@)).len() as int,
    )
}

/// Whether an unsigned input spends output `idx` of the prior transaction:
/// its prevout is that output, its script the owner's locking script, its
/// value the output's.
pub open spec fn vin_from_prev_output(
    v: crate::transaction_parts::Vin,
    prev: crate::transaction_parts::SignedTransaction,
    idx: int,
    my_script: Seq<char>,
    word: Seq<char>,
) -> bool {
    &&& v.txid@ == sha256_of(sha256_of(prev.enc()))
    &&& v.vout@ == u32_le(idx as u32)
    &&& v.locking_script_length@ == varint_seq((my_script.len() / 2) as nat)
    &&& v.locking_script@ == bytes_of_hex(my_script)
    &&& v.sequence@ == u32_le(4294967295u32)
    &&& v.value@ == u64_le(le_val(prev.vouts@[idx].value@) as u64)
    &&& v.redeem_script@.len() == 1
    &&& crate::transaction_parts::item_matches(v.redeem_script@[0], word)
}

/// Builds and signs the initiation transaction on top of a prior signed
/// transaction that has not yet confirmed: that transaction's own outputs
/// paying the owner are spent alongside the fetched unspent outputs it did
/// not already consume, and everything, less the fee, moves into the
/// vault's locking script.
#[verifier::rlimit(100)]
#[verifier::spinoff_prover]
pub fn predict_will_initiation(
    prev_transaction: crate::transaction_parts::SignedTransaction,
    my_address: &str,
    secret_key: &Vec<u8>,
    timelock_locking_script: &str,
    my_redeem_script: &str,
    fee: u64,
    utxos: &Vec<UtxoInput>,
) -> (r: Result<crate::transaction_parts::SignedTransaction, TxError>)
    requires
        secret_key@.len() == 32,
        forall|i: int|
            0 <= i < prev_transaction.vouts@.len()
                ==> (#[trigger] prev_transaction.vouts@[i]).value@.len() <= 8,
    ensures
        ({
            let dec_my = spec_address_result(spec_base58_to_hex(my_address@));
            let my_ok = all_b58_chars(my_address@) && dec_my is Ok;
            let my_script = addr_script(my_address@);
            let msb = bytes_of_hex(my_script);
            let matched = matching_outputs(
                prev_transaction.vouts@,
                msb,
                prev_transaction.vouts@.len() as int,
            );
            let gcons = consumed_txids(prev_transaction.vins@);
            let kept = kept_utxos(utxos@, gcons);
            let gathered = predicted_total(prev_transaction, msb, utxos@);
            let tls_ok = timelock_locking_script@.len() % 2 == 0 && all_hex_digits(
                timelock_locking_script@,
            );
            match r {
                Err(e) => {
                    ||| (e == TxError::InvalidBase58Char && !all_b58_chars(my_address@))
                    ||| (all_b58_chars(my_address@) && dec_my is Err && e == dec_my->Err_0)
                    ||| (my_ok && (e == TxError::OddLengthHex || e == TxError::InvalidHexDigit)
                        && ((matched.len() > 0 && !crate::transaction_parts::word_ok(
                        my_redeem_script@,
                    )) || (exists|j: int|
                        0 <= j < utxos@.len() && !gcons.contains(
                            upper_seq((#[trigger] utxos@[j]).txid@),
                        ) && !utxo_vin_ok(utxos@[j], my_redeem_script@)) || !tls_ok))
                    ||| (my_ok && e == TxError::SerializationLimit && gathered > u64::MAX)
                    ||| (my_ok && e == TxError::InsufficientFunds && gathered <= u64::MAX && fee
                        > gathered)
                    ||| (my_ok && e == TxError::Signing && !crate::secp::is_valid_seckey(
                        secret_key@,
                    ))
                },
                Ok(tx) => {
            &&& my_ok
            &&& tls_ok
            &&& gathered <= u64::MAX
            &&& fee <= gathered
            &&& (tx.vins@.len() > 0 ==> crate::secp::is_valid_seckey(secret_key@))
            &&& tx.vouts@[0].value@ == u64_le((gathered - fee) as u64)
            &&& tx.version@ == u32_le(2)
            &&& tx.marker@ == seq![0u8, 1u8]
            &&& tx.locktime@ == u32_le(0)
            &&& tx.witnesses@.len() == 0
            &&& tx.has_segwit_input == false
            &&& tx.vins@.len() == matched.len() + kept.len()
            &&& tx.vin_count@ == varint_seq(tx.vins@.len())
            &&& tx.vout_count@ == varint_seq(1)
            &&& (forall|j: int|
                0 <= j < matched.len() ==> vin_from_prev_output(
                    #[trigger] tx.vins@[j],
                    prev_transaction,
                    matched[j],
                    my_script,
                    my_redeem_script@,
                ))
            &&& (forall|j: int|
                0 <= j < kept.len() ==> ({
                    let v = #[trigger] tx.vins@[matched.len() + j];
                    &&& v.txid@ == bytes_of_hex(kept[j].txid@).reverse()
                    &&& v.vout@ == u32_le(kept[j].vout)
                    &&& v.locking_script@ == bytes_of_hex(kept[j].locking_script@)
                    &&& v.sequence@ == u32_le(4294967295u32)
                    &&& v.value@ == u64_le(kept[j].value)
                    &&& v.redeem_script@.len() == 1
                    &&& crate::transaction_parts::item_matches(
                        v.redeem_script@[0],
                        my_redeem_script@,
                    )
                }))
            &&& (forall|j: int|
                0 <= j < tx.vins@.len() ==> (#[trigger] tx.vins@[j]).sig_script is Legacy
                    && crate::transaction_parts::sig_script_legacy_matches(
                    tx.vins@[j].sig_script->Legacy_0,
                    crate::secp::sig_der_hex_of(
                        sha256_of(sha256_of(raw_of_signed(tx).legacy_preimage(j, 1))),
                        secret_key@,
                    ),
                    crate::transaction_parts::stack_bare_enc(tx.vins@[j].redeem_script@),
                    1,
                ))
            &&& tx.vouts@.len() == 1
            &&& tx.vouts@[0].locking_script@ == bytes_of_hex(timelock_locking_script@)
            &&& tx.vouts@[0].locking_script_length@ == varint_seq(
                (timelock_locking_script@.len() / 2) as nat,
            )
                },
            }
        }),
{
    let (my_locking_script, wallet_is_segwit) = decode_address(my_address)?;
    let ghost my_script = my_locking_script@;
    let prev_bytes = prev_transaction.encode();
    proof {
        lemma_hex_upper_round_trip(prev_bytes@);
    }
    let prev_hex = bytes_to_hex_upper(&prev_bytes);
    let digest = sha256d(prev_hex.as_str());
    let rev = crate::traits::reverse_bytes(&digest);
    proof {
        lemma_hex_upper_round_trip(rev@);
        assert(bytes_of_hex(hex_upper_of_bytes(rev@)).reverse() =~= digest@);
    }
    let prev_txid = bytes_to_hex_upper(&rev);
    let my_script_bytes = match hex_str_to_bytes(my_locking_script.as_str()) {
        Ok(b) => b,
        Err(e) => {
            proof {
                lemma_decoded_script_hex(my_address@);
                assert(false);
            }
            return Err(e);
        },
    };
    let mut input_satoshis: u64 = 0;
    let mut vins: Vec<crate::transaction_parts::Vin> = Vec::new();
    let n_out = prev_transaction.vouts.len();
    let mut i: usize = 0;
    while i < n_out
        invariant
            secret_key@.len() == 32,
            addr_script_ok(my_address@),
            my_script == addr_script(my_address@),
            my_script.len() % 2 == 0,
            all_hex_digits(my_script),
            my_locking_script@ == my_script,
            my_script_bytes@ == bytes_of_hex(my_script),
            prev_txid@ == hex_upper_of_bytes(
                sha256_of(sha256_of(prev_transaction.enc())).reverse(),
            ),
            forall|k: int|
                0 <= k < prev_transaction.vouts@.len()
                    ==> (#[trigger] prev_transaction.vouts@[k]).value@.len() <= 8,
            n_out == prev_transaction.vouts@.len(),
            i <= n_out,
            input_satoshis as int == matched_vals(prev_transaction.vouts@, my_script_bytes@, i as int),
            vins@.len() == matching_outputs(prev_transaction.vouts@, my_script_bytes@, i as int).len(),
            forall|j: int|
                0 <= j < vins@.len() ==> vin_from_prev_output(
                    #[trigger] vins@[j],
                    prev_transaction,
                    matching_outputs(prev_transaction.vouts@, my_script_bytes@, i as int)[j],
                    my_script,
                    my_redeem_script@,
                ) && vins@[j].sig_script == crate::transaction_parts::SigScript::Byte(0u8)
                    && crate::transaction_parts::word_ok(my_redeem_script@),
        decreases n_out - i,
    {
        let ghost pre_matched = matching_outputs(prev_transaction.vouts@, my_script_bytes@, i as int);
        let vout_ref = &prev_transaction.vouts[i];
        let same = crate::strutil::bytes_eq(&vout_ref.locking_script, &my_script_bytes);
        if same {
            let mut valv: Vec<u8> = Vec::new();
            push_bytes(&mut valv, &vout_ref.value);
            proof {
                assert(valv@ =~= prev_transaction.vouts@[i as int].value@);
            }
            let input_sat = bytes_to_int_le(&valv);
            let wtok = my_redeem_script;
            let toks = vec![wtok];
            proof {
                assert(toks@ =~= seq![wtok]);
            }
            let vin = match crate::transaction_parts::Vin::new(
                prev_txid.as_str(),
                i as u32,
                my_locking_script.as_str(),
                toks,
                4294967295u32,
                input_sat,
            ) {
                Ok(v) => v,
                Err(e) => {
                    proof {
                        let gws = seq![wtok].map_values(|w: &str| w@);
                        assert(gws =~= seq![my_redeem_script@]);
                        let dg = sha256_of(sha256_of(prev_transaction.enc()));
                        lemma_hex_upper_round_trip(dg.reverse());
                        assert(prev_txid@.len() % 2 == 0 && all_hex_digits(prev_txid@));
                        assert(!crate::transaction_parts::words_ok(gws));
                        assert(!crate::transaction_parts::word_ok(my_redeem_script@)) by {
                            assert(!crate::transaction_parts::word_ok(gws[0]));
                        }
                        assert(matching_outputs(
                            prev_transaction.vouts@,
                            my_script_bytes@,
                            i + 1 as int,
                        ) =~= pre_matched.push(i as int));
                        lemma_matching_outputs_mono(
                            prev_transaction.vouts@,
                            my_script_bytes@,
                            i + 1 as int,
                            n_out as int,
                        );
                    }
                    return Err(e);
                },
            };
            proof {
                let gws = seq![wtok].map_values(|w: &str| w@);
                assert(gws[0] == my_redeem_script@);
                assert(crate::transaction_parts::word_ok(my_redeem_script@));
                assert(crate::transaction_parts::item_matches(
                    vin.redeem_script@[0],
                    my_redeem_script@,
                ));
                let dg = sha256_of(sha256_of(prev_transaction.enc()));
                lemma_hex_upper_round_trip(dg.reverse());
                assert(bytes_of_hex(prev_txid@) == dg.reverse());
                assert(vin.txid@ =~= dg);
                assert(vin_from_prev_output(
                    vin,
                    prev_transaction,
                    i as int,
                    my_script,
                    my_redeem_script@,
                ));
            }
            input_satoshis = match input_satoshis.checked_add(input_sat) {
                Some(t) => t,
                None => {
                    proof {
                        assert(matched_vals(prev_transaction.vouts@, my_script_bytes@, i + 1 as int)
                            > u64::MAX);
                        lemma_matched_vals_mono(
                            prev_transaction.vouts@,
                            my_script_bytes@,
                            i + 1 as int,
                            n_out as int,
                        );
                        let gcons = consumed_txids(prev_transaction.vins@);
                        assert(utxos@.take(0) =~= Seq::<UtxoInput>::empty());
                        assert(kept_utxos(Seq::<UtxoInput>::empty(), gcons) =~= Seq::<
                            UtxoInput,
                        >::empty());
                        lemma_kept_total_mono(utxos@, gcons, 0, utxos@.len() as int);
                        assert(utxos@.take(utxos@.len() as int) =~= utxos@);
                        assert(predicted_total(prev_transaction, my_script_bytes@, utxos@)
                            > u64::MAX);
                    }
                    return Err(TxError::SerializationLimit);
                },
            };
            vins.push(vin);
            proof {
                assert(matching_outputs(prev_transaction.vouts@, my_script_bytes@, i + 1 as int)
                    =~= pre_matched.push(i as int));
                assert(matched_vals(prev_transaction.vouts@, my_script_bytes@, i + 1 as int)
                    == matched_vals(prev_transaction.vouts@, my_script_bytes@, i as int)
                    + le_val(prev_transaction.vouts@[i as int].value@));
            }
        } else {
            proof {
                assert(matching_outputs(prev_transaction.vouts@, my_script_bytes@, i + 1 as int)
                    =~= pre_matched);
            }
        }
        i += 1;
    }
    let ghost matched = matching_outputs(
        prev_transaction.vouts@,
        my_script_bytes@,
        prev_transaction.vouts@.len() as int,
    );
    let mut consumed: Vec<String> = Vec::new();
    let n_in = prev_transaction.vins.len();
    let mut i: usize = 0;
    while i < n_in
        invariant
            n_in == prev_transaction.vins@.len(),
            i <= n_in,
            consumed@.len() == i,
            forall|j: int|
                0 <= j < i ==> (#[trigger] consumed@[j])@ == consumed_txids(
                    prev_transaction.vins@,
                )[j],
        decreases n_in - i,
    {
        let r = crate::traits::reverse_bytes(&prev_transaction.vins[i].txid);
        consumed.push(bytes_to_hex_upper(&r));
        i += 1;
    }
    let ghost gconsumed = consumed_txids(prev_transaction.vins@);
    let ghost gmatched_total = matched_vals(
        prev_transaction.vouts@,
        my_script_bytes@,
        prev_transaction.vouts@.len() as int,
    );
    proof {
        assert(consumed@.map_values(|s: String| s@) =~= gconsumed);
        assert(utxos@.take(0) =~= Seq::<UtxoInput>::empty());
        assert(kept_utxos(Seq::<UtxoInput>::empty(), gconsumed) =~= Seq::<UtxoInput>::empty());
    }
    let mut i: usize = 0;
    let ghost gkept0 = kept_utxos(utxos@, gconsumed);
    while i < utxos.len()
        invariant
            secret_key@.len() == 32,
            addr_script_ok(my_address@),
            my_script == addr_script(my_address@),
            my_script_bytes@ == bytes_of_hex(my_script),
            gmatched_total == matched_vals(
                prev_transaction.vouts@,
                my_script_bytes@,
                prev_transaction.vouts@.len() as int,
            ),
            input_satoshis as int == gmatched_total + prefix_total(
                kept_utxos(utxos@.take(i as int), gconsumed),
                kept_utxos(utxos@.take(i as int), gconsumed).len() as int,
            ),
            gconsumed == consumed_txids(prev_transaction.vins@),
            consumed@.map_values(|s: String| s@) == gconsumed,
            consumed@.len() == gconsumed.len(),
            forall|j: int| 0 <= j < consumed@.len() ==> (#[trigger] consumed@[j])@ == gconsumed[j],
            i <= utxos@.len(),
            vins@.len() == matched.len() + kept_utxos(utxos@.take(i as int), gconsumed).len(),
            forall|j: int|
                0 <= j < matched.len() ==> vin_from_prev_output(
                    #[trigger] vins@[j],
                    prev_transaction,
                    matched[j],
                    my_script,
                    my_redeem_script@,
                ),
            forall|j: int|
                0 <= j < kept_utxos(utxos@.take(i as int), gconsumed).len() ==> ({
                    let v = #[trigger] vins@[matched.len() + j];
                    let u = kept_utxos(utxos@.take(i as int), gconsumed)[j];
                    &&& v.txid@ == bytes_of_hex(u.txid@).reverse()
                    &&& v.vout@ == u32_le(u.vout)
                    &&& v.locking_script@ == bytes_of_hex(u.locking_script@)
                    &&& v.sequence@ == u32_le(4294967295u32)
                    &&& v.value@ == u64_le(u.value)
                    &&& v.redeem_script@.len() == 1
                    &&& crate::transaction_parts::item_matches(
                        v.redeem_script@[0],
                        my_redeem_script@,
                    )
                }),
            forall|j: int|
                0 <= j < vins@.len() ==> (#[trigger] vins@[j]).sig_script
                    == crate::transaction_parts::SigScript::Byte(0u8),
        decreases utxos@.len() - i,
    {
        let ghost pre_kept = kept_utxos(utxos@.take(i as int), gconsumed);
        let u = &utxos[i];
        let upper = crate::script::to_upper(u.txid.as_str());
        let skip_this = crate::strutil::contains_str(&consumed, upper.as_str());
        proof {
            assert(utxos@.take(i + 1 as int).drop_last() =~= utxos@.take(i as int));
            assert(utxos@.take(i + 1 as int).last() == utxos@[i as int]);
            if skip_this {
                let w = choose|j: int|
                    0 <= j < consumed@.len() && (#[trigger] consumed@[j])@ == upper@;
                assert(gconsumed[w] == upper_seq(utxos@[i as int].txid@));
                assert(gconsumed.contains(upper_seq(utxos@[i as int].txid@)));
            } else {
                assert(!gconsumed.contains(upper_seq(utxos@[i as int].txid@))) by {
                    if gconsumed.contains(upper_seq(utxos@[i as int].txid@)) {
                        let w = choose|w: int|
                            0 <= w < gconsumed.len() && gconsumed[w] == upper_seq(
                                utxos@[i as int].txid@,
                            );
                        assert((consumed@[w])@ == gconsumed[w]);
                    }
                }
            }
        }
        if !skip_this {
            let wtok = my_redeem_script;
            let toks = vec![wtok];
            proof {
                assert(toks@ =~= seq![wtok]);
            }
            let vin = match crate::transaction_parts::Vin::new(
                u.txid.as_str(),
                u.vout,
                u.locking_script.as_str(),
                toks,
                4294967295u32,
                u.value,
            ) {
                Ok(v) => v,
                Err(e) => {
                    proof {
                        let gws = seq![wtok].map_values(|w: &str| w@);
                        assert(gws =~= seq![my_redeem_script@]);
                        if crate::transaction_parts::words_ok(gws) {
                            assert(!utxo_vin_ok(utxos@[i as int], my_redeem_script@));
                        } else {
                            assert(!crate::transaction_parts::word_ok(my_redeem_script@)) by {
                                assert(!crate::transaction_parts::word_ok(gws[0]));
                            }
                            assert(!utxo_vin_ok(utxos@[i as int], my_redeem_script@));
                        }
                        let jj = i as int;
                        assert(0 <= jj < utxos@.len() && !gconsumed.contains(
                            upper_seq(utxos@[jj].txid@),
                        ) && !utxo_vin_ok(utxos@[jj], my_redeem_script@));
                        assert(exists|j: int|
                            0 <= j < utxos@.len() && !gconsumed.contains(
                                upper_seq((#[trigger] utxos@[j]).txid@),
                            ) && !utxo_vin_ok(utxos@[j], my_redeem_script@));
                    }
                    return Err(e);
                },
            };
            proof {
                let gws = seq![wtok].map_values(|w: &str| w@);
                assert(gws[0] == my_redeem_script@);
            }
            input_satoshis = match input_satoshis.checked_add(u.value) {
                Some(t) => t,
                None => {
                    proof {
                        assert(kept_utxos(utxos@.take(i + 1 as int), gconsumed) =~= pre_kept.push(
                            utxos@[i as int],
                        ));
                        lemma_prefix_total_push(pre_kept, utxos@[i as int], pre_kept.len() as int);
                        assert(gmatched_total + prefix_total(
                            kept_utxos(utxos@.take(i + 1 as int), gconsumed),
                            kept_utxos(utxos@.take(i + 1 as int), gconsumed).len() as int,
                        ) > u64::MAX);
                        lemma_kept_total_mono(utxos@, gconsumed, i + 1 as int, utxos@.len() as int);
                        assert(utxos@.take(utxos@.len() as int) =~= utxos@);
                        lemma_matched_vals_mono(
                            prev_transaction.vouts@,
                            my_script_bytes@,
                            0,
                            prev_transaction.vouts@.len() as int,
                        );
                        assert(predicted_total(prev_transaction, my_script_bytes@, utxos@)
                            > u64::MAX);
                    }
                    return Err(TxError::SerializationLimit);
                },
            };
            vins.push(vin);
            proof {
                assert(kept_utxos(utxos@.take(i + 1 as int), gconsumed) =~= pre_kept.push(
                    utxos@[i as int],
                ));
                lemma_prefix_total_push(pre_kept, utxos@[i as int], pre_kept.len() as int);
            }
        } else {
            proof {
                assert(kept_utxos(utxos@.take(i + 1 as int), gconsumed) =~= pre_kept);
            }
        }
        i += 1;
    }
    proof {
        assert(utxos@.take(utxos@.len() as int) =~= utxos@);
        assert(input_satoshis as int == predicted_total(
            prev_transaction,
            my_script_bytes@,
            utxos@,
        ));
    }
    let satoshis = match input_satoshis.checked_sub(fee) {
        Some(s) => s,
        None => {
            return Err(TxError::InsufficientFunds);
        },
    };
    let v0 = match crate::transaction_parts::Vout::new(satoshis, timelock_locking_script) {
        Ok(v) => v,
        Err(e) => {
            return Err(e);
        },
    };
    let mut vouts: Vec<crate::transaction_parts::Vout> = Vec::new();
    vouts.push(v0);
    let ghost gvins_all = vins@;
    proof {
        assert forall|j: int|
            0 <= j < gvins_all.len() implies (#[trigger] gvins_all[j]).redeem_script@.len() == 1
            && crate::transaction_parts::item_matches(
            gvins_all[j].redeem_script@[0],
            my_redeem_script@,
        ) by {
            assert(gvins_all[j] == vins@[j]);
            if j < matched.len() {
                assert(vin_from_prev_output(
                    vins@[j],
                    prev_transaction,
                    matched[j],
                    my_script,
                    my_redeem_script@,
                ));
            } else {
                let k = j - matched.len();
                assert((#[trigger] vins@[matched.len() + k]).redeem_script@.len() == 1
                    && crate::transaction_parts::item_matches(
                    vins@[matched.len() + k].redeem_script@[0],
                    my_redeem_script@,
                ));
            }
        }
    }
    let raw = crate::transaction_parts::RawTransaction::new(2, vins, vouts, 0);
    let ghost graw = raw;
    let word_len = my_redeem_script.unicode_len();
    proof {
        assert(raw.vins@ == gvins_all);
        assert forall|i2: int|
            0 <= i2 < raw.vins@.len() implies crate::transaction_parts::stack_bare_enc(
            (#[trigger] raw.vins@[i2]).redeem_script@,
        ).len() + 240 <= usize::MAX by {
            assert(gvins_all[i2].redeem_script@.len() == 1
                && crate::transaction_parts::item_matches(
                gvins_all[i2].redeem_script@[0],
                my_redeem_script@,
            ));
            crate::transaction_parts::lemma_single_item_bare_len(
                raw.vins@[i2].redeem_script@,
                my_redeem_script@,
            );
            assert(word_len == my_redeem_script@.len());
        }
    }
    let signed_raw = match sign_inputs_legacy(raw, secret_key) {
        Ok(x) => x,
        Err(e) => {
            return Err(e);
        },
    };
    let witnesses: Vec<Option<crate::transaction_parts::Witness>> = Vec::new();
    let tx = crate::transaction_parts::SignedTransaction::new(
        signed_raw,
        witnesses,
        wallet_is_segwit,
    );
    proof {
        assert forall|j: int| 0 <= j < graw.vins@.len() implies raw_of_signed(tx).legacy_preimage(
            j,
            1,
        ) == graw.legacy_preimage(j, 1) by {
            crate::transaction_parts::lemma_vins_legacy_enc_sig_independent(
                raw_of_signed(tx).vins@,
                graw.vins@,
                j,
            );
        }
    }
    Ok(tx)
}

} // verus!
