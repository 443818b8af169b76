//! The transaction data model: inputs, outputs, witnesses, script-stack
//! items and the raw/signed transaction shells, each with its exact wire
//! encoding stated as a spec function. Legacy serialization, segwit framing
//! and the two sighash preimage forms all live here.

use vstd::prelude::*;
use vstd::string::StrSliceExecFns;

use crate::encoding::{
    all_hex_digits, bytes_of_hex, u32_le, u64_le, varint_seq,
};
use crate::errors::TxError;
use crate::hashes::sha256_of;
use crate::script::{resolve_token, spec_opcode, upper_seq};
use crate::strutil::{push_bytes, str_eq};
use crate::traits::{hex_str_to_bytes, reverse_bytes, varint};

verus! {

/// The concatenation of the encodings of a sequence's elements, where the
/// encoding of an element may depend on its position.
pub open spec fn cat<T>(s: Seq<T>, f: spec_fn(int, T) -> Seq<u8>) -> Seq<u8>
    decreases s.len(),
{
    if s.len() == 0 {
        Seq::empty()
    } else {
        cat(s.drop_last(), f) + f(s.len() - 1, s.last())
    }
}

/// One element of a script stack: either a single opcode byte or an
/// arbitrary data payload.
#[derive(Debug, Clone)]
pub enum StackItem {
    Data(Vec<u8>),
    OP(u8),
}

impl StackItem {
    /// The push encoding: data is length-prefixed; an opcode byte is
    /// prefixed with a one-byte length, except the zero opcode which
    /// stands alone.
    pub open spec fn push_enc(self) -> Seq<u8> {
        match self {
            StackItem::OP(o) => if o == 0 {
                seq![0u8]
            } else {
                seq![1u8, o]
            },
            StackItem::Data(d) => varint_seq(d@.len()) + d@,
        }
    }

    /// The bare encoding: the raw bytes with no length prefix.
    pub open spec fn bare_enc(self) -> Seq<u8> {
        match self {
            StackItem::OP(o) => seq![o],
            StackItem::Data(d) => d@,
        }
    }

    /// The push encoding of this item, as bytes.
    pub fn encode_push(&self) -> (r: Vec<u8>)
        ensures
            r@ == self.push_enc(),
    {
        match self {
            StackItem::OP(o) => {
                let mut v: Vec<u8> = Vec::new();
                if *o == 0 {
                    v.push(0u8);
                    proof {
                        assert(v@ =~= self.push_enc());
                    }
                } else {
                    v.push(1u8);
                    v.push(*o);
                    proof {
                        assert(v@ =~= self.push_enc());
                    }
                }
                v
            },
            StackItem::Data(d) => {
                let mut v = varint(d.len());
                push_bytes(&mut v, d);
                v
            },
        }
    }

    /// The bare encoding of this item, as bytes.
    pub fn encode_bare(&self) -> (r: Vec<u8>)
        ensures
            r@ == self.bare_enc(),
    {
        match self {
            StackItem::OP(o) => {
                let mut v: Vec<u8> = Vec::new();
                v.push(*o);
                proof {
                    assert(v@ =~= self.bare_enc());
                }
                v
            },
            StackItem::Data(d) => {
                let mut v: Vec<u8> = Vec::new();
                push_bytes(&mut v, d);
                v
            },
        }
    }

    /// The push encoding (consuming form).
    pub fn concat(self) -> (r: Vec<u8>)
        ensures
            r@ == self.push_enc(),
    {
        self.encode_push()
    }

    /// The bare encoding (consuming form).
    pub fn concat_legacy(self) -> (r: Vec<u8>)
        ensures
            r@ == self.bare_enc(),
    {
        self.encode_bare()
    }
}

/// The push encodings of a whole stack, in order.
pub open spec fn stack_push_enc(s: Seq<StackItem>) -> Seq<u8> {
    cat(s, |j: int, it: StackItem| it.push_enc())
}

/// The bare encodings of a whole stack, in order.
pub open spec fn stack_bare_enc(s: Seq<StackItem>) -> Seq<u8> {
    cat(s, |j: int, it: StackItem| it.bare_enc())
}

/// The push encodings of a stack, as bytes.
pub fn encode_stack_push(items: &Vec<StackItem>) -> (r: Vec<u8>)
    ensures
        r@ == stack_push_enc(items@),
{
    let mut out: Vec<u8> = Vec::new();
    let mut i: usize = 0;
    while i < items.len()
        invariant
            i <= items@.len(),
            out@ == stack_push_enc(items@.take(i as int)),
        decreases items@.len() - i,
    {
        let b = items[i].encode_push();
        push_bytes(&mut out, &b);
        proof {
            assert(items@.take(i + 1 as int).drop_last() =~= items@.take(i as int));
            assert(items@.take(i + 1 as int).last() == items@[i as int]);
            assert(out@ =~= stack_push_enc(items@.take(i + 1 as int)));
        }
        i += 1;
    }
    proof {
        assert(items@.take(items@.len() as int) =~= items@);
    }
    out
}

/// The bare encodings of a stack, as bytes.
pub fn encode_stack_bare(items: &Vec<StackItem>) -> (r: Vec<u8>)
    ensures
        r@ == stack_bare_enc(items@),
{
    let mut out: Vec<u8> = Vec::new();
    let mut i: usize = 0;
    while i < items.len()
        invariant
            i <= items@.len(),
            out@ == stack_bare_enc(items@.take(i as int)),
        decreases items@.len() - i,
    {
        let b = items[i].encode_bare();
        push_bytes(&mut out, &b);
        proof {
            assert(items@.take(i + 1 as int).drop_last() =~= items@.take(i as int));
            assert(items@.take(i + 1 as int).last() == items@[i as int]);
            assert(out@ =~= stack_bare_enc(items@.take(i + 1 as int)));
        }
        i += 1;
    }
    proof {
        assert(items@.take(items@.len() as int) =~= items@);
    }
    out
}

/// Raw signature bytes, one trailing sighash-type byte, and a length
/// prefix; the "absent" sentinel form is a single zero byte with empty
/// prefix and type.
#[derive(Debug, Clone)]
pub struct Signature {
    pub size: Vec<u8>,
    pub signature: Vec<u8>,
    pub sighash_type: Vec<u8>,
}

/// The size field a signature built from `h` carries.
pub open spec fn sig_size_spec(h: Seq<char>, ht: u8) -> Seq<u8> {
    if h == seq!['0', '0'] {
        Seq::empty()
    } else {
        varint_seq((h.len() / 2 + 1) as nat)
    }
}

/// The signature bytes a signature built from `h` carries.
pub open spec fn sig_bytes_spec(h: Seq<char>) -> Seq<u8> {
    if h == seq!['0', '0'] {
        seq![0u8]
    } else {
        bytes_of_hex(h)
    }
}

/// The sighash-type bytes a signature built from `h` carries.
pub open spec fn sig_ht_spec(h: Seq<char>, ht: u8) -> Seq<u8> {
    if h == seq!['0', '0'] {
        Seq::empty()
    } else {
        seq![ht]
    }
}

/// Whether a signature value is exactly the one built from hex `h` and
/// sighash type `ht`.
pub open spec fn sig_matches(s: Signature, h: Seq<char>, ht: u8) -> bool {
    &&& s.size@ == sig_size_spec(h, ht)
    &&& s.signature@ == sig_bytes_spec(h)
    &&& s.sighash_type@ == sig_ht_spec(h, ht)
}

/// Whether a signature hex string is acceptable: the absent sentinel
/// "00", or well-formed hex.
pub open spec fn sig_hex_ok(h: Seq<char>) -> bool {
    h == seq!['0', '0'] || (h.len() % 2 == 0 && all_hex_digits(h))
}

impl Signature {
    /// The wire encoding: length prefix, signature bytes, sighash type.
    pub open spec fn enc(self) -> Seq<u8> {
        self.size@ + self.signature@ + self.sighash_type@
    }

    /// Builds a signature from its hex spelling; "00" is the absent
    /// sentinel.
    pub fn new(signature_hex: &str, sighash_type: u8) -> (r: Result<Self, TxError>)
        ensures
            match r {
                Ok(s) => sig_hex_ok(signature_hex@) && sig_matches(s, signature_hex@, sighash_type),
                Err(e) => !sig_hex_ok(signature_hex@) && (e == TxError::OddLengthHex || e
                    == TxError::InvalidHexDigit),
            },
    {
        proof {
            reveal_strlit("00");
            assert("00"@ =~= seq!['0', '0']);
        }
        if str_eq(signature_hex, "00") {
            let mut sig: Vec<u8> = Vec::new();
            sig.push(0u8);
            proof {
                assert(sig@ =~= seq![0u8]);
            }
            return Ok(Signature { signature: sig, sighash_type: Vec::new(), size: Vec::new() });
        }
        let sig = hex_str_to_bytes(signature_hex)?;
        let mut ht: Vec<u8> = Vec::new();
        ht.push(sighash_type);
        let n = signature_hex.unicode_len();
        let size = varint(n / 2 + 1);
        proof {
            assert(ht@ =~= seq![sighash_type]);
        }
        Ok(Signature { signature: sig, sighash_type: ht, size })
    }

    /// The wire encoding of this signature, as bytes.
    pub fn encode(&self) -> (r: Vec<u8>)
        ensures
            r@ == self.enc(),
    {
        let mut out: Vec<u8> = Vec::new();
        push_bytes(&mut out, &self.size);
        push_bytes(&mut out, &self.signature);
        push_bytes(&mut out, &self.sighash_type);
        out
    }

    /// The wire encoding (consuming form).
    pub fn concat(self) -> (r: Vec<u8>)
        ensures
            r@ == self.enc(),
    {
        self.encode()
    }
}

/// The encodings of a list of signatures, in order.
pub open spec fn sigs_enc(s: Seq<Signature>) -> Seq<u8> {
    cat(s, |j: int, sig: Signature| sig.enc())
}

/// The encodings of a list of signatures, as bytes.
pub fn encode_sigs(sigs: &Vec<Signature>) -> (r: Vec<u8>)
    ensures
        r@ == sigs_enc(sigs@),
{
    let mut out: Vec<u8> = Vec::new();
    let mut i: usize = 0;
    while i < sigs.len()
        invariant
            i <= sigs@.len(),
            out@ == sigs_enc(sigs@.take(i as int)),
        decreases sigs@.len() - i,
    {
        let b = sigs[i].encode();
        push_bytes(&mut out, &b);
        proof {
            assert(sigs@.take(i + 1 as int).drop_last() =~= sigs@.take(i as int));
            assert(sigs@.take(i + 1 as int).last() == sigs@[i as int]);
            assert(out@ =~= sigs_enc(sigs@.take(i + 1 as int)));
        }
        i += 1;
    }
    proof {
        assert(sigs@.take(sigs@.len() as int) =~= sigs@);
    }
    out
}

/// A legacy scriptSig: total length, signature, and the length-prefixed
/// redeem script.
#[derive(Debug, Clone)]
pub struct SigScriptLegacy {
    pub script_sig_length: Vec<u8>,
    pub signature: Signature,
    pub redeem_script_length: Vec<u8>,
    pub redeem_script: Vec<u8>,
}

/// The redeem-script length field: empty for an empty redeem script.
pub open spec fn rs_len_spec(rs: Seq<u8>) -> Seq<u8> {
    if rs.len() == 0 {
        Seq::empty()
    } else {
        varint_seq(rs.len())
    }
}

/// The total byte length of a scriptSig built from the signature hex `h`
/// and redeem script `rs`: signature encoding, redeem-script length field
/// and redeem script.
pub open spec fn sig_script_total_len(h: Seq<char>, rs: Seq<u8>, ht: u8) -> nat {
    (sig_size_spec(h, ht).len() + sig_bytes_spec(h).len() + sig_ht_spec(h, ht).len() + rs_len_spec(
        rs,
    ).len() + rs.len()) as nat
}

/// Whether a legacy scriptSig value is exactly the one built from the
/// signature hex `h`, redeem script `rs` and sighash type `ht`.
pub open spec fn sig_script_legacy_matches(l: SigScriptLegacy, h: Seq<char>, rs: Seq<u8>, ht: u8) -> bool {
    &&& sig_matches(l.signature, h, ht)
    &&& l.redeem_script@ == rs
    &&& l.redeem_script_length@ == rs_len_spec(rs)
    &&& l.script_sig_length@ == varint_seq(
        sig_size_spec(h, ht).len() + sig_bytes_spec(h).len() + sig_ht_spec(h, ht).len()
            + rs_len_spec(rs).len() + rs.len(),
    )
}

impl SigScriptLegacy {
    /// The wire encoding: total length, signature encoding, redeem-script
    /// length, redeem script.
    pub open spec fn enc(self) -> Seq<u8> {
        self.script_sig_length@ + self.signature.enc() + self.redeem_script_length@
            + self.redeem_script@
    }

    /// Builds a legacy scriptSig from a signature hex spelling and the
    /// bare redeem-script bytes; fails if the total length cannot be
    /// counted in a machine word.
    pub fn new(signature: &str, redeem_script: Vec<u8>, sighash_type: u8) -> (r: Result<
        Self,
        TxError,
    >)
        ensures
            match r {
                Ok(l) => sig_hex_ok(signature@) && sig_script_total_len(
                    signature@,
                    redeem_script@,
                    sighash_type,
                ) <= usize::MAX && sig_script_legacy_matches(
                    l,
                    signature@,
                    redeem_script@,
                    sighash_type,
                ),
                Err(e) => (!sig_hex_ok(signature@) && (e == TxError::OddLengthHex || e
                    == TxError::InvalidHexDigit)) || (sig_hex_ok(signature@) && e
                    == TxError::SerializationLimit && sig_script_total_len(
                    signature@,
                    redeem_script@,
                    sighash_type,
                ) > usize::MAX),
            },
    {
        let sig = Signature::new(signature, sighash_type)?;
        let redeem_script_length: Vec<u8> = if redeem_script.len() == 0 {
            Vec::new()
        } else {
            varint(redeem_script.len())
        };
        proof {
            crate::encoding::lemma_varint_seq_len((signature@.len() / 2 + 1) as nat);
            crate::encoding::lemma_varint_seq_len(redeem_script@.len());
        }
        let small = sig.size.len() + sig.sighash_type.len() + redeem_script_length.len();
        let slack = usize::MAX - small;
        if sig.signature.len() > slack {
            return Err(TxError::SerializationLimit);
        }
        if redeem_script.len() > slack - sig.signature.len() {
            return Err(TxError::SerializationLimit);
        }
        let sig_enc_len = sig.size.len() + sig.signature.len() + sig.sighash_type.len();
        let script_sig_length = varint(
            sig_enc_len + redeem_script_length.len() + redeem_script.len(),
        );
        Ok(
            SigScriptLegacy {
                script_sig_length,
                signature: sig,
                redeem_script_length,
                redeem_script,
            },
        )
    }

    /// The wire encoding of this scriptSig, as bytes.
    pub fn encode(&self) -> (r: Vec<u8>)
        ensures
            r@ == self.enc(),
    {
        let mut out: Vec<u8> = Vec::new();
        push_bytes(&mut out, &self.script_sig_length);
        let s = self.signature.encode();
        push_bytes(&mut out, &s);
        push_bytes(&mut out, &self.redeem_script_length);
        push_bytes(&mut out, &self.redeem_script);
        out
    }

    /// The wire encoding (consuming form).
    pub fn concatenate(self) -> (r: Vec<u8>)
        ensures
            r@ == self.enc(),
    {
        self.encode()
    }
}

/// An input's unlock proof: a full legacy scriptSig, or a single
/// placeholder byte (zero until signed).
#[derive(Debug, Clone)]
pub enum SigScript {
    Legacy(SigScriptLegacy),
    Byte(u8),
}

impl SigScript {
    /// The wire encoding of the unlock proof.
    pub open spec fn enc(self) -> Seq<u8> {
        match self {
            SigScript::Byte(b) => seq![b],
            SigScript::Legacy(data) => data.enc(),
        }
    }

    /// The wire encoding of this unlock proof, as bytes.
    pub fn encode(&self) -> (r: Vec<u8>)
        ensures
            r@ == self.enc(),
    {
        match self {
            SigScript::Byte(b) => {
                let mut v: Vec<u8> = Vec::new();
                v.push(*b);
                proof {
                    assert(v@ =~= self.enc());
                }
                v
            },
            SigScript::Legacy(data) => data.encode(),
        }
    }

    /// The wire encoding (borrowing form, matching the original API).
    pub fn concat(&self) -> (r: Vec<u8>)
        ensures
            r@ == self.enc(),
    {
        self.encode()
    }
}

/// A transaction output: an 8-byte little-endian value and the
/// length-prefixed locking script.
#[derive(Debug, Clone)]
pub struct Vout {
    pub value: Vec<u8>,
    pub locking_script_length: Vec<u8>,
    pub locking_script: Vec<u8>,
}

impl Vout {
    /// The wire encoding: value, script length, script.
    pub open spec fn enc(self) -> Seq<u8> {
        self.value@ + self.locking_script_length@ + self.locking_script@
    }

    /// Builds an output paying `amount_satoshis` to a locking script given
    /// in hex.
    pub fn new(amount_satoshis: u64, locking_script: &str) -> (r: Result<Self, TxError>)
        ensures
            match r {
                Ok(v) => locking_script@.len() % 2 == 0 && all_hex_digits(locking_script@)
                    && v.value@ == u64_le(amount_satoshis) && v.locking_script_length@
                    == varint_seq((locking_script@.len() / 2) as nat) && v.locking_script@
                    == bytes_of_hex(locking_script@),
                Err(e) => (e == TxError::OddLengthHex && locking_script@.len() % 2 == 1) || (
                e == TxError::InvalidHexDigit && locking_script@.len() % 2 == 0 && !all_hex_digits(
                    locking_script@,
                )),
            },
    {
        let script_bytes = hex_str_to_bytes(locking_script)?;
        let n = locking_script.unicode_len();
        Ok(
            Vout {
                value: crate::encoding::u64_le_vec(amount_satoshis),
                locking_script_length: varint(n / 2),
                locking_script: script_bytes,
            },
        )
    }

    /// The wire encoding of this output, as bytes.
    pub fn encode(&self) -> (r: Vec<u8>)
        ensures
            r@ == self.enc(),
    {
        let mut out: Vec<u8> = Vec::new();
        push_bytes(&mut out, &self.value);
        push_bytes(&mut out, &self.locking_script_length);
        push_bytes(&mut out, &self.locking_script);
        out
    }

    /// The wire encoding (consuming form).
    pub fn concat(self) -> (r: Vec<u8>)
        ensures
            r@ == self.enc(),
    {
        self.encode()
    }
}

/// The encodings of a list of outputs, in order.
pub open spec fn vouts_enc(s: Seq<Vout>) -> Seq<u8> {
    cat(s, |j: int, v: Vout| v.enc())
}

/// The sighash-type-3 output section: only the output at `index` is
/// encoded; every other output is a single zero byte.
pub open spec fn vouts_empty_enc(s: Seq<Vout>, index: int) -> Seq<u8> {
    cat(s, |j: int, v: Vout| if j == index {
        v.enc()
    } else {
        seq![0u8]
    })
}

/// Whether a stack item is exactly the one a redeem-script word resolves
/// to: a recognized mnemonic gives its opcode byte, any other word gives
/// its hex-decoded bytes as data.
pub open spec fn item_matches(it: StackItem, w: Seq<char>) -> bool {
    match spec_opcode(upper_seq(w)) {
        Some(b) => it == StackItem::OP(b),
        None => it is Data && it->Data_0@ == bytes_of_hex(w),
    }
}

/// Whether a redeem-script word resolves at all: a mnemonic, or valid hex.
pub open spec fn word_ok(w: Seq<char>) -> bool {
    spec_opcode(upper_seq(w)) is Some || (w.len() % 2 == 0 && all_hex_digits(w))
}

/// Whether every word of a redeem script resolves.
pub open spec fn words_ok(ws: Seq<Seq<char>>) -> bool {
    forall|i: int| 0 <= i < ws.len() ==> word_ok(#[trigger] ws[i])
}

/// A transaction input: the previous output reference, that output's
/// locking script, the redeem-script stack the spender supplies, the
/// sequence field, the unlock proof (a single zero byte until signed) and
/// the consumed value.
#[derive(Debug, Clone)]
pub struct Vin {
    pub txid: Vec<u8>,
    pub vout: Vec<u8>,
    pub locking_script_length: Vec<u8>,
    pub locking_script: Vec<u8>,
    pub sig_script: SigScript,
    pub redeem_script: Vec<StackItem>,
    pub sequence: Vec<u8>,
    pub value: Vec<u8>,
}

impl Vin {
    /// The sighash serialization of the input being signed: the previous
    /// locking script stands in the signature-script position.
    pub open spec fn legacy_enc(self) -> Seq<u8> {
        self.txid@ + self.vout@ + self.locking_script_length@ + self.locking_script@
            + self.sequence@
    }

    /// The sighash serialization of an input not being signed: an empty
    /// script (a single zero length byte).
    pub open spec fn legacy_empty_enc(self) -> Seq<u8> {
        self.txid@ + self.vout@ + seq![0u8] + self.sequence@
    }

    /// The final wire encoding: the unlock proof stands in the
    /// signature-script position.
    pub open spec fn full_enc(self) -> Seq<u8> {
        self.txid@ + self.vout@ + self.sig_script.enc() + self.sequence@
    }

    /// Builds an input from the previous output's txid (display order,
    /// reversed on the wire), output index, locking script, the
    /// redeem-script words, the sequence field and the consumed value.
    pub fn new(
        txid: &str,
        vout: u32,
        previous_locking_script: &str,
        redeem_script_vector: Vec<&str>,
        sequence: u32,
        value: u64,
    ) -> (r: Result<Vin, TxError>)
        ensures
            match r {
                Ok(v) => {
                    &&& txid@.len() % 2 == 0 && all_hex_digits(txid@)
                    &&& previous_locking_script@.len() % 2 == 0 && all_hex_digits(
                        previous_locking_script@,
                    )
                    &&& words_ok(redeem_script_vector@.map_values(|w: &str| w@))
                    &&& v.txid@ == bytes_of_hex(txid@).reverse()
                    &&& v.vout@ == u32_le(vout)
                    &&& v.locking_script_length@ == varint_seq(
                        (previous_locking_script@.len() / 2) as nat,
                    )
                    &&& v.locking_script@ == bytes_of_hex(previous_locking_script@)
                    &&& v.sig_script == SigScript::Byte(0u8)
                    &&& v.sequence@ == u32_le(sequence)
                    &&& v.value@ == u64_le(value)
                    &&& v.redeem_script@.len() == redeem_script_vector@.len()
                    &&& forall|j: int|
                        0 <= j < v.redeem_script@.len() ==> item_matches(
                            #[trigger] v.redeem_script@[j],
                            redeem_script_vector@[j]@,
                        )
                },
                Err(e) => (e == TxError::OddLengthHex || e == TxError::InvalidHexDigit) && !(
                txid@.len() % 2 == 0 && all_hex_digits(txid@) && previous_locking_script@.len() % 2
                    == 0 && all_hex_digits(previous_locking_script@) && words_ok(
                    redeem_script_vector@.map_values(|w: &str| w@),
                )),
            },
    {
        let mut redeem_script: Vec<StackItem> = Vec::new();
        let mut i: usize = 0;
        while i < redeem_script_vector.len()
            invariant
                i <= redeem_script_vector@.len(),
                redeem_script@.len() == i,
                forall|j: int| 0 <= j < i ==> word_ok((#[trigger] redeem_script_vector@[j])@),
                forall|j: int|
                    0 <= j < i ==> item_matches(
                        #[trigger] redeem_script@[j],
                        redeem_script_vector@[j]@,
                    ),
            decreases redeem_script_vector@.len() - i,
        {
            let word = redeem_script_vector[i];
            match resolve_token(word) {
                Some(b) => {
                    redeem_script.push(StackItem::OP(b));
                },
                None => {
                    match hex_str_to_bytes(word) {
                        Ok(data) => {
                            redeem_script.push(StackItem::Data(data));
                        },
                        Err(e) => {
                            proof {
                                let gws = redeem_script_vector@.map_values(|w: &str| w@);
                                assert(gws[i as int] == word@);
                                assert(!word_ok(gws[i as int]));
                            }
                            return Err(e);
                        },
                    }
                },
            }
            i += 1;
        }
        proof {
            let gws = redeem_script_vector@.map_values(|w: &str| w@);
            assert forall|j: int| 0 <= j < gws.len() implies word_ok(#[trigger] gws[j]) by {
                assert(gws[j] == redeem_script_vector@[j]@);
            }
            assert(words_ok(gws));
        }
        let txid_bytes = hex_str_to_bytes(txid)?;
        let prev_bytes = hex_str_to_bytes(previous_locking_script)?;
        let n = previous_locking_script.unicode_len();
        Ok(
            Vin {
                txid: reverse_bytes(&txid_bytes),
                vout: crate::encoding::u32_le_vec(vout),
                locking_script_length: varint(n / 2),
                locking_script: prev_bytes,
                redeem_script,
                sig_script: SigScript::Byte(0u8),
                sequence: crate::encoding::u32_le_vec(sequence),
                value: crate::encoding::u64_le_vec(value),
            },
        )
    }

    /// Installs the unlock proof: a legacy scriptSig holding the given
    /// signature and this input's bare-encoded redeem script.
    pub fn sign(&mut self, signature: &str, sighash_type: u8)
        requires
            sig_hex_ok(signature@),
            sig_script_total_len(
                signature@,
                stack_bare_enc(old(self).redeem_script@),
                sighash_type,
            ) <= usize::MAX,
        ensures
            final(self).sig_script is Legacy,
            sig_script_legacy_matches(
                final(self).sig_script->Legacy_0,
                signature@,
                stack_bare_enc(old(self).redeem_script@),
                sighash_type,
            ),
            final(self).txid == old(self).txid,
            final(self).vout == old(self).vout,
            final(self).locking_script_length == old(self).locking_script_length,
            final(self).locking_script == old(self).locking_script,
            final(self).redeem_script == old(self).redeem_script,
            final(self).sequence == old(self).sequence,
            final(self).value == old(self).value,
    {
        let rs = encode_stack_bare(&self.redeem_script);
        let legacy = SigScriptLegacy::new(signature, rs, sighash_type).unwrap();
        self.sig_script = SigScript::Legacy(legacy);
    }

    /// The sighash serialization of this input when it is being signed.
    pub fn encode_legacy(&self) -> (r: Vec<u8>)
        ensures
            r@ == self.legacy_enc(),
    {
        let mut out: Vec<u8> = Vec::new();
        push_bytes(&mut out, &self.txid);
        push_bytes(&mut out, &self.vout);
        push_bytes(&mut out, &self.locking_script_length);
        push_bytes(&mut out, &self.locking_script);
        push_bytes(&mut out, &self.sequence);
        out
    }

    /// The sighash serialization of this input when another input is
    /// being signed.
    pub fn encode_legacy_empty(&self) -> (r: Vec<u8>)
        ensures
            r@ == self.legacy_empty_enc(),
    {
        let mut out: Vec<u8> = Vec::new();
        push_bytes(&mut out, &self.txid);
        push_bytes(&mut out, &self.vout);
        out.push(0u8);
        push_bytes(&mut out, &self.sequence);
        proof {
            assert(out@ =~= self.legacy_empty_enc());
        }
        out
    }

    /// The final wire encoding of this input.
    pub fn encode_full(&self) -> (r: Vec<u8>)
        ensures
            r@ == self.full_enc(),
    {
        let mut out: Vec<u8> = Vec::new();
        push_bytes(&mut out, &self.txid);
        push_bytes(&mut out, &self.vout);
        let ss = self.sig_script.encode();
        push_bytes(&mut out, &ss);
        push_bytes(&mut out, &self.sequence);
        out
    }

    /// The sighash serialization (consuming form).
    pub fn concat_legacy(self) -> (r: Vec<u8>)
        ensures
            r@ == self.legacy_enc(),
    {
        self.encode_legacy()
    }

    /// The empty-script sighash serialization (consuming form).
    pub fn concat_legacy_empty(self) -> (r: Vec<u8>)
        ensures
            r@ == self.legacy_empty_enc(),
    {
        self.encode_legacy_empty()
    }

    /// The final wire encoding (consuming form).
    pub fn concat(self) -> (r: Vec<u8>)
        ensures
            r@ == self.full_enc(),
    {
        self.encode_full()
    }
}

/// The final wire encodings of a list of inputs, in order.
pub open spec fn vins_full_enc(s: Seq<Vin>) -> Seq<u8> {
    cat(s, |j: int, v: Vin| v.full_enc())
}

/// The sighash serialization of a list of inputs: the input at `index`
/// carries its previous locking script, every other input an empty script.
pub open spec fn vins_legacy_enc(s: Seq<Vin>, index: int) -> Seq<u8> {
    cat(s, |j: int, v: Vin| if j == index {
        v.legacy_enc()
    } else {
        v.legacy_empty_enc()
    })
}

/// The final wire encodings of a list of inputs, as bytes.
pub fn encode_vins_full(vins: &Vec<Vin>) -> (r: Vec<u8>)
    ensures
        r@ == vins_full_enc(vins@),
{
    let mut out: Vec<u8> = Vec::new();
    let mut i: usize = 0;
    while i < vins.len()
        invariant
            i <= vins@.len(),
            out@ == vins_full_enc(vins@.take(i as int)),
        decreases vins@.len() - i,
    {
        let b = vins[i].encode_full();
        push_bytes(&mut out, &b);
        proof {
            assert(vins@.take(i + 1 as int).drop_last() =~= vins@.take(i as int));
            assert(vins@.take(i + 1 as int).last() == vins@[i as int]);
            assert(out@ =~= vins_full_enc(vins@.take(i + 1 as int)));
        }
        i += 1;
    }
    proof {
        assert(vins@.take(vins@.len() as int) =~= vins@);
    }
    out
}

/// The sighash serialization of a list of inputs, as bytes.
pub fn encode_vins_legacy(vins: &Vec<Vin>, index: usize) -> (r: Vec<u8>)
    ensures
        r@ == vins_legacy_enc(vins@, index as int),
{
    let mut out: Vec<u8> = Vec::new();
    let mut i: usize = 0;
    while i < vins.len()
        invariant
            i <= vins@.len(),
            out@ == vins_legacy_enc(vins@.take(i as int), index as int),
        decreases vins@.len() - i,
    {
        let b = if i == index {
            vins[i].encode_legacy()
        } else {
            vins[i].encode_legacy_empty()
        };
        push_bytes(&mut out, &b);
        proof {
            assert(vins@.take(i + 1 as int).drop_last() =~= vins@.take(i as int));
            assert(vins@.take(i + 1 as int).last() == vins@[i as int]);
            assert(out@ =~= vins_legacy_enc(vins@.take(i + 1 as int), index as int));
        }
        i += 1;
    }
    proof {
        assert(vins@.take(vins@.len() as int) =~= vins@);
    }
    out
}

/// The encodings of a list of outputs, as bytes.
pub fn encode_vouts(vouts: &Vec<Vout>) -> (r: Vec<u8>)
    ensures
        r@ == vouts_enc(vouts@),
{
    let mut out: Vec<u8> = Vec::new();
    let mut i: usize = 0;
    while i < vouts.len()
        invariant
            i <= vouts@.len(),
            out@ == vouts_enc(vouts@.take(i as int)),
        decreases vouts@.len() - i,
    {
        let b = vouts[i].encode();
        push_bytes(&mut out, &b);
        proof {
            assert(vouts@.take(i + 1 as int).drop_last() =~= vouts@.take(i as int));
            assert(vouts@.take(i + 1 as int).last() == vouts@[i as int]);
            assert(out@ =~= vouts_enc(vouts@.take(i + 1 as int)));
        }
        i += 1;
    }
    proof {
        assert(vouts@.take(vouts@.len() as int) =~= vouts@);
    }
    out
}

/// The sighash-type-3 output section, as bytes: only the output at
/// `index` is encoded; every other output is a single zero byte.
pub fn encode_vouts_empty(vouts: &Vec<Vout>, index: usize) -> (r: Vec<u8>)
    ensures
        r@ == vouts_empty_enc(vouts@, index as int),
{
    let mut out: Vec<u8> = Vec::new();
    let mut i: usize = 0;
    while i < vouts.len()
        invariant
            i <= vouts@.len(),
            out@ == vouts_empty_enc(vouts@.take(i as int), index as int),
        decreases vouts@.len() - i,
    {
        if i == index {
            let b = vouts[i].encode();
            push_bytes(&mut out, &b);
        } else {
            out.push(0u8);
        }
        proof {
            assert(vouts@.take(i + 1 as int).drop_last() =~= vouts@.take(i as int));
            assert(vouts@.take(i + 1 as int).last() == vouts@[i as int]);
            assert(out@ =~= vouts_empty_enc(vouts@.take(i + 1 as int), index as int));
        }
        i += 1;
    }
    proof {
        assert(vouts@.take(vouts@.len() as int) =~= vouts@);
    }
    out
}

/// One witness stack: its item count, the signatures, an (empty) code
/// separator and the redeem-script items in push encoding.
#[derive(Debug, Clone)]
pub struct Witness {
    pub nitems: Vec<u8>,
    pub signatures: Vec<Signature>,
    pub code_separator: Vec<u8>,
    pub redeem_script: Vec<StackItem>,
}

impl Witness {
    /// The wire encoding: item count, signatures, code separator,
    /// push-encoded redeem script.
    pub open spec fn enc(self) -> Seq<u8> {
        self.nitems@ + sigs_enc(self.signatures@) + self.code_separator@ + stack_push_enc(
            self.redeem_script@,
        )
    }

    /// Builds a witness from the signatures' hex spellings and the
    /// already-built redeem-script stack.
    pub fn new(signatures_list: Vec<&str>, redeem_script: Vec<StackItem>, sighash_type: u8) -> (r:
        Result<Self, TxError>)
        requires
            signatures_list@.len() + redeem_script@.len() <= usize::MAX,
        ensures
            match r {
                Ok(w) => {
                    &&& forall|j: int|
                        0 <= j < signatures_list@.len() ==> sig_hex_ok(
                            (#[trigger] signatures_list@[j])@,
                        )
                    &&& w.nitems@ == varint_seq(
                        (signatures_list@.len() + redeem_script@.len()) as nat,
                    )
                    &&& w.code_separator@.len() == 0
                    &&& w.redeem_script == redeem_script
                    &&& w.signatures@.len() == signatures_list@.len()
                    &&& forall|j: int|
                        0 <= j < w.signatures@.len() ==> sig_matches(
                            #[trigger] w.signatures@[j],
                            signatures_list@[j]@,
                            sighash_type,
                        )
                },
                Err(e) => (e == TxError::OddLengthHex || e == TxError::InvalidHexDigit) && !(
                forall|j: int|
                    0 <= j < signatures_list@.len() ==> sig_hex_ok(
                        (#[trigger] signatures_list@[j])@,
                    )),
            },
    {
        let mut signatures: Vec<Signature> = Vec::new();
        let mut i: usize = 0;
        while i < signatures_list.len()
            invariant
                signatures_list@.len() + redeem_script@.len() <= usize::MAX,
                i <= signatures_list@.len(),
                signatures@.len() == i,
                forall|j: int| 0 <= j < i ==> sig_hex_ok((#[trigger] signatures_list@[j])@),
                forall|j: int|
                    0 <= j < i ==> sig_matches(
                        #[trigger] signatures@[j],
                        signatures_list@[j]@,
                        sighash_type,
                    ),
            decreases signatures_list@.len() - i,
        {
            let sig = Signature::new(signatures_list[i], sighash_type)?;
            signatures.push(sig);
            i += 1;
        }
        Ok(
            Witness {
                nitems: varint(signatures.len() + redeem_script.len()),
                signatures,
                code_separator: Vec::new(),
                redeem_script,
            },
        )
    }

    /// The wire encoding of this witness, as bytes.
    pub fn encode(&self) -> (r: Vec<u8>)
        ensures
            r@ == self.enc(),
    {
        let mut out: Vec<u8> = Vec::new();
        push_bytes(&mut out, &self.nitems);
        let sigs = encode_sigs(&self.signatures);
        push_bytes(&mut out, &sigs);
        push_bytes(&mut out, &self.code_separator);
        let rs = encode_stack_push(&self.redeem_script);
        push_bytes(&mut out, &rs);
        out
    }

    /// The wire encoding (consuming form).
    pub fn concat(self) -> (r: Vec<u8>)
        ensures
            r@ == self.enc(),
    {
        self.encode()
    }
}

/// The witness section of a signed transaction: one stack per input, a
/// single zero byte standing for an input without a witness.
pub open spec fn witnesses_enc(s: Seq<Option<Witness>>) -> Seq<u8> {
    cat(s, |j: int, w: Option<Witness>| match w {
        Some(x) => x.enc(),
        None => seq![0u8],
    })
}

/// The witness section, as bytes.
pub fn encode_witnesses(ws: &Vec<Option<Witness>>) -> (r: Vec<u8>)
    ensures
        r@ == witnesses_enc(ws@),
{
    let mut out: Vec<u8> = Vec::new();
    let mut i: usize = 0;
    while i < ws.len()
        invariant
            i <= ws@.len(),
            out@ == witnesses_enc(ws@.take(i as int)),
        decreases ws@.len() - i,
    {
        match &ws[i] {
            Some(x) => {
                let b = x.encode();
                push_bytes(&mut out, &b);
            },
            None => {
                out.push(0u8);
            },
        }
        proof {
            assert(ws@.take(i + 1 as int).drop_last() =~= ws@.take(i as int));
            assert(ws@.take(i + 1 as int).last() == ws@[i as int]);
            assert(out@ =~= witnesses_enc(ws@.take(i + 1 as int)));
        }
        i += 1;
    }
    proof {
        assert(ws@.take(ws@.len() as int) =~= ws@);
    }
    out
}

/// The unsigned transaction skeleton: version, inputs, outputs, locktime.
#[derive(Debug, Clone)]
pub struct RawTransaction {
    pub version: Vec<u8>,
    pub vin_count: Vec<u8>,
    pub vins: Vec<Vin>,
    pub vout_count: Vec<u8>,
    pub vouts: Vec<Vout>,
    pub locktime: Vec<u8>,
}

impl RawTransaction {
    /// The legacy sighash preimage for the input at `index`: the whole
    /// transaction with the signing input's previous locking script in the
    /// signature-script position and every other input's script empty,
    /// followed by the 4-byte little-endian sighash type. Type 3 encodes
    /// only the matching output; any other type than 1 and 3 collapses to
    /// a single zero byte.
    pub open spec fn legacy_preimage(self, index: int, sighash_type: u8) -> Seq<u8> {
        if sighash_type == 1 {
            self.version@ + self.vin_count@ + vins_legacy_enc(self.vins@, index) + self.vout_count@
                + vouts_enc(self.vouts@) + self.locktime@ + seq![1u8, 0u8, 0u8, 0u8]
        } else if sighash_type == 3 {
            self.version@ + self.vin_count@ + vins_legacy_enc(self.vins@, index) + self.vout_count@
                + vouts_empty_enc(self.vouts@, index) + self.locktime@ + seq![3u8, 0u8, 0u8, 0u8]
        } else {
            seq![0u8]
        }
    }

    /// Builds the unsigned skeleton; the input and output counts are
    /// encoded as compact-size integers.
    pub fn new(version: u32, vins: Vec<Vin>, vouts: Vec<Vout>, locktime: u32) -> (r:
        RawTransaction)
        ensures
            r.version@ == u32_le(version),
            r.vin_count@ == varint_seq(vins@.len()),
            r.vins == vins,
            r.vout_count@ == varint_seq(vouts@.len()),
            r.vouts == vouts,
            r.locktime@ == u32_le(locktime),
    {
        let vin_count = varint(vins.len());
        let vout_count = varint(vouts.len());
        RawTransaction {
            version: crate::encoding::u32_le_vec(version),
            vin_count,
            vins,
            vout_count,
            vouts,
            locktime: crate::encoding::u32_le_vec(locktime),
        }
    }

    /// The legacy sighash preimage, as bytes.
    pub fn encode_legacy_preimage(&self, index: usize, sighash_type: u8) -> (r: Vec<u8>)
        ensures
            r@ == self.legacy_preimage(index as int, sighash_type),
    {
        if sighash_type == 1 {
            let mut out: Vec<u8> = Vec::new();
            push_bytes(&mut out, &self.version);
            push_bytes(&mut out, &self.vin_count);
            let vins = encode_vins_legacy(&self.vins, index);
            push_bytes(&mut out, &vins);
            push_bytes(&mut out, &self.vout_count);
            let vouts = encode_vouts(&self.vouts);
            push_bytes(&mut out, &vouts);
            push_bytes(&mut out, &self.locktime);
            out.push(1u8);
            out.push(0u8);
            out.push(0u8);
            out.push(0u8);
            proof {
                assert(out@ =~= self.legacy_preimage(index as int, sighash_type));
            }
            out
        } else if sighash_type == 3 {
            let mut out: Vec<u8> = Vec::new();
            push_bytes(&mut out, &self.version);
            push_bytes(&mut out, &self.vin_count);
            let vins = encode_vins_legacy(&self.vins, index);
            push_bytes(&mut out, &vins);
            push_bytes(&mut out, &self.vout_count);
            let vouts = encode_vouts_empty(&self.vouts, index);
            push_bytes(&mut out, &vouts);
            push_bytes(&mut out, &self.locktime);
            out.push(3u8);
            out.push(0u8);
            out.push(0u8);
            out.push(0u8);
            proof {
                assert(out@ =~= self.legacy_preimage(index as int, sighash_type));
            }
            out
        } else {
            let mut out: Vec<u8> = Vec::new();
            out.push(0u8);
            proof {
                assert(out@ =~= self.legacy_preimage(index as int, sighash_type));
            }
            out
        }
    }

    /// The legacy sighash preimage (consuming form).
    pub fn concat_legacy(self, index: usize, sighash_type: u8) -> (r: Vec<u8>)
        ensures
            r@ == self.legacy_preimage(index as int, sighash_type),
    {
        self.encode_legacy_preimage(index, sighash_type)
    }
}

/// A vector of `n` zero bytes.
pub fn zero_vec(n: usize) -> (r: Vec<u8>)
    ensures
        r@ == Seq::new(n as nat, |i: int| 0u8),
{
    let mut v: Vec<u8> = Vec::new();
    let mut i: usize = 0;
    while i < n
        invariant
            i <= n,
            v@ =~= Seq::new(i as nat, |k: int| 0u8),
        decreases n - i,
    {
        v.push(0u8);
        proof {
            assert(v@ =~= Seq::new((i + 1) as nat, |k: int| 0u8));
        }
        i += 1;
    }
    v
}

/// The concatenated (txid ‖ index) pairs of all inputs: what hashPrevouts
/// commits to.
pub open spec fn prevouts_blob(vins: Seq<Vin>) -> Seq<u8> {
    cat(vins, |j: int, v: Vin| v.txid@ + v.vout@)
}

/// The concatenated sequence fields of all inputs: what hashSequence
/// commits to.
pub open spec fn sequences_blob(vins: Seq<Vin>) -> Seq<u8> {
    cat(vins, |j: int, v: Vin| v.sequence@)
}

/// The concatenated (txid ‖ index) pairs, as bytes.
pub fn encode_prevouts_blob(vins: &Vec<Vin>) -> (r: Vec<u8>)
    ensures
        r@ == prevouts_blob(vins@),
{
    let mut out: Vec<u8> = Vec::new();
    let mut i: usize = 0;
    while i < vins.len()
        invariant
            i <= vins@.len(),
            out@ == prevouts_blob(vins@.take(i as int)),
        decreases vins@.len() - i,
    {
        push_bytes(&mut out, &vins[i].txid);
        push_bytes(&mut out, &vins[i].vout);
        proof {
            assert(vins@.take(i + 1 as int).drop_last() =~= vins@.take(i as int));
            assert(vins@.take(i + 1 as int).last() == vins@[i as int]);
            assert(out@ =~= prevouts_blob(vins@.take(i + 1 as int)));
        }
        i += 1;
    }
    proof {
        assert(vins@.take(vins@.len() as int) =~= vins@);
    }
    out
}

/// The concatenated sequence fields, as bytes.
pub fn encode_sequences_blob(vins: &Vec<Vin>) -> (r: Vec<u8>)
    ensures
        r@ == sequences_blob(vins@),
{
    let mut out: Vec<u8> = Vec::new();
    let mut i: usize = 0;
    while i < vins.len()
        invariant
            i <= vins@.len(),
            out@ == sequences_blob(vins@.take(i as int)),
        decreases vins@.len() - i,
    {
        push_bytes(&mut out, &vins[i].sequence);
        proof {
            assert(vins@.take(i + 1 as int).drop_last() =~= vins@.take(i as int));
            assert(vins@.take(i + 1 as int).last() == vins@[i as int]);
            assert(out@ =~= sequences_blob(vins@.take(i + 1 as int)));
        }
        i += 1;
    }
    proof {
        assert(vins@.take(vins@.len() as int) =~= vins@);
    }
    out
}

/// The BIP143-style segwit sighash preimage of one input: the transaction
/// commitments (hashPrevouts, hashSequence, hashOutputs) around that
/// input's own prevout, script code, value and sequence.
#[derive(Debug, Clone)]
pub struct UnsignedSegwitTransaction {
    pub version: Vec<u8>,
    pub hash_prevouts: Vec<u8>,
    pub hash_sequence: Vec<u8>,
    pub txid: Vec<u8>,
    pub vout: Vec<u8>,
    pub script_code_length: Vec<u8>,
    pub script_code: Vec<u8>,
    pub value: Vec<u8>,
    pub sequence: Vec<u8>,
    pub hash_outputs: Vec<u8>,
    pub locktime: Vec<u8>,
    pub sighash_type: Vec<u8>,
}

impl UnsignedSegwitTransaction {
    /// The preimage bytes: for sighash type 1 the full commitment; for
    /// type 3 hashSequence and hashOutputs are zeroed wholesale (a known
    /// deviation from standard SIGHASH_SINGLE, preserved deliberately);
    /// any other type collapses to a single zero byte.
    pub open spec fn preimage(self) -> Seq<u8> {
        if self.sighash_type@.len() == 4 && self.sighash_type@[0] == 1 {
            self.version@ + self.hash_prevouts@ + self.hash_sequence@ + self.txid@ + self.vout@
                + self.script_code_length@ + self.script_code@ + self.value@ + self.sequence@
                + self.hash_outputs@ + self.locktime@ + self.sighash_type@
        } else if self.sighash_type@.len() == 4 && self.sighash_type@[0] == 3 {
            self.version@ + self.hash_prevouts@ + Seq::new(32, |i: int| 0u8) + self.txid@
                + self.vout@ + self.script_code_length@ + self.script_code@ + self.value@
                + self.sequence@ + Seq::new(32, |i: int| 0u8) + self.locktime@ + self.sighash_type@
        } else {
            seq![0u8]
        }
    }

    /// Builds the preimage structure for the input at `index`, hashing the
    /// prevout, sequence and output commitments with double SHA-256.
    pub fn new(tx: &RawTransaction, index: usize, sighash_type: u8) -> (r:
        UnsignedSegwitTransaction)
        requires
            index < tx.vins@.len(),
        ensures
            r.version@ == tx.version@,
            r.hash_prevouts@ == sha256_of(sha256_of(prevouts_blob(tx.vins@))),
            r.hash_sequence@ == sha256_of(sha256_of(sequences_blob(tx.vins@))),
            r.txid@ == tx.vins@[index as int].txid@,
            r.vout@ == tx.vins@[index as int].vout@,
            r.script_code_length@ == tx.vins@[index as int].locking_script_length@,
            r.script_code@ == tx.vins@[index as int].locking_script@,
            r.value@ == tx.vins@[index as int].value@,
            r.sequence@ == tx.vins@[index as int].sequence@,
            r.hash_outputs@ == sha256_of(sha256_of(vouts_enc(tx.vouts@))),
            r.locktime@ == tx.locktime@,
            r.sighash_type@ == seq![sighash_type, 0u8, 0u8, 0u8],
    {
        let prevouts = encode_prevouts_blob(&tx.vins);
        let sequences = encode_sequences_blob(&tx.vins);
        let hash_prevouts = crate::hashes::sha256_bytes(&crate::hashes::sha256_bytes(&prevouts));
        let hash_sequence = crate::hashes::sha256_bytes(&crate::hashes::sha256_bytes(&sequences));
        let outputs = encode_vouts(&tx.vouts);
        let hash_outputs = crate::hashes::sha256_bytes(&crate::hashes::sha256_bytes(&outputs));
        let vin = &tx.vins[index];
        let mut txid: Vec<u8> = Vec::new();
        push_bytes(&mut txid, &vin.txid);
        let mut vout: Vec<u8> = Vec::new();
        push_bytes(&mut vout, &vin.vout);
        let mut script_code_length: Vec<u8> = Vec::new();
        push_bytes(&mut script_code_length, &vin.locking_script_length);
        let mut script_code: Vec<u8> = Vec::new();
        push_bytes(&mut script_code, &vin.locking_script);
        let mut value: Vec<u8> = Vec::new();
        push_bytes(&mut value, &vin.value);
        let mut sequence: Vec<u8> = Vec::new();
        push_bytes(&mut sequence, &vin.sequence);
        let mut st: Vec<u8> = Vec::new();
        st.push(sighash_type);
        st.push(0u8);
        st.push(0u8);
        st.push(0u8);
        proof {
            assert(st@ =~= seq![sighash_type, 0u8, 0u8, 0u8]);
            assert(txid@ =~= tx.vins@[index as int].txid@);
            assert(vout@ =~= tx.vins@[index as int].vout@);
            assert(script_code_length@ =~= tx.vins@[index as int].locking_script_length@);
            assert(script_code@ =~= tx.vins@[index as int].locking_script@);
            assert(value@ =~= tx.vins@[index as int].value@);
            assert(sequence@ =~= tx.vins@[index as int].sequence@);
        }
        let mut version: Vec<u8> = Vec::new();
        push_bytes(&mut version, &tx.version);
        let mut locktime: Vec<u8> = Vec::new();
        push_bytes(&mut locktime, &tx.locktime);
        proof {
            assert(version@ =~= tx.version@);
            assert(locktime@ =~= tx.locktime@);
        }
        UnsignedSegwitTransaction {
            version,
            hash_prevouts,
            hash_sequence,
            txid,
            vout,
            script_code_length,
            script_code,
            value,
            sequence,
            hash_outputs,
            locktime,
            sighash_type: st,
        }
    }

    /// Swaps in another input's prevout, locking script, value and
    /// sequence, leaving the transaction-wide commitments alone.
    pub fn change_vin(&mut self, vin: &Vin, sighash_type: u8)
        ensures
            final(self).txid@ == vin.txid@,
            final(self).vout@ == vin.vout@,
            final(self).script_code_length@ == vin.locking_script_length@,
            final(self).script_code@ == vin.locking_script@,
            final(self).value@ == vin.value@,
            final(self).sequence@ == vin.sequence@,
            final(self).sighash_type@ == seq![sighash_type, 0u8, 0u8, 0u8],
            final(self).version == old(self).version,
            final(self).hash_prevouts == old(self).hash_prevouts,
            final(self).hash_sequence == old(self).hash_sequence,
            final(self).hash_outputs == old(self).hash_outputs,
            final(self).locktime == old(self).locktime,
    {
        let mut txid: Vec<u8> = Vec::new();
        push_bytes(&mut txid, &vin.txid);
        self.txid = txid;
        let mut vout: Vec<u8> = Vec::new();
        push_bytes(&mut vout, &vin.vout);
        self.vout = vout;
        let mut scl: Vec<u8> = Vec::new();
        push_bytes(&mut scl, &vin.locking_script_length);
        self.script_code_length = scl;
        let mut sc: Vec<u8> = Vec::new();
        push_bytes(&mut sc, &vin.locking_script);
        self.script_code = sc;
        let mut value: Vec<u8> = Vec::new();
        push_bytes(&mut value, &vin.value);
        self.value = value;
        let mut sequence: Vec<u8> = Vec::new();
        push_bytes(&mut sequence, &vin.sequence);
        self.sequence = sequence;
        let mut st: Vec<u8> = Vec::new();
        st.push(sighash_type);
        st.push(0u8);
        st.push(0u8);
        st.push(0u8);
        proof {
            assert(st@ =~= seq![sighash_type, 0u8, 0u8, 0u8]);
        }
        self.sighash_type = st;
    }

    /// Swaps in a P2WSH input: the script code is the input's bare-encoded
    /// redeem script with its first `remove_up_to` bytes dropped, freshly
    /// length-prefixed.
    pub fn change_vin_p2wsh(&mut self, vin: &Vin, sighash_type: u8, remove_up_to: usize)
        requires
            remove_up_to <= stack_bare_enc(vin.redeem_script@).len(),
        ensures
            final(self).txid@ == vin.txid@,
            final(self).vout@ == vin.vout@,
            final(self).script_code@ == stack_bare_enc(vin.redeem_script@).skip(
                remove_up_to as int,
            ),
            final(self).script_code_length@ == varint_seq(
                (stack_bare_enc(vin.redeem_script@).len() - remove_up_to) as nat,
            ),
            final(self).value@ == vin.value@,
            final(self).sequence@ == vin.sequence@,
            final(self).sighash_type@ == seq![sighash_type, 0u8, 0u8, 0u8],
            final(self).version == old(self).version,
            final(self).hash_prevouts == old(self).hash_prevouts,
            final(self).hash_sequence == old(self).hash_sequence,
            final(self).hash_outputs == old(self).hash_outputs,
            final(self).locktime == old(self).locktime,
    {
        let mut txid: Vec<u8> = Vec::new();
        push_bytes(&mut txid, &vin.txid);
        self.txid = txid;
        let mut vout: Vec<u8> = Vec::new();
        push_bytes(&mut vout, &vin.vout);
        self.vout = vout;
        let full = encode_stack_bare(&vin.redeem_script);
        let mut sc: Vec<u8> = Vec::new();
        let mut i: usize = remove_up_to;
        while i < full.len()
            invariant
                remove_up_to <= i <= full@.len(),
                sc@ == full@.subrange(remove_up_to as int, i as int),
            decreases full@.len() - i,
        {
            sc.push(full[i]);
            proof {
                assert(sc@ =~= full@.subrange(remove_up_to as int, i + 1 as int));
            }
            i += 1;
        }
        proof {
            assert(sc@ =~= full@.skip(remove_up_to as int));
        }
        self.script_code_length = varint(sc.len());
        self.script_code = sc;
        let mut value: Vec<u8> = Vec::new();
        push_bytes(&mut value, &vin.value);
        self.value = value;
        let mut sequence: Vec<u8> = Vec::new();
        push_bytes(&mut sequence, &vin.sequence);
        self.sequence = sequence;
        let mut st: Vec<u8> = Vec::new();
        st.push(sighash_type);
        st.push(0u8);
        st.push(0u8);
        st.push(0u8);
        proof {
            assert(st@ =~= seq![sighash_type, 0u8, 0u8, 0u8]);
        }
        self.sighash_type = st;
    }

    /// The preimage, as bytes.
    pub fn encode_preimage(&self) -> (r: Vec<u8>)
        ensures
            r@ == self.preimage(),
    {
        let four = self.sighash_type.len() == 4;
        if four && self.sighash_type[0] == 1 {
            let mut out: Vec<u8> = Vec::new();
            push_bytes(&mut out, &self.version);
            push_bytes(&mut out, &self.hash_prevouts);
            push_bytes(&mut out, &self.hash_sequence);
            push_bytes(&mut out, &self.txid);
            push_bytes(&mut out, &self.vout);
            push_bytes(&mut out, &self.script_code_length);
            push_bytes(&mut out, &self.script_code);
            push_bytes(&mut out, &self.value);
            push_bytes(&mut out, &self.sequence);
            push_bytes(&mut out, &self.hash_outputs);
            push_bytes(&mut out, &self.locktime);
            push_bytes(&mut out, &self.sighash_type);
            proof {
                assert(out@ =~= self.preimage());
            }
            out
        } else if four && self.sighash_type[0] == 3 {
            let zeros = zero_vec(32);
            let mut out: Vec<u8> = Vec::new();
            push_bytes(&mut out, &self.version);
            push_bytes(&mut out, &self.hash_prevouts);
            push_bytes(&mut out, &zeros);
            push_bytes(&mut out, &self.txid);
            push_bytes(&mut out, &self.vout);
            push_bytes(&mut out, &self.script_code_length);
            push_bytes(&mut out, &self.script_code);
            push_bytes(&mut out, &self.value);
            push_bytes(&mut out, &self.sequence);
            push_bytes(&mut out, &zeros);
            push_bytes(&mut out, &self.locktime);
            push_bytes(&mut out, &self.sighash_type);
            proof {
                assert(out@ =~= self.preimage());
            }
            out
        } else {
            let mut out: Vec<u8> = Vec::new();
            out.push(0u8);
            proof {
                assert(out@ =~= self.preimage());
            }
            out
        }
    }

    /// The preimage (consuming form).
    pub fn concat(self) -> (r: Vec<u8>)
        ensures
            r@ == self.preimage(),
    {
        self.encode_preimage()
    }
}

/// A finished transaction: the skeleton plus an optional witness stack per
/// input and the flag that selects segwit framing.
#[derive(Debug, Clone)]
pub struct SignedTransaction {
    pub version: Vec<u8>,
    pub marker: Vec<u8>,
    pub vin_count: Vec<u8>,
    pub vins: Vec<Vin>,
    pub vout_count: Vec<u8>,
    pub vouts: Vec<Vout>,
    pub witnesses: Vec<Option<Witness>>,
    pub locktime: Vec<u8>,
    pub has_segwit_input: bool,
}

impl SignedTransaction {
    /// The legacy wire encoding: no marker, no witness section.
    pub open spec fn legacy_enc(self) -> Seq<u8> {
        self.version@ + self.vin_count@ + vins_full_enc(self.vins@) + self.vout_count@ + vouts_enc(
            self.vouts@,
        ) + self.locktime@
    }

    /// The wire encoding: segwit framing (marker, flag and witness
    /// section) when the flag is set, else the legacy bytes.
    pub open spec fn enc(self) -> Seq<u8> {
        if self.has_segwit_input {
            self.version@ + self.marker@ + self.vin_count@ + vins_full_enc(self.vins@)
                + self.vout_count@ + vouts_enc(self.vouts@) + witnesses_enc(self.witnesses@)
                + self.locktime@
        } else {
            self.legacy_enc()
        }
    }

    /// Combines a skeleton with its witnesses into the finished form.
    pub fn new(
        raw_transction: RawTransaction,
        witnesses: Vec<Option<Witness>>,
        has_segwit_input: bool,
    ) -> (r: SignedTransaction)
        ensures
            r.version == raw_transction.version,
            r.marker@ == seq![0u8, 1u8],
            r.vin_count == raw_transction.vin_count,
            r.vins == raw_transction.vins,
            r.vout_count == raw_transction.vout_count,
            r.vouts == raw_transction.vouts,
            r.witnesses == witnesses,
            r.locktime == raw_transction.locktime,
            r.has_segwit_input == has_segwit_input,
    {
        let mut marker: Vec<u8> = Vec::new();
        marker.push(0u8);
        marker.push(1u8);
        proof {
            assert(marker@ =~= seq![0u8, 1u8]);
        }
        SignedTransaction {
            version: raw_transction.version,
            marker,
            vin_count: raw_transction.vin_count,
            vins: raw_transction.vins,
            vout_count: raw_transction.vout_count,
            vouts: raw_transction.vouts,
            witnesses,
            locktime: raw_transction.locktime,
            has_segwit_input,
        }
    }

    /// The wire encoding, as bytes.
    pub fn encode(&self) -> (r: Vec<u8>)
        ensures
            r@ == self.enc(),
    {
        if self.has_segwit_input {
            let mut out: Vec<u8> = Vec::new();
            push_bytes(&mut out, &self.version);
            push_bytes(&mut out, &self.marker);
            push_bytes(&mut out, &self.vin_count);
            let vins = encode_vins_full(&self.vins);
            push_bytes(&mut out, &vins);
            push_bytes(&mut out, &self.vout_count);
            let vouts = encode_vouts(&self.vouts);
            push_bytes(&mut out, &vouts);
            let wits = encode_witnesses(&self.witnesses);
            push_bytes(&mut out, &wits);
            push_bytes(&mut out, &self.locktime);
            out
        } else {
            self.encode_legacy()
        }
    }

    /// The legacy wire encoding, as bytes.
    pub fn encode_legacy(&self) -> (r: Vec<u8>)
        ensures
            r@ == self.legacy_enc(),
    {
        let mut out: Vec<u8> = Vec::new();
        push_bytes(&mut out, &self.version);
        push_bytes(&mut out, &self.vin_count);
        let vins = encode_vins_full(&self.vins);
        push_bytes(&mut out, &vins);
        push_bytes(&mut out, &self.vout_count);
        let vouts = encode_vouts(&self.vouts);
        push_bytes(&mut out, &vouts);
        push_bytes(&mut out, &self.locktime);
        out
    }

    /// The wire encoding (consuming form).
    pub fn concat(self) -> (r: Vec<u8>)
        ensures
            r@ == self.enc(),
    {
        self.encode()
    }

    /// The legacy wire encoding (consuming form).
    pub fn concat_legacy(self) -> (r: Vec<u8>)
        ensures
            r@ == self.legacy_enc(),
    {
        self.encode_legacy()
    }
}

/// A legacy input before signing: prevout reference, locking script and
/// sequence.
#[derive(Debug, Clone)]
pub struct VinLegacy {
    pub txid: Vec<u8>,
    pub vout: Vec<u8>,
    pub locking_script_length: Vec<u8>,
    pub locking_script: Vec<u8>,
    pub sequence: Vec<u8>,
}

impl VinLegacy {
    /// The wire encoding: txid, index, length-prefixed script, sequence.
    pub open spec fn enc(self) -> Seq<u8> {
        self.txid@ + self.vout@ + self.locking_script_length@ + self.locking_script@
            + self.sequence@
    }

    /// Builds a legacy input from the previous output's txid (display
    /// order, reversed on the wire), index, locking script and sequence.
    pub fn new(txid: &str, vout: u32, locking_script: &str, sequence: u32) -> (r: Result<
        VinLegacy,
        TxError,
    >)
        ensures
            match r {
                Ok(v) => {
                    &&& txid@.len() % 2 == 0 && all_hex_digits(txid@)
                    &&& locking_script@.len() % 2 == 0 && all_hex_digits(locking_script@)
                    &&& v.txid@ == bytes_of_hex(txid@).reverse()
                    &&& v.vout@ == u32_le(vout)
                    &&& v.locking_script_length@ == varint_seq((locking_script@.len() / 2) as nat)
                    &&& v.locking_script@ == bytes_of_hex(locking_script@)
                    &&& v.sequence@ == u32_le(sequence)
                },
                Err(e) => (e == TxError::OddLengthHex || e == TxError::InvalidHexDigit) && !(
                txid@.len() % 2 == 0 && all_hex_digits(txid@) && locking_script@.len() % 2 == 0
                    && all_hex_digits(locking_script@)),
            },
    {
        let txid_bytes = hex_str_to_bytes(txid)?;
        let script_bytes = hex_str_to_bytes(locking_script)?;
        let n = locking_script.unicode_len();
        Ok(
            VinLegacy {
                txid: reverse_bytes(&txid_bytes),
                vout: crate::encoding::u32_le_vec(vout),
                locking_script_length: varint(n / 2),
                locking_script: script_bytes,
                sequence: crate::encoding::u32_le_vec(sequence),
            },
        )
    }

    /// The wire encoding of this input, as bytes.
    pub fn encode(&self) -> (r: Vec<u8>)
        ensures
            r@ == self.enc(),
    {
        let mut out: Vec<u8> = Vec::new();
        push_bytes(&mut out, &self.txid);
        push_bytes(&mut out, &self.vout);
        push_bytes(&mut out, &self.locking_script_length);
        push_bytes(&mut out, &self.locking_script);
        push_bytes(&mut out, &self.sequence);
        out
    }

    /// The wire encoding (consuming form).
    pub fn concat(self) -> (r: Vec<u8>)
        ensures
            r@ == self.enc(),
    {
        self.encode()
    }
}

/// The encodings of a list of legacy inputs, in order.
pub open spec fn vins_legacy_list_enc(s: Seq<VinLegacy>) -> Seq<u8> {
    cat(s, |j: int, v: VinLegacy| v.enc())
}

/// The encodings of a list of legacy inputs, as bytes.
pub fn encode_vins_legacy_list(vins: &Vec<VinLegacy>) -> (r: Vec<u8>)
    ensures
        r@ == vins_legacy_list_enc(vins@),
{
    let mut out: Vec<u8> = Vec::new();
    let mut i: usize = 0;
    while i < vins.len()
        invariant
            i <= vins@.len(),
            out@ == vins_legacy_list_enc(vins@.take(i as int)),
        decreases vins@.len() - i,
    {
        let b = vins[i].encode();
        push_bytes(&mut out, &b);
        proof {
            assert(vins@.take(i + 1 as int).drop_last() =~= vins@.take(i as int));
            assert(vins@.take(i + 1 as int).last() == vins@[i as int]);
            assert(out@ =~= vins_legacy_list_enc(vins@.take(i + 1 as int)));
        }
        i += 1;
    }
    proof {
        assert(vins@.take(vins@.len() as int) =~= vins@);
    }
    out
}

/// The legacy unsigned transaction: inputs carry their locking scripts,
/// and the trailing 4-byte sighash type is fixed to 1.
#[derive(Debug, Clone)]
pub struct UnsignedTransactionLegacy {
    pub version: Vec<u8>,
    pub vin_count: Vec<u8>,
    pub vins: Vec<VinLegacy>,
    pub vout_count: Vec<u8>,
    pub vouts: Vec<Vout>,
    pub locktime: Vec<u8>,
    pub sighash_type: Vec<u8>,
}

impl UnsignedTransactionLegacy {
    /// The preimage bytes: the whole transaction followed by the sighash
    /// type field.
    pub open spec fn enc(self) -> Seq<u8> {
        self.version@ + self.vin_count@ + vins_legacy_list_enc(self.vins@) + self.vout_count@
            + vouts_enc(self.vouts@) + self.locktime@ + self.sighash_type@
    }

    /// Builds the legacy unsigned transaction with sighash type 1.
    pub fn new(version: u32, vins: Vec<VinLegacy>, vouts: Vec<Vout>, locktime: u32) -> (r:
        UnsignedTransactionLegacy)
        ensures
            r.version@ == u32_le(version),
            r.vin_count@ == varint_seq(vins@.len()),
            r.vins == vins,
            r.vout_count@ == varint_seq(vouts@.len()),
            r.vouts == vouts,
            r.locktime@ == u32_le(locktime),
            r.sighash_type@ == seq![1u8, 0u8, 0u8, 0u8],
    {
        let vin_count = varint(vins.len());
        let vout_count = varint(vouts.len());
        let mut st: Vec<u8> = Vec::new();
        st.push(1u8);
        st.push(0u8);
        st.push(0u8);
        st.push(0u8);
        proof {
            assert(st@ =~= seq![1u8, 0u8, 0u8, 0u8]);
        }
        UnsignedTransactionLegacy {
            version: crate::encoding::u32_le_vec(version),
            vin_count,
            vins,
            vout_count,
            vouts,
            locktime: crate::encoding::u32_le_vec(locktime),
            sighash_type: st,
        }
    }

    /// The preimage, as bytes.
    pub fn encode(&self) -> (r: Vec<u8>)
        ensures
            r@ == self.enc(),
    {
        let mut out: Vec<u8> = Vec::new();
        push_bytes(&mut out, &self.version);
        push_bytes(&mut out, &self.vin_count);
        let vins = encode_vins_legacy_list(&self.vins);
        push_bytes(&mut out, &vins);
        push_bytes(&mut out, &self.vout_count);
        let vouts = encode_vouts(&self.vouts);
        push_bytes(&mut out, &vouts);
        push_bytes(&mut out, &self.locktime);
        push_bytes(&mut out, &self.sighash_type);
        out
    }

    /// The preimage (consuming form).
    pub fn concat(self) -> (r: Vec<u8>)
        ensures
            r@ == self.enc(),
    {
        self.encode()
    }
}

/// A fully-signed legacy input: the scriptSig is spelled out as signature
/// length, signature, sighash byte, redeem-script length, redeem script.
#[derive(Debug, Clone)]
pub struct VinSigned {
    pub txid: Vec<u8>,
    pub vout: Vec<u8>,
    pub script_sig_length: Vec<u8>,
    pub signature_length: Vec<u8>,
    pub signature: Vec<u8>,
    pub sighash_type: Vec<u8>,
    pub redeem_script_length: Vec<u8>,
    pub redeem_script: Vec<u8>,
    pub sequence: Vec<u8>,
}

impl VinSigned {
    /// The wire encoding of the signed input.
    pub open spec fn enc(self) -> Seq<u8> {
        self.txid@ + self.vout@ + self.script_sig_length@ + self.signature_length@
            + self.signature@ + self.sighash_type@ + self.redeem_script_length@
            + self.redeem_script@ + self.sequence@
    }

    /// Installs a signature and redeem script (both in hex) into an
    /// input, producing the signed legacy form with sighash type 1.
    pub fn new(vin: Vin, signature: &str, redeem_script: &str) -> (r: Result<VinSigned, TxError>)
        requires
            signature@.len() / 2 + redeem_script@.len() / 2 + 24 <= usize::MAX,
        ensures
            match r {
                Ok(v) => {
                    &&& signature@.len() % 2 == 0 && all_hex_digits(signature@)
                    &&& redeem_script@.len() % 2 == 0 && all_hex_digits(redeem_script@)
                    &&& v.txid == vin.txid
                    &&& v.vout == vin.vout
                    &&& v.script_sig_length@ == varint_seq(
                        (varint_seq((signature@.len() / 2) as nat).len() + signature@.len() / 2 + 1
                            + varint_seq((redeem_script@.len() / 2) as nat).len()
                            + redeem_script@.len() / 2) as nat,
                    )
                    &&& v.signature_length@ == varint_seq((signature@.len() / 2) as nat)
                    &&& v.signature@ == bytes_of_hex(signature@)
                    &&& v.sighash_type@ == seq![1u8]
                    &&& v.redeem_script_length@ == varint_seq((redeem_script@.len() / 2) as nat)
                    &&& v.redeem_script@ == bytes_of_hex(redeem_script@)
                    &&& v.sequence == vin.sequence
                },
                Err(e) => (e == TxError::OddLengthHex || e == TxError::InvalidHexDigit) && !(
                signature@.len() % 2 == 0 && all_hex_digits(signature@) && redeem_script@.len() % 2
                    == 0 && all_hex_digits(redeem_script@)),
            },
    {
        let sig_n = signature.unicode_len();
        let signature_length = varint(sig_n / 2);
        let signature_bytes = hex_str_to_bytes(signature)?;
        let rs_n = redeem_script.unicode_len();
        let redeem_script_length = varint(rs_n / 2);
        let redeem_script_bytes = hex_str_to_bytes(redeem_script)?;
        proof {
            crate::encoding::lemma_varint_seq_len((signature@.len() / 2) as nat);
            crate::encoding::lemma_varint_seq_len((redeem_script@.len() / 2) as nat);
        }
        let script_sig_length = varint(
            signature_length.len() + signature_bytes.len() + 1 + redeem_script_length.len()
                + redeem_script_bytes.len(),
        );
        let mut st: Vec<u8> = Vec::new();
        st.push(1u8);
        proof {
            assert(st@ =~= seq![1u8]);
        }
        Ok(
            VinSigned {
                txid: vin.txid,
                vout: vin.vout,
                script_sig_length,
                signature_length,
                signature: signature_bytes,
                sighash_type: st,
                redeem_script_length,
                redeem_script: redeem_script_bytes,
                sequence: vin.sequence,
            },
        )
    }

    /// The wire encoding of this signed input, as bytes.
    pub fn encode(&self) -> (r: Vec<u8>)
        ensures
            r@ == self.enc(),
    {
        let mut out: Vec<u8> = Vec::new();
        push_bytes(&mut out, &self.txid);
        push_bytes(&mut out, &self.vout);
        push_bytes(&mut out, &self.script_sig_length);
        push_bytes(&mut out, &self.signature_length);
        push_bytes(&mut out, &self.signature);
        push_bytes(&mut out, &self.sighash_type);
        push_bytes(&mut out, &self.redeem_script_length);
        push_bytes(&mut out, &self.redeem_script);
        push_bytes(&mut out, &self.sequence);
        out
    }

    /// The wire encoding (consuming form).
    pub fn concat(self) -> (r: Vec<u8>)
        ensures
            r@ == self.enc(),
    {
        self.encode()
    }
}

/// The encodings of a list of signed legacy inputs, in order.
pub open spec fn vins_signed_enc(s: Seq<VinSigned>) -> Seq<u8> {
    cat(s, |j: int, v: VinSigned| v.enc())
}

/// The encodings of a list of signed legacy inputs, as bytes.
pub fn encode_vins_signed(vins: &Vec<VinSigned>) -> (r: Vec<u8>)
    ensures
        r@ == vins_signed_enc(vins@),
{
    let mut out: Vec<u8> = Vec::new();
    let mut i: usize = 0;
    while i < vins.len()
        invariant
            i <= vins@.len(),
            out@ == vins_signed_enc(vins@.take(i as int)),
        decreases vins@.len() - i,
    {
        let b = vins[i].encode();
        push_bytes(&mut out, &b);
        proof {
            assert(vins@.take(i + 1 as int).drop_last() =~= vins@.take(i as int));
            assert(vins@.take(i + 1 as int).last() == vins@[i as int]);
            assert(out@ =~= vins_signed_enc(vins@.take(i + 1 as int)));
        }
        i += 1;
    }
    proof {
        assert(vins@.take(vins@.len() as int) =~= vins@);
    }
    out
}

/// Concatenation of a list to its wire bytes.
pub trait Concat {
    /// The wire bytes of the whole list.
    spec fn enc_all(&self) -> Seq<u8>;

    /// The wire bytes of the whole list.
    fn concat(&self) -> (r: Vec<u8>)
        ensures
            r@ == self.enc_all(),
    ;
}

/// Concatenation in both the push and the bare form.
pub trait ConcatLegacy {
    /// The push-encoded bytes of the whole list.
    spec fn enc_all(&self) -> Seq<u8>;

    /// The bare bytes of the whole list.
    spec fn enc_legacy(&self) -> Seq<u8>;

    /// The push-encoded bytes of the whole list.
    fn concat(&self) -> (r: Vec<u8>)
        ensures
            r@ == self.enc_all(),
    ;

    /// The bare bytes of the whole list.
    fn concat_legacy(&self) -> (r: Vec<u8>)
        ensures
            r@ == self.enc_legacy(),
    ;
}

/// Concatenation in the final form, and in the sighash form that singles
/// out the input being signed.
pub trait ConcatLegacy2 {
    /// The final wire bytes of the whole list.
    spec fn enc_all(&self) -> Seq<u8>;

    /// The sighash bytes with the element at `index` singled out.
    spec fn enc_legacy_at(&self, index: int) -> Seq<u8>;

    /// The final wire bytes of the whole list.
    fn concat(&self) -> (r: Vec<u8>)
        ensures
            r@ == self.enc_all(),
    ;

    /// The sighash bytes with the element at `index` singled out.
    fn concat_legacy(&self, index: usize) -> (r: Vec<u8>)
        ensures
            r@ == self.enc_legacy_at(index as int),
    ;
}

/// Concatenation in the final form, and in the sighash-type-3 form that
/// blanks every element but one.
pub trait ConcatEmpty {
    /// The wire bytes of the whole list.
    spec fn enc_all(&self) -> Seq<u8>;

    /// The bytes with every element but the one at `index` blanked.
    spec fn enc_empty_at(&self, index: int) -> Seq<u8>;

    /// The wire bytes of the whole list.
    fn concat(&self) -> (r: Vec<u8>)
        ensures
            r@ == self.enc_all(),
    ;

    /// The bytes with every element but the one at `index` blanked.
    fn concat_empty(&self, index: usize) -> (r: Vec<u8>)
        ensures
            r@ == self.enc_empty_at(index as int),
    ;
}

impl ConcatLegacy2 for Vec<Vin> {
    open spec fn enc_all(&self) -> Seq<u8> {
        vins_full_enc(self@)
    }

    open spec fn enc_legacy_at(&self, index: int) -> Seq<u8> {
        vins_legacy_enc(self@, index)
    }

    fn concat(&self) -> (r: Vec<u8>) {
        encode_vins_full(self)
    }

    fn concat_legacy(&self, index: usize) -> (r: Vec<u8>) {
        encode_vins_legacy(self, index)
    }
}

impl ConcatLegacy for Vec<StackItem> {
    open spec fn enc_all(&self) -> Seq<u8> {
        stack_push_enc(self@)
    }

    open spec fn enc_legacy(&self) -> Seq<u8> {
        stack_bare_enc(self@)
    }

    fn concat(&self) -> (r: Vec<u8>) {
        encode_stack_push(self)
    }

    fn concat_legacy(&self) -> (r: Vec<u8>) {
        encode_stack_bare(self)
    }
}

impl ConcatEmpty for Vec<Vout> {
    open spec fn enc_all(&self) -> Seq<u8> {
        vouts_enc(self@)
    }

    open spec fn enc_empty_at(&self, index: int) -> Seq<u8> {
        vouts_empty_enc(self@, index)
    }

    fn concat(&self) -> (r: Vec<u8>) {
        encode_vouts(self)
    }

    fn concat_empty(&self, index: usize) -> (r: Vec<u8>) {
        encode_vouts_empty(self, index)
    }
}

impl Concat for Vec<Option<Witness>> {
    open spec fn enc_all(&self) -> Seq<u8> {
        witnesses_enc(self@)
    }

    fn concat(&self) -> (r: Vec<u8>) {
        encode_witnesses(self)
    }
}

impl Concat for Vec<Signature> {
    open spec fn enc_all(&self) -> Seq<u8> {
        sigs_enc(self@)
    }

    fn concat(&self) -> (r: Vec<u8>) {
        encode_sigs(self)
    }
}

impl Concat for Vec<VinLegacy> {
    open spec fn enc_all(&self) -> Seq<u8> {
        vins_legacy_list_enc(self@)
    }

    fn concat(&self) -> (r: Vec<u8>) {
        encode_vins_legacy_list(self)
    }
}

impl Concat for Vec<VinSigned> {
    open spec fn enc_all(&self) -> Seq<u8> {
        vins_signed_enc(self@)
    }

    fn concat(&self) -> (r: Vec<u8>) {
        encode_vins_signed(self)
    }
}


/// A one-input transaction's sighash-type-1 preimage is byte-identical
/// whether it is serialized directly as the legacy unsigned transaction or
/// through the substitution form that replaces the signing input's script
/// with its previous locking script and blanks every other input: with a
/// single input there is no other input, and the two byte layouts agree.
pub proof fn lemma_single_input_preimage(
    tx: RawTransaction,
    u: UnsignedTransactionLegacy,
)
    requires
        tx.vins@.len() == 1,
        u.vins@.len() == 1,
        u.version == tx.version,
        u.vin_count == tx.vin_count,
        u.vout_count == tx.vout_count,
        u.vouts == tx.vouts,
        u.locktime == tx.locktime,
        u.sighash_type@ == seq![1u8, 0u8, 0u8, 0u8],
        u.vins@[0].txid == tx.vins@[0].txid,
        u.vins@[0].vout == tx.vins@[0].vout,
        u.vins@[0].locking_script_length == tx.vins@[0].locking_script_length,
        u.vins@[0].locking_script == tx.vins@[0].locking_script,
        u.vins@[0].sequence == tx.vins@[0].sequence,
    ensures
        u.enc() == tx.legacy_preimage(0, 1),
{
    assert(tx.vins@.drop_last() =~= Seq::<Vin>::empty());
    assert(tx.vins@.last() == tx.vins@[0]);
    assert(vins_legacy_enc(tx.vins@.drop_last(), 0) == Seq::<u8>::empty());
    assert(vins_legacy_enc(tx.vins@, 0) == vins_legacy_enc(tx.vins@.drop_last(), 0)
        + tx.vins@[0].legacy_enc());
    assert(vins_legacy_enc(tx.vins@, 0) =~= tx.vins@[0].legacy_enc());
    assert(u.vins@.drop_last() =~= Seq::<VinLegacy>::empty());
    assert(u.vins@.last() == u.vins@[0]);
    assert(vins_legacy_list_enc(u.vins@.drop_last()) == Seq::<u8>::empty());
    assert(vins_legacy_list_enc(u.vins@) == vins_legacy_list_enc(u.vins@.drop_last())
        + u.vins@[0].enc());
    assert(vins_legacy_list_enc(u.vins@) =~= u.vins@[0].enc());
    assert(u.vins@[0].enc() =~= tx.vins@[0].legacy_enc());
    assert(u.enc() =~= tx.legacy_preimage(0, 1));
}

/// A one-item redeem stack's bare encoding is that item's bare encoding:
/// a single opcode byte, or the bytes its data word spells.
pub proof fn lemma_single_item_bare_len(items: Seq<StackItem>, w: Seq<char>)
    requires
        items.len() == 1,
        item_matches(items[0], w),
    ensures
        stack_bare_enc(items) == items[0].bare_enc(),
        stack_bare_enc(items).len() <= 1 + w.len() / 2,
{
    assert(items.drop_last() =~= Seq::<StackItem>::empty());
    assert(items.last() == items[0]);
    assert(stack_bare_enc(Seq::<StackItem>::empty()) == Seq::<u8>::empty());
    assert(stack_bare_enc(items) == stack_bare_enc(items.drop_last()) + items[0].bare_enc());
    assert(stack_bare_enc(items) =~= items[0].bare_enc());
    match spec_opcode(upper_seq(w)) {
        Some(b) => {
            assert(items[0].bare_enc().len() == 1);
        },
        None => {
            assert(items[0].bare_enc() == crate::encoding::bytes_of_hex(w));
        },
    }
}

/// The sighash serialization of a list of inputs reads only the prevout,
/// script and sequence fields, never the unlock proof: two lists equal in
/// those fields serialize identically.
pub proof fn lemma_vins_legacy_enc_sig_independent(s1: Seq<Vin>, s2: Seq<Vin>, index: int)
    requires
        s1.len() == s2.len(),
        forall|j: int|
            0 <= j < s1.len() ==> (#[trigger] s1[j]).txid == s2[j].txid && s1[j].vout == s2[j].vout
                && s1[j].locking_script_length == s2[j].locking_script_length
                && s1[j].locking_script == s2[j].locking_script && s1[j].sequence
                == s2[j].sequence,
    ensures
        vins_legacy_enc(s1, index) == vins_legacy_enc(s2, index),
    decreases s1.len(),
{
    if s1.len() > 0 {
        assert forall|j: int|
            0 <= j < s1.drop_last().len() implies (#[trigger] s1.drop_last()[j]).txid
            == s2.drop_last()[j].txid && s1.drop_last()[j].vout == s2.drop_last()[j].vout
            && s1.drop_last()[j].locking_script_length == s2.drop_last()[j].locking_script_length
            && s1.drop_last()[j].locking_script == s2.drop_last()[j].locking_script
            && s1.drop_last()[j].sequence == s2.drop_last()[j].sequence by {
            assert(s1.drop_last()[j] == s1[j]);
            assert(s2.drop_last()[j] == s2[j]);
        }
        lemma_vins_legacy_enc_sig_independent(s1.drop_last(), s2.drop_last(), index);
        assert(s1.last() == s1[s1.len() - 1]);
        assert(s2.last() == s2[s2.len() - 1]);
        assert(s1.last().legacy_enc() == s2.last().legacy_enc());
        assert(s1.last().legacy_empty_enc() == s2.last().legacy_empty_enc());
    }
}

} // verus!
