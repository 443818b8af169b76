//! The computations over what the blockchain collaborator reports: the
//! value a transaction moves for an address, and an address's balance over
//! a list of transactions. The HTTP fetching itself lives outside the
//! library; these functions take the fetched records as arguments.

use vstd::prelude::*;
use vstd::string::StrSliceExecFns;

use crate::blockchain_transaction::{BlockchainTransaction, Vin, Vout};
use crate::strutil::str_eq;

verus! {

/// Whether a character is a decimal digit.
pub open spec fn is_dec_digit(c: char) -> bool {
    48 <= c as u32 <= 57
}

/// The value of a decimal digit character.
pub open spec fn dec_digit_val(c: char) -> int {
    c as u32 - 48
}

/// Whether a string is a plain decimal number: nonempty, digits only.
pub open spec fn is_dec_string(s: Seq<char>) -> bool {
    s.len() > 0 && forall|i: int| 0 <= i < s.len() ==> is_dec_digit(#[trigger] s[i])
}

/// The number a decimal digit string spells.
pub open spec fn dec_val(s: Seq<char>) -> int
    decreases s.len(),
{
    if s.len() == 0 {
        0
    } else {
        dec_val(s.drop_last()) * 10 + dec_digit_val(s.last())
    }
}

/// A digit string's prefixes spell no more than the whole string.
pub proof fn lemma_dec_val_prefix(s: Seq<char>, i: int)
    requires
        0 <= i <= s.len(),
        forall|j: int| 0 <= j < s.len() ==> is_dec_digit(#[trigger] s[j]),
    ensures
        0 <= dec_val(s.take(i)),
        dec_val(s.take(i)) <= dec_val(s),
    decreases s.len() - i,
{
    lemma_dec_val_nonneg(s.take(i));
    if i < s.len() {
        lemma_dec_val_prefix(s, i + 1);
        assert(s.take(i + 1).drop_last() =~= s.take(i));
        assert(dec_val(s.take(i + 1)) == dec_val(s.take(i)) * 10 + dec_digit_val(s[i]));
        lemma_dec_val_nonneg(s.take(i));
    } else {
        assert(s.take(i) =~= s);
    }
}

/// A digit string's value is not negative.
pub proof fn lemma_dec_val_nonneg(s: Seq<char>)
    ensures
        (forall|j: int| 0 <= j < s.len() ==> is_dec_digit(#[trigger] s[j])) ==> dec_val(s) >= 0,
    decreases s.len(),
{
    if s.len() > 0 {
        lemma_dec_val_nonneg(s.drop_last());
        assert(forall|j: int|
            0 <= j < s.drop_last().len() ==> is_dec_digit(#[trigger] s.drop_last()[j]) ==> true);
    }
}

/// Parses a decimal string whose value fits a 64-bit signed integer.
pub fn parse_dec_i64(s: &str) -> (r: i64)
    requires
        is_dec_string(s@),
        dec_val(s@) <= i64::MAX,
    ensures
        r == dec_val(s@),
{
    let n = s.unicode_len();
    let mut acc: i64 = 0;
    let mut i: usize = 0;
    proof {
        assert(s@.take(0) =~= Seq::<char>::empty());
    }
    while i < n
        invariant
            is_dec_string(s@),
            dec_val(s@) <= i64::MAX,
            n == s@.len(),
            i <= n,
            acc == dec_val(s@.take(i as int)),
            0 <= acc,
        decreases n - i,
    {
        let c = s.get_char(i);
        proof {
            assert(is_dec_digit(s@[i as int]));
            lemma_dec_val_prefix(s@, i + 1 as int);
            assert(s@.take(i + 1 as int).drop_last() =~= s@.take(i as int));
            assert(dec_val(s@.take(i + 1 as int)) == dec_val(s@.take(i as int)) * 10
                + dec_digit_val(s@[i as int]));
        }
        let d = (c as u32 - 48) as i64;
        acc = acc * 10 + d;
        i += 1;
    }
    proof {
        assert(s@.take(n as int) =~= s@);
    }
    acc
}

/// Whether a reported input belongs to the address: its first listed
/// address matches.
pub open spec fn vin_matches(v: Vin, addr: Seq<char>) -> bool {
    v.addresses@[0]@ == addr
}

/// Whether a reported output belongs to the address.
pub open spec fn vout_matches(v: Vout, addr: Seq<char>) -> bool {
    v.addresses@[0]@ == addr
}

/// The value the first `n` inputs subtract for the address.
pub open spec fn vins_delta(vins: Seq<Vin>, addr: Seq<char>, n: int) -> int
    decreases n,
{
    if n <= 0 {
        0
    } else {
        vins_delta(vins, addr, n - 1) - (if vin_matches(vins[n - 1], addr) {
            dec_val(vins[n - 1].value@)
        } else {
            0
        })
    }
}

/// The value the first `n` outputs add for the address.
pub open spec fn vouts_delta(vouts: Seq<Vout>, addr: Seq<char>, n: int) -> int
    decreases n,
{
    if n <= 0 {
        0
    } else {
        vouts_delta(vouts, addr, n - 1) + (if vout_matches(vouts[n - 1], addr) {
            dec_val(vouts[n - 1].value@)
        } else {
            0
        })
    }
}

/// The net value a reported transaction moves for an address: matching
/// outputs add, matching inputs subtract.
pub open spec fn tx_delta(t: BlockchainTransaction, addr: Seq<char>) -> int {
    vins_delta(t.vin@, addr, t.vin@.len() as int) + vouts_delta(t.vout@, addr, t.vout@.len() as int)
}

/// Whether a transaction's records can be summed: every input and output
/// lists at least one address, matching values are plain decimals that fit,
/// and no running sum leaves the 64-bit signed range.
pub open spec fn tx_summable(t: BlockchainTransaction, addr: Seq<char>) -> bool {
    &&& forall|j: int| 0 <= j < t.vin@.len() ==> (#[trigger] t.vin@[j]).addresses@.len() > 0
    &&& forall|j: int| 0 <= j < t.vout@.len() ==> (#[trigger] t.vout@[j]).addresses@.len() > 0
    &&& forall|j: int|
        0 <= j < t.vin@.len() && vin_matches(#[trigger] t.vin@[j], addr) ==> is_dec_string(
            t.vin@[j].value@,
        ) && dec_val(t.vin@[j].value@) <= i64::MAX
    &&& forall|j: int|
        0 <= j < t.vout@.len() && vout_matches(#[trigger] t.vout@[j], addr) ==> is_dec_string(
            t.vout@[j].value@,
        ) && dec_val(t.vout@[j].value@) <= i64::MAX
    &&& forall|n: int|
        0 <= n <= t.vin@.len() ==> i64::MIN <= #[trigger] vins_delta(t.vin@, addr, n) <= i64::MAX
    &&& forall|n: int|
        0 <= n <= t.vout@.len() ==> i64::MIN <= vins_delta(t.vin@, addr, t.vin@.len() as int)
            + #[trigger] vouts_delta(t.vout@, addr, n) <= i64::MAX
}

/// The net amount a reported transaction moves for an address.
pub fn get_transaction_value(transaction: &BlockchainTransaction, address: &str) -> (r: i64)
    requires
        tx_summable(*transaction, address@),
    ensures
        r == tx_delta(*transaction, address@),
{
    let mut amount_transacted: i64 = 0;
    let n_in = transaction.vin.len();
    let mut i: usize = 0;
    while i < n_in
        invariant
            tx_summable(*transaction, address@),
            n_in == transaction.vin@.len(),
            i <= n_in,
            amount_transacted == vins_delta(transaction.vin@, address@, i as int),
        decreases n_in - i,
    {
        let vin = &transaction.vin[i];
        if str_eq(vin.addresses[0].as_str(), address) {
            let v = parse_dec_i64(vin.value.as_str());
            proof {
                assert(i64::MIN <= vins_delta(transaction.vin@, address@, i + 1 as int));
            }
            amount_transacted = amount_transacted - v;
        }
        i += 1;
    }
    let n_out = transaction.vout.len();
    let mut i: usize = 0;
    while i < n_out
        invariant
            tx_summable(*transaction, address@),
            n_out == transaction.vout@.len(),
            i <= n_out,
            amount_transacted == vins_delta(transaction.vin@, address@, transaction.vin@.len() as int)
                + vouts_delta(transaction.vout@, address@, i as int),
        decreases n_out - i,
    {
        let vout = &transaction.vout[i];
        if str_eq(vout.addresses[0].as_str(), address) {
            let v = parse_dec_i64(vout.value.as_str());
            proof {
                assert(i64::MIN <= vins_delta(transaction.vin@, address@, transaction.vin@.len() as int)
                    + vouts_delta(transaction.vout@, address@, i + 1 as int) <= i64::MAX);
            }
            amount_transacted = amount_transacted + v;
        }
        i += 1;
    }
    amount_transacted
}

/// The summed balance of an address over the first `n` transactions.
pub open spec fn balance_delta(ts: Seq<BlockchainTransaction>, addr: Seq<char>, n: int) -> int
    decreases n,
{
    if n <= 0 {
        0
    } else {
        balance_delta(ts, addr, n - 1) + tx_delta(ts[n - 1], addr)
    }
}

/// Sums, over the address's transactions, the net amount each one moved;
/// the accumulated balance is reinterpreted as unsigned, as the wire
/// format carries it.
pub fn get_address_balance(transactions: &Vec<BlockchainTransaction>, address: &str) -> (r: u64)
    requires
        forall|j: int|
            0 <= j < transactions@.len() ==> tx_summable(#[trigger] transactions@[j], address@),
        forall|n: int|
            0 <= n <= transactions@.len() ==> i64::MIN <= #[trigger] balance_delta(
                transactions@,
                address@,
                n,
            ) <= i64::MAX,
    ensures
        r == balance_delta(transactions@, address@, transactions@.len() as int) as u64,
{
    let mut address_balance: i64 = 0;
    let n = transactions.len();
    let mut i: usize = 0;
    while i < n
        invariant
            forall|j: int|
                0 <= j < transactions@.len() ==> tx_summable(#[trigger] transactions@[j], address@),
            forall|m: int|
                0 <= m <= transactions@.len() ==> i64::MIN <= #[trigger] balance_delta(
                    transactions@,
                    address@,
                    m,
                ) <= i64::MAX,
            n == transactions@.len(),
            i <= n,
            address_balance == balance_delta(transactions@, address@, i as int),
        decreases n - i,
    {
        let v = get_transaction_value(&transactions[i], address);
        proof {
            assert(i64::MIN <= balance_delta(transactions@, address@, i + 1 as int) <= i64::MAX);
        }
        address_balance = address_balance + v;
        i += 1;
    }
    #[verifier::truncate]
    let out = address_balance as u64;
    out
}

} // verus!
