use btc_will::blockchain_info::{get_address_balance, get_transaction_value};
use btc_will::blockchain_transaction::{BlockchainTransaction, Vin as BVin, Vout as BVout};
use btc_will::create_transaction::{
    bytes_le_to_int, create_transaction, create_will_initiation, create_will_redemption,
    create_will_revocation, generate_timelock_components, wrap_p2pkh_testnet, wrap_p2wsh,
    UtxoInput,
};
use btc_will::errors::TxError;
use btc_will::traits::{bytes_to_hex_upper, hex_str_to_bytes};
use btc_will::transaction_parts::{
    RawTransaction, SignedTransaction, UnsignedTransactionLegacy, Vin, VinLegacy, Vout,
};

fn test_key() -> (Vec<u8>, String) {
    let sk_bytes = [0x11u8; 32];
    let sk = secp256k1::SecretKey::from_byte_array(sk_bytes).unwrap();
    let pk = secp256k1::PublicKey::from_secret_key(&sk);
    (sk_bytes.to_vec(), format!("{}", pk))
}

fn test_utxo(value: u64) -> UtxoInput {
    UtxoInput {
        txid: "00112233445566778899aabbccddeeff00112233445566778899aabbccddeeff".to_string(),
        vout: 1,
        locking_script: format!("76a914{}88ac", "42".repeat(20)),
        value,
    }
}

#[test]
fn create_transaction_with_change() {
    let (sk, pk_hex) = test_key();
    let addr = wrap_p2pkh_testnet(&pk_hex);
    let redeem = format!("76a914{}88ac", "42".repeat(20));
    let utxos = vec![test_utxo(100000)];
    let tx = create_transaction(&addr, 60000, 1000, &addr, &redeem, &sk, &utxos).unwrap();
    assert_eq!(tx.vins.len(), 1);
    assert_eq!(tx.vouts.len(), 2);
    assert_eq!(tx.vouts[0].value, 60000u64.to_le_bytes().to_vec());
    assert_eq!(tx.vouts[1].value, 39000u64.to_le_bytes().to_vec());
    assert!(!tx.has_segwit_input);
}

#[test]
fn create_transaction_insufficient_funds() {
    let (sk, pk_hex) = test_key();
    let addr = wrap_p2pkh_testnet(&pk_hex);
    let redeem = format!("76a914{}88ac", "42".repeat(20));
    let utxos = vec![test_utxo(100000)];
    let r = create_transaction(&addr, 99500, 1000, &addr, &redeem, &sk, &utxos);
    assert_eq!(r.err(), Some(TxError::InsufficientFunds));
}

#[test]
fn create_transaction_exact_amount_no_change() {
    let (sk, pk_hex) = test_key();
    let addr = wrap_p2pkh_testnet(&pk_hex);
    let redeem = format!("76a914{}88ac", "42".repeat(20));
    let utxos = vec![test_utxo(61000)];
    let tx = create_transaction(&addr, 60000, 1000, &addr, &redeem, &sk, &utxos).unwrap();
    assert_eq!(tx.vouts.len(), 1);
}

#[test]
fn create_transaction_stops_when_covered() {
    let (sk, pk_hex) = test_key();
    let addr = wrap_p2pkh_testnet(&pk_hex);
    let redeem = format!("76a914{}88ac", "42".repeat(20));
    let utxos = vec![test_utxo(70000), test_utxo(70000), test_utxo(70000)];
    let tx = create_transaction(&addr, 60000, 1000, &addr, &redeem, &sk, &utxos).unwrap();
    // the first output already covers 61000, so only one input is consumed
    assert_eq!(tx.vins.len(), 1);
}

#[test]
fn legacy_round_trip_with_reference_parser() {
    let (sk, pk_hex) = test_key();
    let addr = wrap_p2pkh_testnet(&pk_hex);
    let redeem = format!("76a914{}88ac", "42".repeat(20));
    let utxos = vec![test_utxo(100000)];
    let tx = create_transaction(&addr, 60000, 1000, &addr, &redeem, &sk, &utxos).unwrap();
    let vout0_script = tx.vouts[0].locking_script.clone();
    let bytes = tx.concat();
    let parsed: bitcoin::Transaction =
        bitcoin::consensus::encode::deserialize(&bytes).expect("reference parser rejected bytes");
    assert_eq!(parsed.version.0, 2);
    assert_eq!(parsed.lock_time.to_consensus_u32(), 0);
    assert_eq!(parsed.input.len(), 1);
    assert_eq!(parsed.output.len(), 2);
    assert_eq!(parsed.output[0].value.to_sat(), 60000);
    assert_eq!(parsed.output[1].value.to_sat(), 39000);
    assert_eq!(parsed.output[0].script_pubkey.as_bytes(), &vout0_script[..]);
    assert_eq!(parsed.input[0].sequence.0, 4294967295);
    assert_eq!(
        format!("{}", parsed.input[0].previous_output.txid),
        "00112233445566778899aabbccddeeff00112233445566778899aabbccddeeff"
    );
    assert_eq!(parsed.input[0].previous_output.vout, 1);
}

#[test]
fn single_input_preimage_forms_agree() {
    let txid = "00112233445566778899aabbccddeeff00112233445566778899aabbccddeeff";
    let prev_script = format!("76a914{}88ac", "42".repeat(20));
    let vin = Vin::new(txid, 1, &prev_script, vec![], 4294967295, 100000).unwrap();
    let vout_a = Vout::new(60000, &prev_script).unwrap();
    let vout_b = Vout::new(39000, &prev_script).unwrap();
    let raw = RawTransaction::new(2, vec![vin], vec![vout_a, vout_b], 0);
    let substituted = raw.encode_legacy_preimage(0, 1);

    let lvin = VinLegacy::new(txid, 1, &prev_script, 4294967295).unwrap();
    let vout_a2 = Vout::new(60000, &prev_script).unwrap();
    let vout_b2 = Vout::new(39000, &prev_script).unwrap();
    let direct = UnsignedTransactionLegacy::new(2, vec![lvin], vec![vout_a2, vout_b2], 0);
    assert_eq!(direct.concat(), substituted);
}

#[test]
fn timelock_components_shape() {
    let (_, pk_hex) = test_key();
    let c = generate_timelock_components(&pk_hex, 5);
    assert_eq!(c.sequence_locktime, vec![5, 0]);
    assert_eq!(c.sequence_flags, vec![0, 0]);
    assert_eq!(c.sequence(), vec![5, 0, 0, 0]);
    let ws_hex = bytes_to_hex_upper(&c.witness_script).to_lowercase();
    // OP_IF, push of the 33-byte owner key
    assert!(ws_hex.starts_with("6321"));
    // ELSE branch: locktime push 0x55, CSV, DROP, push of the heir key
    assert!(ws_hex.contains("ac6755b27521"));
    assert!(ws_hex.ends_with("ac68"));
    // P2WSH wrap: OP_0, 32-byte push of the script hash
    assert_eq!(c.locking_script.len(), 34);
    assert_eq!(c.locking_script[0], 0x00);
    assert_eq!(c.locking_script[1], 0x20);
    assert_eq!(
        c.locking_script,
        wrap_p2wsh(c.witness_script.clone())
    );
}

#[test]
fn timelock_generic_locktime_encoding() {
    let (_, pk_hex) = test_key();
    let c = generate_timelock_components(&pk_hex, 20);
    let ws_hex = bytes_to_hex_upper(&c.witness_script).to_lowercase();
    // generic little-endian push: length prefix 0x01 then the byte 0x14
    assert!(ws_hex.contains("ac670114b27521"));
}

#[test]
fn will_initiation_and_redemption_round_trip() {
    let (sk, pk_hex) = test_key();
    let addr = wrap_p2pkh_testnet(&pk_hex);
    let redeem = format!("76a914{}88ac", "42".repeat(20));
    let vault = generate_timelock_components(&pk_hex, 5);
    let tls_hex = bytes_to_hex_upper(&vault.locking_script);
    let utxos = vec![test_utxo(100000)];
    let initiation =
        create_will_initiation(&addr, &sk, &tls_hex, &redeem, 500, &utxos).unwrap();
    assert_eq!(initiation.vouts.len(), 1);
    assert_eq!(initiation.vouts[0].value, 99500u64.to_le_bytes().to_vec());
    assert_eq!(initiation.vouts[0].locking_script, vault.locking_script);

    let redemption = create_will_redemption(
        initiation.clone(),
        vault.clone(),
        vec![49000, 50000],
        vec![addr.clone(), addr.clone()],
    )
    .unwrap();
    assert!(redemption.has_segwit_input);
    assert_eq!(redemption.vouts.len(), 2);
    let bytes = redemption.concat();
    let parsed: bitcoin::Transaction =
        bitcoin::consensus::encode::deserialize(&bytes).expect("reference parser rejected bytes");
    assert_eq!(parsed.version.0, 2);
    assert_eq!(parsed.input.len(), 1);
    assert_eq!(parsed.output.len(), 2);
    assert_eq!(parsed.output[0].value.to_sat(), 49000);
    assert_eq!(parsed.output[1].value.to_sat(), 50000);
    // the witness stack carries signature, branch selector and script
    assert_eq!(parsed.input[0].witness.len(), 3);
    assert_eq!(parsed.input[0].sequence.0, 5);
    assert_eq!(
        parsed.input[0].witness.last().unwrap(),
        &vault.witness_script[..]
    );

    let revocation =
        create_will_revocation(&sk, initiation, vault.clone(), &addr, 250).unwrap();
    let rbytes = revocation.concat();
    let rparsed: bitcoin::Transaction =
        bitcoin::consensus::encode::deserialize(&rbytes).expect("reference parser rejected bytes");
    assert_eq!(rparsed.output.len(), 1);
    assert_eq!(rparsed.output[0].value.to_sat(), 99250);
    assert_eq!(rparsed.input[0].sequence.0, 4294967295);
    assert_eq!(rparsed.input[0].witness.len(), 3);
}

#[test]
fn bytes_le_conversions() {
    assert_eq!(bytes_le_to_int(vec![5, 0, 0, 0]), 5);
    assert_eq!(bytes_le_to_int(vec![0x58, 0x02]), 600);
    assert_eq!(bytes_le_to_int(vec![]), 0);
}

fn bvin(addr: &str, value: &str) -> BVin {
    BVin {
        txid: String::new(),
        vout: None,
        sequence: None,
        n: 0,
        addresses: vec![addr.to_string()],
        is_address: true,
        value: value.to_string(),
    }
}

fn bvout(addr: &str, value: &str) -> BVout {
    BVout {
        value: value.to_string(),
        n: 0,
        spent: None,
        hex: String::new(),
        addresses: vec![addr.to_string()],
        is_address: true,
    }
}

fn btx(vin: Vec<BVin>, vout: Vec<BVout>) -> BlockchainTransaction {
    BlockchainTransaction {
        txid: String::new(),
        version: 2,
        vin,
        vout,
        block_hash: None,
        block_height: 0,
        confirmations: 1,
        block_time: 0,
        size: 0,
        vsize: 0,
        value: String::new(),
        value_in: String::new(),
        fees: String::new(),
        hex: String::new(),
    }
}

#[test]
fn transaction_value_nets_inputs_and_outputs() {
    let tx = btx(
        vec![bvin("mine", "100")],
        vec![bvout("mine", "30"), bvout("other", "50")],
    );
    assert_eq!(get_transaction_value(&tx, "mine"), -70);
    assert_eq!(get_transaction_value(&tx, "other"), 50);
}

#[test]
fn address_balance_sums_transactions() {
    let t1 = btx(vec![bvin("other", "10")], vec![bvout("mine", "30")]);
    let t2 = btx(vec![bvin("other", "5")], vec![bvout("mine", "12")]);
    let txs = vec![t1, t2];
    assert_eq!(get_address_balance(&txs, "mine"), 42);
}

#[test]
fn signed_transaction_degrades_to_legacy_bytes() {
    let txid = "00112233445566778899aabbccddeeff00112233445566778899aabbccddeeff";
    let prev_script = format!("76a914{}88ac", "42".repeat(20));
    let vin = Vin::new(txid, 1, &prev_script, vec![], 4294967295, 100000).unwrap();
    let vout = Vout::new(60000, &prev_script).unwrap();
    let raw = RawTransaction::new(2, vec![vin], vec![vout], 0);
    let signed = SignedTransaction::new(raw, vec![], false);
    assert_eq!(signed.clone().concat(), signed.concat_legacy());
}
