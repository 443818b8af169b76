use btc_will::base58::{base58_to_hex, char_to_int, hex_to_base58};
use btc_will::create_transaction::{
    decode_address, encode_locktime, int_to_bytes_le, sha256, sha256d, wrap_p2pkh,
    wrap_p2pkh_testnet,
};
use btc_will::errors::TxError;
use btc_will::script::script;
use btc_will::traits::{
    bytes_to_hex_upper, hex_str_to_bytes, sat_decimal, var, varint, HexString, StringHex,
};

#[test]
fn varint_one_byte() {
    assert_eq!(varint(0), vec![0x00]);
    assert_eq!(varint(252), vec![0xFC]);
}

#[test]
fn varint_two_byte_marker() {
    assert_eq!(varint(253), vec![0xFD, 0xFD, 0x00]);
    assert_eq!(varint(65535), vec![0xFD, 0xFF, 0xFF]);
}

#[test]
fn varint_four_byte_marker() {
    assert_eq!(varint(65536), vec![0xFE, 0x00, 0x00, 0x01, 0x00]);
}

#[test]
fn varint_eight_byte_marker() {
    assert_eq!(
        varint(4294967296),
        vec![0xFF, 0x00, 0x00, 0x00, 0x00, 0x01, 0x00, 0x00, 0x00]
    );
}

#[test]
fn var_prefixes_length() {
    assert_eq!(var(vec![0xAB, 0xCD]), vec![0x02, 0xAB, 0xCD]);
    assert_eq!(var(vec![]), vec![0x00]);
}

#[test]
fn hex_round_trip() {
    let bytes = hex_str_to_bytes("00ff10Ab").unwrap();
    assert_eq!(bytes, vec![0x00, 0xFF, 0x10, 0xAB]);
    assert_eq!(bytes_to_hex_upper(&bytes), "00FF10AB");
}

#[test]
fn hex_errors() {
    assert_eq!(hex_str_to_bytes("abc"), Err(TxError::OddLengthHex));
    assert_eq!(hex_str_to_bytes("zz"), Err(TxError::InvalidHexDigit));
}

#[test]
fn hex_trait_methods() {
    let v = "00ff".to_bytes().unwrap();
    assert_eq!(v, vec![0x00, 0xFF]);
    let owned = String::from("0102");
    assert_eq!(owned.to_padded_bytes(4).unwrap(), vec![0, 0, 1, 2]);
    assert_eq!(owned.to_padded_bytes(1), Err(TxError::SerializationLimit));
    assert_eq!("0102".reverse_hex().unwrap(), "0201");
    assert_eq!("aabb".varint(), "02aabb");
    assert_eq!("hello world".shorten(3), "hell...");
}

#[test]
fn byte_vector_trait_methods() {
    let v: Vec<u8> = vec![0x01, 0x02, 0x03];
    assert_eq!(StringHex::to_string(&v), "010203");
    assert_eq!(StringHex::reverse(&v), vec![0x03, 0x02, 0x01]);
    let le: Vec<u8> = vec![0x01, 0x02];
    assert_eq!(le.to_int_le(), 0x0201);
}

#[test]
fn sha256_of_empty_payload() {
    let d = sha256("");
    assert_eq!(
        bytes_to_hex_upper(&d),
        "E3B0C44298FC1C149AFBF4C8996FB92427AE41E4649B934CA495991B7852B855"
    );
}

#[test]
fn sha256d_matches_double_sha256() {
    let once = sha256("AB");
    let again = sha256(&bytes_to_hex_upper(&once));
    assert_eq!(sha256d("AB"), again);
}

#[test]
fn sat_decimal_values() {
    assert_eq!(sat_decimal(150000000), ".5");
    assert_eq!(sat_decimal(100000000), "");
    assert_eq!(sat_decimal(123), ".00000123");
    assert_eq!(sat_decimal(99990000), ".9999");
}

#[test]
fn opcode_assembly() {
    assert_eq!(script(vec!["OP_DUP", "OP_HASH160"]), "76a9");
    assert_eq!(script(vec!["OP_dup", "OP_hash160"]), "76a9");
    assert_eq!(script(vec!["deadbeef"]), "deadbeef");
    assert_eq!(
        script(vec!["OP_HASH160", "14aa", "OP_EQUAL"]),
        "a914aa87"
    );
    assert_eq!(script(vec!["OP_CHECKSEQUENCEVERIFY"]), "b2");
}

#[test]
fn char_to_int_values() {
    assert_eq!(char_to_int('0'), Ok(0));
    assert_eq!(char_to_int('a'), Ok(10));
    assert_eq!(char_to_int('F'), Ok(15));
    assert_eq!(char_to_int('g'), Err(TxError::InvalidHexDigit));
}

#[test]
fn base58_known_vector() {
    let addr = hex_to_base58("00010966776006953D5567439E5E39F86A0D273BEED61967F6");
    assert_eq!(addr, "16UwLL9Risc3QfPqBUvKofHmBQ7wMtjvM");
    let back = base58_to_hex(&addr).unwrap();
    assert_eq!(back, "00010966776006953D5567439E5E39F86A0D273BEED61967F6");
}

#[test]
fn base58_rejects_bad_char() {
    assert_eq!(base58_to_hex("0Il"), Err(TxError::InvalidBase58Char));
}

#[test]
fn base58_all_ones_quirk() {
    assert_eq!(base58_to_hex("1").unwrap(), "00");
}

#[test]
fn base58_short_payload_pads() {
    let s = hex_to_base58("0A");
    assert_eq!(s.len(), 8);
    assert!(s.ends_with('B'));
    assert!(s.starts_with("1111111"));
}

#[test]
fn address_round_trip() {
    let sk = secp256k1::SecretKey::from_byte_array([0x11u8; 32]).unwrap();
    let pk = secp256k1::PublicKey::from_secret_key(&sk);
    let pk_hex = format!("{}", pk);
    let addr = wrap_p2pkh_testnet(&pk_hex);
    let (script_hex, segwit) = decode_address(&addr).unwrap();
    assert!(!segwit);
    assert!(script_hex.starts_with("76a914"));
    assert!(script_hex.ends_with("88ac"));
    assert_eq!(script_hex.len(), 50);
    let h160 = btc_will::create_transaction::hash160(&pk_hex);
    assert_eq!(&script_hex[6..46], bytes_to_hex_upper(&h160).as_str());

    let mainnet = wrap_p2pkh(&pk_hex);
    let (mscript, msegwit) = decode_address(&mainnet).unwrap();
    assert!(!msegwit);
    assert_eq!(&mscript[6..46], bytes_to_hex_upper(&h160).as_str());
    assert!(mainnet.starts_with('1'));
}

#[test]
fn address_bad_checksum() {
    // version 6F, a 20-byte hash, and a deliberately wrong checksum
    let payload = format!("6F{}{}", "11".repeat(20), "00000000");
    let addr = hex_to_base58(&payload);
    assert_eq!(decode_address(&addr), Err(TxError::BadChecksum));
}

#[test]
fn address_unsupported_version() {
    let body = "22".repeat(20);
    let check = {
        let d = sha256d(&format!("FE{}", body));
        bytes_to_hex_upper(&d[0..4].to_vec())
    };
    let payload = format!("FE{}{}", body, check);
    let addr = hex_to_base58(&payload);
    assert_eq!(decode_address(&addr), Err(TxError::UnsupportedAddressType));
}

#[test]
fn address_bad_base58_char() {
    assert_eq!(decode_address("0000"), Err(TxError::InvalidBase58Char));
}

#[test]
fn locktime_small_integer_push() {
    assert_eq!(encode_locktime(5), "55");
    assert_eq!(encode_locktime(1), "51");
    assert_eq!(encode_locktime(16), "60");
}

#[test]
fn locktime_generic_push() {
    assert_eq!(encode_locktime(20), "0114");
    assert_eq!(encode_locktime(600), "025802");
    assert_eq!(encode_locktime(0), "00");
}

#[test]
fn minimal_le_bytes() {
    assert_eq!(int_to_bytes_le(0), Vec::<u8>::new());
    assert_eq!(int_to_bytes_le(20), vec![20]);
    assert_eq!(int_to_bytes_le(600), vec![0x58, 0x02]);
}
