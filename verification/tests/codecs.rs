use etherscan_account::errors::CodecError;
use etherscan_account::genesis::{
    decode_genesis_address, decode_genesis_bytes, decode_genesis_hash256, encode_genesis_address,
    GenesisOption,
};
use etherscan_account::hex::{decode_hex, encode_hex, encode_hex_opt};
use etherscan_account::embedded::{
    decode_json_address, decode_json_string, decode_json_u256, encode_json_string,
};
use etherscan_account::num::{
    decode_u256_dec, decode_u256_opt, decode_u64_dec, decode_u64_opt, encode_u64_dec, Uint256,
};
use etherscan_account::types::{Address, Hash256, Hash32};

const U256_MAX_DEC: &str =
    "115792089237316195423570985008687907853269984665640564039457584007913129639935";
const U256_OVERFLOW_DEC: &str =
    "115792089237316195423570985008687907853269984665640564039457584007913129639936";

#[test]
fn u64_decode_basics() {
    assert_eq!(decode_u64_dec("0"), Ok(0));
    assert_eq!(decode_u64_dec("007"), Ok(7));
    assert_eq!(decode_u64_dec("18446744073709551615"), Ok(u64::MAX));
    assert_eq!(decode_u64_dec("18446744073709551616"), Err(CodecError::MalformedNumeric));
    assert_eq!(decode_u64_dec(""), Err(CodecError::MalformedNumeric));
    assert_eq!(decode_u64_dec("12x"), Err(CodecError::MalformedNumeric));
    assert_eq!(decode_u64_dec("-1"), Err(CodecError::MalformedNumeric));
    assert_eq!(decode_u64_dec(" 1"), Err(CodecError::MalformedNumeric));
}

#[test]
fn u64_optional_decode() {
    assert_eq!(decode_u64_opt(""), Ok(None));
    assert_eq!(decode_u64_opt("42"), Ok(Some(42)));
    assert_eq!(decode_u64_opt("4x2"), Err(CodecError::MalformedNumeric));
}

#[test]
fn u64_round_trip() {
    for n in [0u64, 1, 9, 10, 12345, 99999999, u64::MAX] {
        let s = encode_u64_dec(n);
        assert_eq!(decode_u64_dec(&s), Ok(n));
    }
    assert_eq!(encode_u64_dec(0), "0");
    assert_eq!(encode_u64_dec(10000), "10000");
}

#[test]
fn u256_decode_max_and_overflow() {
    let max = Uint256 { w0: u64::MAX, w1: u64::MAX, w2: u64::MAX, w3: u64::MAX };
    assert_eq!(decode_u256_dec(U256_MAX_DEC), Ok(max));
    assert_eq!(decode_u256_dec(U256_OVERFLOW_DEC), Err(CodecError::MalformedNumeric));
}

#[test]
fn u256_round_trip() {
    let max = Uint256 { w0: u64::MAX, w1: u64::MAX, w2: u64::MAX, w3: u64::MAX };
    assert_eq!(max.to_dec_string(), U256_MAX_DEC);
    let v = Uint256::from_u64(1000000000000000000);
    assert_eq!(decode_u256_dec(&v.to_dec_string()), Ok(v));
    assert_eq!(Uint256::from_u64(0).to_dec_string(), "0");
}

#[test]
fn u256_optional_decode() {
    assert_eq!(decode_u256_opt(""), Ok(None));
    assert_eq!(decode_u256_opt("21000"), Ok(Some(Uint256::from_u64(21000))));
    assert_eq!(decode_u256_opt("ten"), Err(CodecError::MalformedNumeric));
}

#[test]
fn hex_decode_absent_never_errors() {
    assert_eq!(decode_hex(""), Ok(None));
    assert_eq!(decode_hex("0x"), Ok(None));
}

#[test]
fn hex_decode_basics() {
    assert_eq!(decode_hex("0xdeadbeef"), Ok(Some(vec![0xde, 0xad, 0xbe, 0xef])));
    assert_eq!(decode_hex("0xDEADbeef"), Ok(Some(vec![0xde, 0xad, 0xbe, 0xef])));
    assert_eq!(decode_hex("0x00"), Ok(Some(vec![0])));
    assert_eq!(decode_hex("0xabc"), Err(CodecError::MalformedHex));
    assert_eq!(decode_hex("0xzz"), Err(CodecError::MalformedHex));
    assert_eq!(decode_hex("dead"), Err(CodecError::MalformedHex));
    assert_eq!(decode_hex("0"), Err(CodecError::MalformedHex));
}

#[test]
fn hex_round_trip() {
    for bytes in [vec![0u8], vec![0xde, 0xad], vec![1, 2, 3, 4, 5, 0xff]] {
        let s = encode_hex(&bytes);
        assert_eq!(decode_hex(&s), Ok(Some(bytes)));
    }
    assert_eq!(encode_hex(&vec![0xde, 0xad, 0xbe, 0xef]), "0xdeadbeef");
    assert_eq!(encode_hex(&vec![]), "0x");
    assert_eq!(encode_hex_opt(&None), "0x");
    assert_eq!(encode_hex_opt(&Some(vec![0x0f])), "0x0f");
}

#[test]
fn json_string_decode() {
    assert_eq!(decode_json_string(""), Ok(None));
    assert_eq!(decode_json_string("transfer(address,uint256)"), Ok(Some(
        "transfer(address,uint256)".to_owned(),
    )));
    // A JSON backslash escape must be unescaped, not copied through.
    assert_eq!(decode_json_string("a\\\\b"), Ok(Some("a\\b".to_owned())));
    assert_eq!(decode_json_string("a\\u0041b"), Ok(Some("aAb".to_owned())));
    // An invalid escape and an embedded quote are malformed.
    assert_eq!(decode_json_string("a\\qb"), Err(CodecError::MalformedEmbeddedJson));
    assert_eq!(decode_json_string("a\"b"), Err(CodecError::MalformedEmbeddedJson));
}

#[test]
fn json_string_encode() {
    assert_eq!(encode_json_string(&None), "");
    assert_eq!(encode_json_string(&Some("swap".to_owned())), "swap");
}

#[test]
fn json_address_decode() {
    let addr = "0x1111111111111111111111111111111111111111";
    assert_eq!(decode_json_address(""), Ok(None));
    let decoded = decode_json_address(addr).unwrap().unwrap();
    assert_eq!(decoded.bytes, vec![0x11; 20]);
    // A unicode escape inside the address must be resolved before the
    // hex decode sees it.
    let escaped = "0x\\u0031111111111111111111111111111111111111111";
    assert_eq!(decode_json_address(escaped).unwrap().unwrap().bytes, vec![0x11; 20]);
    assert_eq!(decode_json_address("0x1234"), Err(CodecError::MalformedEmbeddedJson));
    assert_eq!(decode_json_address("not hex"), Err(CodecError::MalformedEmbeddedJson));
}

#[test]
fn json_u256_decode() {
    assert_eq!(decode_json_u256(""), Ok(None));
    assert_eq!(decode_json_u256("42"), Ok(Some(Uint256::from_u64(42))));
    assert_eq!(decode_json_u256("4x"), Err(CodecError::MalformedEmbeddedJson));
}

#[test]
fn fixed_width_decode() {
    let addr = "0x1234567890abcdef1234567890abcdef12345678";
    assert!(Address::decode(addr).is_ok());
    assert_eq!(Address::decode("0x1234"), Err(CodecError::MalformedHex));
    assert_eq!(Address::decode(""), Err(CodecError::MalformedHex));
    let hash = format!("0x{}", "ab".repeat(32));
    assert!(Hash256::decode(&hash).is_ok());
    assert_eq!(Hash256::decode("0xabcd"), Err(CodecError::MalformedHex));
    assert_eq!(Hash32::decode_opt("0x12345678").unwrap().unwrap().bytes, vec![
        0x12, 0x34, 0x56, 0x78,
    ]);
    assert_eq!(Hash32::decode_opt(""), Ok(None));
    assert_eq!(Hash32::decode_opt("0x"), Ok(None));
    assert_eq!(Hash32::decode_opt("0x123456"), Err(CodecError::MalformedHex));
    assert_eq!(Address::decode_opt(""), Ok(None));
    assert_eq!(Address::decode_opt(addr).unwrap().unwrap().encode(), addr);
}

#[test]
fn genesis_sentinel_wins() {
    assert!(matches!(decode_genesis_hash256("GENESIS"), Ok(GenesisOption::GenesisSentinel)));
    assert!(matches!(
        decode_genesis_hash256("GENESIS_0000000000000000000000000000000000000000"),
        Ok(GenesisOption::GenesisSentinel)
    ));
    assert!(matches!(decode_genesis_address("GENESIS"), Ok(GenesisOption::GenesisSentinel)));
    assert!(matches!(decode_genesis_bytes("GENESIStrailing"), Ok(GenesisOption::GenesisSentinel)));
}

#[test]
fn genesis_decode_states() {
    assert!(matches!(decode_genesis_address(""), Ok(GenesisOption::Absent)));
    let addr = "0x1234567890abcdef1234567890abcdef12345678";
    let g = decode_genesis_address(addr).unwrap();
    assert!(!g.is_genesis());
    assert_eq!(g.value().unwrap().encode(), addr);
    assert_eq!(
        decode_genesis_address("0xnothex"),
        Err(CodecError::MalformedEmbeddedJson)
    );
    let bytes = decode_genesis_bytes("0x01ff").unwrap();
    assert_eq!(bytes.value(), Some(&vec![0x01, 0xff]));
}

#[test]
fn genesis_accessors() {
    let g: GenesisOption<u64> = GenesisOption::GenesisSentinel;
    assert!(g.is_genesis());
    assert_eq!(g.value(), None);
    assert_eq!(g.into_option(), None);
    let p = GenesisOption::Present(7u64);
    assert!(!p.is_genesis());
    assert_eq!(p.value(), Some(&7));
    assert_eq!(p.into_option(), Some(7));
    let a: GenesisOption<u64> = GenesisOption::Absent;
    assert_eq!(a.into_option(), None);
}

#[test]
fn genesis_encode() {
    let absent: GenesisOption<Address> = GenesisOption::Absent;
    assert_eq!(encode_genesis_address(&absent), "");
    let sentinel: GenesisOption<Address> = GenesisOption::GenesisSentinel;
    assert_eq!(encode_genesis_address(&sentinel), "GENESIS");
    let a = Address::decode("0x1111111111111111111111111111111111111111").unwrap();
    assert_eq!(
        encode_genesis_address(&GenesisOption::Present(a)),
        "0x1111111111111111111111111111111111111111"
    );
}
