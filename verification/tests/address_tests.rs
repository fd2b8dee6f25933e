use crowdfunding_interact::address::{encode_address, Address, Bech32Address};

fn hex_bytes(hex: &str) -> [u8; 32] {
    let mut out = [0u8; 32];
    for i in 0..32 {
        out[i] = u8::from_str_radix(&hex[2 * i..2 * i + 2], 16).unwrap();
    }
    out
}

const ALICE_HEX: &str = "0139472eff6886771a982f3083da5d421f24c29181e63888228dc81ca60d69e1";
const ALICE_BECH32: &str = "erd1qyu5wthldzr8wx5c9ucg8kjagg0jfs53s8nr3zpz3hypefsdd8ssycr6th";
const BOB_HEX: &str = "8049d639e5a6980d1cd2392abcce41029cda74a1563523a202f09641cc2618f8";
const BOB_BECH32: &str = "erd1spyavw0956vq68xj8y4tenjpq2wd5a9p2c6j8gsz7ztyrnpxrruqzu66jx";

#[test]
fn encodes_alice_address() {
    let address = Address::from_bytes(hex_bytes(ALICE_HEX));
    assert_eq!(encode_address(&address), ALICE_BECH32);
}

#[test]
fn encodes_bob_address() {
    let address = Address::from_bytes(hex_bytes(BOB_HEX));
    let text = encode_address(&address);
    assert_eq!(text, BOB_BECH32);
    assert_eq!(text.len(), 62);
    assert!(text.starts_with("erd1"));
}

#[test]
fn encodes_zero_address() {
    let address = Address::from_bytes([0u8; 32]);
    assert_eq!(
        encode_address(&address),
        "erd1qqqqqqqqqqqqqqqqqqqqqqqqqqqqqqqqqqqqqqqqqqqqqqqqqqqq6gq4hu"
    );
}

#[test]
fn from_address_keeps_bytes_and_text() {
    let bytes = hex_bytes(ALICE_HEX);
    let a = Bech32Address::from_address(Address::from_bytes(bytes));
    assert_eq!(a.as_address().bytes, bytes);
    assert_eq!(a.to_bech32_string(), ALICE_BECH32);
}

#[test]
fn from_bech32_string_decodes_bob() {
    let a = Bech32Address::from_bech32_string(BOB_BECH32.to_string());
    assert_eq!(a.as_address().bytes, hex_bytes(BOB_HEX));
    assert_eq!(a.to_bech32_string(), BOB_BECH32);
}

#[test]
fn try_from_bech32_string_accepts_valid_address() {
    let a = Bech32Address::try_from_bech32_string(ALICE_BECH32.to_string()).unwrap();
    assert_eq!(a.as_address().bytes, hex_bytes(ALICE_HEX));
}

#[test]
fn try_from_bech32_string_rejects_empty_text() {
    assert!(Bech32Address::try_from_bech32_string(String::new()).is_none());
}

#[test]
fn try_from_bech32_string_rejects_bad_checksum() {
    let mut text = ALICE_BECH32.to_string();
    text.pop();
    text.push('q');
    assert!(Bech32Address::try_from_bech32_string(text).is_none());
}

#[test]
fn try_from_bech32_string_rejects_short_data() {
    // A valid bech32 string whose data is 20 bytes, not 32.
    let text = "erd1qqqsyqcyq5rqwzqfpg9scrgwpugpzysnmxwrf2".to_string();
    assert!(Bech32Address::try_from_bech32_string(text).is_none());
}

#[test]
fn clone_keeps_address_and_text() {
    let a = Bech32Address::from_address(Address::from_bytes(hex_bytes(BOB_HEX)));
    let b = a.clone();
    assert_eq!(b.to_bech32_string(), BOB_BECH32);
    assert_eq!(b.as_address().bytes, a.as_address().bytes);
}

#[test]
fn address_text_reads_back_to_the_address() {
    let a = Bech32Address::from_address(Address::from_bytes(hex_bytes(ALICE_HEX)));
    let b = Bech32Address::try_from_bech32_string(a.to_bech32_string()).unwrap();
    assert_eq!(b.as_address().bytes, hex_bytes(ALICE_HEX));
    assert_eq!(b.to_bech32_string(), ALICE_BECH32);
}
