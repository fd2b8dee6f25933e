use crowdfunding_interact::address::{Address, Bech32Address};
use crowdfunding_interact::state::State;

fn some_address(byte: u8) -> Bech32Address {
    Bech32Address::from_address(Address::from_bytes([byte; 32]))
}

#[test]
fn load_state_without_stored_state_knows_no_contract() {
    let state = State::load_state(None);
    assert!(state.contract_address.is_none());
}

#[test]
fn load_state_keeps_stored_state() {
    let stored = State { contract_address: Some(some_address(7)) };
    let state = State::load_state(Some(stored));
    assert_eq!(
        state.current_address().to_bech32_string(),
        "erd1qurswpc8qurswpc8qurswpc8qurswpc8qurswpc8qurswpc8qurstywtnm"
    );
}

#[test]
fn default_state_knows_no_contract() {
    let state = State::default();
    assert!(state.contract_address.is_none());
}

#[test]
fn set_address_then_current_address() {
    let mut state = State::default();
    state.set_address(some_address(1));
    assert_eq!(state.current_address().as_address().bytes, [1u8; 32]);
    state.set_address(some_address(2));
    assert_eq!(state.current_address().as_address().bytes, [2u8; 32]);
    assert_eq!(
        state.current_address().to_bech32_string(),
        "erd1qgpqyqszqgpqyqszqgpqyqszqgpqyqszqgpqyqszqgpqyqszqgpqjv7g5k"
    );
}

#[test]
fn stored_address_is_the_bech32_text() {
    let state = State { contract_address: Some(some_address(7)) };
    assert_eq!(
        state.stored_address(),
        Some("erd1qurswpc8qurswpc8qurswpc8qurswpc8qurswpc8qurswpc8qurstywtnm".to_string())
    );
    assert_eq!(State::default().stored_address(), None);
}

#[test]
fn stored_address_reads_back_to_the_same_state() {
    let state = State { contract_address: Some(some_address(7)) };
    let read = State::from_stored_address(state.stored_address()).unwrap();
    assert_eq!(read.current_address().as_address().bytes, [7u8; 32]);
    assert_eq!(
        read.current_address().to_bech32_string(),
        state.current_address().to_bech32_string()
    );
}

#[test]
fn nothing_stored_reads_back_to_no_contract() {
    let read = State::from_stored_address(None).unwrap();
    assert!(read.contract_address.is_none());
}

#[test]
fn legacy_prefix_is_dropped_on_reading() {
    let text = "bech32:erd1qurswpc8qurswpc8qurswpc8qurswpc8qurswpc8qurswpc8qurstywtnm";
    let read = State::from_stored_address(Some(text.to_string())).unwrap();
    assert_eq!(read.current_address().as_address().bytes, [7u8; 32]);
    assert_eq!(
        read.current_address().to_bech32_string(),
        "erd1qurswpc8qurswpc8qurswpc8qurswpc8qurswpc8qurswpc8qurstywtnm"
    );
}

#[test]
fn text_that_is_not_an_address_does_not_read_back() {
    assert!(State::from_stored_address(Some("erd1".to_string())).is_none());
    assert!(State::from_stored_address(Some(String::new())).is_none());
}
