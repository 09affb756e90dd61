use pbtc_utxo_tx::state::{
    get_eth_address_and_nonce_hash, get_eth_address_and_nonce_hash_and_put_in_state,
    get_utxo_info_url, get_utxos_info_and_add_to_state,
    get_utxos_info_for_address_in_cli_args_and_add_to_state, make_pbtc_tx_and_put_in_state,
    nonce_to_bytes, State, StateError, UtxoInfo,
};
use pbtc_utxo_tx::types::{BtcPrivateKey, TxError, UtxoAndValue};

const SAMPLE_TESTNET_ENDPOINT: &str = "https://blockstream.info/testnet/api/";
const SAMPLE_TARGET_BTC_ADDRESS: &str = "2N2LHYbt8K1KDBogd6XUG9VBv5YM6xefdM2";
const RECIPIENT: &str = "1A1zP1eP5QGefi2DMPTfTL5SLmv7DivfNa";
const CHANGE: &str = "3J98t1WpEZ73CNmQviecrnyiWrnqRhWNLy";
const ETH_ADDRESS_HEX: &str = "5aaeb6053f3e94c9b9a09f33669435e7ef1beaed";

fn fresh() -> State {
    State::init(
        SAMPLE_TESTNET_ENDPOINT.to_string(),
        SAMPLE_TARGET_BTC_ADDRESS.to_string(),
        vec![7],
        10,
        vec![(RECIPIENT.to_string(), 50_000)],
        CHANGE.to_string(),
    )
}

fn info() -> Vec<UtxoInfo> {
    vec![UtxoInfo { txid: "ab".repeat(32), vout: 1, value: 5_000 }]
}

#[test]
fn should_get_utxo_list_json_string() {
    let result = get_utxo_info_url(
        &SAMPLE_TARGET_BTC_ADDRESS.to_string(),
        &SAMPLE_TESTNET_ENDPOINT.to_string(),
    );
    assert_eq!(
        result,
        "https://blockstream.info/testnet/api/address/2N2LHYbt8K1KDBogd6XUG9VBv5YM6xefdM2/utxo"
    );
}

#[test]
fn utxos_need_a_known_address() {
    let r = get_utxos_info_and_add_to_state(fresh(), info());
    assert_eq!(r.err(), Some(StateError::MissingBtcAddress));
}

#[test]
fn utxos_for_known_address_are_recorded() {
    let mut s = fresh();
    s.btc_address = Some(SAMPLE_TARGET_BTC_ADDRESS.to_string());
    let s = get_utxos_info_and_add_to_state(s, info()).unwrap();
    let utxos = s.utxos_info.unwrap();
    assert_eq!(utxos.len(), 1);
    assert_eq!(utxos[0].value, 5_000);
}

#[test]
fn utxos_for_cli_address_are_recorded_once() {
    let s = get_utxos_info_for_address_in_cli_args_and_add_to_state(fresh(), info()).unwrap();
    assert!(s.utxos_info.is_some());
    let again = get_utxos_info_for_address_in_cli_args_and_add_to_state(s, info());
    assert_eq!(again.err(), Some(StateError::UtxosAlreadyInState));
}

#[test]
fn nonce_bytes_are_big_endian() {
    assert_eq!(nonce_to_bytes(0x0102_0304_0506_0708), vec![1, 2, 3, 4, 5, 6, 7, 8]);
}

#[test]
fn eth_address_and_nonce_hash_has_known_value() {
    let eth = hex::decode(ETH_ADDRESS_HEX).unwrap();
    assert_eq!(
        hex::encode(get_eth_address_and_nonce_hash(&eth, 7)),
        "ff0292ebd19347fad7b9fb438e3c2cc941ae6c33a6adf9928074f7a5635c8c26"
    );
}

#[test]
fn eth_hash_is_recorded_from_first_nonce() {
    let mut s = fresh();
    s.eth_address_nonces = vec![7, 8];
    s.eth_address_bytes = Some(hex::decode(ETH_ADDRESS_HEX).unwrap());
    let s = get_eth_address_and_nonce_hash_and_put_in_state(s).unwrap();
    assert_eq!(
        hex::encode(s.eth_address_and_nonce_hash.clone().unwrap()),
        "ff0292ebd19347fad7b9fb438e3c2cc941ae6c33a6adf9928074f7a5635c8c26"
    );
    let again = get_eth_address_and_nonce_hash_and_put_in_state(s);
    assert_eq!(again.err(), Some(StateError::HashAlreadyInState));
}

#[test]
fn eth_hash_needs_address_and_nonce() {
    assert_eq!(
        get_eth_address_and_nonce_hash_and_put_in_state(fresh()).err(),
        Some(StateError::MissingEthAddress)
    );
    let mut s = fresh();
    s.eth_address_nonces = vec![];
    s.eth_address_bytes = Some(vec![1, 2]);
    assert_eq!(
        get_eth_address_and_nonce_hash_and_put_in_state(s).err(),
        Some(StateError::MissingNonce)
    );
}

fn ready(value: u64) -> State {
    let mut s = fresh();
    s.btc_private_key = Some(BtcPrivateKey { bytes: vec![1u8; 32] });
    s.btc_utxos_and_values = Some(vec![UtxoAndValue {
        value,
        txid: vec![3u8; 32],
        vout: 0,
        sequence: 0xffff_ffff,
        witness: vec![],
    }]);
    s.btc_script = Some(vec![0x51]);
    s
}

#[test]
fn tx_is_built_from_state_and_recorded() {
    let s = make_pbtc_tx_and_put_in_state(ready(100_000)).unwrap();
    let tx = s.btc_tx.as_ref().unwrap();
    assert_eq!(tx.outputs.len(), 2);
    assert_eq!(tx.outputs[0].value, 50_000);
    assert_eq!(tx.outputs[1].value, 50_000 - 2940);
    let again = make_pbtc_tx_and_put_in_state(s);
    assert_eq!(again.err(), Some(StateError::TxAlreadyInState));
}

#[test]
fn tx_from_state_needs_its_parts() {
    assert_eq!(make_pbtc_tx_and_put_in_state(fresh()).err(), Some(StateError::MissingPrivateKey));
    let mut s = ready(100_000);
    s.btc_utxos_and_values = None;
    assert_eq!(make_pbtc_tx_and_put_in_state(s).err(), Some(StateError::MissingUtxos));
    let mut s = ready(100_000);
    s.btc_script = None;
    assert_eq!(make_pbtc_tx_and_put_in_state(s).err(), Some(StateError::MissingScript));
}

#[test]
fn tx_from_state_reports_build_errors() {
    let r = make_pbtc_tx_and_put_in_state(ready(1_000));
    assert_eq!(r.err(), Some(StateError::Tx(TxError::InsufficientFunds)));
}

#[test]
fn tx_from_state_refuses_overflowing_values() {
    let mut s = ready(u64::MAX);
    let mut utxos = s.btc_utxos_and_values.take().unwrap();
    utxos.push(UtxoAndValue {
        value: 1,
        txid: vec![4u8; 32],
        vout: 0,
        sequence: 0,
        witness: vec![],
    });
    s.btc_utxos_and_values = Some(utxos);
    assert_eq!(make_pbtc_tx_and_put_in_state(s).err(), Some(StateError::TooLarge));
}
