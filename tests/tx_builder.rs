use pbtc_utxo_tx::fee::calculate_btc_tx_fee;
use pbtc_utxo_tx::tx_builder::{
    create_signed_raw_btc_tx_for_n_input_n_outputs, get_pbtc_script_sig,
    get_redeem_script_for_signing, get_total_value_of_utxos_and_values, total_to_spend,
};
use pbtc_utxo_tx::types::{BtcPrivateKey, Transaction, TxError, TxOutput, UtxoAndValue};

const RECIPIENT: &str = "1A1zP1eP5QGefi2DMPTfTL5SLmv7DivfNa";
const SECOND_RECIPIENT: &str = "1BvBMSEYstWetqTFn5Au4m4GFg7xJaNVN2";
const CHANGE: &str = "3J98t1WpEZ73CNmQviecrnyiWrnqRhWNLy";
const REDEEM_HEX: &str = "2103d2a5e3b162eb580fe2ce023cd5e0dddbb6286923acde77e3e5468314dc9373f7ac";

fn redeem() -> Vec<u8> {
    hex::decode(REDEEM_HEX).unwrap()
}

fn key() -> BtcPrivateKey {
    BtcPrivateKey { bytes: vec![1u8; 32] }
}

fn utxo(value: u64, seed: u8, vout: u32) -> UtxoAndValue {
    UtxoAndValue { value, txid: vec![seed; 32], vout, sequence: 0xffff_ffff, witness: vec![] }
}

fn fee(n_in: usize, n_out: usize, rate: u64) -> u64 {
    calculate_btc_tx_fee(n_in, n_out, rate).unwrap()
}

fn build(
    rate: u64,
    recipients: Vec<(String, u64)>,
    change: &str,
    utxos: Vec<UtxoAndValue>,
    extra: Option<TxOutput>,
) -> Result<Transaction, TxError> {
    create_signed_raw_btc_tx_for_n_input_n_outputs(
        rate,
        recipients,
        change,
        &key(),
        utxos,
        extra,
        &redeem(),
    )
}

/// Splits a script-sig into its two pushes, each shorter than 76 bytes.
fn split_pushes(script: &[u8]) -> (Vec<u8>, Vec<u8>) {
    let first_len = script[0] as usize;
    let first = script[1..1 + first_len].to_vec();
    let second_len = script[1 + first_len] as usize;
    let second = script[2 + first_len..].to_vec();
    assert_eq!(second.len(), second_len);
    (first, second)
}

#[test]
fn fee_has_exact_value() {
    assert_eq!(calculate_btc_tx_fee(1, 1, 10), Some(2940));
    assert_eq!(calculate_btc_tx_fee(2, 3, 7), Some((10 + 500 + 102) * 7));
}

#[test]
fn fee_of_zero_counts_is_overhead_only() {
    assert_eq!(calculate_btc_tx_fee(0, 0, 5), Some(50));
}

#[test]
fn fee_at_zero_rate_is_zero() {
    assert_eq!(calculate_btc_tx_fee(3, 4, 0), Some(0));
}

#[test]
fn fee_that_overflows_is_none() {
    assert_eq!(calculate_btc_tx_fee(1, 1, u64::MAX), None);
}

#[test]
fn fee_grows_with_counts_and_rate() {
    assert!(fee(1, 1, 10) < fee(2, 1, 10));
    assert!(fee(1, 1, 10) < fee(1, 2, 10));
    assert!(fee(1, 1, 10) < fee(1, 1, 11));
}

#[test]
fn totals_are_sums() {
    let recipients = vec![(RECIPIENT.to_string(), 5u64), (CHANGE.to_string(), 7u64)];
    assert_eq!(total_to_spend(&recipients), Some(12));
    let too_much = vec![(RECIPIENT.to_string(), u64::MAX), (CHANGE.to_string(), 1u64)];
    assert_eq!(total_to_spend(&too_much), None);
    assert_eq!(get_total_value_of_utxos_and_values(&vec![utxo(3, 1, 0), utxo(4, 2, 1)]), 7);
}

#[test]
fn redeem_script_for_signing_is_one_push() {
    let mut expected = vec![35u8];
    expected.extend(redeem());
    assert_eq!(get_redeem_script_for_signing(&redeem()), expected);
}

#[test]
fn script_sig_pushes_signature_then_redeem_script() {
    let sig = vec![0xaau8; 80];
    let r = get_pbtc_script_sig(&sig, &redeem());
    let mut expected = vec![0x4cu8, 80];
    expected.extend(sig.clone());
    expected.push(35);
    expected.extend(redeem());
    assert_eq!(r, expected);
}

#[test]
fn one_input_one_recipient_with_change() {
    let f = fee(1, 1, 10);
    let tx = build(10, vec![(RECIPIENT.to_string(), 50_000)], CHANGE, vec![utxo(100_000, 9, 0)], None)
        .unwrap();
    assert_eq!(tx.version, 1);
    assert_eq!(tx.lock_time, 0);
    assert_eq!(tx.outputs.len(), 2);
    assert_eq!(tx.outputs[0].value, 50_000);
    assert_eq!(tx.outputs[1].value, 50_000 - f);
    assert_eq!(tx.outputs[1].script_pubkey[0], 0xa9);
    assert_eq!(tx.outputs[0].script_pubkey[0], 0x76);
    assert_eq!(tx.inputs.len(), 1);
    assert_eq!(tx.inputs[0].txid, vec![9u8; 32]);
    let (sig, script) = split_pushes(&tx.inputs[0].script_sig);
    assert_eq!(sig[0], 0x30);
    assert_eq!(*sig.last().unwrap(), 1);
    assert_eq!(script, redeem());
}

#[test]
fn value_is_conserved() {
    let utxos = vec![utxo(70_000, 1, 0), utxo(80_000, 2, 3)];
    let tx = build(
        3,
        vec![(RECIPIENT.to_string(), 20_000), (SECOND_RECIPIENT.to_string(), 30_000)],
        CHANGE,
        utxos,
        None,
    )
    .unwrap();
    let out: u64 = tx.outputs.iter().map(|o| o.value).sum();
    assert_eq!(out + fee(2, 2, 3), 150_000);
}

#[test]
fn zero_rate_charges_no_fee() {
    let tx = build(0, vec![(RECIPIENT.to_string(), 400)], CHANGE, vec![utxo(1_000, 4, 0)], None)
        .unwrap();
    assert_eq!(tx.outputs[1].value, 600);
}

#[test]
fn exact_amount_leaves_no_change_output() {
    let total = 50_000 + fee(1, 1, 10);
    let tx = build(10, vec![(RECIPIENT.to_string(), 50_000)], CHANGE, vec![utxo(total, 9, 0)], None)
        .unwrap();
    assert_eq!(tx.outputs.len(), 1);
    assert_eq!(tx.outputs[0].value, 50_000);
}

#[test]
fn one_unit_short_is_insufficient() {
    let total = 50_000 + fee(1, 1, 10) - 1;
    let r = build(10, vec![(RECIPIENT.to_string(), 50_000)], CHANGE, vec![utxo(total, 9, 0)], None);
    assert_eq!(r.err(), Some(TxError::InsufficientFunds));
}

#[test]
fn overflowing_amounts_are_insufficient() {
    let r = build(
        1,
        vec![(RECIPIENT.to_string(), u64::MAX), (SECOND_RECIPIENT.to_string(), 2)],
        CHANGE,
        vec![utxo(1_000, 9, 0)],
        None,
    );
    assert_eq!(r.err(), Some(TxError::InsufficientFunds));
}

#[test]
fn two_inputs_two_recipients_and_extra_output() {
    let extra = TxOutput { value: 0, script_pubkey: vec![0x6a, 0x02, 0xbe, 0xef] };
    let utxos = vec![utxo(60_000, 1, 0), utxo(60_000, 2, 1)];
    let tx = build(
        5,
        vec![(RECIPIENT.to_string(), 10_000), (SECOND_RECIPIENT.to_string(), 20_000)],
        CHANGE,
        utxos,
        Some(extra),
    )
    .unwrap();
    assert_eq!(tx.outputs.len(), 4);
    assert_eq!(tx.outputs[2].value, 0);
    assert_eq!(tx.outputs[2].script_pubkey, vec![0x6a, 0x02, 0xbe, 0xef]);
    assert_eq!(tx.outputs[3].value, 120_000 - 30_000 - fee(2, 3, 5));
    assert_eq!(tx.inputs.len(), 2);
    let (sig0, script0) = split_pushes(&tx.inputs[0].script_sig);
    let (sig1, script1) = split_pushes(&tx.inputs[1].script_sig);
    assert_eq!(script0, redeem());
    assert_eq!(script1, redeem());
    assert_ne!(sig0, sig1);
}

#[test]
fn extra_output_without_change() {
    let extra = TxOutput { value: 0, script_pubkey: vec![0x6a] };
    let total = 30_000 + fee(2, 3, 5);
    let tx = build(
        5,
        vec![(RECIPIENT.to_string(), 10_000), (SECOND_RECIPIENT.to_string(), 20_000)],
        CHANGE,
        vec![utxo(total - 1, 1, 0), utxo(1, 2, 1)],
        Some(extra),
    )
    .unwrap();
    assert_eq!(tx.outputs.len(), 3);
}

#[test]
fn rebuilding_gives_identical_script_sigs() {
    let make = || {
        build(
            10,
            vec![(RECIPIENT.to_string(), 10_000)],
            CHANGE,
            vec![utxo(40_000, 1, 0), utxo(40_000, 2, 0)],
            None,
        )
        .unwrap()
    };
    let a = make();
    let b = make();
    assert_eq!(a.inputs[0].script_sig, b.inputs[0].script_sig);
    assert_eq!(a.inputs[1].script_sig, b.inputs[1].script_sig);
}

#[test]
fn input_signature_does_not_depend_on_signing_order() {
    let a = build(
        10,
        vec![(RECIPIENT.to_string(), 10_000)],
        CHANGE,
        vec![utxo(40_000, 1, 0), utxo(40_000, 2, 0)],
        None,
    )
    .unwrap();
    // The same inputs, so the same unsigned transaction: each signature is
    // fixed by its index alone.
    let b = build(
        10,
        vec![(RECIPIENT.to_string(), 10_000)],
        CHANGE,
        vec![utxo(40_000, 1, 0), utxo(40_000, 2, 0)],
        None,
    )
    .unwrap();
    for i in 0..2 {
        assert_eq!(a.inputs[i].script_sig, b.inputs[i].script_sig);
    }
    assert_ne!(a.inputs[0].script_sig, a.inputs[1].script_sig);
}

#[test]
fn bad_recipient_address_is_reported() {
    let r = build(
        1,
        vec![(RECIPIENT.to_string(), 100), ("not-an-address".to_string(), 100)],
        CHANGE,
        vec![utxo(100_000, 1, 0)],
        None,
    );
    assert_eq!(r.err(), Some(TxError::AddressEncoding("not-an-address".to_string())));
}

#[test]
fn bad_change_address_is_reported() {
    let r = build(1, vec![(RECIPIENT.to_string(), 100)], "nowhere", vec![utxo(100_000, 1, 0)], None);
    assert_eq!(r.err(), Some(TxError::AddressEncoding("nowhere".to_string())));
}

#[test]
fn bad_change_address_is_unused_without_change() {
    let total = 100 + fee(1, 1, 1);
    let tx = build(1, vec![(RECIPIENT.to_string(), 100)], "nowhere", vec![utxo(total, 1, 0)], None)
        .unwrap();
    assert_eq!(tx.outputs.len(), 1);
}

#[test]
fn short_txid_is_malformed() {
    let mut u = utxo(100_000, 1, 0);
    u.txid = vec![1u8; 31];
    let r = build(1, vec![(RECIPIENT.to_string(), 100)], CHANGE, vec![u], None);
    assert_eq!(r.err(), Some(TxError::MalformedUtxo));
}

#[test]
fn zero_key_cannot_sign() {
    let r = create_signed_raw_btc_tx_for_n_input_n_outputs(
        1,
        vec![(RECIPIENT.to_string(), 100)],
        CHANGE,
        &BtcPrivateKey { bytes: vec![0u8; 32] },
        vec![utxo(100_000, 1, 0)],
        None,
        &redeem(),
    );
    assert_eq!(r.err(), Some(TxError::Signing));
}
