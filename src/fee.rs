use vstd::prelude::*;

verus! {

/// Bytes budgeted for one input: outpoint, sequence and a script-sig that
/// pushes a signature and the shared redeem script.
pub const INPUT_BYTES: u64 = 250;

/// Bytes budgeted for one output: amount, script length and locking script.
pub const OUTPUT_BYTES: u64 = 34;

/// Bytes of version, lock time and the two counts.
pub const TX_OVERHEAD_BYTES: u64 = 10;

/// Estimated legacy serialized size of a transaction with the given counts.
pub open spec fn tx_size(num_inputs: int, num_outputs: int) -> int {
    TX_OVERHEAD_BYTES + num_inputs * INPUT_BYTES + num_outputs * OUTPUT_BYTES
}

/// The fee for a transaction of the given counts at the given rate per byte.
pub open spec fn fee_spec(num_inputs: int, num_outputs: int, sats_per_byte: int) -> int {
    tx_size(num_inputs, num_outputs) * sats_per_byte
}

/// Computes the fee for `num_inputs` inputs and `num_outputs` outputs at
/// `sats_per_byte`; `None` when it does not fit in a `u64`.
pub fn calculate_btc_tx_fee(num_inputs: usize, num_outputs: usize, sats_per_byte: u64) -> (r:
    Option<u64>)
    ensures
        r is Some <==> fee_spec(num_inputs as int, num_outputs as int, sats_per_byte as int)
            <= u64::MAX,
        r matches Some(f) ==> f == fee_spec(
            num_inputs as int,
            num_outputs as int,
            sats_per_byte as int,
        ),
{
    let ni = num_inputs as u128;
    let no = num_outputs as u128;
    assert(ni * (INPUT_BYTES as u128) + no * (OUTPUT_BYTES as u128) <= 284 * 0xffff_ffff_ffff_ffff)
        by (nonlinear_arith)
        requires
            ni <= 0xffff_ffff_ffff_ffff,
            no <= 0xffff_ffff_ffff_ffff,
            INPUT_BYTES == 250,
            OUTPUT_BYTES == 34,
    ;
    let size: u128 = TX_OVERHEAD_BYTES as u128 + ni * (INPUT_BYTES as u128) + no * (
    OUTPUT_BYTES as u128);
    assert(size == tx_size(num_inputs as int, num_outputs as int));
    if size == 0 {
        return Some(0);
    }
    if sats_per_byte as u128 > (u64::MAX as u128) / size {
        assert(size * sats_per_byte > u64::MAX) by (nonlinear_arith)
            requires
                sats_per_byte as int > (u64::MAX as int) / (size as int),
                size > 0,
        ;
        return None;
    }
    assert(size * sats_per_byte <= u64::MAX) by (nonlinear_arith)
        requires
            sats_per_byte as int <= (u64::MAX as int) / (size as int),
            size > 0,
    ;
    Some((size * sats_per_byte as u128) as u64)
}

/// The fee grows with the input count, the output count and the rate.
pub proof fn lemma_fee_monotonic(n_in: nat, n_out: nat, rate: nat, m_in: nat, m_out: nat, r2: nat)
    requires
        n_in <= m_in,
        n_out <= m_out,
        rate <= r2,
    ensures
        fee_spec(n_in as int, n_out as int, rate as int) <= fee_spec(
            m_in as int,
            m_out as int,
            r2 as int,
        ),
        fee_spec(n_in as int, n_out as int, 0) == 0,
{
    let a = tx_size(n_in as int, n_out as int);
    let b = tx_size(m_in as int, m_out as int);
    assert(0 <= a <= b) by (nonlinear_arith)
        requires
            a == 10 + n_in * 250 + n_out * 34,
            b == 10 + m_in * 250 + m_out * 34,
            n_in <= m_in,
            n_out <= m_out,
    ;
    assert(a * rate <= b * r2) by (nonlinear_arith)
        requires
            0 <= a <= b,
            0 <= rate <= r2,
    ;
}

} // verus!
