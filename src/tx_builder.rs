use crate::btc::{
    address_script, address_to_script, ecdsa_der_signature, is_valid_secret_key, legacy_sighash,
    push_data, push_slice, sign_digest, signature_hash, valid_secret_key,
};
use crate::fee::{calculate_btc_tx_fee, fee_spec, tx_size};
use crate::types::{
    copy_bytes, copy_witness, input_views, output_views, utxo_views, BtcPrivateKey,
    InputView, OutputView, Transaction, TxError, TxErrorView, TxInput, TxOutput, TxView,
    UtxoAndValue, UtxoView,
};
use vstd::prelude::*;
use vstd::string::StringExecFns;

verus! {

/// Version of every built transaction.
pub const VERSION: i32 = 1;

/// Lock time of every built transaction: valid at once.
pub const LOCK_TIME: u32 = 0;

/// The signature-hash type that commits to all inputs and outputs.
pub const SIGN_ALL_HASH_TYPE: u8 = 1;

/// Sum of the amounts paid to the recipients.
pub open spec fn recipients_total(r: Seq<(String, u64)>) -> int
    decreases r.len(),
{
    if r.len() == 0 {
        0
    } else {
        recipients_total(r.drop_last()) + r.last().1
    }
}

/// Sum of the values of the outputs being spent.
pub open spec fn utxos_total(u: Seq<UtxoView>) -> int
    decreases u.len(),
{
    if u.len() == 0 {
        0
    } else {
        utxos_total(u.drop_last()) + u.last().value
    }
}

/// Sum of the values of a transaction's outputs.
pub open spec fn outputs_total(o: Seq<OutputView>) -> int
    decreases o.len(),
{
    if o.len() == 0 {
        0
    } else {
        outputs_total(o.drop_last()) + o.last().value
    }
}

/// One output per recipient, in order, or the first address that has no
/// locking script.
pub open spec fn recipient_outputs(r: Seq<(String, u64)>) -> Result<Seq<OutputView>, Seq<char>>
    decreases r.len(),
{
    if r.len() == 0 {
        Ok(seq![])
    } else {
        match recipient_outputs(r.drop_last()) {
            Err(a) => Err(a),
            Ok(outs) => match address_script(r.last().0@) {
                None => Err(r.last().0@),
                Some(s) => Ok(outs.push(OutputView { value: r.last().1, script_pubkey: s })),
            },
        }
    }
}

/// Number of outputs that the fee is estimated for: recipients plus the extra one.
pub open spec fn fee_output_count(n_recipients: int, has_extra: bool) -> int {
    if has_extra {
        n_recipients + 1
    } else {
        n_recipients
    }
}

/// The fee that a build with these recipients, outputs and extra output pays.
pub open spec fn build_fee(
    rate: u64,
    recips: Seq<(String, u64)>,
    utxos: Seq<UtxoView>,
    has_extra: bool,
) -> int {
    fee_spec(utxos.len() as int, fee_output_count(recips.len() as int, has_extra), rate as int)
}

/// The recipients and the fee need more than the outputs being spent hold.
pub open spec fn funds_short(
    rate: u64,
    recips: Seq<(String, u64)>,
    utxos: Seq<UtxoView>,
    has_extra: bool,
) -> bool {
    recipients_total(recips) + build_fee(rate, recips, utxos, has_extra) > utxos_total(utxos)
}

/// What is left for the change output.
pub open spec fn change_spec(
    rate: u64,
    recips: Seq<(String, u64)>,
    utxos: Seq<UtxoView>,
    has_extra: bool,
) -> int {
    utxos_total(utxos) - recipients_total(recips) - build_fee(rate, recips, utxos, has_extra)
}

/// The outputs of the transaction: recipients, the extra output if any, then
/// change if any is left; or the first address that has no locking script.
pub open spec fn outputs_spec(
    rate: u64,
    recips: Seq<(String, u64)>,
    change_address: Seq<char>,
    utxos: Seq<UtxoView>,
    extra: Option<OutputView>,
) -> Result<Seq<OutputView>, Seq<char>> {
    match recipient_outputs(recips) {
        Err(a) => Err(a),
        Ok(outs) => {
            let with_extra = match extra {
                Some(o) => outs.push(o),
                None => outs,
            };
            let change = change_spec(rate, recips, utxos, extra is Some);
            if change > 0 {
                match address_script(change_address) {
                    None => Err(change_address),
                    Some(s) => Ok(
                        with_extra.push(OutputView { value: change as u64, script_pubkey: s }),
                    ),
                }
            } else {
                Ok(with_extra)
            }
        },
    }
}

/// The input that spends `u`, before it is signed.
pub open spec fn unsigned_input(u: UtxoView) -> InputView {
    InputView {
        txid: u.txid,
        vout: u.vout,
        sequence: u.sequence,
        witness: u.witness,
        script_sig: seq![],
    }
}

/// The inputs that spend `utxos`, in order, before they are signed.
pub open spec fn unsigned_inputs_spec(utxos: Seq<UtxoView>) -> Seq<InputView> {
    Seq::new(utxos.len(), |k: int| unsigned_input(utxos[k]))
}

/// The transaction whose signature hashes are signed.
pub open spec fn unsigned_tx(utxos: Seq<UtxoView>, outputs: Seq<OutputView>) -> TxView {
    TxView {
        version: VERSION,
        lock_time: LOCK_TIME,
        inputs: unsigned_inputs_spec(utxos),
        outputs,
    }
}

/// A signature with the sign-all hash type appended.
pub open spec fn signature_spec(key: Seq<u8>, digest: Seq<u8>) -> Seq<u8> {
    ecdsa_der_signature(key, digest).push(SIGN_ALL_HASH_TYPE)
}

/// The script-sig that redeems a script-hash output: the signature, then the
/// redeem script.
pub open spec fn script_sig_spec(signature: Seq<u8>, redeem_script: Seq<u8>) -> Seq<u8> {
    push_data(signature) + push_data(redeem_script)
}

/// Input `i` of `unsigned`, signed against the shared redeem script.
pub open spec fn signed_input(unsigned: TxView, key: Seq<u8>, redeem_script: Seq<u8>, i: int) -> InputView {
    let digest = legacy_sighash(unsigned, i, redeem_script, SIGN_ALL_HASH_TYPE as u32);
    InputView {
        script_sig: script_sig_spec(signature_spec(key, digest), redeem_script),
        ..unsigned.inputs[i]
    }
}

/// `unsigned` with every input signed.
pub open spec fn signed_tx(unsigned: TxView, key: Seq<u8>, redeem_script: Seq<u8>) -> TxView {
    TxView {
        inputs: Seq::new(
            unsigned.inputs.len(),
            |i: int| signed_input(unsigned, key, redeem_script, i),
        ),
        ..unsigned
    }
}

/// Every output reference names a 32-byte transaction id.
pub open spec fn utxos_well_formed(utxos: Seq<UtxoView>) -> bool {
    forall|k: int| 0 <= k < utxos.len() ==> (#[trigger] utxos[k]).txid.len() == 32
}

/// The view of an optional extra output.
pub open spec fn extra_view(extra: Option<TxOutput>) -> Option<OutputView> {
    match extra {
        Some(o) => Some(o@),
        None => None,
    }
}

/// The outcome of a build: the signed transaction, or the first error met.
pub open spec fn build_spec(
    rate: u64,
    recips: Seq<(String, u64)>,
    change_address: Seq<char>,
    key: Seq<u8>,
    utxos: Seq<UtxoView>,
    extra: Option<OutputView>,
    redeem_script: Seq<u8>,
) -> Result<TxView, TxErrorView> {
    if funds_short(rate, recips, utxos, extra is Some) {
        Err(TxErrorView::InsufficientFunds)
    } else {
        match outputs_spec(rate, recips, change_address, utxos, extra) {
            Err(a) => Err(TxErrorView::AddressEncoding(a)),
            Ok(outputs) => if !utxos_well_formed(utxos) {
                Err(TxErrorView::MalformedUtxo)
            } else if !valid_secret_key(key) {
                Err(TxErrorView::Signing)
            } else {
                Ok(signed_tx(unsigned_tx(utxos, outputs), key, redeem_script))
            },
        }
    }
}


proof fn lemma_recipients_total_prefix(r: Seq<(String, u64)>, n: int)
    requires
        0 <= n <= r.len(),
    ensures
        recipients_total(r.subrange(0, n)) <= recipients_total(r),
    decreases r.len(),
{
    if n == r.len() {
        assert(r.subrange(0, n) =~= r);
    } else {
        assert(r.drop_last().subrange(0, n) =~= r.subrange(0, n));
        lemma_recipients_total_prefix(r.drop_last(), n);
    }
}

/// A prefix of the outputs being spent holds no more than all of them.
pub proof fn lemma_utxos_total_prefix(u: Seq<UtxoView>, n: int)
    requires
        0 <= n <= u.len(),
    ensures
        utxos_total(u.subrange(0, n)) <= utxos_total(u),
    decreases u.len(),
{
    if n == u.len() {
        assert(u.subrange(0, n) =~= u);
    } else {
        assert(u.drop_last().subrange(0, n) =~= u.subrange(0, n));
        lemma_utxos_total_prefix(u.drop_last(), n);
    }
}

proof fn lemma_recipient_error_persists(r: Seq<(String, u64)>, n: int)
    requires
        0 <= n <= r.len(),
        recipient_outputs(r.subrange(0, n)) is Err,
    ensures
        recipient_outputs(r) == recipient_outputs(r.subrange(0, n)),
    decreases r.len(),
{
    if n == r.len() {
        assert(r.subrange(0, n) =~= r);
    } else {
        assert(r.drop_last().subrange(0, n) =~= r.subrange(0, n));
        lemma_recipient_error_persists(r.drop_last(), n);
    }
}

/// Sums the recipients' amounts; `None` when the sum exceeds `u64::MAX`.
pub fn total_to_spend(recipients: &Vec<(String, u64)>) -> (t: Option<u64>)
    ensures
        t is Some <==> recipients_total(recipients@) <= u64::MAX,
        t matches Some(v) ==> v == recipients_total(recipients@),
{
    let mut acc: u64 = 0;
    let mut i: usize = 0;
    while i < recipients.len()
        invariant
            i <= recipients.len(),
            acc == recipients_total(recipients@.subrange(0, i as int)),
        decreases recipients.len() - i,
    {
        assert(recipients@.subrange(0, i + 1).drop_last() =~= recipients@.subrange(0, i as int));
        let amount = recipients[i].1;
        if acc > u64::MAX - amount {
            proof {
                lemma_recipients_total_prefix(recipients@, i + 1);
            }
            return None;
        }
        acc = acc + amount;
        i = i + 1;
    }
    assert(recipients@.subrange(0, i as int) =~= recipients@);
    Some(acc)
}

/// Sums the values of the outputs being spent.
pub fn get_total_value_of_utxos_and_values(utxos: &Vec<UtxoAndValue>) -> (t: u64)
    requires
        utxos_total(utxo_views(utxos@)) <= u64::MAX,
    ensures
        t == utxos_total(utxo_views(utxos@)),
{
    let ghost views = utxo_views(utxos@);
    let mut acc: u64 = 0;
    let mut i: usize = 0;
    while i < utxos.len()
        invariant
            i <= utxos.len(),
            views == utxo_views(utxos@),
            utxos_total(views) <= u64::MAX,
            acc == utxos_total(views.subrange(0, i as int)),
        decreases utxos.len() - i,
    {
        assert(views.subrange(0, i + 1).drop_last() =~= views.subrange(0, i as int));
        proof {
            lemma_utxos_total_prefix(views, i + 1);
        }
        acc = acc + utxos[i].value;
        i = i + 1;
    }
    assert(views.subrange(0, i as int) =~= views);
    acc
}

/// The output that pays `amount` to `address`.
pub fn create_new_tx_output(amount: u64, address: &str) -> (r: Result<TxOutput, TxError>)
    ensures
        r matches Ok(o) ==> address_script(address@) == Some(o.script_pubkey@) && o.value == amount,
        r matches Err(e) ==> address_script(address@) is None && e@ == TxErrorView::AddressEncoding(
            address@,
        ),
{
    match address_to_script(address) {
        Some(script) => Ok(TxOutput { value: amount, script_pubkey: script }),
        None => Err(TxError::AddressEncoding(String::from_str(address))),
    }
}

/// One output per recipient, in order; fails on the first address that has
/// no locking script.
pub fn make_recipient_outputs(recipients: &Vec<(String, u64)>) -> (r: Result<Vec<TxOutput>, TxError>)
    ensures
        r matches Ok(v) ==> recipient_outputs(recipients@) == Ok::<Seq<OutputView>, Seq<char>>(
            output_views(v@),
        ),
        r matches Err(e) ==> recipient_outputs(recipients@) matches Err(a)
            && e@ == TxErrorView::AddressEncoding(a),
{
    let mut outs: Vec<TxOutput> = Vec::new();
    let mut i: usize = 0;
    assert(recipients@.subrange(0, 0) =~= Seq::<(String, u64)>::empty());
    assert(output_views(outs@) =~= Seq::<OutputView>::empty());
    while i < recipients.len()
        invariant
            i <= recipients.len(),
            recipient_outputs(recipients@.subrange(0, i as int)) == Ok::<
                Seq<OutputView>,
                Seq<char>,
            >(output_views(outs@)),
        decreases recipients.len() - i,
    {
        let ghost sub = recipients@.subrange(0, i + 1);
        assert(sub.drop_last() =~= recipients@.subrange(0, i as int));
        assert(sub.last() == recipients@[i as int]);
        match create_new_tx_output(recipients[i].1, recipients[i].0.as_str()) {
            Ok(o) => {
                let ghost before = outs@;
                outs.push(o);
                assert(output_views(outs@) =~= output_views(before).push(o@));
            },
            Err(e) => {
                proof {
                    lemma_recipient_error_persists(recipients@, i + 1);
                }
                return Err(e);
            },
        }
        i = i + 1;
    }
    assert(recipients@.subrange(0, i as int) =~= recipients@);
    Ok(outs)
}

/// The inputs that spend `utxos`, in order, with empty script-sigs.
pub fn make_unsigned_inputs(utxos: &Vec<UtxoAndValue>) -> (r: Vec<TxInput>)
    ensures
        input_views(r@) == unsigned_inputs_spec(utxo_views(utxos@)),
{
    let mut r: Vec<TxInput> = Vec::new();
    let mut i: usize = 0;
    while i < utxos.len()
        invariant
            i <= utxos.len(),
            r.len() == i,
            forall|k: int| 0 <= k < i ==> (#[trigger] r@[k])@ == unsigned_input(utxos@[k]@),
        decreases utxos.len() - i,
    {
        let u = &utxos[i];
        let input = TxInput {
            txid: copy_bytes(&u.txid),
            vout: u.vout,
            sequence: u.sequence,
            witness: copy_witness(&u.witness),
            script_sig: Vec::new(),
        };
        assert(input@.script_sig =~= Seq::<u8>::empty());
        r.push(input);
        i = i + 1;
    }
    assert(input_views(r@) =~= unsigned_inputs_spec(utxo_views(utxos@)));
    r
}

/// The script-sig that pushes the signature, then the serialized redeem script.
pub fn get_pbtc_script_sig(signature_slice: &[u8], redeem_script: &Vec<u8>) -> (r: Vec<u8>)
    requires
        signature_slice@.len() < 0x1_0000_0000,
        redeem_script@.len() < 0x1_0000_0000,
    ensures
        r@ == script_sig_spec(signature_slice@, redeem_script@),
{
    let with_signature = push_slice(Vec::new(), signature_slice);
    let r = push_slice(with_signature, redeem_script.as_slice());
    assert(r@ =~= script_sig_spec(signature_slice@, redeem_script@));
    r
}

/// A script that pushes the serialized redeem script alone.
pub fn get_redeem_script_for_signing(redeem_script: &Vec<u8>) -> (r: Vec<u8>)
    requires
        redeem_script@.len() < 0x1_0000_0000,
    ensures
        r@ == push_data(redeem_script@),
{
    let r = push_slice(Vec::new(), redeem_script.as_slice());
    assert(r@ =~= push_data(redeem_script@));
    r
}

/// Signs every input of `unsigned` against the shared redeem script.
fn sign_inputs(unsigned: &Transaction, key: &BtcPrivateKey, redeem_script: &Vec<u8>) -> (r: Vec<TxInput>)
    requires
        valid_secret_key(key.bytes@),
        redeem_script@.len() < 0x1_0000_0000,
        forall|i: int| 0 <= i < unsigned.inputs.len() ==> #[trigger] unsigned.inputs[i].txid@.len() == 32,
    ensures
        input_views(r@) == signed_tx(unsigned@, key.bytes@, redeem_script@).inputs,
{
    let mut r: Vec<TxInput> = Vec::new();
    let mut i: usize = 0;
    while i < unsigned.inputs.len()
        invariant
            i <= unsigned.inputs.len(),
            r.len() == i,
            valid_secret_key(key.bytes@),
            redeem_script@.len() < 0x1_0000_0000,
            forall|j: int| 0 <= j < unsigned.inputs.len() ==> #[trigger] unsigned.inputs[j].txid@.len() == 32,
            forall|k: int| 0 <= k < i ==> (#[trigger] r@[k])@ == signed_input(unsigned@, key.bytes@, redeem_script@, k),
        decreases unsigned.inputs.len() - i,
    {
        let digest = signature_hash(unsigned, i, redeem_script, SIGN_ALL_HASH_TYPE as u32);
        let mut signature = sign_digest(&key.bytes, &digest);
        signature.push(SIGN_ALL_HASH_TYPE);
        let script_sig = get_pbtc_script_sig(signature.as_slice(), redeem_script);
        let source = &unsigned.inputs[i];
        let input = TxInput {
            txid: copy_bytes(&source.txid),
            vout: source.vout,
            sequence: source.sequence,
            witness: copy_witness(&source.witness),
            script_sig,
        };
        assert(unsigned@.inputs[i as int] == source@);
        r.push(input);
        i = i + 1;
    }
    assert(input_views(r@) =~= signed_tx(unsigned@, key.bytes@, redeem_script@).inputs);
    r
}

/// Checks that every output reference names a 32-byte transaction id.
pub fn utxos_are_well_formed(utxos: &Vec<UtxoAndValue>) -> (r: bool)
    ensures
        r == utxos_well_formed(utxo_views(utxos@)),
{
    let mut i: usize = 0;
    while i < utxos.len()
        invariant
            i <= utxos.len(),
            forall|k: int| 0 <= k < i ==> (#[trigger] utxos@[k]).txid@.len() == 32,
        decreases utxos.len() - i,
    {
        if utxos[i].txid.len() != 32 {
            assert(utxo_views(utxos@)[i as int].txid.len() != 32);
            return false;
        }
        i = i + 1;
    }
    assert forall|k: int| 0 <= k < utxo_views(utxos@).len() implies (#[trigger] utxo_views(
        utxos@,
    )[k]).txid.len() == 32 by {
        assert(utxos@[k].txid@.len() == 32);
    }
    true
}

/// Builds and signs a transaction that spends `utxos_and_values`, all locked
/// to `redeem_script`: it pays each recipient, appends the extra output if
/// any, and sends what is left after the fee to `remainder_btc_address`
/// unless nothing is left. Each input is signed over the signature hash of
/// its index under the shared redeem script, and its script-sig pushes that
/// signature and then the redeem script.
pub fn create_signed_raw_btc_tx_for_n_input_n_outputs(
    sats_per_byte: u64,
    recipient_addresses_and_amounts: Vec<(String, u64)>,
    remainder_btc_address: &str,
    btc_private_key: &BtcPrivateKey,
    utxos_and_values: Vec<UtxoAndValue>,
    maybe_op_return_output: Option<TxOutput>,
    redeem_script: &Vec<u8>,
) -> (r: Result<Transaction, TxError>)
    requires
        utxos_total(utxo_views(utxos_and_values@)) <= u64::MAX,
        recipient_addresses_and_amounts.len() < usize::MAX,
        redeem_script@.len() < 0x1_0000_0000,
    ensures
        r matches Ok(tx) ==> build_spec(
            sats_per_byte,
            recipient_addresses_and_amounts@,
            remainder_btc_address@,
            btc_private_key.bytes@,
            utxo_views(utxos_and_values@),
            extra_view(maybe_op_return_output),
            redeem_script@,
        ) == Ok::<TxView, TxErrorView>(tx@),
        r matches Err(e) ==> build_spec(
            sats_per_byte,
            recipient_addresses_and_amounts@,
            remainder_btc_address@,
            btc_private_key.bytes@,
            utxo_views(utxos_and_values@),
            extra_view(maybe_op_return_output),
            redeem_script@,
        ) == Err::<TxView, TxErrorView>(e@),
{
    let ghost recips = recipient_addresses_and_amounts@;
    let ghost utxos = utxo_views(utxos_and_values@);
    let ghost extra = extra_view(maybe_op_return_output);
    let has_extra = maybe_op_return_output.is_some();
    let num_outputs = if has_extra {
        recipient_addresses_and_amounts.len() + 1
    } else {
        recipient_addresses_and_amounts.len()
    };
    let utxo_total = get_total_value_of_utxos_and_values(&utxos_and_values);
    let fee = match calculate_btc_tx_fee(utxos_and_values.len(), num_outputs, sats_per_byte) {
        Some(f) => f,
        None => {
            proof {
                lemma_recipients_total_prefix(recips, 0);
                assert(recips.subrange(0, 0) =~= Seq::<(String, u64)>::empty());
            }
            return Err(TxError::InsufficientFunds);
        },
    };
    let total = match total_to_spend(&recipient_addresses_and_amounts) {
        Some(t) => t,
        None => return Err(TxError::InsufficientFunds),
    };
    if total > utxo_total || fee > utxo_total - total {
        return Err(TxError::InsufficientFunds);
    }
    assert(!funds_short(sats_per_byte, recips, utxos, has_extra));
    let mut outputs = match make_recipient_outputs(&recipient_addresses_and_amounts) {
        Ok(v) => v,
        Err(e) => return Err(e),
    };
    let ghost recipient_views = output_views(outputs@);
    match maybe_op_return_output {
        Some(o) => {
            outputs.push(o);
            assert(output_views(outputs@) =~= recipient_views.push(extra.unwrap()));
        },
        None => {},
    }
    let change = utxo_total - total - fee;
    assert(change == change_spec(sats_per_byte, recips, utxos, has_extra));
    if change > 0 {
        match create_new_tx_output(change, remainder_btc_address) {
            Ok(o) => {
                let ghost before = output_views(outputs@);
                outputs.push(o);
                assert(output_views(outputs@) =~= before.push(o@));
            },
            Err(e) => return Err(e),
        }
    }
    assert(outputs_spec(sats_per_byte, recips, remainder_btc_address@, utxos, extra) == Ok::<
        Seq<OutputView>,
        Seq<char>,
    >(output_views(outputs@)));
    if !utxos_are_well_formed(&utxos_and_values) {
        return Err(TxError::MalformedUtxo);
    }
    if !is_valid_secret_key(&btc_private_key.bytes) {
        return Err(TxError::Signing);
    }
    let inputs = make_unsigned_inputs(&utxos_and_values);
    let unsigned = Transaction { version: VERSION, lock_time: LOCK_TIME, inputs, outputs };
    assert(unsigned@ == unsigned_tx(utxos, output_views(outputs@)));
    assert forall|i: int| 0 <= i < unsigned.inputs.len() implies #[trigger] unsigned.inputs[i].txid@.len() == 32 by {
        assert(unsigned.inputs[i]@ == input_views(unsigned.inputs@)[i]);
        assert(input_views(unsigned.inputs@).len() == utxos.len());
        assert(utxos[i].txid.len() == 32);
    }
    let signed = sign_inputs(&unsigned, btc_private_key, redeem_script);
    let tx = Transaction {
        version: unsigned.version,
        lock_time: unsigned.lock_time,
        inputs: signed,
        outputs: unsigned.outputs,
    };
    assert(tx@ =~= signed_tx(unsigned@, btc_private_key.bytes@, redeem_script@));
    Ok(tx)
}

proof fn lemma_recipient_outputs_sum(r: Seq<(String, u64)>)
    requires
        recipient_outputs(r) is Ok,
    ensures
        outputs_total(recipient_outputs(r)->Ok_0) == recipients_total(r),
        recipient_outputs(r)->Ok_0.len() == r.len(),
    decreases r.len(),
{
    if r.len() > 0 {
        lemma_recipient_outputs_sum(r.drop_last());
        let outs = recipient_outputs(r.drop_last())->Ok_0;
        let o = OutputView { value: r.last().1, script_pubkey: address_script(r.last().0@)->Some_0 };
        assert(outs.push(o).drop_last() =~= outs);
    }
}

/// Value is conserved: when a build succeeds and the extra output, if any,
/// carries no value, the outputs being spent hold exactly what the new
/// outputs hold plus the fee. No output is negative, and a zero rate
/// charges no fee.
pub proof fn lemma_value_conserved(
    rate: u64,
    recips: Seq<(String, u64)>,
    change_address: Seq<char>,
    key: Seq<u8>,
    utxos: Seq<UtxoView>,
    extra: Option<OutputView>,
    redeem_script: Seq<u8>,
)
    requires
        build_spec(rate, recips, change_address, key, utxos, extra, redeem_script) is Ok,
        extra matches Some(o) ==> o.value == 0,
        utxos_total(utxos) <= u64::MAX,
    ensures
        ({
            let tx = build_spec(rate, recips, change_address, key, utxos, extra, redeem_script)->Ok_0;
            utxos_total(utxos) == outputs_total(tx.outputs) + build_fee(
                rate,
                recips,
                utxos,
                extra is Some,
            )
        }),
        build_fee(0, recips, utxos, extra is Some) == 0,
{
    lemma_recipient_outputs_sum(recips);
    let outs = recipient_outputs(recips)->Ok_0;
    let with_extra = match extra {
        Some(o) => outs.push(o),
        None => outs,
    };
    if let Some(o) = extra {
        assert(outs.push(o).drop_last() =~= outs);
    }
    assert(outputs_total(with_extra) == recipients_total(recips));
    let change = change_spec(rate, recips, utxos, extra is Some);
    lemma_recipients_total_prefix(recips, 0);
    assert(recips.subrange(0, 0) =~= Seq::<(String, u64)>::empty());
    let size = tx_size(utxos.len() as int, fee_output_count(recips.len() as int, extra is Some));
    assert(size * rate >= 0) by (nonlinear_arith)
        requires
            size >= 0,
            rate >= 0,
    ;
    if change > 0 {
        let c = OutputView { value: change as u64, script_pubkey: address_script(change_address)->Some_0 };
        assert(with_extra.push(c).drop_last() =~= with_extra);
        assert(outputs_total(with_extra.push(c)) == outputs_total(with_extra) + change);
        assert(outputs_spec(rate, recips, change_address, utxos, extra)->Ok_0 == with_extra.push(c));
    } else {
        assert(outputs_spec(rate, recips, change_address, utxos, extra)->Ok_0 == with_extra);
    }
}

/// A build fails with insufficient funds exactly when the recipients and
/// the fee need more than the outputs being spent hold.
pub proof fn lemma_insufficient_funds(
    rate: u64,
    recips: Seq<(String, u64)>,
    change_address: Seq<char>,
    key: Seq<u8>,
    utxos: Seq<UtxoView>,
    extra: Option<OutputView>,
    redeem_script: Seq<u8>,
)
    ensures
        recipients_total(recips) + build_fee(rate, recips, utxos, extra is Some) > utxos_total(utxos)
            <==> build_spec(rate, recips, change_address, key, utxos, extra, redeem_script)
            == Err::<TxView, TxErrorView>(TxErrorView::InsufficientFunds),
{
}

/// A successful build has one output per recipient, one more for the extra
/// output if any, and one more for change exactly when change is left.
pub proof fn lemma_output_count(
    rate: u64,
    recips: Seq<(String, u64)>,
    change_address: Seq<char>,
    key: Seq<u8>,
    utxos: Seq<UtxoView>,
    extra: Option<OutputView>,
    redeem_script: Seq<u8>,
)
    requires
        build_spec(rate, recips, change_address, key, utxos, extra, redeem_script) is Ok,
    ensures
        ({
            let tx = build_spec(rate, recips, change_address, key, utxos, extra, redeem_script)->Ok_0;
            let base = fee_output_count(recips.len() as int, extra is Some);
            &&& change_spec(rate, recips, utxos, extra is Some) == 0 ==> tx.outputs.len() == base
            &&& change_spec(rate, recips, utxos, extra is Some) > 0 ==> tx.outputs.len() == base + 1
        }),
{
    lemma_recipient_outputs_sum(recips);
}

/// Building twice from the same inputs gives the same script-sig for every
/// input.
pub proof fn lemma_script_sigs_deterministic(
    rate: u64,
    recips: Seq<(String, u64)>,
    change_address: Seq<char>,
    key: Seq<u8>,
    utxos: Seq<UtxoView>,
    extra: Option<OutputView>,
    redeem_script: Seq<u8>,
    first: TxView,
    second: TxView,
)
    requires
        build_spec(rate, recips, change_address, key, utxos, extra, redeem_script) == Ok::<
            TxView,
            TxErrorView,
        >(first),
        build_spec(rate, recips, change_address, key, utxos, extra, redeem_script) == Ok::<
            TxView,
            TxErrorView,
        >(second),
    ensures
        first.inputs.len() == second.inputs.len(),
        forall|i: int|
            0 <= i < first.inputs.len() ==> (#[trigger] first.inputs[i]).script_sig
                == second.inputs[i].script_sig,
{
}

/// Each input of a successful build is signed on its own: its script-sig
/// depends only on its index, the key, the shared redeem script and the
/// unsigned transaction, so the inputs may be signed in any order. Inputs
/// keep the order of the outputs they spend.
pub proof fn lemma_inputs_signed_independently(
    rate: u64,
    recips: Seq<(String, u64)>,
    change_address: Seq<char>,
    key: Seq<u8>,
    utxos: Seq<UtxoView>,
    extra: Option<OutputView>,
    redeem_script: Seq<u8>,
)
    requires
        build_spec(rate, recips, change_address, key, utxos, extra, redeem_script) is Ok,
    ensures
        ({
            let tx = build_spec(rate, recips, change_address, key, utxos, extra, redeem_script)->Ok_0;
            let unsigned = unsigned_tx(utxos, tx.outputs);
            &&& tx.inputs.len() == utxos.len()
            &&& forall|i: int|
                0 <= i < utxos.len() ==> (#[trigger] tx.inputs[i]).script_sig == script_sig_spec(
                    signature_spec(
                        key,
                        legacy_sighash(unsigned, i, redeem_script, SIGN_ALL_HASH_TYPE as u32),
                    ),
                    redeem_script,
                ) && tx.inputs[i].txid == utxos[i].txid && tx.inputs[i].vout == utxos[i].vout
                    && tx.inputs[i].sequence == utxos[i].sequence
        }),
{
}

} // verus!
