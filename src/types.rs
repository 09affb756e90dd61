use vstd::prelude::*;

verus! {

/// An unspent output reference together with the value it holds, in the
/// smallest monetary unit.
pub struct UtxoAndValue {
    pub value: u64,
    pub txid: Vec<u8>,
    pub vout: u32,
    pub sequence: u32,
    pub witness: Vec<Vec<u8>>,
}

/// A transaction input: the output it spends and the script that unlocks it.
pub struct TxInput {
    pub txid: Vec<u8>,
    pub vout: u32,
    pub sequence: u32,
    pub witness: Vec<Vec<u8>>,
    pub script_sig: Vec<u8>,
}

/// A transaction output: an amount and the script that locks it.
pub struct TxOutput {
    pub value: u64,
    pub script_pubkey: Vec<u8>,
}

/// A legacy (non-segwit) transaction.
pub struct Transaction {
    pub version: i32,
    pub lock_time: u32,
    pub inputs: Vec<TxInput>,
    pub outputs: Vec<TxOutput>,
}

/// A secp256k1 secret key, as 32 big-endian bytes.
pub struct BtcPrivateKey {
    pub bytes: Vec<u8>,
}

/// What can go wrong while building a transaction.
#[derive(Debug, Clone, PartialEq, Eq)]
pub enum TxError {
    /// Recipients plus fee need more than the outputs being spent hold.
    InsufficientFunds,
    /// The address cannot be turned into a locking script.
    AddressEncoding(String),
    /// The signing key is not a valid secret key.
    Signing,
    /// An output reference does not name a 32-byte transaction id.
    MalformedUtxo,
}

/// What an unspent output reference holds, as plain values.
pub ghost struct UtxoView {
    pub value: u64,
    pub txid: Seq<u8>,
    pub vout: u32,
    pub sequence: u32,
    pub witness: Seq<Seq<u8>>,
}

/// What a transaction input holds, as plain values.
pub ghost struct InputView {
    pub txid: Seq<u8>,
    pub vout: u32,
    pub sequence: u32,
    pub witness: Seq<Seq<u8>>,
    pub script_sig: Seq<u8>,
}

/// What a transaction output holds, as plain values.
pub ghost struct OutputView {
    pub value: u64,
    pub script_pubkey: Seq<u8>,
}

/// What a transaction holds, as plain values.
pub ghost struct TxView {
    pub version: i32,
    pub lock_time: u32,
    pub inputs: Seq<InputView>,
    pub outputs: Seq<OutputView>,
}

/// A build error, with the offending address as characters.
pub ghost enum TxErrorView {
    InsufficientFunds,
    AddressEncoding(Seq<char>),
    Signing,
    MalformedUtxo,
}

/// The byte strings of a list, as sequences.
pub open spec fn bytes_items_view(s: Seq<Vec<u8>>) -> Seq<Seq<u8>> {
    Seq::new(s.len(), |k: int| s[k]@)
}

/// A witness stack, as sequences of bytes.
pub open spec fn witness_view(w: Vec<Vec<u8>>) -> Seq<Seq<u8>> {
    bytes_items_view(w@)
}

/// Each output reference of a list, viewed.
pub open spec fn utxo_views(s: Seq<UtxoAndValue>) -> Seq<UtxoView> {
    Seq::new(s.len(), |k: int| s[k]@)
}

/// Each input of a list, viewed.
pub open spec fn input_views(s: Seq<TxInput>) -> Seq<InputView> {
    Seq::new(s.len(), |k: int| s[k]@)
}

/// Each output of a list, viewed.
pub open spec fn output_views(s: Seq<TxOutput>) -> Seq<OutputView> {
    Seq::new(s.len(), |k: int| s[k]@)
}

impl View for UtxoAndValue {
    type V = UtxoView;

    open spec fn view(&self) -> UtxoView {
        UtxoView {
            value: self.value,
            txid: self.txid@,
            vout: self.vout,
            sequence: self.sequence,
            witness: witness_view(self.witness),
        }
    }
}

impl View for TxInput {
    type V = InputView;

    open spec fn view(&self) -> InputView {
        InputView {
            txid: self.txid@,
            vout: self.vout,
            sequence: self.sequence,
            witness: witness_view(self.witness),
            script_sig: self.script_sig@,
        }
    }
}

impl View for TxOutput {
    type V = OutputView;

    open spec fn view(&self) -> OutputView {
        OutputView { value: self.value, script_pubkey: self.script_pubkey@ }
    }
}

impl View for Transaction {
    type V = TxView;

    open spec fn view(&self) -> TxView {
        TxView {
            version: self.version,
            lock_time: self.lock_time,
            inputs: input_views(self.inputs@),
            outputs: output_views(self.outputs@),
        }
    }
}

impl View for TxError {
    type V = TxErrorView;

    open spec fn view(&self) -> TxErrorView {
        match self {
            TxError::InsufficientFunds => TxErrorView::InsufficientFunds,
            TxError::AddressEncoding(a) => TxErrorView::AddressEncoding(a@),
            TxError::Signing => TxErrorView::Signing,
            TxError::MalformedUtxo => TxErrorView::MalformedUtxo,
        }
    }
}

/// Copies a byte string.
pub fn copy_bytes(b: &Vec<u8>) -> (r: Vec<u8>)
    ensures
        r@ == b@,
{
    let mut r: Vec<u8> = Vec::new();
    let mut i: usize = 0;
    while i < b.len()
        invariant
            i <= b.len(),
            r@ == b@.subrange(0, i as int),
        decreases b.len() - i,
    {
        r.push(b[i]);
        i = i + 1;
    }
    assert(r@ =~= b@);
    r
}

/// Copies a witness stack, item by item.
pub fn copy_witness(w: &Vec<Vec<u8>>) -> (r: Vec<Vec<u8>>)
    ensures
        witness_view(r) == witness_view(*w),
{
    let mut r: Vec<Vec<u8>> = Vec::new();
    let mut i: usize = 0;
    while i < w.len()
        invariant
            i <= w.len(),
            r.len() == i,
            forall|k: int| 0 <= k < i ==> (#[trigger] r@[k])@ == w@[k]@,
        decreases w.len() - i,
    {
        let item = copy_bytes(&w[i]);
        r.push(item);
        i = i + 1;
    }
    assert(witness_view(r) =~= witness_view(*w));
    r
}

} // verus!
