use crate::types::{Transaction, TxView};
use vstd::prelude::*;

verus! {

/// The locking script of an address, or `None` when it does not parse.
pub uninterp spec fn address_script(address: Seq<char>) -> Option<Seq<u8>>;

/// The legacy signature hash of one input of a transaction under a script.
pub uninterp spec fn legacy_sighash(tx: TxView, index: int, script: Seq<u8>, hash_type: u32) -> Seq<u8>;

/// The DER encoding of the deterministic ECDSA signature of a digest.
pub uninterp spec fn ecdsa_der_signature(key: Seq<u8>, digest: Seq<u8>) -> Seq<u8>;

/// Double SHA-256 of a byte string.
pub uninterp spec fn sha256d_of(data: Seq<u8>) -> Seq<u8>;

/// Big-endian value of a byte string.
pub open spec fn be_value(b: Seq<u8>) -> nat
    decreases b.len(),
{
    if b.len() == 0 {
        0
    } else {
        be_value(b.drop_last()) * 256 + b.last() as nat
    }
}

/// Order of the secp256k1 group.
pub open spec fn curve_order() -> nat {
    let high: nat = 0xFFFF_FFFF_FFFF_FFFF_FFFF_FFFF_FFFF_FFFE;
    let low: nat = 0xBAAE_DCE6_AF48_A03B_BFD2_5E8C_D036_4141;
    high * 0x1_0000_0000_0000_0000 * 0x1_0000_0000_0000_0000 + low
}

/// A secret key is 32 big-endian bytes naming a nonzero scalar below the group order.
pub open spec fn valid_secret_key(key: Seq<u8>) -> bool {
    key.len() == 32 && 0 < be_value(key) < curve_order()
}

/// The opcode bytes that introduce a data push of `n` bytes.
pub open spec fn push_prefix(n: nat) -> Seq<u8> {
    if n < 0x4c {
        seq![n as u8]
    } else if n < 0x100 {
        seq![0x4cu8, n as u8]
    } else if n < 0x10000 {
        seq![0x4du8, (n % 0x100) as u8, (n / 0x100) as u8]
    } else {
        seq![
            0x4eu8,
            (n % 0x100) as u8,
            ((n / 0x100) % 0x100) as u8,
            ((n / 0x10000) % 0x100) as u8,
            (n / 0x1000000) as u8,
        ]
    }
}

/// A script element that pushes `data` onto the stack.
pub open spec fn push_data(data: Seq<u8>) -> Seq<u8> {
    push_prefix(data.len()) + data
}

/// Relies on `bitcoin::Address::from_str` and `Address::script_pubkey`: an
/// address string either parses and has one locking script, or is refused.
#[verifier::external_body]
pub(crate) fn address_to_script(address: &str) -> (r: Option<Vec<u8>>)
    ensures
        r is Some <==> address_script(address@) is Some,
        r matches Some(s) ==> address_script(address@) == Some(s@),
{
    match address.parse::<bitcoin::Address>() {
        Ok(a) => Some(a.script_pubkey().into_bytes()),
        Err(_) => None,
    }
}

/// Relies on `bitcoin::blockdata::script::Builder::push_slice`: appends the
/// push opcode for the length of `data`, then `data`; it panics from 2^32 bytes on.
#[verifier::external_body]
pub(crate) fn push_slice(script: Vec<u8>, data: &[u8]) -> (r: Vec<u8>)
    requires
        data@.len() < 0x1_0000_0000,
    ensures
        r@ == script@ + push_data(data@),
{
    bitcoin::blockdata::script::Builder::from(script).push_slice(data).into_script().into_bytes()
}

/// Relies on `bitcoin::Transaction::signature_hash`, which panics when `index`
/// is not below the input count; the digest is a 32-byte double SHA-256.
#[verifier::external_body]
pub(crate) fn signature_hash(tx: &Transaction, index: usize, script: &Vec<u8>, hash_type: u32) -> (r: Vec<u8>)
    requires
        index < tx.inputs.len(),
        forall|i: int| 0 <= i < tx.inputs.len() ==> #[trigger] tx.inputs[i].txid@.len() == 32,
    ensures
        r@ == legacy_sighash(tx@, index as int, script@, hash_type),
        r@.len() == 32,
{
    let t = bitcoin::Transaction {
        version: tx.version,
        lock_time: tx.lock_time,
        input: tx.inputs.iter().map(|i| bitcoin::TxIn {
            previous_output: bitcoin::OutPoint::new(<bitcoin::Txid as bitcoin::hashes::Hash>::from_slice(&i.txid).unwrap(), i.vout),
            script_sig: bitcoin::Script::from(i.script_sig.clone()),
            sequence: i.sequence,
            witness: i.witness.clone(),
        }).collect(),
        output: tx.outputs.iter().map(|o| bitcoin::TxOut { value: o.value, script_pubkey: bitcoin::Script::from(o.script_pubkey.clone()) }).collect(),
    };
    bitcoin::hashes::Hash::into_inner(t.signature_hash(index, &bitcoin::Script::from(script.clone()), hash_type)).to_vec()
}

/// Relies on `secp256k1::SecretKey::from_slice`: it accepts 32 bytes that
/// encode a nonzero scalar below the group order.
#[verifier::external_body]
pub(crate) fn is_valid_secret_key(key: &Vec<u8>) -> (r: bool)
    ensures
        r == valid_secret_key(key@),
{
    bitcoin::secp256k1::SecretKey::from_slice(key).is_ok()
}

/// Relies on `secp256k1::Secp256k1::sign` (RFC 6979 nonces, so the result
/// depends on key and digest alone) and `Signature::serialize_der`, whose
/// encoding has at most 72 bytes.
#[verifier::external_body]
pub(crate) fn sign_digest(key: &Vec<u8>, digest: &Vec<u8>) -> (r: Vec<u8>)
    requires
        valid_secret_key(key@),
        digest@.len() == 32,
    ensures
        r@ == ecdsa_der_signature(key@, digest@),
        r@.len() <= 72,
{
    let sk = bitcoin::secp256k1::SecretKey::from_slice(key).unwrap();
    let msg = bitcoin::secp256k1::Message::from_slice(digest).unwrap();
    bitcoin::secp256k1::Secp256k1::new().sign(&msg, &sk).serialize_der().to_vec()
}

/// Relies on `bitcoin::hashes::sha256d::Hash::hash`: 32 bytes of double SHA-256.
#[verifier::external_body]
pub(crate) fn sha256d(data: &Vec<u8>) -> (r: Vec<u8>)
    ensures
        r@ == sha256d_of(data@),
        r@.len() == 32,
{
    let h = <bitcoin::hashes::sha256d::Hash as bitcoin::hashes::Hash>::hash(data);
    bitcoin::hashes::Hash::into_inner(h).to_vec()
}

} // verus!
