use crate::btc::{sha256d, sha256d_of};
use crate::tx_builder::{
    build_spec, create_signed_raw_btc_tx_for_n_input_n_outputs, lemma_utxos_total_prefix,
    utxos_total,
};
use crate::types::{
    copy_bytes, copy_witness, utxo_views, BtcPrivateKey, Transaction, TxError, TxView, UtxoAndValue,
};
use vstd::prelude::*;
use vstd::string::StringExecFns;

verus! {

/// One unspent output as listed by a block explorer.
pub struct UtxoInfo {
    pub txid: String,
    pub vout: u32,
    pub value: u64,
}

/// What the steps of a spend know so far.
pub struct State {
    pub api_endpoint: String,
    pub cli_btc_address: String,
    pub eth_address_nonces: Vec<u64>,
    pub btc_address: Option<String>,
    pub eth_address_bytes: Option<Vec<u8>>,
    pub utxos_info: Option<Vec<UtxoInfo>>,
    pub eth_address_and_nonce_hash: Option<Vec<u8>>,
    pub sats_per_byte: u64,
    pub addresses_and_amounts: Vec<(String, u64)>,
    pub change_address: String,
    pub btc_private_key: Option<BtcPrivateKey>,
    pub btc_utxos_and_values: Option<Vec<UtxoAndValue>>,
    pub btc_script: Option<Vec<u8>>,
    pub btc_tx: Option<Transaction>,
}

/// Why a step could not go on.
#[derive(Debug, Clone, PartialEq, Eq)]
pub enum StateError {
    MissingBtcAddress,
    MissingEthAddress,
    MissingNonce,
    MissingPrivateKey,
    MissingUtxos,
    MissingScript,
    UtxosAlreadyInState,
    HashAlreadyInState,
    TxAlreadyInState,
    /// The outputs' values overflow a `u64`, or the redeem script is too
    /// long to push.
    TooLarge,
    Tx(TxError),
}

impl State {
    /// A state that knows only the explorer endpoint and the command line.
    pub fn init(
        api_endpoint: String,
        cli_btc_address: String,
        eth_address_nonces: Vec<u64>,
        sats_per_byte: u64,
        addresses_and_amounts: Vec<(String, u64)>,
        change_address: String,
    ) -> (r: State)
        ensures
            r == (State {
                api_endpoint,
                cli_btc_address,
                eth_address_nonces,
                btc_address: None,
                eth_address_bytes: None,
                utxos_info: None,
                eth_address_and_nonce_hash: None,
                sats_per_byte,
                addresses_and_amounts,
                change_address,
                btc_private_key: None,
                btc_utxos_and_values: None,
                btc_script: None,
                btc_tx: None,
            }),
    {
        State {
            api_endpoint,
            cli_btc_address,
            eth_address_nonces,
            btc_address: None,
            eth_address_bytes: None,
            utxos_info: None,
            eth_address_and_nonce_hash: None,
            sats_per_byte,
            addresses_and_amounts,
            change_address,
            btc_private_key: None,
            btc_utxos_and_values: None,
            btc_script: None,
            btc_tx: None,
        }
    }

    /// The address whose outputs are spent, once it is known.
    pub fn get_btc_address(&self) -> (r: Result<String, StateError>)
        ensures
            r matches Ok(a) ==> self.btc_address == Some(a),
            r matches Err(e) ==> self.btc_address is None && e == StateError::MissingBtcAddress,
    {
        match &self.btc_address {
            Some(a) => Ok(a.clone()),
            None => Err(StateError::MissingBtcAddress),
        }
    }

    /// Records the unspent outputs; they may be recorded once.
    pub fn add_utxos_info(self, utxos_info: Vec<UtxoInfo>) -> (r: Result<State, StateError>)
        ensures
            r matches Ok(s) ==> self.utxos_info is None && s == (State {
                utxos_info: Some(utxos_info),
                ..self
            }),
            r matches Err(e) ==> self.utxos_info is Some && e == StateError::UtxosAlreadyInState,
    {
        if self.utxos_info.is_some() {
            return Err(StateError::UtxosAlreadyInState);
        }
        Ok(State { utxos_info: Some(utxos_info), ..self })
    }

    /// Records the hash of the Ethereum address and nonce; it may be recorded once.
    pub fn add_eth_address_and_nonce_hash(self, hash: Vec<u8>) -> (r: Result<State, StateError>)
        ensures
            r matches Ok(s) ==> self.eth_address_and_nonce_hash is None && s == (State {
                eth_address_and_nonce_hash: Some(hash),
                ..self
            }),
            r matches Err(e) ==> self.eth_address_and_nonce_hash is Some && e
                == StateError::HashAlreadyInState,
    {
        if self.eth_address_and_nonce_hash.is_some() {
            return Err(StateError::HashAlreadyInState);
        }
        Ok(State { eth_address_and_nonce_hash: Some(hash), ..self })
    }
}

/// The explorer path that lists the unspent outputs of an address.
pub open spec fn utxo_info_url_spec(address: Seq<char>, api_endpoint: Seq<char>) -> Seq<char> {
    api_endpoint + "address/"@ + address + "/utxo"@
}

/// Builds the explorer path that lists the unspent outputs of `address`.
pub fn get_utxo_info_url(address: &String, api_endpoint: &String) -> (r: String)
    ensures
        r@ == utxo_info_url_spec(address@, api_endpoint@),
{
    proof {
        reveal_strlit("address/");
        reveal_strlit("/utxo");
    }
    let mut r = api_endpoint.clone();
    r.append("address/");
    r.append(address.as_str());
    r.append("/utxo");
    r
}

/// Records the unspent outputs of the address known to the state, which
/// were fetched for that address.
pub fn get_utxos_info_and_add_to_state(state: State, utxos_info: Vec<UtxoInfo>) -> (r: Result<
    State,
    StateError,
>)
    ensures
        r matches Ok(s) ==> state.btc_address is Some && state.utxos_info is None && s == (State {
            utxos_info: Some(utxos_info),
            ..state
        }),
        r matches Err(e) ==> if state.btc_address is None {
            e == StateError::MissingBtcAddress
        } else {
            state.utxos_info is Some && e == StateError::UtxosAlreadyInState
        },
{
    if state.btc_address.is_none() {
        return Err(StateError::MissingBtcAddress);
    }
    state.add_utxos_info(utxos_info)
}

/// Records the unspent outputs fetched for the address given on the
/// command line.
pub fn get_utxos_info_for_address_in_cli_args_and_add_to_state(
    state: State,
    utxos_info: Vec<UtxoInfo>,
) -> (r: Result<State, StateError>)
    ensures
        r matches Ok(s) ==> state.utxos_info is None && s == (State {
            utxos_info: Some(utxos_info),
            ..state
        }),
        r matches Err(e) ==> state.utxos_info is Some && e == StateError::UtxosAlreadyInState,
{
    state.add_utxos_info(utxos_info)
}

/// The eight big-endian bytes of `n`.
pub open spec fn u64_be_bytes(n: u64) -> Seq<u8> {
    seq![
        ((n / 0x100_0000_0000_0000) % 256) as u8,
        ((n / 0x1_0000_0000_0000) % 256) as u8,
        ((n / 0x100_0000_0000) % 256) as u8,
        ((n / 0x1_0000_0000) % 256) as u8,
        ((n / 0x100_0000) % 256) as u8,
        ((n / 0x1_0000) % 256) as u8,
        ((n / 0x100) % 256) as u8,
        (n % 256) as u8,
    ]
}

/// The eight big-endian bytes of `n`.
pub fn nonce_to_bytes(n: u64) -> (r: Vec<u8>)
    ensures
        r@ == u64_be_bytes(n),
{
    let mut r: Vec<u8> = Vec::new();
    r.push(((n / 0x100_0000_0000_0000) % 256) as u8);
    r.push(((n / 0x1_0000_0000_0000) % 256) as u8);
    r.push(((n / 0x100_0000_0000) % 256) as u8);
    r.push(((n / 0x1_0000_0000) % 256) as u8);
    r.push(((n / 0x100_0000) % 256) as u8);
    r.push(((n / 0x1_0000) % 256) as u8);
    r.push(((n / 0x100) % 256) as u8);
    r.push((n % 256) as u8);
    assert(r@ =~= u64_be_bytes(n));
    r
}

/// The hash that ties a deposit to an Ethereum address and a nonce: double
/// SHA-256 of the address bytes followed by the nonce's big-endian bytes.
pub open spec fn eth_address_and_nonce_hash_spec(eth_address: Seq<u8>, nonce: u64) -> Seq<u8> {
    sha256d_of(eth_address + u64_be_bytes(nonce))
}

/// Hashes an Ethereum address together with a nonce.
pub fn get_eth_address_and_nonce_hash(eth_address: &Vec<u8>, nonce: u64) -> (r: Vec<u8>)
    ensures
        r@ == eth_address_and_nonce_hash_spec(eth_address@, nonce),
        r@.len() == 32,
{
    let mut data = copy_bytes(eth_address);
    let mut nonce_bytes = nonce_to_bytes(nonce);
    data.append(&mut nonce_bytes);
    sha256d(&data)
}

/// Hashes the Ethereum address known to the state with the first nonce
/// given on the command line, and records the hash.
pub fn get_eth_address_and_nonce_hash_and_put_in_state(state: State) -> (r: Result<
    State,
    StateError,
>)
    ensures
        r matches Ok(s) ==> {
            &&& state.eth_address_bytes is Some
            &&& state.eth_address_nonces.len() > 0
            &&& state.eth_address_and_nonce_hash is None
            &&& s.eth_address_and_nonce_hash is Some
            &&& s.eth_address_and_nonce_hash->Some_0@ == eth_address_and_nonce_hash_spec(
                state.eth_address_bytes->Some_0@,
                state.eth_address_nonces[0],
            )
            &&& s == (State { eth_address_and_nonce_hash: s.eth_address_and_nonce_hash, ..state })
        },
        r matches Err(e) ==> if state.eth_address_bytes is None {
            e == StateError::MissingEthAddress
        } else if state.eth_address_nonces.len() == 0 {
            e == StateError::MissingNonce
        } else {
            state.eth_address_and_nonce_hash is Some && e == StateError::HashAlreadyInState
        },
{
    let hash = match &state.eth_address_bytes {
        None => return Err(StateError::MissingEthAddress),
        Some(eth) => {
            if state.eth_address_nonces.len() == 0 {
                return Err(StateError::MissingNonce);
            }
            get_eth_address_and_nonce_hash(eth, state.eth_address_nonces[0])
        },
    };
    state.add_eth_address_and_nonce_hash(hash)
}

/// A copy of the recipients and their amounts.
pub fn copy_recipients(r: &Vec<(String, u64)>) -> (c: Vec<(String, u64)>)
    ensures
        c@ == r@,
{
    let mut c: Vec<(String, u64)> = Vec::new();
    let mut i: usize = 0;
    while i < r.len()
        invariant
            i <= r.len(),
            c@ == r@.subrange(0, i as int),
        decreases r.len() - i,
    {
        c.push((r[i].0.clone(), r[i].1));
        i = i + 1;
        assert(c@ =~= r@.subrange(0, i as int));
    }
    assert(c@ =~= r@);
    c
}

/// A copy of the outputs being spent.
pub fn copy_utxos(u: &Vec<UtxoAndValue>) -> (c: Vec<UtxoAndValue>)
    ensures
        utxo_views(c@) == utxo_views(u@),
{
    let mut c: Vec<UtxoAndValue> = Vec::new();
    let mut i: usize = 0;
    while i < u.len()
        invariant
            i <= u.len(),
            c.len() == i,
            forall|k: int| 0 <= k < i ==> (#[trigger] c@[k])@ == u@[k]@,
        decreases u.len() - i,
    {
        let item = UtxoAndValue {
            value: u[i].value,
            txid: copy_bytes(&u[i].txid),
            vout: u[i].vout,
            sequence: u[i].sequence,
            witness: copy_witness(&u[i].witness),
        };
        c.push(item);
        i = i + 1;
    }
    assert(utxo_views(c@) =~= utxo_views(u@));
    c
}

/// Sums the values of the outputs being spent; `None` when the sum exceeds
/// `u64::MAX`.
pub fn checked_utxos_total(u: &Vec<UtxoAndValue>) -> (t: Option<u64>)
    ensures
        t is Some <==> utxos_total(utxo_views(u@)) <= u64::MAX,
        t matches Some(v) ==> v == utxos_total(utxo_views(u@)),
{
    let ghost views = utxo_views(u@);
    let mut acc: u64 = 0;
    let mut i: usize = 0;
    while i < u.len()
        invariant
            i <= u.len(),
            views == utxo_views(u@),
            acc == utxos_total(views.subrange(0, i as int)),
        decreases u.len() - i,
    {
        assert(views.subrange(0, i + 1).drop_last() =~= views.subrange(0, i as int));
        if acc > u64::MAX - u[i].value {
            proof {
                lemma_utxos_total_prefix(views, i + 1);
            }
            return None;
        }
        acc = acc + u[i].value;
        i = i + 1;
    }
    assert(views.subrange(0, i as int) =~= views);
    Some(acc)
}

/// The build that the state asks for: its fee rate, recipients and change
/// address, its key, outputs and redeem script, and no extra output.
pub open spec fn state_build_spec(state: State) -> Result<TxView, crate::types::TxErrorView> {
    build_spec(
        state.sats_per_byte,
        state.addresses_and_amounts@,
        state.change_address@,
        state.btc_private_key->Some_0.bytes@,
        utxo_views(state.btc_utxos_and_values->Some_0@),
        None,
        state.btc_script->Some_0@,
    )
}

/// The state holds what a build needs, within the limits a build can take.
pub open spec fn state_ready(state: State) -> bool {
    &&& state.btc_private_key is Some
    &&& state.btc_utxos_and_values is Some
    &&& state.btc_script is Some
    &&& utxos_total(utxo_views(state.btc_utxos_and_values->Some_0@)) <= u64::MAX
    &&& state.btc_script->Some_0@.len() < 0x1_0000_0000
    &&& state.addresses_and_amounts.len() < usize::MAX
}

/// Builds and signs the transaction that the state describes, and records it.
pub fn make_pbtc_tx_and_put_in_state(state: State) -> (r: Result<State, StateError>)
    ensures
        r matches Ok(s) ==> {
            &&& state_ready(state)
            &&& state.btc_tx is None
            &&& s.btc_tx is Some
            &&& state_build_spec(state) == Ok::<TxView, crate::types::TxErrorView>(
                s.btc_tx->Some_0@,
            )
            &&& s == (State { btc_tx: s.btc_tx, ..state })
        },
        r matches Err(e) ==> if state.btc_private_key is None {
            e == StateError::MissingPrivateKey
        } else if state.btc_utxos_and_values is None {
            e == StateError::MissingUtxos
        } else if state.btc_script is None {
            e == StateError::MissingScript
        } else if !state_ready(state) {
            e == StateError::TooLarge
        } else if state_build_spec(state) is Err {
            e matches StateError::Tx(te) && state_build_spec(state) == Err::<
                TxView,
                crate::types::TxErrorView,
            >(te@)
        } else {
            state.btc_tx is Some && e == StateError::TxAlreadyInState
        },
{
    let built = match (&state.btc_private_key, &state.btc_utxos_and_values, &state.btc_script) {
        (None, _, _) => return Err(StateError::MissingPrivateKey),
        (Some(_), None, _) => return Err(StateError::MissingUtxos),
        (Some(_), Some(_), None) => return Err(StateError::MissingScript),
        (Some(key), Some(utxos), Some(script)) => {
            if checked_utxos_total(utxos).is_none() || script.len() as u64 >= 0x1_0000_0000
                || state.addresses_and_amounts.len() == usize::MAX {
                return Err(StateError::TooLarge);
            }
            create_signed_raw_btc_tx_for_n_input_n_outputs(
                state.sats_per_byte,
                copy_recipients(&state.addresses_and_amounts),
                state.change_address.as_str(),
                key,
                copy_utxos(utxos),
                None,
                script,
            )
        },
    };
    match built {
        Err(e) => Err(StateError::Tx(e)),
        Ok(tx) => {
            if state.btc_tx.is_some() {
                return Err(StateError::TxAlreadyInState);
            }
            Ok(State { btc_tx: Some(tx), ..state })
        },
    }
}

} // verus!
