use vstd::prelude::*;

use crate::encoding::{hex_bytes_of, hex_valid, raw_tx_bytes_from_hex};
use crate::errors::{ErrorKind, WalletError};
use crate::network::NetworkType;

use bdk::bitcoin::consensus::encode::deserialize;
use bitcoin_hashes::hex::ToHex;

verus! {

/// One output of a wallet transaction, as the history listing sees it:
/// its resolved address (empty where the script resolves to none) and
/// whether it belongs to the wallet.
#[derive(Debug)]
pub struct TxOutputEntry {
    pub address: String,
    pub mine: bool,
}

/// Whether an output can stand for the transaction in a history listing:
/// it must have resolved to an address, and lie on the side the money
/// moved — an owned output of a receiving transaction, or a foreign
/// output of a sending one.
pub open spec fn display_candidate(o: TxOutputEntry, received: u64, sent: u64) -> bool {
    o.address@.len() > 0 && ((o.mine && received > 0) || (!o.mine && sent > 0))
}

/// The address shown for a transaction: that of its first display
/// candidate, or empty where none qualifies.
pub open spec fn pick_display_address(s: Seq<TxOutputEntry>, received: u64, sent: u64) -> Seq<char>
    decreases s.len(),
{
    if s.len() == 0 {
        Seq::<char>::empty()
    } else if display_candidate(s[0], received, sent) {
        s[0].address@
    } else {
        pick_display_address(s.drop_first(), received, sent)
    }
}

/// Picks the address a history listing shows for a transaction.
pub fn display_address(outputs: &Vec<TxOutputEntry>, received: u64, sent: u64) -> (r: String)
    ensures
        r@ == pick_display_address(outputs@, received, sent),
{
    let n = outputs.len();
    let mut i: usize = 0;
    proof {
        assert(outputs@.skip(0) =~= outputs@);
    }
    while i < n
        invariant
            i <= n,
            n == outputs@.len(),
            pick_display_address(outputs@, received, sent) == pick_display_address(
                outputs@.skip(i as int),
                received,
                sent,
            ),
        decreases n - i,
    {
        let o = &outputs[i];
        if !o.address.as_str().is_empty() && ((o.mine && received > 0) || (!o.mine && sent > 0)) {
            return o.address.clone();
        }
        proof {
            assert(outputs@.skip(i as int).drop_first() =~= outputs@.skip(i + 1 as int));
        }
        i = i + 1;
    }
    proof {
        assert(outputs@.skip(n as int) =~= Seq::<TxOutputEntry>::empty());
    }
    String::new()
}

/// One confirmed or pending wallet transaction, reconciled for display.
#[derive(Debug)]
pub struct TransactionRecord {
    pub txid: String,
    pub received: u64,
    pub sent: u64,
    pub fee: u64,
    pub confirmation_height: u32,
    pub confirmation_time: u64,
    pub outputs: Vec<String>,
    pub inputs: Vec<String>,
    pub address: String,
}

/// Assembles the history record of one transaction: an unknown fee reads
/// as 0, a pending transaction reads as height and time 0, and the shown
/// address is the first display candidate among the outputs.
pub fn transaction_record(
    txid: String,
    received: u64,
    sent: u64,
    fee: Option<u64>,
    confirmation: Option<(u32, u64)>,
    outputs: Vec<TxOutputEntry>,
    input_txids: Vec<String>,
) -> (r: TransactionRecord)
    ensures
        r.txid == txid,
        r.received == received,
        r.sent == sent,
        r.fee == (match fee {
            Some(f) => f,
            None => 0u64,
        }),
        r.confirmation_height == (match confirmation {
            Some(c) => c.0,
            None => 0u32,
        }),
        r.confirmation_time == (match confirmation {
            Some(c) => c.1,
            None => 0u64,
        }),
        r.address@ == pick_display_address(outputs@, received, sent),
        r.outputs@.len() == outputs@.len(),
        forall|i: int| 0 <= i < outputs@.len() ==> r.outputs@[i]@ == outputs@[i].address@,
        r.inputs == input_txids,
{
    let address = display_address(&outputs, received, sent);
    let (confirmation_height, confirmation_time) = match confirmation {
        Some(c) => c,
        None => (0, 0),
    };
    let fee_value = match fee {
        Some(f) => f,
        None => 0,
    };
    let n = outputs.len();
    let mut output_addresses: Vec<String> = Vec::new();
    let mut i: usize = 0;
    while i < n
        invariant
            i <= n,
            n == outputs@.len(),
            output_addresses@.len() == i,
            forall|k: int| 0 <= k < i ==> output_addresses@[k]@ == outputs@[k].address@,
        decreases n - i,
    {
        output_addresses.push(outputs[i].address.clone());
        i = i + 1;
    }
    TransactionRecord {
        txid,
        received,
        sent,
        fee: fee_value,
        confirmation_height,
        confirmation_time,
        outputs: output_addresses,
        inputs: input_txids,
        address,
    }
}

/// One output of a decoded raw transaction: its value and its resolved
/// address, empty for scripts that resolve to none.
#[derive(Debug)]
pub struct RawTxOutput {
    pub amount: u64,
    pub address: String,
}

/// One input of a decoded raw transaction: the previous output it spends.
#[derive(Debug)]
pub struct RawTxInput {
    pub previous_output: String,
    pub previous_output_index: u32,
}

/// A decoded raw transaction, without any wallet context.
#[derive(Debug)]
pub struct RawTransactionRecord {
    pub version: i32,
    pub outputs: Vec<RawTxOutput>,
    pub inputs: Vec<RawTxInput>,
}

/// Whether a byte string deserializes as a Bitcoin transaction under
/// consensus encoding.
pub uninterp spec fn tx_decodes(bytes: Seq<u8>) -> bool;

/// The decoded transaction's protocol version.
pub uninterp spec fn tx_version_of(bytes: Seq<u8>) -> i32;

/// The decoded transaction's outputs: value and script bytes, in order.
pub uninterp spec fn tx_outputs_of(bytes: Seq<u8>) -> Seq<(u64, Seq<u8>)>;

/// The decoded transaction's inputs: previous-output transaction id (as
/// hex text) and output index, in order.
pub uninterp spec fn tx_inputs_of(bytes: Seq<u8>) -> Seq<(Seq<char>, u32)>;

/// The network-scoped address a script resolves to, if any.
pub uninterp spec fn script_addr_of(script: Seq<u8>, network: NetworkType) -> Option<Seq<char>>;

/// Relies on rust-bitcoin's consensus decoding of transactions: it is a
/// function of the bytes alone, failing exactly on byte strings that are
/// no transaction; the fields are moved out one for one.
#[verifier::external_body]
fn decode_consensus_tx(bytes: &Vec<u8>) -> (r: Result<
    (i32, Vec<(u64, Vec<u8>)>, Vec<(String, u32)>),
    WalletError,
>)
    ensures
        r is Ok <==> tx_decodes(bytes@),
        r matches Ok(t) ==> {
            &&& t.0 == tx_version_of(bytes@)
            &&& t.1@.len() == tx_outputs_of(bytes@).len()
            &&& forall|i: int|
                0 <= i < t.1@.len() ==> (#[trigger] t.1@[i]).0 == tx_outputs_of(bytes@)[i].0
                    && t.1@[i].1@ == tx_outputs_of(bytes@)[i].1
            &&& t.2@.len() == tx_inputs_of(bytes@).len()
            &&& forall|i: int|
                0 <= i < t.2@.len() ==> (#[trigger] t.2@[i]).0@ == tx_inputs_of(bytes@)[i].0
                    && t.2@[i].1 == tx_inputs_of(bytes@)[i].1
        },
        r matches Err(e) ==> e.kind == ErrorKind::InvalidInput,
{
    let tx: bdk::bitcoin::Transaction = deserialize(bytes)
        .map_err(|e| WalletError::new(ErrorKind::InvalidInput, e.to_string()))?;
    let outputs = tx.output.iter().map(|o| (o.value, o.script_pubkey.to_bytes())).collect();
    let inputs = tx
        .input
        .iter()
        .map(|i| (i.previous_output.txid.to_hex(), i.previous_output.vout))
        .collect();
    Ok((tx.version, outputs, inputs))
}

/// Relies on rust-bitcoin's Address::from_script and its Display: the
/// resolved address is a function of the script bytes and the network,
/// and resolution fails exactly on scripts that carry no address
/// (non-standard or OP_RETURN).
#[verifier::external_body]
fn address_for_script(script: &Vec<u8>, network: NetworkType) -> (r: Option<String>)
    ensures
        r matches Some(a) ==> script_addr_of(script@, network) == Some(a@),
        r is None ==> script_addr_of(script@, network) is None,
{
    let net = match network {
        NetworkType::Mainnet => bdk::bitcoin::Network::Bitcoin,
        NetworkType::Testnet => bdk::bitcoin::Network::Testnet,
        NetworkType::Signet => bdk::bitcoin::Network::Signet,
        NetworkType::Regtest => bdk::bitcoin::Network::Regtest,
    };
    let script = bdk::bitcoin::Script::from(script.clone());
    match bdk::bitcoin::Address::from_script(&script, net) {
        Ok(a) => Some(a.to_string()),
        Err(_) => None,
    }
}

/// The address text a resolved script shows: the address, or empty where
/// the script resolves to none.
pub open spec fn resolved_or_empty(resolved: Option<Seq<char>>) -> Seq<char> {
    match resolved {
        Some(a) => a,
        None => Seq::<char>::empty(),
    }
}

/// Decodes an arbitrary raw hex transaction without wallet context: its
/// version, each output with its value and its network-scoped address
/// (empty for scripts that resolve to none), and each input's
/// previous-output id and index.
pub fn decode_raw_transaction(raw_tx_hex: &str, network: NetworkType) -> (r: Result<
    RawTransactionRecord,
    WalletError,
>)
    ensures
        r is Ok <==> (hex_valid(raw_tx_hex@) && tx_decodes(hex_bytes_of(raw_tx_hex@))),
        r matches Ok(t) ==> {
            let bytes = hex_bytes_of(raw_tx_hex@);
            &&& t.version == tx_version_of(bytes)
            &&& t.outputs@.len() == tx_outputs_of(bytes).len()
            &&& forall|i: int|
                0 <= i < t.outputs@.len() ==> (#[trigger] t.outputs@[i]).amount == tx_outputs_of(
                    bytes,
                )[i].0 && t.outputs@[i].address@ == resolved_or_empty(
                    script_addr_of(tx_outputs_of(bytes)[i].1, network),
                )
            &&& t.inputs@.len() == tx_inputs_of(bytes).len()
            &&& forall|i: int|
                0 <= i < t.inputs@.len() ==> (#[trigger] t.inputs@[i]).previous_output@
                    == tx_inputs_of(bytes)[i].0 && t.inputs@[i].previous_output_index
                    == tx_inputs_of(bytes)[i].1
        },
        r matches Err(e) ==> e.kind == ErrorKind::InvalidInput,
{
    let bytes = raw_tx_bytes_from_hex(raw_tx_hex)?;
    let decoded = decode_consensus_tx(&bytes)?;
    let (version, raw_outputs, raw_inputs) = decoded;

    let n_out = raw_outputs.len();
    let mut outputs: Vec<RawTxOutput> = Vec::new();
    let mut i: usize = 0;
    while i < n_out
        invariant
            i <= n_out,
            n_out == raw_outputs@.len(),
            bytes@ == hex_bytes_of(raw_tx_hex@),
            raw_outputs@.len() == tx_outputs_of(bytes@).len(),
            forall|k: int|
                0 <= k < n_out ==> (#[trigger] raw_outputs@[k]).0 == tx_outputs_of(bytes@)[k].0
                    && raw_outputs@[k].1@ == tx_outputs_of(bytes@)[k].1,
            outputs@.len() == i,
            forall|k: int|
                0 <= k < i ==> (#[trigger] outputs@[k]).amount == tx_outputs_of(bytes@)[k].0
                    && outputs@[k].address@ == resolved_or_empty(
                    script_addr_of(tx_outputs_of(bytes@)[k].1, network),
                ),
        decreases n_out - i,
    {
        let item = &raw_outputs[i];
        let address = address_or_empty(address_for_script(&item.1, network));
        outputs.push(RawTxOutput { amount: item.0, address });
        i = i + 1;
    }

    let n_in = raw_inputs.len();
    let mut inputs: Vec<RawTxInput> = Vec::new();
    let mut j: usize = 0;
    while j < n_in
        invariant
            j <= n_in,
            n_in == raw_inputs@.len(),
            bytes@ == hex_bytes_of(raw_tx_hex@),
            raw_inputs@.len() == tx_inputs_of(bytes@).len(),
            forall|k: int|
                0 <= k < n_in ==> (#[trigger] raw_inputs@[k]).0@ == tx_inputs_of(bytes@)[k].0
                    && raw_inputs@[k].1 == tx_inputs_of(bytes@)[k].1,
            inputs@.len() == j,
            forall|k: int|
                0 <= k < j ==> (#[trigger] inputs@[k]).previous_output@ == tx_inputs_of(
                    bytes@,
                )[k].0 && inputs@[k].previous_output_index == tx_inputs_of(bytes@)[k].1,
        decreases n_in - j,
    {
        let item = &raw_inputs[j];
        inputs.push(
            RawTxInput { previous_output: item.0.clone(), previous_output_index: item.1 },
        );
        j = j + 1;
    }

    Ok(RawTransactionRecord { version, outputs, inputs })
}

/// The address text shown for a script: the resolved address, or empty
/// where the script does not resolve to one (non-standard or OP_RETURN).
pub fn address_or_empty(resolved: Option<String>) -> (r: String)
    ensures
        resolved matches Some(a) ==> r == a,
        resolved is None ==> r@ == Seq::<char>::empty(),
{
    match resolved {
        Some(a) => a,
        None => String::new(),
    }
}

} // verus!
