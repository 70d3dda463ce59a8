use vstd::prelude::*;

use crate::encoding::{
    b64_bytes_of, b64_of, b64_valid, base64_encode, hex_bytes_of, hex_encode, hex_of, hex_valid,
    psbt_bytes_from_base64,
};
use crate::errors::{ErrorKind, WalletError};

use bdk::bitcoin::consensus::encode::{deserialize, serialize};
use bdk::bitcoin::secp256k1::Secp256k1;
use bdk::bitcoin::util::psbt::PartiallySignedTransaction;
use bdk::miniscript::psbt::PsbtExt;
use bitcoin_hashes::hex::ToHex;

verus! {

/// One output of an extracted transaction: its value in satoshis and
/// whether its script belongs to the wallet.
#[derive(Clone, Copy, Debug, PartialEq, Eq, Structural)]
pub struct OutputInfo {
    pub value: u64,
    pub mine: bool,
}

/// A reconciled transaction-in-progress, as handed back to the caller.
#[derive(Debug)]
pub struct Psbt {
    pub sent: u64,
    pub received: u64,
    pub fee: u64,
    pub base64: String,
    pub txid: String,
    pub raw_tx: String,
}

/// The sum of the values of the outputs on the given side of the wallet
/// boundary: `mine` selects wallet-owned outputs.
pub open spec fn sum_outputs(s: Seq<OutputInfo>, mine: bool) -> int
    decreases s.len(),
{
    if s.len() == 0 {
        0
    } else {
        sum_outputs(s.drop_last(), mine) + if s.last().mine == mine {
            s.last().value as int
        } else {
            0
        }
    }
}

/// The sum of a sequence of satoshi values.
pub open spec fn sum_values(s: Seq<u64>) -> int
    decreases s.len(),
{
    if s.len() == 0 {
        0
    } else {
        sum_values(s.drop_last()) + s.last() as int
    }
}

/// The wallet's answer to "does this script belong to me", with a failed
/// lookup deliberately read as "not mine": misclassifying direction is
/// less harmful than aborting extraction.
pub fn classify_ownership(lookup: Option<bool>) -> (r: bool)
    ensures
        r == (lookup == Some(true)),
{
    match lookup {
        Some(b) => b,
        None => false,
    }
}

/// The value an input contributes: the value of its witness UTXO, or 0
/// where none is known.
pub fn witness_input_value(witness_utxo_value: Option<u64>) -> (r: u64)
    ensures
        r == (match witness_utxo_value {
            Some(v) => v,
            None => 0u64,
        }),
{
    match witness_utxo_value {
        Some(v) => v,
        None => 0,
    }
}

/// The sent, received and fee amounts of an extracted transaction.
#[derive(Clone, Copy, Debug, PartialEq, Eq, Structural)]
pub struct Amounts {
    pub sent: u64,
    pub received: u64,
    pub fee: u64,
}

/// Reconciles an extracted transaction: `sent` is the total of outputs
/// not owned by the wallet, `received` the total of owned outputs, and
/// `fee` what the inputs carry beyond the outputs. A transaction whose
/// outputs exceed its inputs is malformed and is rejected rather than
/// given a wrapped-around fee.
pub fn reconcile_amounts(outputs: &Vec<OutputInfo>, input_values: &Vec<u64>) -> (r: Result<
    Amounts,
    WalletError,
>)
    ensures
        r is Ok <==> (sum_values(input_values@) <= u64::MAX && sum_outputs(outputs@, false)
            + sum_outputs(outputs@, true) <= sum_values(input_values@)),
        r matches Ok(a) ==> a.sent == sum_outputs(outputs@, false) && a.received == sum_outputs(
            outputs@,
            true,
        ) && a.fee + a.sent + a.received == sum_values(input_values@),
        r matches Err(e) ==> e.kind == ErrorKind::InvalidInput,
{
    let n_out = outputs.len();
    let mut sent: u128 = 0;
    let mut received: u128 = 0;
    let mut i: usize = 0;
    while i < n_out
        invariant
            i <= n_out,
            n_out == outputs@.len(),
            sent == sum_outputs(outputs@.subrange(0, i as int), false),
            received == sum_outputs(outputs@.subrange(0, i as int), true),
            sent <= i * (u64::MAX as int),
            received <= i * (u64::MAX as int),
        decreases n_out - i,
    {
        let o = outputs[i];
        proof {
            assert(outputs@.subrange(0, i + 1 as int).drop_last() =~= outputs@.subrange(
                0,
                i as int,
            ));
            assert(sent + o.value <= (i + 1) * (u64::MAX as int));
            assert(received + o.value <= (i + 1) * (u64::MAX as int));
        }
        if o.mine {
            received = received + o.value as u128;
        } else {
            sent = sent + o.value as u128;
        }
        i = i + 1;
    }
    proof {
        assert(outputs@.subrange(0, outputs@.len() as int) =~= outputs@);
    }
    let n_in = input_values.len();
    let mut inputs_total: u128 = 0;
    let mut j: usize = 0;
    while j < n_in
        invariant
            j <= n_in,
            n_in == input_values@.len(),
            inputs_total == sum_values(input_values@.subrange(0, j as int)),
            inputs_total <= j * (u64::MAX as int),
        decreases n_in - j,
    {
        proof {
            assert(input_values@.subrange(0, j + 1 as int).drop_last() =~= input_values@.subrange(
                0,
                j as int,
            ));
            assert(inputs_total + input_values@[j as int] <= (j + 1) * (u64::MAX as int));
        }
        inputs_total = inputs_total + input_values[j] as u128;
        j = j + 1;
    }
    proof {
        assert(input_values@.subrange(0, input_values@.len() as int) =~= input_values@);
    }
    if inputs_total > u64::MAX as u128 {
        return Err(
            WalletError::new(
                ErrorKind::InvalidInput,
                "input values overflow a 64-bit satoshi amount".to_owned(),
            ),
        );
    }
    if sent > inputs_total {
        return Err(
            WalletError::new(
                ErrorKind::InvalidInput,
                "outputs exceed inputs: refusing a negative fee".to_owned(),
            ),
        );
    }
    let rest: u128 = inputs_total - sent;
    if received > rest {
        return Err(
            WalletError::new(
                ErrorKind::InvalidInput,
                "outputs exceed inputs: refusing a negative fee".to_owned(),
            ),
        );
    }
    let fee: u128 = rest - received;
    Ok(Amounts { sent: sent as u64, received: received as u64, fee: fee as u64 })
}

/// Assembles the caller-facing record of an extracted transaction:
/// reconciled amounts, the PSBT re-encoded as base64, the raw transaction
/// as hex, and its id.
pub fn psbt_record(
    outputs: &Vec<OutputInfo>,
    input_values: &Vec<u64>,
    psbt_bytes: &Vec<u8>,
    tx_bytes: &Vec<u8>,
    txid: String,
) -> (r: Result<Psbt, WalletError>)
    ensures
        r is Ok <==> (sum_values(input_values@) <= u64::MAX && sum_outputs(outputs@, false)
            + sum_outputs(outputs@, true) <= sum_values(input_values@)),
        r matches Ok(p) ==> {
            &&& p.sent == sum_outputs(outputs@, false)
            &&& p.received == sum_outputs(outputs@, true)
            &&& p.fee + p.sent + p.received == sum_values(input_values@)
            &&& p.base64@ == b64_of(psbt_bytes@)
            &&& b64_valid(p.base64@) && b64_bytes_of(p.base64@) == psbt_bytes@
            &&& p.raw_tx@ == hex_of(tx_bytes@)
            &&& hex_valid(p.raw_tx@) && hex_bytes_of(p.raw_tx@) == tx_bytes@
            &&& p.txid == txid
        },
        r matches Err(e) ==> e.kind == ErrorKind::InvalidInput,
{
    let amounts = reconcile_amounts(outputs, input_values)?;
    let base64 = base64_encode(psbt_bytes);
    let raw_tx = hex_encode(tx_bytes);
    Ok(
        Psbt {
            sent: amounts.sent,
            received: amounts.received,
            fee: amounts.fee,
            base64,
            txid,
            raw_tx,
        },
    )
}

/// Whether a byte string deserializes as a PSBT.
pub uninterp spec fn psbt_decodes(bytes: Seq<u8>) -> bool;

/// Whether a PSBT, given by its serialized bytes, finalizes under a
/// verification-only context.
pub uninterp spec fn psbt_finalizes(bytes: Seq<u8>) -> bool;

/// The finalized PSBT, re-serialized.
pub uninterp spec fn finalized_psbt_bytes_of(bytes: Seq<u8>) -> Seq<u8>;

/// The serialized transaction extracted from the finalized PSBT.
pub uninterp spec fn finalized_tx_bytes_of(bytes: Seq<u8>) -> Seq<u8>;

/// The extracted transaction's id, as hex text.
pub uninterp spec fn finalized_txid_of(bytes: Seq<u8>) -> Seq<char>;

/// The extracted transaction's outputs: value and script bytes, in order.
pub uninterp spec fn finalized_outputs_of(bytes: Seq<u8>) -> Seq<(u64, Seq<u8>)>;

/// The witness-UTXO value of each PSBT input, in order; absent where no
/// witness UTXO is known.
pub uninterp spec fn psbt_witness_values_of(bytes: Seq<u8>) -> Seq<Option<u64>>;

/// A decoded and finalized PSBT, reduced to plain values: its re-encoded
/// forms, its transaction id, its outputs as (value, script bytes), and
/// its inputs' witness values.
#[derive(Debug)]
pub struct FinalizedPsbt {
    pub psbt_bytes: Vec<u8>,
    pub tx_bytes: Vec<u8>,
    pub txid: String,
    pub outputs: Vec<(u64, Vec<u8>)>,
    pub witness_values: Vec<Option<u64>>,
}

/// What it means for a record to be the finalized decode of the given
/// serialized PSBT: every field is the named function of those bytes.
pub open spec fn is_finalized_decode_of(f: FinalizedPsbt, bytes: Seq<u8>) -> bool {
    &&& f.psbt_bytes@ == finalized_psbt_bytes_of(bytes)
    &&& f.tx_bytes@ == finalized_tx_bytes_of(bytes)
    &&& f.txid@ == finalized_txid_of(bytes)
    &&& f.outputs@.len() == finalized_outputs_of(bytes).len()
    &&& forall|i: int|
        0 <= i < f.outputs@.len() ==> (#[trigger] f.outputs@[i]).0 == finalized_outputs_of(
            bytes,
        )[i].0 && f.outputs@[i].1@ == finalized_outputs_of(bytes)[i].1
    &&& f.witness_values@ == psbt_witness_values_of(bytes)
}

/// Relies on rust-bitcoin's consensus decoding of PSBTs and miniscript's
/// verification-only finalization: both are functions of the serialized
/// bytes alone, the first failing exactly on bytes that are no PSBT, the
/// second exactly on PSBTs whose inputs cannot be finalized.
#[verifier::external_body]
fn finalize_psbt_bytes(bytes: &Vec<u8>) -> (r: Result<FinalizedPsbt, WalletError>)
    ensures
        r is Ok <==> (psbt_decodes(bytes@) && psbt_finalizes(bytes@)),
        r matches Ok(f) ==> {
            &&& f.psbt_bytes@ == finalized_psbt_bytes_of(bytes@)
            &&& f.tx_bytes@ == finalized_tx_bytes_of(bytes@)
            &&& f.txid@ == finalized_txid_of(bytes@)
            &&& f.outputs@.len() == finalized_outputs_of(bytes@).len()
            &&& forall|i: int|
                0 <= i < f.outputs@.len() ==> (#[trigger] f.outputs@[i]).0 == finalized_outputs_of(
                    bytes@,
                )[i].0 && f.outputs@[i].1@ == finalized_outputs_of(bytes@)[i].1
            &&& f.witness_values@ == psbt_witness_values_of(bytes@)
        },
        r matches Err(e) ==> psbt_decodes(bytes@) || e.kind == ErrorKind::InvalidInput,
        r matches Err(e) ==> !psbt_decodes(bytes@) || e.kind == ErrorKind::FinalizationError,
{
    let psbt: PartiallySignedTransaction = deserialize(bytes)
        .map_err(|e| WalletError::new(ErrorKind::InvalidInput, e.to_string()))?;
    let finalized = PsbtExt::finalize(psbt, &Secp256k1::verification_only())
        .map_err(|(_, e)| WalletError::new(ErrorKind::FinalizationError, format!("{e:?}")))?;
    let tx = finalized.clone().extract_tx();
    Ok(FinalizedPsbt {
        psbt_bytes: serialize(&finalized),
        tx_bytes: serialize(&tx),
        txid: tx.txid().to_hex(),
        outputs: tx.output.iter().map(|o| (o.value, o.script_pubkey.to_bytes())).collect(),
        witness_values: finalized.inputs.iter().map(|i| i.witness_utxo.as_ref().map(|t| t.value)).collect(),
    })
}

/// Decodes a base64 PSBT and finalizes it under a verification-only
/// context (no private key access): success exactly on well-formed base64
/// of a deserializable, finalizable PSBT, with every field of the result
/// a function of the decoded bytes.
pub fn decode_psbt_finalized(psbt_b64: &str) -> (r: Result<FinalizedPsbt, WalletError>)
    ensures
        r is Ok <==> (b64_valid(psbt_b64@) && psbt_decodes(b64_bytes_of(psbt_b64@))
            && psbt_finalizes(b64_bytes_of(psbt_b64@))),
        r matches Ok(f) ==> is_finalized_decode_of(f, b64_bytes_of(psbt_b64@)),
        r matches Err(e) ==> e.kind == ErrorKind::InvalidInput || e.kind
            == ErrorKind::FinalizationError,
{
    let bytes = psbt_bytes_from_base64(psbt_b64)?;
    finalize_psbt_bytes(&bytes)
}

/// Classifies decoded outputs by the wallet's ownership answers, pairing
/// each (value, script) with its flag.
pub fn classified_outputs(outputs: &Vec<(u64, Vec<u8>)>, mine: &Vec<bool>) -> (r: Vec<OutputInfo>)
    requires
        outputs@.len() == mine@.len(),
    ensures
        r@.len() == outputs@.len(),
        forall|i: int|
            0 <= i < r@.len() ==> (#[trigger] r@[i]).value == outputs@[i].0 && r@[i].mine
                == mine@[i],
{
    let n = outputs.len();
    let mut out: Vec<OutputInfo> = Vec::new();
    let mut i: usize = 0;
    while i < n
        invariant
            i <= n,
            n == outputs@.len(),
            n == mine@.len(),
            out@.len() == i,
            forall|k: int|
                0 <= k < i ==> (#[trigger] out@[k]).value == outputs@[k].0 && out@[k].mine
                    == mine@[k],
        decreases n - i,
    {
        out.push(OutputInfo { value: outputs[i].0, mine: mine[i] });
        i = i + 1;
    }
    out
}

/// Reads each input's contribution from its witness value: absent
/// witness UTXOs contribute 0.
pub fn input_values_from_witnesses(witness_values: &Vec<Option<u64>>) -> (r: Vec<u64>)
    ensures
        r@.len() == witness_values@.len(),
        forall|i: int|
            0 <= i < r@.len() ==> #[trigger] r@[i] == (match witness_values@[i] {
                Some(v) => v,
                None => 0u64,
            }),
{
    let n = witness_values.len();
    let mut out: Vec<u64> = Vec::new();
    let mut i: usize = 0;
    while i < n
        invariant
            i <= n,
            n == witness_values@.len(),
            out@.len() == i,
            forall|k: int|
                0 <= k < i ==> #[trigger] out@[k] == (match witness_values@[k] {
                    Some(v) => v,
                    None => 0u64,
                }),
        decreases n - i,
    {
        out.push(witness_input_value(witness_values[i]));
        i = i + 1;
    }
    out
}

/// Fee non-negativity, as accounting: a reconciliation that succeeds
/// accounts for every input satoshi as sent, received or fee, so the fee
/// is exactly the inputs' total less the outputs' total and never wraps.
pub proof fn lemma_fee_accounting(outputs: Seq<OutputInfo>, input_values: Seq<u64>, a: Amounts)
    requires
        a.sent == sum_outputs(outputs, false),
        a.received == sum_outputs(outputs, true),
        a.fee + a.sent + a.received == sum_values(input_values),
    ensures
        a.fee == sum_values(input_values) - sum_outputs(outputs, false) - sum_outputs(
            outputs,
            true,
        ),
        a.fee >= 0,
{
}

/// Reconciliation is a function of the classified outputs and input
/// values alone: two records over the same data carry the same amounts.
pub proof fn lemma_reconciliation_deterministic(
    outputs: Seq<OutputInfo>,
    input_values: Seq<u64>,
    a1: Amounts,
    a2: Amounts,
)
    requires
        a1.sent == sum_outputs(outputs, false) && a2.sent == sum_outputs(outputs, false),
        a1.received == sum_outputs(outputs, true) && a2.received == sum_outputs(outputs, true),
        a1.fee + a1.sent + a1.received == sum_values(input_values),
        a2.fee + a2.sent + a2.received == sum_values(input_values),
    ensures
        a1 == a2,
{
}

} // verus!
