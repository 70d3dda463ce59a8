use bdk::bitcoin::consensus::encode::{deserialize, serialize};
use bdk::bitcoin::util::address::{Payload, WitnessVersion};
use bdk::bitcoin::util::psbt::PartiallySignedTransaction;
use bdk::bitcoin::{
    Address, Network, OutPoint, PackedLockTime, Script, Sequence, Transaction, TxIn, TxOut, Txid,
    WPubkeyHash, Witness,
};
use bdk::database::{BatchOperations, MemoryDatabase};
use bdk::wallet::tx_builder::TxOrdering;
use bdk::wallet::AddressIndex;
use bdk::{BlockTime, FeeRate, KeychainKind, LocalUtxo, SignOptions, TransactionDetails, Wallet};
use bitcoin_hashes::hex::ToHex;
use std::str::FromStr;

use wallet_core::builder::{constraints_honored, UtxoRef};
use wallet_core::encoding::psbt_bytes_from_base64;
use wallet_core::keys::{derive_wallet, get_seed_from_entropy};
use wallet_core::network::NetworkType;
use wallet_core::psbt::{
    classified_outputs, classify_ownership, decode_psbt_finalized, input_values_from_witnesses,
    psbt_record, witness_input_value, OutputInfo,
};
use wallet_core::transactions::decode_raw_transaction;

/// A funded testnet wallet over an in-memory store: one UTXO per given
/// value, all paying the wallet's first external address.
fn funded_wallet(values: &[u64]) -> (Wallet<MemoryDatabase>, Vec<OutPoint>) {
    let seed = get_seed_from_entropy(NetworkType::Testnet, &[0u8; 16]).unwrap();
    let w = derive_wallet(&seed.mnemonic, None, "m/84'/1'/0'", NetworkType::Testnet).unwrap();

    let probe = Wallet::new(
        w.external_prv.as_str(),
        Some(w.internal_prv.as_str()),
        Network::Testnet,
        MemoryDatabase::new(),
    )
    .unwrap();
    let script0 = probe
        .get_address(AddressIndex::Peek(0))
        .unwrap()
        .script_pubkey();

    let funding_tx = Transaction {
        version: 1,
        lock_time: PackedLockTime::ZERO,
        input: vec![],
        output: values
            .iter()
            .map(|v| TxOut { value: *v, script_pubkey: script0.clone() })
            .collect(),
    };
    let funding_txid = funding_tx.txid();
    let mut db = MemoryDatabase::new();
    db.set_script_pubkey(&script0, KeychainKind::External, 0).unwrap();
    db.set_tx(&TransactionDetails {
        transaction: Some(funding_tx),
        txid: funding_txid,
        received: values.iter().sum(),
        sent: 0,
        fee: Some(0),
        confirmation_time: Some(BlockTime { height: 1, timestamp: 1_600_000_000 }),
    })
    .unwrap();
    let mut outpoints = Vec::new();
    for (i, value) in values.iter().enumerate() {
        let outpoint = OutPoint::new(funding_txid, i as u32);
        db.set_utxo(&LocalUtxo {
            outpoint,
            txout: TxOut { value: *value, script_pubkey: script0.clone() },
            keychain: KeychainKind::External,
            is_spent: false,
        })
        .unwrap();
        outpoints.push(outpoint);
    }

    let wallet = Wallet::new(
        w.external_prv.as_str(),
        Some(w.internal_prv.as_str()),
        Network::Testnet,
        db,
    )
    .unwrap();
    (wallet, outpoints)
}

/// A testnet P2WPKH address that no test wallet owns.
fn foreign_address(fill: u8) -> Address {
    Address {
        payload: Payload::WitnessProgram { version: WitnessVersion::V0, program: vec![fill; 20] },
        network: Network::Testnet,
    }
}

/// Mirrors the extraction done around the verified reconciliation: each
/// output is classified by the wallet's ownership predicate, each input
/// contributes its witness value, and the record carries the PSBT as
/// base64 plus the raw transaction as hex.
fn extract(wallet: &Wallet<MemoryDatabase>, psbt: &PartiallySignedTransaction) -> wallet_core::psbt::Psbt {
    let tx = psbt.clone().extract_tx();
    let outputs: Vec<OutputInfo> = tx
        .output
        .iter()
        .map(|o| OutputInfo {
            value: o.value,
            mine: classify_ownership(wallet.is_mine(&o.script_pubkey).ok()),
        })
        .collect();
    let input_values: Vec<u64> = psbt
        .inputs
        .iter()
        .map(|i| witness_input_value(i.witness_utxo.as_ref().map(|t| t.value)))
        .collect();
    let psbt_bytes = serialize(psbt);
    let tx_bytes = serialize(&tx);
    let txid = tx.txid().to_hex();
    psbt_record(&outputs, &input_values, &psbt_bytes, &tx_bytes, txid).unwrap()
}

#[test]
fn build_sign_and_reconcile() {
    let (wallet, _outpoints) = funded_wallet(&[100_000]);
    let send_to = foreign_address(0x11);

    let mut builder = wallet.build_tx();
    builder
        .ordering(TxOrdering::Shuffle)
        .only_witness_utxo()
        .add_recipient(send_to.script_pubkey(), 50_000)
        .enable_rbf()
        .fee_rate(FeeRate::from_sat_per_vb(1.0));
    let (mut psbt, _details) = builder.finish().unwrap();

    let finalized = wallet
        .sign(&mut psbt, SignOptions { trust_witness_utxo: true, ..Default::default() })
        .unwrap();
    assert!(finalized);

    let p = extract(&wallet, &psbt);
    assert_eq!(p.sent, 50_000);
    assert!(p.fee > 0);
    assert_eq!(p.received, 100_000 - 50_000 - p.fee);
    assert!(!p.base64.is_empty());
    assert_eq!(p.txid, psbt.clone().extract_tx().txid().to_hex());
}

#[test]
fn decode_of_encoded_psbt_preserves_the_breakdown() {
    let (wallet, _outpoints) = funded_wallet(&[100_000]);
    let send_to = foreign_address(0x22);

    let mut builder = wallet.build_tx();
    builder
        .ordering(TxOrdering::Shuffle)
        .only_witness_utxo()
        .add_recipient(send_to.script_pubkey(), 30_000)
        .enable_rbf()
        .fee_rate(FeeRate::from_sat_per_vb(2.0));
    let (mut psbt, _details) = builder.finish().unwrap();
    wallet
        .sign(&mut psbt, SignOptions { trust_witness_utxo: true, ..Default::default() })
        .unwrap();
    let first = extract(&wallet, &psbt);

    // feed the produced base64 back through the decode path
    let bytes = psbt_bytes_from_base64(&first.base64).unwrap();
    assert_eq!(bytes, serialize(&psbt));
    let reparsed: PartiallySignedTransaction = deserialize(&bytes).unwrap();
    let second = extract(&wallet, &reparsed);

    assert_eq!(first.txid, second.txid);
    assert_eq!(first.sent, second.sent);
    assert_eq!(first.received, second.received);
    assert_eq!(first.fee, second.fee);
    assert_eq!(first.raw_tx, second.raw_tx);
}

#[test]
fn build_honors_spend_constraints() {
    let (wallet, outpoints) = funded_wallet(&[100_000, 90_000]);
    let send_to = foreign_address(0x33);
    let must = outpoints[0];
    let dont = outpoints[1];

    let mut builder = wallet.build_tx();
    builder
        .ordering(TxOrdering::Shuffle)
        .only_witness_utxo()
        .add_recipient(send_to.script_pubkey(), 40_000)
        .enable_rbf()
        .fee_rate(FeeRate::from_sat_per_vb(1.0));
    builder.add_utxos(&[must]).unwrap();
    builder.add_unspendable(dont);
    let (psbt, _details) = builder.finish().unwrap();

    let tx = psbt.extract_tx();
    let inputs: Vec<UtxoRef> = tx
        .input
        .iter()
        .map(|i| UtxoRef {
            txid: i.previous_output.txid.to_hex(),
            vout: i.previous_output.vout,
        })
        .collect();
    let must_refs = vec![UtxoRef { txid: must.txid.to_hex(), vout: must.vout }];
    let dont_refs = vec![UtxoRef { txid: dont.txid.to_hex(), vout: dont.vout }];
    assert!(constraints_honored(&inputs, &must_refs, &dont_refs));
}

#[test]
fn decode_raw_transaction_with_p2wpkh_output() {
    let program = [0x42u8; 20];
    let script = Script::new_v0_p2wpkh(
        &<WPubkeyHash as bdk::bitcoin::hashes::Hash>::from_slice(&program).unwrap(),
    );
    let prev_txid =
        Txid::from_str("00000000000000000000000000000000000000000000000000000000000000aa")
            .unwrap();
    let tx = Transaction {
        version: 2,
        lock_time: PackedLockTime::ZERO,
        input: vec![TxIn {
            previous_output: OutPoint::new(prev_txid, 7),
            script_sig: Script::new(),
            sequence: Sequence::MAX,
            witness: Witness::default(),
        }],
        output: vec![TxOut { value: 12_345, script_pubkey: script }],
    };
    let hex_text = serialize(&tx).to_hex();

    let record = decode_raw_transaction(&hex_text, NetworkType::Testnet).unwrap();
    assert_eq!(record.version, 2);
    assert_eq!(record.outputs.len(), 1);
    assert_eq!(record.outputs[0].amount, 12_345);
    // the resolved address matches the independently assembled bech32 form
    let expected = Address {
        payload: Payload::WitnessProgram { version: WitnessVersion::V0, program: program.to_vec() },
        network: Network::Testnet,
    };
    assert_eq!(record.outputs[0].address, expected.to_string());
    assert_eq!(record.inputs.len(), 1);
    assert_eq!(record.inputs[0].previous_output, prev_txid.to_hex());
    assert_eq!(record.inputs[0].previous_output_index, 7);
}

#[test]
fn decode_raw_transaction_op_return_resolves_to_empty() {
    let tx = Transaction {
        version: 2,
        lock_time: PackedLockTime::ZERO,
        input: vec![],
        output: vec![TxOut {
            value: 0,
            script_pubkey: Script::new_op_return(&[1u8, 2, 3]),
        }],
    };
    let hex_text = serialize(&tx).to_hex();
    let record = decode_raw_transaction(&hex_text, NetworkType::Testnet).unwrap();
    assert_eq!(record.outputs[0].address, "");
    assert_eq!(record.outputs[0].amount, 0);
    assert_eq!(record.inputs.len(), 0);
}

#[test]
fn decode_raw_transaction_rejects_bad_input() {
    // not hex at all
    assert!(decode_raw_transaction("zz", NetworkType::Testnet).is_err());
    // hex, but no transaction
    assert!(decode_raw_transaction("dead", NetworkType::Testnet).is_err());
}

#[test]
fn decode_finalized_psbt_preserves_the_breakdown() {
    let (wallet, _outpoints) = funded_wallet(&[100_000]);
    let send_to = foreign_address(0x44);

    let mut builder = wallet.build_tx();
    builder
        .ordering(TxOrdering::Shuffle)
        .only_witness_utxo()
        .add_recipient(send_to.script_pubkey(), 25_000)
        .enable_rbf()
        .fee_rate(FeeRate::from_sat_per_vb(1.0));
    let (mut psbt, _details) = builder.finish().unwrap();
    // sign but leave finalization to the decode path, as an offline
    // signer would
    wallet
        .sign(
            &mut psbt,
            SignOptions { trust_witness_utxo: true, try_finalize: false, ..Default::default() },
        )
        .unwrap();
    let first = extract(&wallet, &psbt);

    // the decode entry point: parse and finalize the record's base64,
    // classify ownership, reconcile
    let fin = decode_psbt_finalized(&first.base64).unwrap();
    let mine: Vec<bool> = fin
        .outputs
        .iter()
        .map(|(_, script)| {
            classify_ownership(wallet.is_mine(&Script::from(script.clone())).ok())
        })
        .collect();
    let outputs = classified_outputs(&fin.outputs, &mine);
    let input_values = input_values_from_witnesses(&fin.witness_values);
    let second =
        psbt_record(&outputs, &input_values, &fin.psbt_bytes, &fin.tx_bytes, fin.txid).unwrap();

    // decode of encode preserves the transaction id and the breakdown;
    // the raw form gains the final witnesses, so the id is compared on
    // both sides instead
    assert_eq!(first.txid, second.txid);
    assert_eq!(first.sent, second.sent);
    assert_eq!(first.received, second.received);
    assert_eq!(first.fee, second.fee);
}

#[test]
fn decode_psbt_rejects_bad_input() {
    assert!(decode_psbt_finalized("!!!").is_err());
    // well-formed base64 that is no PSBT
    assert!(decode_psbt_finalized("AQI=").is_err());
}
