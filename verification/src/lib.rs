//! Core of a Bitcoin wallet engine: deterministic key derivation and
//! descriptor assembly, mnemonic handling, transaction-build policy,
//! PSBT amount reconciliation, and record assembly for transaction
//! history and raw-transaction decoding.
//!
//! Cryptographic primitives (BIP-39 seeds, BIP-32 derivation, descriptor
//! key encoding) and serialization formats (base64, hex) are supplied by
//! outside crates behind narrow trusted declarations; everything that
//! decides, combines or accounts is verified here.

pub mod address;
pub mod builder;
pub mod electrum;
pub mod encoding;
pub mod errors;
pub mod keys;
pub mod network;
pub mod psbt;
pub mod text;
pub mod transactions;
