use vstd::prelude::*;

use crate::network::NetworkType;

use std::str::FromStr;

verus! {

/// Whether a string parses as a Bitcoin address of any network.
pub uninterp spec fn addr_valid(addr: Seq<char>) -> bool;

/// The network an address string belongs to, read from its version byte
/// or bech32 prefix.
pub uninterp spec fn addr_network_of(addr: Seq<char>) -> NetworkType;

/// Relies on rust-bitcoin's Address::from_str: parsing succeeds exactly
/// on well-formed addresses, and the parsed network is a function of the
/// string alone (testnet-prefixed bech32 strings parse as testnet).
#[verifier::external_body]
fn parse_address_network(addr: &str) -> (r: Option<NetworkType>)
    ensures
        r is Some <==> addr_valid(addr@),
        r matches Some(n) ==> n == addr_network_of(addr@),
{
    match bdk::bitcoin::Address::from_str(addr) {
        Ok(a) => Some(
            match a.network {
                bdk::bitcoin::Network::Bitcoin => NetworkType::Mainnet,
                bdk::bitcoin::Network::Testnet => NetworkType::Testnet,
                bdk::bitcoin::Network::Signet => NetworkType::Signet,
                bdk::bitcoin::Network::Regtest => NetworkType::Regtest,
            },
        ),
        Err(_) => None,
    }
}

/// Network isolation: an address is accepted exactly when it parses and
/// its network equals the wallet's, so an address of any other network is
/// always rejected.
pub fn validate_address(wallet_network: NetworkType, address: &str) -> (r: bool)
    ensures
        r == (addr_valid(address@) && addr_network_of(address@) == wallet_network),
{
    match parse_address_network(address) {
        Some(n) => n == wallet_network,
        None => false,
    }
}

} // verus!
