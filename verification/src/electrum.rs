use vstd::prelude::*;
use vstd::string::*;

use crate::text::{dec_string_of, u32_to_dec_string};

verus! {

/// The lookahead for unused-address scanning during a sync.
pub const STOP_GAP: u64 = 50;

/// The connection policy for the blockchain query service: where to
/// connect, whether to tunnel through a local SOCKS5 proxy, and the
/// timeout and retry discipline.
#[derive(Debug)]
pub struct ElectrumSettings {
    pub url: String,
    pub socks5: Option<String>,
    pub retry: u8,
    pub timeout: Option<u8>,
    pub stop_gap: u64,
    pub validate_domain: bool,
}

/// A remote endpoint's capabilities, as reported to the caller.
#[derive(Debug)]
pub struct ServerFeatures {
    pub server_version: String,
    pub protocol_min: String,
    pub protocol_max: String,
    pub pruning: i64,
    pub genesis_hash: Vec<u8>,
}

/// Assembles the capabilities record of a remote endpoint: an endpoint
/// that reports no pruning height reads as -1.
pub fn server_features_record(
    server_version: String,
    protocol_min: String,
    protocol_max: String,
    pruning: Option<i64>,
    genesis_hash: Vec<u8>,
) -> (r: ServerFeatures)
    ensures
        r.server_version == server_version,
        r.protocol_min == protocol_min,
        r.protocol_max == protocol_max,
        r.pruning == (match pruning {
            Some(p) => p,
            None => -1i64,
        }),
        r.genesis_hash == genesis_hash,
{
    let pruning_height = match pruning {
        Some(p) => p,
        None => -1,
    };
    ServerFeatures {
        server_version,
        protocol_min,
        protocol_max,
        pruning: pruning_height,
        genesis_hash,
    }
}

/// Builds the connection policy for an endpoint and an optional local
/// proxy port: a positive port routes through a SOCKS5 proxy at
/// `127.0.0.1:<port>` with no timeout; otherwise the connection is direct
/// with a 5-second timeout. Never retried, domain validation off, and a
/// fixed stop gap.
pub fn electrum_settings(electrum_address: &str, tor_port: i32) -> (r: ElectrumSettings)
    ensures
        r.url@ == electrum_address@,
        r.retry == 0u8,
        r.stop_gap == STOP_GAP,
        !r.validate_domain,
        tor_port > 0 ==> (r.socks5 matches Some(s) && s@ == "127.0.0.1:"@ + dec_string_of(
            tor_port as int,
        )) && r.timeout is None,
        tor_port <= 0 ==> r.socks5 is None && r.timeout == Some(5u8),
{
    if tor_port > 0 {
        let mut proxy = "127.0.0.1:".to_owned();
        let port = u32_to_dec_string(tor_port as u32);
        proxy.append(port.as_str());
        ElectrumSettings {
            url: electrum_address.to_owned(),
            socks5: Some(proxy),
            retry: 0,
            timeout: None,
            stop_gap: STOP_GAP,
            validate_domain: false,
        }
    } else {
        ElectrumSettings {
            url: electrum_address.to_owned(),
            socks5: None,
            retry: 0,
            timeout: Some(5),
            stop_gap: STOP_GAP,
            validate_domain: false,
        }
    }
}

} // verus!
