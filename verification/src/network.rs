use vstd::prelude::*;

verus! {

/// The Bitcoin network a wallet, key or address is scoped to.
#[derive(Clone, Copy, Debug, PartialEq, Eq, Structural)]
pub enum NetworkType {
    Mainnet,
    Testnet,
    Signet,
    Regtest,
}

/// The lowercase name of a network, as it appears in wallet names.
pub open spec fn network_name(n: NetworkType) -> Seq<char> {
    match n {
        NetworkType::Mainnet => "mainnet"@,
        NetworkType::Testnet => "testnet"@,
        NetworkType::Signet => "signet"@,
        NetworkType::Regtest => "regtest"@,
    }
}

impl NetworkType {
    /// Returns the network's name: `mainnet`, `testnet`, `signet` or `regtest`.
    pub fn name(&self) -> (r: String)
        ensures
            r@ == network_name(*self),
    {
        match self {
            NetworkType::Mainnet => "mainnet".to_owned(),
            NetworkType::Testnet => "testnet".to_owned(),
            NetworkType::Signet => "signet".to_owned(),
            NetworkType::Regtest => "regtest".to_owned(),
        }
    }
}

} // verus!
