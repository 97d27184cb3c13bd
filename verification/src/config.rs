//! Connection configuration and the network guard.
//!
//! A connection to the ledger service is only usable when the chain the
//! service reports matches the configured network; operating against the
//! wrong chain would be catastrophic for fund safety, so the mismatch is a
//! fatal `Protocol` error raised before any wallet operation.

use vstd::prelude::*;

use crate::error::WalletError;

verus! {

/// The chain a wallet is bound to.
#[derive(Clone, Copy, Debug, PartialEq, Eq, Structural)]
pub enum Network {
    /// The main chain.
    Bitcoin,
    /// The public test chain.
    Testnet,
    /// The signet test chain.
    Signet,
    /// A local regression-test chain.
    Regtest,
}

/// User-and-password credential for the ledger service.
#[derive(Clone)]
pub struct RpcAuth {
    /// RPC user name.
    pub user: String,
    /// RPC password.
    pub pass: String,
}

/// Configuration parameters for connecting to the ledger service.
#[derive(Clone)]
pub struct RPCConfig {
    /// The ledger service url.
    pub url: String,
    /// The ledger service authentication credential.
    pub auth: RpcAuth,
    /// The network we are using (the service's reported chain must match).
    pub network: Network,
    /// The watch-only wallet name in the ledger service.
    pub wallet_name: String,
}

impl Default for RPCConfig {
    /// The regression-test defaults used by local deployments.
    fn default() -> (r: Self)
        ensures
            r.url@ == "localhost:18443"@,
            r.auth.user@ == "regtestrpcuser"@,
            r.auth.pass@ == "regtestrpcpass"@,
            r.network == Network::Regtest,
            r.wallet_name@ == "random-wallet-name"@,
    {
        RPCConfig {
            url: "localhost:18443".to_owned(),
            auth: RpcAuth {
                user: "regtestrpcuser".to_owned(),
                pass: "regtestrpcpass".to_owned(),
            },
            network: Network::Regtest,
            wallet_name: "random-wallet-name".to_owned(),
        }
    }
}

/// The network that a chain name reported by the ledger service denotes,
/// or `None` for an unknown chain name.
pub open spec fn network_of_chain(chain: Seq<char>) -> Option<Network> {
    if chain == "main"@ {
        Some(Network::Bitcoin)
    } else if chain == "test"@ {
        Some(Network::Testnet)
    } else if chain == "signet"@ {
        Some(Network::Signet)
    } else if chain == "regtest"@ {
        Some(Network::Regtest)
    } else {
        None
    }
}

/// Parses the chain name reported by the ledger service.
pub fn network_from_chain(chain: &String) -> (r: Option<Network>)
    ensures
        r == network_of_chain(chain@),
{
    if *chain == "main".to_owned() {
        Some(Network::Bitcoin)
    } else if *chain == "test".to_owned() {
        Some(Network::Testnet)
    } else if *chain == "signet".to_owned() {
        Some(Network::Signet)
    } else if *chain == "regtest".to_owned() {
        Some(Network::Regtest)
    } else {
        None
    }
}

/// The network guard: succeeds exactly when the chain name reported by the
/// live ledger service denotes the configured network.  A mismatch is a
/// fatal `Protocol` error; the caller must raise it before any wallet,
/// import or rescan operation is attempted.
pub fn validate_network(config: &RPCConfig, reported_chain: &String) -> (r: Result<(), WalletError>)
    ensures
        r is Ok <==> network_of_chain(reported_chain@) == Some(config.network),
        r matches Err(e) ==> e is Protocol,
{
    match network_from_chain(reported_chain) {
        Some(n) if n == config.network => Ok(()),
        _ => Err(
            WalletError::Protocol("RPC network not matching with RPCConfig".to_owned()),
        ),
    }
}

} // verus!
