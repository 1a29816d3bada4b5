//! Target networks: the built-in names with their fixed RPC endpoints, and
//! the registry that resolves a network name to its full configuration.

use vstd::prelude::*;
use crate::FleetError;

verus! {

/// A built-in network.
#[derive(Clone, Copy, Debug, PartialEq, Eq, Structural)]
pub enum Network {
    Localnet,
    Devnet,
    Testnet,
    Mainnet,
}

pub open spec fn network_name(n: Network) -> Seq<char> {
    match n {
        Network::Localnet => "localnet"@,
        Network::Devnet => "devnet"@,
        Network::Testnet => "testnet"@,
        Network::Mainnet => "mainnet"@,
    }
}

pub open spec fn network_rpc(n: Network) -> Seq<char> {
    match n {
        Network::Localnet => "http://127.0.0.1:8899"@,
        Network::Devnet => "https://api.devnet.solana.com"@,
        Network::Testnet => "https://api.testnet.solana.com"@,
        Network::Mainnet => "https://api.mainnet-beta.solana.com"@,
    }
}

/// Which built-in network a name denotes, if any.
pub open spec fn network_of(s: Seq<char>) -> Option<Network> {
    if s == "localnet"@ {
        Some(Network::Localnet)
    } else if s == "devnet"@ {
        Some(Network::Devnet)
    } else if s == "testnet"@ {
        Some(Network::Testnet)
    } else if s == "mainnet"@ {
        Some(Network::Mainnet)
    } else {
        None
    }
}

impl Network {
    /// The canonical name of the network.
    pub fn name(&self) -> (r: &'static str)
        ensures
            r@ == network_name(*self),
    {
        match self {
            Network::Localnet => "localnet",
            Network::Devnet => "devnet",
            Network::Testnet => "testnet",
            Network::Mainnet => "mainnet",
        }
    }

    /// The fixed RPC endpoint of the network.
    pub fn default_rpc(&self) -> (r: &'static str)
        ensures
            r@ == network_rpc(*self),
    {
        match self {
            Network::Localnet => "http://127.0.0.1:8899",
            Network::Devnet => "https://api.devnet.solana.com",
            Network::Testnet => "https://api.testnet.solana.com",
            Network::Mainnet => "https://api.mainnet-beta.solana.com",
        }
    }

    /// Recognizes a built-in network name.
    pub fn parse(s: &str) -> (r: Option<Network>)
        ensures
            r == network_of(s@),
    {
        let name = String::from_str(s);
        if name == String::from_str("localnet") {
            Some(Network::Localnet)
        } else if name == String::from_str("devnet") {
            Some(Network::Devnet)
        } else if name == String::from_str("testnet") {
            Some(Network::Testnet)
        } else if name == String::from_str("mainnet") {
            Some(Network::Mainnet)
        } else {
            None
        }
    }
}

/// The configuration of one target network: its name, its RPC endpoint,
/// and the reference to the upgrade-authority credential to hand programs
/// to after deployment.
pub struct NetworkConfig {
    pub name: String,
    pub rpc_url: String,
    pub upgrade_authority: String,
}

impl NetworkConfig {
    /// A configuration for a built-in network, on its fixed RPC endpoint.
    pub fn builtin(n: Network, upgrade_authority: String) -> (r: NetworkConfig)
        ensures
            r.name@ == network_name(n),
            r.rpc_url@ == network_rpc(n),
            r.upgrade_authority == upgrade_authority,
    {
        NetworkConfig {
            name: String::from_str(n.name()),
            rpc_url: String::from_str(n.default_rpc()),
            upgrade_authority,
        }
    }

    /// A field-for-field copy.
    pub fn duplicate(&self) -> (r: NetworkConfig)
        ensures
            r == *self,
    {
        NetworkConfig {
            name: self.name.clone(),
            rpc_url: self.rpc_url.clone(),
            upgrade_authority: self.upgrade_authority.clone(),
        }
    }
}

/// The first configuration whose name matches, scanning in order.
pub open spec fn resolve_spec(entries: Seq<NetworkConfig>, name: Seq<char>) -> Option<
    NetworkConfig,
>
    decreases entries.len(),
{
    if entries.len() == 0 {
        None
    } else if entries[0].name@ == name {
        Some(entries[0])
    } else {
        resolve_spec(entries.drop_first(), name)
    }
}

/// Maps network names to configurations. Loaded once per invocation and
/// read-only afterwards; unknown names are an error, never a default.
pub struct NetworkRegistry {
    pub entries: Vec<NetworkConfig>,
}

impl NetworkRegistry {
    /// An empty registry.
    pub fn new() -> (r: NetworkRegistry)
        ensures
            r.entries@.len() == 0,
    {
        NetworkRegistry { entries: Vec::new() }
    }

    /// Adds a configuration at the end of the scan order.
    pub fn add(&mut self, config: NetworkConfig)
        ensures
            final(self).entries@ == old(self).entries@.push(config),
    {
        self.entries.push(config);
    }

    /// Resolves a network name to the first matching configuration; a name
    /// with no entry is unknown.
    pub fn resolve(&self, name: &str) -> (r: Result<NetworkConfig, FleetError>)
        ensures
            match resolve_spec(self.entries@, name@) {
                Some(c) => r == Ok::<NetworkConfig, FleetError>(c),
                None => r == Err::<NetworkConfig, FleetError>(FleetError::UnknownNetwork),
            },
    {
        let wanted = String::from_str(name);
        let n = self.entries.len();
        let mut i: usize = 0;
        proof {
            assert(self.entries@.skip(0) =~= self.entries@);
        }
        while i < n
            invariant
                i <= n,
                n == self.entries@.len(),
                wanted@ == name@,
                resolve_spec(self.entries@, name@) == resolve_spec(
                    self.entries@.skip(i as int),
                    name@,
                ),
            decreases n - i,
        {
            proof {
                assert(self.entries@.skip(i as int)[0] == self.entries@[i as int]);
                assert(self.entries@.skip(i as int).drop_first() =~= self.entries@.skip(
                    i as int + 1,
                ));
            }
            if self.entries[i].name == wanted {
                return Ok(self.entries[i].duplicate());
            }
            i = i + 1;
        }
        Err(FleetError::UnknownNetwork)
    }
}

} // verus!
