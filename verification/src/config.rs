//! Typed configuration for the managed node: RPC credentials, network
//! selection, container name, image reference and an optional pinned image
//! digest. The values are immutable once constructed and are only read at
//! the point of launch-argument composition; the library never writes them
//! anywhere else (in particular, it does no logging).

use vstd::prelude::*;
use vstd::string::*;

verus! {

/// The Bitcoin network a node is asked to join. Forwarded, not interpreted.
#[derive(Clone, Copy, Debug, PartialEq, Eq, Structural)]
pub enum Network {
    Bitcoin,
    Testnet,
    Testnet4,
    Signet,
    Regtest,
}

/// Credentials and endpoint for the node's RPC interface. The username and
/// password are unwrapped only while building the `-rpcuser`/`-rpcpassword`
/// launch arguments.
#[derive(Clone, Debug)]
pub struct RpcConfig {
    pub username: String,
    pub password: String,
    pub url: String,
    pub wallet: String,
    pub network: Network,
}

/// Everything needed to provision one named node container.
#[derive(Clone, Debug)]
pub struct BitcoindConfig {
    /// Name under which the container is registered with the runtime;
    /// unique within the runtime's namespace.
    pub container_name: String,
    /// Image reference, `repository:tag`.
    pub image: String,
    /// Optional pinned content digest, `sha256:<hex>`. When set, a freshly
    /// pulled image must carry this digest or `start` fails.
    pub hash: Option<String>,
    pub rpc_config: RpcConfig,
}

impl BitcoindConfig {
    pub fn new(
        container_name: String,
        image: String,
        hash: Option<String>,
        rpc_config: RpcConfig,
    ) -> (c: Self)
        ensures
            c.container_name == container_name,
            c.image == image,
            c.hash == hash,
            c.rpc_config == rpc_config,
    {
        Self { container_name, image, hash, rpc_config }
    }
}

impl Default for BitcoindConfig {
    /// The stock regression-test setup: a local `bitcoin-regtest` container
    /// with no pinned digest.
    fn default() -> (c: Self)
        ensures
            c.container_name@ == "bitcoin-regtest"@,
            c.image@ == "bitcoin/bitcoin:29.1"@,
            c.hash is None,
            c.rpc_config.username@ == "foo"@,
            c.rpc_config.password@ == "rpcpassword"@,
            c.rpc_config.url@ == "http://localhost:18443"@,
            c.rpc_config.wallet@ == "mywallet"@,
            c.rpc_config.network == Network::Regtest,
    {
        Self {
            container_name: String::from_str("bitcoin-regtest"),
            image: String::from_str("bitcoin/bitcoin:29.1"),
            hash: None,
            rpc_config: RpcConfig {
                username: String::from_str("foo"),
                password: String::from_str("rpcpassword"),
                url: String::from_str("http://localhost:18443"),
                wallet: String::from_str("mywallet"),
                network: Network::Regtest,
            },
        }
    }
}

} // verus!
