//! The descriptor of one chain: its identity, its software, its peers and
//! endpoints, its fees, its staking tokens and its explorers.
//!
//! These are records exactly as the registry publishes them; the library
//! hands them through and reads none of their fields.

use vstd::prelude::*;

verus! {

/// The descriptor of one chain. A field that the registry leaves out is
/// empty, zero or false.
#[derive(Clone, Debug, Default, PartialEq, Eq)]
pub struct ChainInfo {
    pub schema: String,
    pub chain_name: String,
    pub status: String,
    pub network_type: String,
    pub pretty_name: String,
    pub chain_id: String,
    pub bech32_prefix: String,
    pub daemon_name: String,
    pub node_home: String,
    pub slip44: u32,
    pub genesis: Genesis,
    pub codebase: Codebase,
    pub peers: Peers,
    pub apis: Apis,
    pub fees: Fees,
    pub staking: Staking,
    pub website: String,
    pub update_link: String,
    pub key_algos: Vec<String>,
    pub explorers: Vec<Explorer>,
}

/// Where the genesis file of a chain is published.
#[derive(Clone, Debug, Default, PartialEq, Eq)]
pub struct Genesis {
    pub genesis_url: String,
}

/// The software that runs a chain.
#[derive(Clone, Debug, Default, PartialEq, Eq)]
pub struct Codebase {
    pub git_repo: String,
    pub recommended_version: String,
    pub compatible_versions: Vec<String>,
    pub binaries: Binaries,
    pub cosmos_sdk_version: String,
    pub tendermint_version: String,
    pub cosmwasm_version: String,
    pub cosmwasm_enabled: bool,
}

/// Download addresses of the node binary, one for each platform.
#[derive(Clone, Debug, Default, PartialEq, Eq)]
pub struct Binaries {
    pub linux_amd_64: String,
    pub linux_arm_64: String,
    pub darwin_amd_64: String,
    pub darwin_arm_64: String,
    pub windows_amd_64: String,
}

/// The nodes through which a new node finds the network.
#[derive(Clone, Debug, Default, PartialEq, Eq)]
pub struct Peers {
    pub seeds: Vec<Seed>,
    pub persistent_peers: Vec<PersistentPeer>,
}

/// A seed node.
#[derive(Clone, Debug, Default, PartialEq, Eq)]
pub struct Seed {
    pub id: String,
    pub address: String,
    pub provider: Option<String>,
}

/// A peer that a node keeps a connection to.
#[derive(Clone, Debug, Default, PartialEq, Eq)]
pub struct PersistentPeer {
    pub id: String,
    pub address: String,
}

/// The public endpoints of a chain, by protocol.
#[derive(Clone, Debug, Default, PartialEq, Eq)]
pub struct Apis {
    pub rpc: Vec<Rpc>,
    pub rest: Vec<Rest>,
    pub grpc: Vec<Grpc>,
}

/// An RPC endpoint.
#[derive(Clone, Debug, Default, PartialEq, Eq)]
pub struct Rpc {
    pub address: String,
    pub provider: Option<String>,
}

/// A REST endpoint.
#[derive(Clone, Debug, Default, PartialEq, Eq)]
pub struct Rest {
    pub address: String,
    pub provider: Option<String>,
}

/// A gRPC endpoint.
#[derive(Clone, Debug, Default, PartialEq, Eq)]
pub struct Grpc {
    pub address: String,
    pub provider: Option<String>,
}

/// The tokens in which a chain takes fees.
#[derive(Clone, Debug, Default, PartialEq, Eq)]
pub struct Fees {
    pub fee_tokens: Vec<FeeToken>,
}

/// One fee token with its gas prices. Each price is held as the bit
/// pattern of an IEEE 754 single-precision number, so that the record
/// passes through unchanged; the library does no arithmetic on prices.
#[derive(Clone, Debug, Default, PartialEq, Eq)]
pub struct FeeToken {
    pub denom: String,
    pub fixed_min_gas_price: u32,
    pub low_gas_price: u32,
    pub average_gas_price: u32,
    pub high_gas_price: u32,
}

/// The tokens that can be staked on a chain.
#[derive(Clone, Debug, Default, PartialEq, Eq)]
pub struct Staking {
    pub staking_tokens: Vec<StakingToken>,
}

/// One staking token.
#[derive(Clone, Debug, Default, PartialEq, Eq)]
pub struct StakingToken {
    pub denom: String,
}

/// A block explorer of a chain, with its page templates.
#[derive(Clone, Debug, Default, PartialEq, Eq)]
pub struct Explorer {
    pub kind: String,
    pub url: String,
    pub tx_page: String,
    pub account_page: String,
}

} // verus!
