//! What is known of a chain before anything is sent to it.

use vstd::prelude::*;
use crate::fee::Decimal;

verus! {

/// The tier a chain belongs to.
#[derive(Debug, Clone, Copy, PartialEq, Eq, Structural)]
pub enum ChainKind {
    /// A chain on this machine.
    Local,
    /// A public test network.
    Testnet,
    /// A network with real value.
    Mainnet,
}

/// What the chains of one network share.
#[derive(Debug, Clone, PartialEq, Eq)]
pub struct NetworkInfoOwned {
    pub chain_name: String,
    /// The human-readable prefix of the network's addresses.
    pub pub_address_prefix: String,
    /// The coin type in the derivation path of the network's keys.
    pub coin_type: u32,
}

/// One chain: its identifier, how gas is paid on it, where its nodes are.
#[derive(Debug, Clone, PartialEq, Eq)]
pub struct ChainInfoOwned {
    pub chain_id: String,
    /// The denomination in which gas is paid.
    pub gas_denom: String,
    /// The price of one unit of gas.
    pub gas_price: Decimal,
    pub grpc_urls: Vec<String>,
    pub network_info: NetworkInfoOwned,
    pub kind: ChainKind,
}

} // verus!
