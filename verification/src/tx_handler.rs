//! What an execution environment for contracts offers to the code that
//! drives it. Messages cross this boundary in their JSON encoding.

use vstd::prelude::*;
use crate::error::Coin;

verus! {

/// The block an environment stands at.
#[derive(Debug, Clone, PartialEq, Eq)]
pub struct BlockInfo {
    pub height: u64,
    /// Block time in nanoseconds since the Unix epoch.
    pub time: u64,
    pub chain_id: String,
}

/// The response type of an environment.
pub type TxResponse<Chain> = <Chain as TxHandler>::Response;

/// A signer on some environment: reads who sends, moves the environment
/// forward and performs the four actions on contracts.
pub trait TxHandler: Clone {
    type Response;

    type Error;

    type ContractSource;

    /// The address that signs.
    fn sender(&self) -> String;

    /// Waits for `amount` blocks.
    fn wait_blocks(&self, amount: u64) -> Result<(), Self::Error>;

    /// Waits for `secs` seconds.
    fn wait_seconds(&self, secs: u64) -> Result<(), Self::Error>;

    /// Waits for the next block.
    fn next_block(&self) -> Result<(), Self::Error>;

    /// The current block.
    fn block_info(&self) -> Result<BlockInfo, Self::Error>;

    /// Executes a message on a contract, with funds.
    fn execute(&self, exec_msg: &[u8], coins: &[Coin], contract_address: &str) -> Result<
        Self::Response,
        Self::Error,
    >;

    /// Instantiates a contract from stored code.
    fn instantiate(
        &self,
        code_id: u64,
        init_msg: &[u8],
        label: Option<&str>,
        admin: Option<&str>,
        coins: &[Coin],
    ) -> Result<Self::Response, Self::Error>;

    /// Queries a contract; the answer is JSON.
    fn query(&self, query_msg: &[u8], contract_address: &str) -> Result<Vec<u8>, Self::Error>;

    /// Migrates a contract to other code.
    fn migrate(&self, migrate_msg: &[u8], new_code_id: u64, contract_address: &str) -> Result<
        Self::Response,
        Self::Error,
    >;
}

/// An environment that can store contract code.
pub trait ChainUpload: TxHandler {
    /// Stores the code of a contract.
    fn upload(&self, contract_source: &Self::ContractSource) -> Result<Self::Response, Self::Error>;
}

/// An environment that supports everything a contract needs.
pub trait CwEnv: TxHandler + ChainUpload + Clone {

}

impl<T: TxHandler + ChainUpload + Clone> CwEnv for T {

}

} // verus!
