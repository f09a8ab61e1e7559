//! Transaction submission for Cosmos ledgers: fee estimation, account
//! resolution, signing and the retry rules of a broadcast, with every
//! function verified against its contract.

pub mod account;
pub mod balance;
pub mod chain_info;
pub mod cosmos_options;
pub mod env;
pub mod error;
pub mod fee;
pub mod keys;
pub mod sender;
pub mod text;
pub mod tx_broadcaster;
pub mod tx_builder;
pub mod tx_handler;
pub mod tx_resp;
pub mod wire;

pub use tx_handler::{ChainUpload, CwEnv, TxHandler, TxResponse};
