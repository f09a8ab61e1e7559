//! The ways in which a submission can fail.

use vstd::prelude::*;

verus! {

/// An amount of one denomination.
#[derive(Debug, Clone, PartialEq, Eq)]
pub struct Coin {
    pub denom: String,
    pub amount: u128,
}

/// Builds a coin from an amount and a denomination.
pub fn coin(amount: u128, denom: String) -> (c: Coin)
    ensures
        c.amount == amount,
        c.denom == denom,
{
    Coin { denom, amount }
}

/// Every error a sender reports.
#[derive(Debug, Clone, PartialEq, Eq)]
pub enum DaemonError {
    /// The settings hold no mnemonic for the chain's tier.
    MissingMnemonic { kind: crate::chain_info::ChainKind },
    /// The mnemonic or the raw secret does not give a signing key.
    InvalidKeyMaterial,
    /// The prefix or the key hash does not give an account address.
    InvalidAddress,
    /// The node's account record has none of the supported shapes.
    UnknownAccountType,
    /// The wallet holds less than the fee.
    InsufficientBalance { expected: Coin, current: Coin },
    /// The ledger expected another sequence number.
    AccountSequenceMismatch { raw_log: String },
    /// The ledger asks for a larger fee and does not say which.
    InsufficientFee { raw_log: String },
    /// The transaction was not found on the ledger in time.
    TimeoutExceeded,
    /// The coin type needs a signing scheme that this build does not have.
    SigningUnsupported { coin_type: u32 },
    /// The transaction could not be put into its wire form.
    Encoding,
    /// The node could not be reached, or answered outside the protocol.
    TransportError { message: String },
    /// The ledger rejected the transaction; carries its code and diagnostic.
    LedgerRejected { code: u32, raw_log: String },
}

} // verus!
