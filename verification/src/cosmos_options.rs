//! How a sender is set up.

use vstd::prelude::*;

verus! {

/// Where the signing key comes from.
#[derive(Debug, Clone, PartialEq, Eq)]
pub enum CosmosWalletKey {
    /// A mnemonic phrase.
    Mnemonic(String),
    /// The bytes of a secret key.
    RawKey(Vec<u8>),
    /// The mnemonic that the settings hold for the chain's tier.
    Env,
}

/// The options of a sender.
#[derive(Debug, Clone, PartialEq, Eq)]
pub struct CosmosOptions {
    /// The account on whose behalf the sender acts, if any.
    pub authz_granter: Option<String>,
    /// The account that pays the fees in the sender's place, if any.
    pub fee_granter: Option<String>,
    /// The last index of the derivation path; 0 where unset.
    pub hd_index: Option<u32>,
    pub key: CosmosWalletKey,
}

impl Default for CosmosOptions {
    /// No granters, index 0, the key from the settings.
    fn default() -> (options: CosmosOptions)
        ensures
            options.authz_granter.is_none(),
            options.fee_granter.is_none(),
            options.hd_index.is_none(),
            options.key == CosmosWalletKey::Env,
    {
        CosmosOptions {
            authz_granter: None,
            fee_granter: None,
            hd_index: None,
            key: CosmosWalletKey::Env,
        }
    }
}

} // verus!
