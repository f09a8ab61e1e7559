//! The settings that the surrounding program reads from its environment and
//! hands to a sender as plain values.

use vstd::prelude::*;
use crate::chain_info::ChainKind;
use crate::error::DaemonError;
use crate::fee::Decimal;

verus! {

/// The variable that holds the mnemonic for local chains.
pub const LOCAL_MNEMONIC_ENV_NAME: &'static str = "LOCAL_MNEMONIC";

/// The variable that holds the mnemonic for test networks.
pub const TEST_MNEMONIC_ENV_NAME: &'static str = "TEST_MNEMONIC";

/// The variable that holds the mnemonic for main networks.
pub const MAIN_MNEMONIC_ENV_NAME: &'static str = "MAIN_MNEMONIC";

/// The gas floor where none is configured.
pub const DEFAULT_MIN_GAS: u64 = 150_000;

/// A snapshot of the settings.
#[derive(Debug, Clone, PartialEq, Eq)]
pub struct DaemonEnvVars {
    /// The safety factor that replaces the built-in ones, if set.
    pub gas_buffer: Option<Decimal>,
    /// The floor of every gas limit.
    pub min_gas: u64,
    /// Whether the balance is checked against the fee before submission.
    pub wallet_balance_assertion: bool,
    /// Whether a person may be asked to top up the wallet.
    pub manual_interaction: bool,
    pub local_mnemonic: Option<String>,
    pub test_mnemonic: Option<String>,
    pub main_mnemonic: Option<String>,
}

impl Default for DaemonEnvVars {
    /// No configured factor, the default floor, balance checks on, a person
    /// may be asked, no mnemonics.
    fn default() -> (env: DaemonEnvVars)
        ensures
            env.gas_buffer.is_none(),
            env.min_gas == DEFAULT_MIN_GAS,
            env.wallet_balance_assertion,
            env.manual_interaction,
            env.local_mnemonic.is_none(),
            env.test_mnemonic.is_none(),
            env.main_mnemonic.is_none(),
    {
        DaemonEnvVars {
            gas_buffer: None,
            min_gas: DEFAULT_MIN_GAS,
            wallet_balance_assertion: true,
            manual_interaction: true,
            local_mnemonic: None,
            test_mnemonic: None,
            main_mnemonic: None,
        }
    }
}

/// The mnemonic that the settings hold for a tier.
pub open spec fn mnemonic_for(kind: ChainKind, env: DaemonEnvVars) -> Option<String> {
    match kind {
        ChainKind::Local => env.local_mnemonic,
        ChainKind::Testnet => env.test_mnemonic,
        ChainKind::Mainnet => env.main_mnemonic,
    }
}

/// The name of the variable that holds the mnemonic for a tier.
pub fn get_mnemonic_env_name(chain_kind: &ChainKind) -> (name: &'static str)
    ensures
        name@ == (match chain_kind {
            ChainKind::Local => LOCAL_MNEMONIC_ENV_NAME@,
            ChainKind::Testnet => TEST_MNEMONIC_ENV_NAME@,
            ChainKind::Mainnet => MAIN_MNEMONIC_ENV_NAME@,
        }),
{
    match chain_kind {
        ChainKind::Local => LOCAL_MNEMONIC_ENV_NAME,
        ChainKind::Testnet => TEST_MNEMONIC_ENV_NAME,
        ChainKind::Mainnet => MAIN_MNEMONIC_ENV_NAME,
    }
}

/// The mnemonic for a tier. Fails with `MissingMnemonic` exactly where the
/// settings hold none for it.
pub fn get_mnemonic_env<'a>(chain_kind: &ChainKind, env: &'a DaemonEnvVars) -> (r: Result<
    &'a String,
    DaemonError,
>)
    ensures
        match r {
            Ok(words) => mnemonic_for(*chain_kind, *env) == Some(*words),
            Err(e) => e == (DaemonError::MissingMnemonic { kind: *chain_kind }) && mnemonic_for(
                *chain_kind,
                *env,
            ).is_none(),
        },
{
    let held = match chain_kind {
        ChainKind::Local => &env.local_mnemonic,
        ChainKind::Testnet => &env.test_mnemonic,
        ChainKind::Mainnet => &env.main_mnemonic,
    };
    match held {
        Some(words) => Ok(words),
        None => Err(DaemonError::MissingMnemonic { kind: *chain_kind }),
    }
}

} // verus!
