//! The sender: a signing key bound to one chain, with everything that is
//! computed for a submission. The node is never contacted from here; what
//! the node answers is handed in as plain values.

use vstd::prelude::*;
use crate::chain_info::ChainInfoOwned;
use crate::cosmos_options::{CosmosOptions, CosmosWalletKey};
use crate::env::{get_mnemonic_env, mnemonic_for, DaemonEnvVars};
use crate::error::{Coin, DaemonError};
use crate::fee::{fee_amount_of, fee_from_gas, gas_limit_of};
use crate::account::{decode_account, resolved_account, BaseAccount};
use crate::balance::{
    build_shortfall_message, shortfall, shortfall_error, shortfall_message, BalanceQuery,
    BalanceStep,
};
use crate::tx_broadcaster::{
    account_sequence_strategy, insufficient_fee_strategy, RetryAction, TxBroadcaster,
};
use crate::tx_builder::{
    assemble, build_sign_doc, messages_view, msg_exec_encoding, msg_send_encoding, coins_view,
    send_message, sign_doc_for, sign_with_secret, signed_document, timeout_for, wrap_authz, Any,
    Fee, SignDoc, TxBody, TxBuilder,
};
use crate::keys::{
    address_of, bech32_encoding, key_hash, makes_address, phrase_secret, PrivateKey,
    ETHEREUM_COIN_TYPE, HARDENED,
};

verus! {

/// Signs transactions for one account on one chain.
#[derive(Debug, Clone, PartialEq, Eq)]
pub struct CosmosSender {
    pub private_key: PrivateKey,
    /// The chain the sender submits to.
    pub chain_info: ChainInfoOwned,
    pub options: CosmosOptions,
    pub env: DaemonEnvVars,
}

/// The sender under its short name.
pub type Wallet = CosmosSender;

/// The last index of the derivation path that options ask for.
pub open spec fn hd_index_of(options: CosmosOptions) -> u32 {
    match options.hd_index {
        Some(index) => index,
        None => 0,
    }
}

/// The secret key that a phrase gives for account 0 at an index, or the
/// error that reports why it gives none.
pub open spec fn words_key(words: Seq<char>, index: u32, coin_type: u32) -> Result<
    Seq<u8>,
    DaemonError,
> {
    if coin_type >= HARDENED || index >= HARDENED {
        Err(DaemonError::InvalidKeyMaterial)
    } else {
        match phrase_secret(words, coin_type, 0, index) {
            Some(secret) => if key_hash(secret).is_some() {
                Ok(secret)
            } else {
                Err(DaemonError::InvalidKeyMaterial)
            },
            None => Err(DaemonError::InvalidKeyMaterial),
        }
    }
}

/// The key material that options and settings name, or the error that
/// reports why they name none: `MissingMnemonic` where the key is to come
/// from the settings and they hold none for the chain's tier, and
/// `InvalidKeyMaterial` where the phrase or the raw secret gives no key.
pub open spec fn key_material(
    chain_info: ChainInfoOwned,
    options: CosmosOptions,
    env: DaemonEnvVars,
) -> Result<Seq<u8>, DaemonError> {
    let coin_type = chain_info.network_info.coin_type;
    let index = hd_index_of(options);
    match options.key {
        CosmosWalletKey::Mnemonic(words) => words_key(words@, index, coin_type),
        CosmosWalletKey::Env => match mnemonic_for(chain_info.kind, env) {
            Some(words) => words_key(words@, index, coin_type),
            None => Err(DaemonError::MissingMnemonic { kind: chain_info.kind }),
        },
        CosmosWalletKey::RawKey(bytes) => if key_hash(bytes@).is_some() {
            Ok(bytes@)
        } else {
            Err(DaemonError::InvalidKeyMaterial)
        },
    }
}

/// What key material leads to on a chain. The key is looked at first: its
/// error stands whatever the chain. A key that makes no address under the
/// chain's prefix gives `InvalidAddress`. Only a key that is valid and has
/// an address gives `SigningUnsupported` on a chain of the Ethereum coin
/// type, whose signing scheme is not part of this library.
pub open spec fn checked_secret(chain_info: ChainInfoOwned, material: Result<Seq<u8>, DaemonError>) -> Result<
    Seq<u8>,
    DaemonError,
> {
    let coin_type = chain_info.network_info.coin_type;
    match material {
        Err(e) => Err(e),
        Ok(secret) => if !(key_hash(secret) matches Some(hash) && makes_address(
            chain_info.network_info.pub_address_prefix@,
            hash,
        )) {
            Err(DaemonError::InvalidAddress)
        } else if coin_type == ETHEREUM_COIN_TYPE {
            Err(DaemonError::SigningUnsupported { coin_type })
        } else {
            Ok(secret)
        },
    }
}

/// The secret key that a sender set up this way signs with, or the error
/// that reports why there is none.
pub open spec fn wallet_secret(
    chain_info: ChainInfoOwned,
    options: CosmosOptions,
    env: DaemonEnvVars,
) -> Result<Seq<u8>, DaemonError> {
    checked_secret(chain_info, key_material(chain_info, options, env))
}

/// The view of a result that holds bytes.
pub open spec fn bytes_result(r: Result<Vec<u8>, DaemonError>) -> Result<Seq<u8>, DaemonError> {
    match r {
        Ok(bytes) => Ok(bytes@),
        Err(e) => Err(e),
    }
}

/// What signing a document gives: `SigningUnsupported` for the Ethereum coin
/// type, else the signed transaction, or `InvalidKeyMaterial` where the
/// secret is no key.
pub open spec fn signing_outcome(
    coin_type: u32,
    secret: Seq<u8>,
    doc: (Seq<u8>, Seq<u8>, Seq<char>, u64),
) -> Result<Seq<u8>, DaemonError> {
    if coin_type == ETHEREUM_COIN_TYPE {
        Err(DaemonError::SigningUnsupported { coin_type })
    } else {
        match signed_document(secret, doc) {
            Some(bytes) => Ok(bytes),
            None => Err(DaemonError::InvalidKeyMaterial),
        }
    }
}

/// What building and signing a transaction gives: `Encoding` where there is
/// no document to sign, else what signing that document gives.
pub open spec fn signed_outcome(
    wallet: Wallet,
    body: TxBody,
    fee: Fee,
    sequence: u64,
    account_number: u64,
) -> Result<Seq<u8>, DaemonError> {
    match sign_doc_for(
        wallet.private_key.raw_key@,
        body,
        fee,
        sequence,
        wallet.chain_info.chain_id,
        account_number,
    ) {
        Some(doc) => signing_outcome(wallet.private_key.coin_type, wallet.private_key.raw_key@, doc),
        None => Err(DaemonError::Encoding),
    }
}

/// Signing one document twice with one key gives the same signed
/// transaction, or twice the same error.
pub proof fn lemma_signing_is_repeatable(
    wallet: Wallet,
    sign_doc: SignDoc,
    first: Result<Vec<u8>, DaemonError>,
    second: Result<Vec<u8>, DaemonError>,
)
    requires
        bytes_result(first) == signing_outcome(
            wallet.private_key.coin_type,
            wallet.private_key.raw_key@,
            sign_doc@,
        ),
        bytes_result(second) == signing_outcome(
            wallet.private_key.coin_type,
            wallet.private_key.raw_key@,
            sign_doc@,
        ),
    ensures
        bytes_result(first) == bytes_result(second),
        first is Ok ==> second is Ok && first->Ok_0@ == second->Ok_0@,
{
}

impl Wallet {
    /// The key is well formed, is of the chain's coin type, which is not the
    /// Ethereum one, and makes an address under the chain's prefix.
    pub open spec fn wf(&self) -> bool {
        &&& self.private_key.wf()
        &&& self.private_key.coin_type == self.chain_info.network_info.coin_type
        &&& self.private_key.coin_type != ETHEREUM_COIN_TYPE
        &&& makes_address(self.chain_info.network_info.pub_address_prefix@, self.private_key.raw_address@)
    }

    /// The sender's address, where the chain's prefix makes one.
    pub open spec fn own_address(&self) -> Option<Seq<char>> {
        address_of(self.chain_info.network_info.pub_address_prefix@, self.private_key.raw_address@)
    }

    /// The address of a well-formed sender.
    pub open spec fn address(&self) -> Seq<char> {
        bech32_encoding(self.chain_info.network_info.pub_address_prefix@, self.private_key.raw_address@)
    }

    /// Sets up a sender. The key comes from the mnemonic or the raw secret
    /// in the options, or from the mnemonic that the settings hold for the
    /// chain's tier; it is derived for account 0 at the options' index.
    /// Succeeds exactly where `wallet_secret` has a key, and fails with its
    /// error where it has none: the key is rejected before the address, and
    /// the address before the coin type.
    pub fn new(chain_info: ChainInfoOwned, options: CosmosOptions, env: DaemonEnvVars) -> (r: Result<
        Wallet,
        DaemonError,
    >)
        ensures
            match r {
                Ok(wallet) => wallet.wf() && wallet.chain_info == chain_info && wallet.options
                    == options && wallet.env == env && wallet_secret(chain_info, options, env)
                    == Ok::<Seq<u8>, DaemonError>(wallet.private_key.raw_key@)
                    && wallet.private_key.account == 0 && wallet.private_key.index == hd_index_of(
                    options,
                ),
                Err(e) => wallet_secret(chain_info, options, env) == Err::<Seq<u8>, DaemonError>(e),
            },
    {
        let coin_type = chain_info.network_info.coin_type;
        let index = match options.hd_index {
            Some(index) => index,
            None => 0,
        };
        let derived = match &options.key {
            CosmosWalletKey::Mnemonic(words) => PrivateKey::from_words(
                words.as_str(),
                0,
                index,
                coin_type,
            ),
            CosmosWalletKey::Env => match get_mnemonic_env(&chain_info.kind, &env) {
                Ok(words) => PrivateKey::from_words(words.as_str(), 0, index, coin_type),
                Err(e) => Err(e),
            },
            CosmosWalletKey::RawKey(bytes) => PrivateKey::from_raw_key(
                bytes.as_slice(),
                0,
                index,
                coin_type,
            ),
        };
        let private_key = match derived {
            Ok(key) => key,
            Err(e) => {
                return Err(e);
            },
        };
        if private_key.account_id(chain_info.network_info.pub_address_prefix.as_str()).is_none() {
            return Err(DaemonError::InvalidAddress);
        }
        if coin_type == ETHEREUM_COIN_TYPE {
            return Err(DaemonError::SigningUnsupported { coin_type });
        }
        Ok(CosmosSender { private_key, chain_info, options, env })
    }

    /// Sets up a sender from a mnemonic phrase, with no other option set: it
    /// is what `new` gives for options that hold the phrase as their key and
    /// nothing else.
    pub fn from_mnemonic(chain_info: ChainInfoOwned, mnemonic: &str, env: DaemonEnvVars) -> (r:
        Result<Wallet, DaemonError>)
        ensures
            match r {
                Ok(wallet) => {
                    &&& wallet.wf()
                    &&& wallet.chain_info == chain_info
                    &&& wallet.env == env
                    &&& wallet.options.authz_granter.is_none()
                    &&& wallet.options.fee_granter.is_none()
                    &&& wallet.options.hd_index.is_none()
                    &&& wallet.options.key matches CosmosWalletKey::Mnemonic(words) && words@
                        == mnemonic@
                    &&& wallet.private_key.account == 0
                    &&& wallet.private_key.index == 0
                    &&& checked_secret(
                        chain_info,
                        words_key(mnemonic@, 0, chain_info.network_info.coin_type),
                    ) == Ok::<Seq<u8>, DaemonError>(wallet.private_key.raw_key@)
                },
                Err(e) => checked_secret(
                    chain_info,
                    words_key(mnemonic@, 0, chain_info.network_info.coin_type),
                ) == Err::<Seq<u8>, DaemonError>(e),
            },
    {
        let options = CosmosOptions {
            authz_granter: None,
            fee_granter: None,
            hd_index: None,
            key: CosmosWalletKey::Mnemonic(mnemonic.to_owned()),
        };
        Wallet::new(chain_info, options, env)
    }

    /// The options the sender was set up with.
    pub fn options(&self) -> (options: &CosmosOptions)
        ensures
            *options == self.options,
    {
        &self.options
    }

    /// Makes the sender act on behalf of `granter`.
    pub fn set_authz_granter(&mut self, granter: String)
        ensures
            final(self).options == (CosmosOptions {
                authz_granter: Some(granter),
                ..old(self).options
            }),
            final(self).private_key == old(self).private_key,
            final(self).chain_info == old(self).chain_info,
            final(self).env == old(self).env,
            old(self).wf() ==> final(self).wf(),
    {
        self.options.authz_granter = Some(granter);
    }

    /// Makes `granter` pay the sender's fees.
    pub fn set_fee_granter(&mut self, granter: String)
        ensures
            final(self).options == (CosmosOptions {
                fee_granter: Some(granter),
                ..old(self).options
            }),
            final(self).private_key == old(self).private_key,
            final(self).chain_info == old(self).chain_info,
            final(self).env == old(self).env,
            old(self).wf() ==> final(self).wf(),
    {
        self.options.fee_granter = Some(granter);
    }

    /// The sender's address, where the chain's prefix makes one.
    pub fn account_id(&self) -> (id: Option<String>)
        ensures
            crate::text::text_view(id) == self.own_address(),
            self.wf() ==> id.is_some() && id.unwrap()@ == self.address(),
    {
        self.private_key.account_id(self.chain_info.network_info.pub_address_prefix.as_str())
    }

    /// The sender's address as text.
    pub fn pub_addr_str(&self) -> (address: String)
        requires
            self.wf(),
        ensures
            address@ == self.address(),
    {
        match self.account_id() {
            Some(id) => id,
            None => String::new(),
        }
    }

    /// The denomination in which the sender pays fees.
    pub fn get_fee_token(&self) -> (denom: String)
        ensures
            denom@ == self.chain_info.gas_denom@,
    {
        self.chain_info.gas_denom.clone()
    }

    /// The fee of a transaction that is only simulated: no gas, nothing paid,
    /// the sender's fee granter.
    pub open spec fn simulation_fee(&self) -> Fee {
        Fee {
            gas_limit: 0,
            amount: Coin { denom: self.chain_info.gas_denom, amount: 0 },
            granter: self.options.fee_granter,
        }
    }

    /// The fee of a transaction with this gas limit and amount: paid in the
    /// chain's gas denomination, by the sender's fee granter if there is one.
    pub open spec fn fee_of(&self, gas_limit: u64, amount: u128) -> Fee {
        Fee {
            gas_limit,
            amount: Coin { denom: self.chain_info.gas_denom, amount },
            granter: self.options.fee_granter,
        }
    }

    /// Builds the fee of a transaction with this gas limit and amount.
    pub fn build_fee(&self, gas_limit: u64, amount: u128) -> (fee: Fee)
        ensures
            fee == self.fee_of(gas_limit, amount),
    {
        let granter = match &self.options.fee_granter {
            Some(granter) => Some(granter.clone()),
            None => None,
        };
        Fee {
            gas_limit,
            amount: Coin { denom: self.chain_info.gas_denom.clone(), amount },
            granter,
        }
    }

    /// Signs a document and packs the signed transaction for transport.
    /// The result is a function of key and document alone.
    pub fn sign(&self, sign_doc: SignDoc) -> (r: Result<Vec<u8>, DaemonError>)
        ensures
            bytes_result(r) == signing_outcome(
                self.private_key.coin_type,
                self.private_key.raw_key@,
                sign_doc@,
            ),
    {
        if self.private_key.coin_type == ETHEREUM_COIN_TYPE {
            return Err(DaemonError::SigningUnsupported { coin_type: self.private_key.coin_type });
        }
        match sign_with_secret(self.private_key.raw_key.as_slice(), &sign_doc) {
            Some(bytes) => Ok(bytes),
            None => Err(DaemonError::InvalidKeyMaterial),
        }
    }

    /// Builds the document for a body, a fee and an account's numbers, and
    /// signs it.
    pub fn sign_tx(&self, body: &TxBody, fee: &Fee, sequence: u64, account_number: u64) -> (r:
        Result<Vec<u8>, DaemonError>)
        ensures
            bytes_result(r) == signed_outcome(*self, *body, *fee, sequence, account_number),
    {
        let doc = match build_sign_doc(
            self.private_key.raw_key.as_slice(),
            body,
            fee,
            sequence,
            self.chain_info.chain_id.clone(),
            account_number,
        ) {
            Ok(doc) => doc,
            Err(e) => {
                return Err(e);
            },
        };
        self.sign(doc)
    }

    /// Builds the transaction that is sent to the node to learn how much gas
    /// the body uses: the body signed with a fee of nothing. The node does
    /// not check the signature of a simulated transaction, so `sequence` and
    /// `account_number` may be 0.
    pub fn calculate_gas(&self, tx_body: &TxBody, sequence: u64, account_number: u64) -> (r: Result<
        Vec<u8>,
        DaemonError,
    >)
        ensures
            bytes_result(r) == signed_outcome(
                *self,
                *tx_body,
                self.simulation_fee(),
                sequence,
                account_number,
            ),
    {
        let fee = self.build_fee(0, 0);
        self.sign_tx(tx_body, &fee, sequence, account_number)
    }

    /// What follows the node's answer to a simulation that used
    /// `gas_needed`: the gas limit and the fee to submit with, and whether
    /// the balance is read and checked against that fee first. With the
    /// check switched off the balance is never read; with it on, what the
    /// balance leads to is the step of `assert_wallet_balance`.
    pub fn simulate(&self, gas_needed: u64) -> (r: Result<(u64, Coin, BalanceQuery), DaemonError>)
        ensures
            r.is_ok(),
            r.unwrap().0 == gas_limit_of(gas_needed, self.env.gas_buffer, self.env.min_gas),
            r.unwrap().1 == self.fee_coin(gas_needed),
            self.is_balance_query(self.fee_coin(gas_needed), r.unwrap().2),
    {
        let (gas_for_submission, fee_amount) = fee_from_gas(
            gas_needed,
            self.env.gas_buffer,
            self.env.min_gas,
            self.chain_info.gas_price,
        );
        let expected_fee = Coin { denom: self.chain_info.gas_denom.clone(), amount: fee_amount };
        let query = self.balance_query(&expected_fee);
        Ok((gas_for_submission, expected_fee, query))
    }

    /// The gas limit and fee amount that a builder's transaction is
    /// submitted with: each the builder's preset, else the value derived
    /// from the estimated gas.
    pub open spec fn submission_fee(&self, tx_builder: TxBuilder, estimated_gas: u64) -> Fee {
        self.fee_of(
            match tx_builder.gas_limit {
                Some(g) => g,
                None => gas_limit_of(estimated_gas, self.env.gas_buffer, self.env.min_gas) as u64,
            },
            match tx_builder.fee_amount {
                Some(f) => f,
                None => fee_amount_of(
                    estimated_gas,
                    self.env.gas_buffer,
                    self.env.min_gas,
                    self.chain_info.gas_price,
                ) as u128,
            },
        )
    }

    /// Builds and signs the transaction of a builder for the account as the
    /// node has just reported it. The sequence is the builder's preset, else
    /// the account's; the fee is `submission_fee`. `estimated_gas` is what
    /// the node reported for the simulated transaction; it is not looked at
    /// where the builder presets both gas limit and fee amount.
    pub fn build_tx(&self, tx_builder: &TxBuilder, account: &BaseAccount, estimated_gas: u64) -> (r:
        Result<Vec<u8>, DaemonError>)
        ensures
            bytes_result(r) == signed_outcome(
                *self,
                tx_builder.body,
                self.submission_fee(*tx_builder, estimated_gas),
                tx_builder.signing_sequence(account.sequence),
                account.account_number,
            ),
    {
        let sequence = tx_builder.sequence_for(account.sequence);
        let (estimated_limit, estimated_fee) = fee_from_gas(
            estimated_gas,
            self.env.gas_buffer,
            self.env.min_gas,
            self.chain_info.gas_price,
        );
        let (gas_limit, fee_amount) = tx_builder.fee_for(estimated_limit, estimated_fee);
        let fee = self.build_fee(gas_limit, fee_amount);
        self.sign_tx(&tx_builder.body, &fee, sequence, account.account_number)
    }

    /// Resolves the node's record of the sender's own account. A sender that
    /// acts for a granter still signs with its own account's numbers.
    pub fn base_account(&self, account_bytes: &[u8]) -> (r: Result<BaseAccount, DaemonError>)
        ensures
            match r {
                Ok(account) => resolved_account(account_bytes@) == Some(account@),
                Err(e) => e == DaemonError::UnknownAccountType && resolved_account(
                    account_bytes@,
                ).is_none(),
            },
    {
        decode_account(account_bytes)
    }

    /// The account that coins are sent from: the granter the sender acts
    /// for, else the sender itself, where it has an address.
    pub open spec fn funds_owner(&self) -> Option<Seq<char>> {
        match self.options.authz_granter {
            Some(granter) => Some(granter@),
            None => self.own_address(),
        }
    }

    /// Builds the message that sends coins to `recipient`, from the granter
    /// the sender acts for, else from the sender itself. Fails with
    /// `InvalidAddress` exactly where the sender would send for itself and
    /// has no address, else with `Encoding` exactly where an address or a
    /// denomination is not well formed.
    pub fn bank_send(&self, recipient: &str, coins: Vec<Coin>) -> (r: Result<Any, DaemonError>)
        ensures
            match r {
                Ok(message) => self.funds_owner().is_some() && msg_send_encoding(
                    self.funds_owner().unwrap(),
                    recipient@,
                    coins_view(coins@),
                ) == Some(message@),
                Err(e) => match self.funds_owner() {
                    None => e == DaemonError::InvalidAddress,
                    Some(owner) => e == DaemonError::Encoding && msg_send_encoding(
                        owner,
                        recipient@,
                        coins_view(coins@),
                    ).is_none(),
                },
            },
    {
        match &self.options.authz_granter {
            Some(granter) => send_message(granter.as_str(), recipient, &coins),
            None => match self.account_id() {
                Some(own) => send_message(own.as_str(), recipient, &coins),
                None => Err(DaemonError::InvalidAddress),
            },
        }
    }

    /// The messages as they go into the body: where the sender acts for a
    /// granter, the single message that executes them on the granter's
    /// behalf, sent by the sender; else the messages themselves. Fails with
    /// `InvalidAddress` exactly where the sender acts for a granter and has
    /// no address.
    pub fn commit_messages(&self, msgs: Vec<Any>) -> (r: Result<Vec<Any>, DaemonError>)
        ensures
            match r {
                Ok(wrapped) => if self.options.authz_granter.is_some() {
                    &&& self.own_address().is_some()
                    &&& wrapped@.len() == 1
                    &&& wrapped@[0].type_url@ == "/cosmos.authz.v1beta1.MsgExec"@
                    &&& wrapped@[0].value@ == msg_exec_encoding(
                        self.own_address().unwrap(),
                        messages_view(msgs@),
                    )
                } else {
                    wrapped == msgs
                },
                Err(e) => e == DaemonError::InvalidAddress && self.options.authz_granter.is_some()
                    && self.own_address().is_none(),
            },
    {
        if self.options.authz_granter.is_some() {
            match self.account_id() {
                Some(grantee) => Ok(wrap_authz(msgs, grantee.as_str())),
                None => Err(DaemonError::InvalidAddress),
            }
        } else {
            Ok(msgs)
        }
    }

    /// Prepares a broadcast: the builder of the transaction, valid for ten
    /// blocks after `block_height`, and the broadcaster with the two standard
    /// strategies, sequence mismatch before insufficient fee. Fails with
    /// `InvalidAddress` exactly where the sender acts for a granter and has
    /// no address, else with `Encoding` exactly where the timeout height
    /// does not fit in 64 bits.
    pub fn commit_tx_any(&self, msgs: Vec<Any>, memo: Option<&str>, block_height: u64) -> (r:
        Result<(TxBuilder, TxBroadcaster), DaemonError>)
        ensures
            match r {
                Ok((tx_builder, broadcaster)) => {
                    &&& tx_builder.fee_amount.is_none() && tx_builder.gas_limit.is_none()
                        && tx_builder.sequence.is_none()
                    &&& tx_builder.body.timeout_height == timeout_for(block_height)
                    &&& tx_builder.body.memo@ == (match memo {
                        Some(m) => m@,
                        None => Seq::<char>::empty(),
                    })
                    &&& self.options.authz_granter.is_none() ==> tx_builder.body.messages == msgs
                    &&& self.options.authz_granter.is_some() ==> self.own_address().is_some()
                        && tx_builder.body.messages@.len() == 1
                        && tx_builder.body.messages@[0].type_url@
                        == "/cosmos.authz.v1beta1.MsgExec"@
                        && tx_builder.body.messages@[0].value@ == msg_exec_encoding(
                        self.own_address().unwrap(),
                        messages_view(msgs@),
                    )
                    &&& broadcaster.strategies@.len() == 2
                    &&& broadcaster.strategies@[0].action == RetryAction::Resubmit
                    &&& broadcaster.strategies@[0].max_retries.is_none()
                    &&& broadcaster.strategies@[0].fragment@ == "incorrect account sequence"@
                    &&& broadcaster.strategies@[1].action == RetryAction::RaiseFee
                    &&& broadcaster.strategies@[1].max_retries == Some(1u64)
                    &&& broadcaster.strategies@[1].fragment@ == "insufficient fee"@
                    &&& forall|i: int|
                        0 <= i < 2 ==> (#[trigger] broadcaster.strategies@[i]).current_retries == 0
                            && broadcaster.strategies@[i].code.is_none()
                },
                Err(e) => if self.options.authz_granter.is_some() && self.own_address().is_none() {
                    e == DaemonError::InvalidAddress
                } else {
                    e == DaemonError::Encoding && timeout_for(block_height) > u64::MAX
                },
            },
    {
        let wrapped = match self.commit_messages(msgs) {
            Ok(wrapped) => wrapped,
            Err(e) => {
                return Err(e);
            },
        };
        let body = match assemble(wrapped, memo, block_height) {
            Ok(body) => body,
            Err(e) => {
                return Err(e);
            },
        };
        let broadcaster = TxBroadcaster::default().add_strategy(
            account_sequence_strategy(),
        ).add_strategy(insufficient_fee_strategy());
        Ok((TxBuilder::new(body), broadcaster))
    }

    /// The step that a look at the balance leads to. A wallet that holds the
    /// fee proceeds. For one that holds less, the message that names chain,
    /// address, fee and balance is made: where the settings allow to ask a
    /// person, the person is asked; else the shortfall is final. A sender
    /// without an address, which the message has to name, fails with
    /// `InvalidAddress`.
    pub open spec fn is_balance_step(&self, fee: Coin, balance: Coin, step: BalanceStep) -> bool {
        if balance.amount >= fee.amount {
            step == BalanceStep::Proceed
        } else {
            match self.own_address() {
                None => step == BalanceStep::Fail(DaemonError::InvalidAddress),
                Some(address) => if self.env.manual_interaction {
                    step matches BalanceStep::AskToTopUp { message } && message@
                        == shortfall_message(self.chain_info.chain_id@, address, fee, balance)
                } else {
                    step matches BalanceStep::GiveUp { message, error } && message@
                        == shortfall_message(self.chain_info.chain_id@, address, fee, balance)
                        && error == shortfall(fee, balance)
                },
            }
        }
    }

    /// Checks the balance that the node reported against a fee.
    pub fn assert_wallet_balance(&self, fee: &Coin, balance: &Coin) -> (step: BalanceStep)
        ensures
            self.is_balance_step(*fee, *balance, step),
    {
        if balance.amount >= fee.amount {
            return BalanceStep::Proceed;
        }
        let address = match self.account_id() {
            Some(address) => address,
            None => {
                return BalanceStep::Fail(DaemonError::InvalidAddress);
            },
        };
        let message = build_shortfall_message(
            self.chain_info.chain_id.as_str(),
            address.as_str(),
            fee,
            balance,
        );
        if self.env.manual_interaction {
            BalanceStep::AskToTopUp { message }
        } else {
            BalanceStep::GiveUp { message, error: shortfall_error(fee, balance) }
        }
    }

    /// Whether the balance is read and checked against a fee: where the
    /// settings switch the check on, in the fee's denomination; else not.
    pub open spec fn is_balance_query(&self, fee: Coin, query: BalanceQuery) -> bool {
        if self.env.wallet_balance_assertion {
            query matches BalanceQuery::Ask { denom } && denom == fee.denom
        } else {
            query == BalanceQuery::Skip
        }
    }

    /// Decides whether the balance is read and checked against a fee before
    /// the transaction is submitted.
    pub fn balance_query(&self, fee: &Coin) -> (query: BalanceQuery)
        ensures
            self.is_balance_query(*fee, query),
    {
        if self.env.wallet_balance_assertion {
            BalanceQuery::Ask { denom: fee.denom.clone() }
        } else {
            BalanceQuery::Skip
        }
    }

    /// The fee of a transaction that uses `gas`, as a coin.
    pub open spec fn fee_coin(&self, gas: u64) -> Coin {
        Coin {
            denom: self.chain_info.gas_denom,
            amount: fee_amount_of(
                gas,
                self.env.gas_buffer,
                self.env.min_gas,
                self.chain_info.gas_price,
            ) as u128,
        }
    }

    /// Checks the balance that the node reported against the fee of a
    /// transaction that uses `gas`.
    pub fn has_enough_balance_for_gas(&self, gas: u64, balance: &Coin) -> (step: BalanceStep)
        ensures
            self.is_balance_step(self.fee_coin(gas), *balance, step),
    {
        let (_gas_expected, fee_amount) = fee_from_gas(
            gas,
            self.env.gas_buffer,
            self.env.min_gas,
            self.chain_info.gas_price,
        );
        let fee = Coin { denom: self.chain_info.gas_denom.clone(), amount: fee_amount };
        self.assert_wallet_balance(&fee, balance)
    }

    /// The gas limit and the fee amount for a gas estimate, by the chain's
    /// gas price and the settings' factor and floor.
    pub fn get_fee_from_gas(&self, gas: u64) -> (r: Result<(u64, u128), DaemonError>)
        ensures
            r.is_ok(),
            r.unwrap().0 == gas_limit_of(gas, self.env.gas_buffer, self.env.min_gas),
            r.unwrap().1 == fee_amount_of(
                gas,
                self.env.gas_buffer,
                self.env.min_gas,
                self.chain_info.gas_price,
            ),
    {
        Ok(fee_from_gas(gas, self.env.gas_buffer, self.env.min_gas, self.chain_info.gas_price))
    }
}

} // verus!
