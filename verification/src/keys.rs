//! Deriving the signing key and the account address from a mnemonic phrase
//! or a raw secret.

use vstd::prelude::*;
use crate::error::DaemonError;
use crate::text::{bytes_view, text_view};

verus! {

/// The coin type whose accounts are keyed and signed the Ethereum way.
pub const ETHEREUM_COIN_TYPE: u32 = 60;

/// Added to an index, marks a hardened step of a derivation path.
pub const HARDENED: u32 = 0x8000_0000;

/// The purpose that starts every derivation path.
pub const PURPOSE: u32 = 44;

/// The seed that a mnemonic phrase of the English word list gives with an
/// empty passphrase: `None` where the phrase is not a valid mnemonic.
pub uninterp spec fn phrase_seed(words: Seq<char>) -> Option<Seq<u8>>;

/// The secret key at the end of a derivation path from a seed; each step of
/// the path is an index, plus `HARDENED` for a hardened step. `None` where
/// the seed has no master key or a step has no child.
pub uninterp spec fn derived_secret(seed: Seq<u8>, path: Seq<u32>) -> Option<Seq<u8>>;

/// The 20-byte hash of the public key of a secp256k1 secret: `None` where
/// the bytes are not a secret key.
pub uninterp spec fn key_hash(secret: Seq<u8>) -> Option<Seq<u8>>;

/// The Bech32 text of bytes under a human-readable prefix.
pub uninterp spec fn bech32_encoding(prefix: Seq<char>, bytes: Seq<u8>) -> Seq<char>;

/// A character that an address prefix may hold: a lower-case letter or a digit.
pub open spec fn is_prefix_char(c: char) -> bool {
    ('a' <= c && c <= 'z') || ('0' <= c && c <= '9')
}

/// A prefix and bytes that make an account address: the prefix is lower-case
/// alphanumeric and the bytes are between 1 and 255.
pub open spec fn makes_address(prefix: Seq<char>, bytes: Seq<u8>) -> bool {
    &&& forall|i: int| 0 <= i < prefix.len() ==> is_prefix_char(#[trigger] prefix[i])
    &&& 1 <= bytes.len() <= 255
}

/// The address of bytes under a prefix, where they make one.
pub open spec fn address_of(prefix: Seq<char>, bytes: Seq<u8>) -> Option<Seq<char>> {
    if makes_address(prefix, bytes) {
        Some(bech32_encoding(prefix, bytes))
    } else {
        None
    }
}

/// The derivation path `m/44'/coin_type'/account'/0/index`.
pub open spec fn hd_path(coin_type: u32, account: u32, index: u32) -> Seq<u32> {
    seq![
        (PURPOSE + HARDENED) as u32,
        (coin_type + HARDENED) as u32,
        (account + HARDENED) as u32,
        0u32,
        index,
    ]
}

/// The secret key that a phrase gives at `m/44'/coin_type'/account'/0/index`.
pub open spec fn phrase_secret(words: Seq<char>, coin_type: u32, account: u32, index: u32) -> Option<
    Seq<u8>,
> {
    match phrase_seed(words) {
        Some(seed) => derived_secret(seed, hd_path(coin_type, account, index)),
        None => None,
    }
}

/// Calls `bip39::Mnemonic::parse_in` with the English word list and, on the
/// parsed mnemonic, `to_seed` with an empty passphrase. The contract only
/// names the result: the same phrase always gives the same seed.
#[verifier::external_body]
fn mnemonic_seed(words: &str) -> (seed: Option<Vec<u8>>)
    ensures
        bytes_view(seed) == phrase_seed(words@),
{
    match bip39::Mnemonic::parse_in(bip39::Language::English, words) {
        Ok(mnemonic) => Some(mnemonic.to_seed("").to_vec()),
        Err(_) => None,
    }
}

/// Calls `bip32::XPrv::derive_from_path` with the path's child numbers and
/// hands out the bytes of the derived private key. The contract only names
/// the result: seed and path determine the key.
#[verifier::external_body]
fn derive_secret(seed: &[u8], path: &Vec<u32>) -> (secret: Option<Vec<u8>>)
    ensures
        bytes_view(secret) == derived_secret(seed@, path@),
{
    let mut steps = cosmrs::bip32::DerivationPath::default();
    steps.extend(path.iter().map(|number| cosmrs::bip32::ChildNumber(*number)));
    match cosmrs::bip32::XPrv::derive_from_path(seed, &steps) {
        Ok(key) => Some(key.private_key().to_bytes().to_vec()),
        Err(_) => None,
    }
}

/// Calls `cosmrs::crypto::secp256k1::SigningKey::from_slice`, takes the
/// key's public key and converts it to a `tendermint::account::Id`, which is
/// RIPEMD160 of SHA256 of the compressed key. The contract names the result
/// and states its length, 20 bytes.
#[verifier::external_body]
fn public_key_hash(secret: &[u8]) -> (hash: Option<Vec<u8>>)
    ensures
        bytes_view(hash) == key_hash(secret@),
        hash.is_some() ==> hash.unwrap()@.len() == 20,
{
    match cosmrs::crypto::secp256k1::SigningKey::from_slice(secret) {
        Ok(key) => {
            let public: cosmrs::tendermint::PublicKey = key.public_key().into();
            Some(cosmrs::tendermint::account::Id::from(public).as_bytes().to_vec())
        },
        Err(_) => None,
    }
}

/// Calls `cosmrs::AccountId::new` and hands out the account's text. It
/// succeeds exactly where the prefix is lower-case alphanumeric and the bytes
/// are between 1 and 255; the text is the Bech32 encoding, which is named.
#[verifier::external_body]
fn bech32_account_id(prefix: &str, bytes: &[u8]) -> (id: Option<String>)
    ensures
        id.is_some() == makes_address(prefix@, bytes@),
        id.is_some() ==> id.unwrap()@ == bech32_encoding(prefix@, bytes@),
{
    match cosmrs::AccountId::new(prefix, bytes) {
        Ok(id) => Some(id.into()),
        Err(_) => None,
    }
}

/// A signing key with the place it was derived at and the hash of its
/// public key.
#[derive(Debug, Clone, PartialEq, Eq)]
pub struct PrivateKey {
    pub account: u32,
    pub index: u32,
    pub coin_type: u32,
    pub raw_key: Vec<u8>,
    pub raw_address: Vec<u8>,
}

/// Builds the derivation path `m/44'/coin_type'/account'/0/index`.
pub fn derivation_path(coin_type: u32, account: u32, index: u32) -> (path: Vec<u32>)
    requires
        coin_type < HARDENED,
        account < HARDENED,
    ensures
        path@ == hd_path(coin_type, account, index),
{
    let mut path: Vec<u32> = Vec::new();
    path.push(PURPOSE + HARDENED);
    path.push(coin_type + HARDENED);
    path.push(account + HARDENED);
    path.push(0);
    path.push(index);
    assert(path@ =~= hd_path(coin_type, account, index));
    path
}

impl PrivateKey {
    /// The stored hash is the hash of the stored secret's public key.
    pub open spec fn wf(&self) -> bool {
        &&& key_hash(self.raw_key@) == Some(self.raw_address@)
        &&& self.raw_address@.len() == 20
    }

    /// Wraps a raw secret. Fails with `InvalidKeyMaterial` exactly where the
    /// bytes are not a secp256k1 secret key.
    pub fn from_raw_key(raw_key: &[u8], account: u32, index: u32, coin_type: u32) -> (r: Result<
        PrivateKey,
        DaemonError,
    >)
        ensures
            match r {
                Ok(key) => key.wf() && key.raw_key@ == raw_key@ && key.account == account
                    && key.index == index && key.coin_type == coin_type,
                Err(e) => e == DaemonError::InvalidKeyMaterial && key_hash(raw_key@).is_none(),
            },
    {
        match public_key_hash(raw_key) {
            Some(raw_address) => Ok(
                PrivateKey {
                    account,
                    index,
                    coin_type,
                    raw_key: vstd::slice::slice_to_vec(raw_key),
                    raw_address,
                },
            ),
            None => Err(DaemonError::InvalidKeyMaterial),
        }
    }

    /// Derives the key at `m/44'/coin_type'/account'/0/index` from a mnemonic
    /// phrase. Fails with `InvalidKeyMaterial` exactly where coin type,
    /// account or index is 2^31 or more, the phrase is no mnemonic, or the
    /// path leads to no key.
    pub fn from_words(words: &str, account: u32, index: u32, coin_type: u32) -> (r: Result<
        PrivateKey,
        DaemonError,
    >)
        ensures
            match r {
                Ok(key) => key.wf() && coin_type < HARDENED && account < HARDENED && index
                    < HARDENED && phrase_secret(words@, coin_type, account, index) == Some(
                    key.raw_key@,
                ) && key.account == account && key.index == index && key.coin_type == coin_type,
                Err(e) => e == DaemonError::InvalidKeyMaterial && (coin_type >= HARDENED || account
                    >= HARDENED || index >= HARDENED || match phrase_secret(
                    words@,
                    coin_type,
                    account,
                    index,
                ) {
                    Some(secret) => key_hash(secret).is_none(),
                    None => true,
                }),
            },
    {
        if coin_type >= HARDENED || account >= HARDENED || index >= HARDENED {
            return Err(DaemonError::InvalidKeyMaterial);
        }
        let seed = match mnemonic_seed(words) {
            Some(seed) => seed,
            None => {
                return Err(DaemonError::InvalidKeyMaterial);
            },
        };
        let path = derivation_path(coin_type, account, index);
        match derive_secret(seed.as_slice(), &path) {
            Some(secret) => PrivateKey::from_raw_key(secret.as_slice(), account, index, coin_type),
            None => Err(DaemonError::InvalidKeyMaterial),
        }
    }

    /// The secret key's bytes.
    pub fn raw_key(&self) -> (bytes: &Vec<u8>)
        ensures
            bytes@ == self.raw_key@,
    {
        &self.raw_key
    }

    /// The bytes of the hash of the public key.
    pub fn raw_address(&self) -> (bytes: &Vec<u8>)
        ensures
            bytes@ == self.raw_address@,
    {
        &self.raw_address
    }

    /// The account address under a prefix: `None` exactly where the prefix
    /// and the key hash make no address.
    pub fn account_id(&self, prefix: &str) -> (id: Option<String>)
        ensures
            text_view(id) == address_of(prefix@, self.raw_address@),
    {
        bech32_account_id(prefix, self.raw_address.as_slice())
    }
}

} // verus!
