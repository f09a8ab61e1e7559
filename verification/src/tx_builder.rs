//! The unsigned transaction and what a retry may change about it.

use vstd::prelude::*;
use vstd::string::StringSliceAdditionalSpecFns;
use crate::error::{Coin, DaemonError};
use crate::text::{bytes_view, text_view};

verus! {

/// The number of blocks after the current one during which a transaction
/// stays valid for inclusion.
pub const TIMEOUT_OFFSET: u64 = 10;

/// An opaque message: a type tag and the encoded payload.
#[derive(Debug, Clone, PartialEq, Eq)]
pub struct Any {
    pub type_url: String,
    pub value: Vec<u8>,
}

/// The unsigned body of a transaction.
#[derive(Debug, Clone, PartialEq, Eq)]
pub struct TxBody {
    pub messages: Vec<Any>,
    pub memo: String,
    pub timeout_height: u64,
}

/// A transaction under construction: its body, and the values that replace
/// what would otherwise be estimated or read from the ledger.
#[derive(Debug, Clone, PartialEq, Eq)]
pub struct TxBuilder {
    pub body: TxBody,
    pub fee_amount: Option<u128>,
    pub gas_limit: Option<u64>,
    pub sequence: Option<u64>,
}

/// What a transaction pays: the gas it may use, the amount paid, and who
/// pays in the sender's place, if anyone.
#[derive(Debug, Clone, PartialEq, Eq)]
pub struct Fee {
    pub gas_limit: u64,
    pub amount: Coin,
    pub granter: Option<String>,
}

/// The document that is signed: the encoded body, the encoded fee and signer
/// envelope, the chain and the account number.
#[derive(Debug, Clone, PartialEq, Eq)]
pub struct SignDoc {
    pub body_bytes: Vec<u8>,
    pub auth_info_bytes: Vec<u8>,
    pub chain_id: String,
    pub account_number: u64,
}

/// A message as plain values: type tag and payload.
pub type AnyView = (Seq<char>, Seq<u8>);

impl View for Any {
    type V = AnyView;

    open spec fn view(&self) -> AnyView {
        (self.type_url@, self.value@)
    }
}

/// Messages as plain values, in their order.
pub open spec fn messages_view(messages: Seq<Any>) -> Seq<AnyView> {
    messages.map_values(|m: Any| m@)
}

/// The wire form of a transaction body: `None` where it has none.
pub uninterp spec fn body_encoding(messages: Seq<AnyView>, memo: Seq<char>, timeout_height: u64) -> Option<
    Seq<u8>,
>;

/// The wire form of the envelope that names a single signer by the public
/// key of `secret`, signing directly at `sequence`, and the fee: `None`
/// where the secret is no key, or the denomination or the granter is not
/// well formed.
pub uninterp spec fn auth_info_encoding(
    secret: Seq<u8>,
    sequence: u64,
    gas_limit: u64,
    amount: u128,
    denom: Seq<char>,
    granter: Option<Seq<char>>,
) -> Option<Seq<u8>>;

/// The wire form of the signed transaction: the document's body and
/// envelope with the signature of `secret` over the document; `None` where
/// the secret is no key.
pub uninterp spec fn signed_tx(
    secret: Seq<u8>,
    body_bytes: Seq<u8>,
    auth_info_bytes: Seq<u8>,
    chain_id: Seq<char>,
    account_number: u64,
) -> Option<Seq<u8>>;

/// The wire form of the message that executes `messages` on behalf of their
/// granter, sent by `grantee`.
pub uninterp spec fn msg_exec_encoding(grantee: Seq<char>, messages: Seq<AnyView>) -> Seq<u8>;

/// The wire form of the message that sends coins from one address to
/// another, with its type tag: `None` where an address or a denomination is
/// not well formed.
pub uninterp spec fn msg_send_encoding(
    from: Seq<char>,
    to: Seq<char>,
    coins: Seq<(Seq<char>, u128)>,
) -> Option<AnyView>;

/// Coins as plain values, in their order.
pub open spec fn coins_view(coins: Seq<Coin>) -> Seq<(Seq<char>, u128)> {
    coins.map_values(|c: Coin| (c.denom@, c.amount))
}

/// The view of a message that may be absent.
pub open spec fn any_view(message: Option<Any>) -> Option<AnyView> {
    match message {
        Some(m) => Some(m@),
        None => None,
    }
}

/// Calls `cosmrs::tx::Body::new` and `into_bytes` on the body. The contract
/// only names the result.
#[verifier::external_body]
fn encode_body(body: &TxBody) -> (bytes: Option<Vec<u8>>)
    ensures
        bytes_view(bytes) == body_encoding(
            messages_view(body.messages@),
            body.memo@,
            body.timeout_height,
        ),
{
    let messages = body.messages.iter().map(
        |m| cosmrs::Any { type_url: m.type_url.clone(), value: m.value.clone() },
    );
    let height = cosmrs::tendermint::block::Height::try_from(body.timeout_height).ok()?;
    cosmrs::tx::Body::new(messages, body.memo.clone(), height).into_bytes().ok()
}

/// Builds a `cosmrs::tx::Fee` from the fee's parts and a single-signer
/// `SignerInfo` in direct mode from the public key of the secret, and calls
/// `auth_info` and `into_bytes`. The contract only names the result.
#[verifier::external_body]
fn encode_auth_info(secret: &[u8], sequence: u64, fee: &Fee) -> (bytes: Option<Vec<u8>>)
    ensures
        bytes_view(bytes) == auth_info_encoding(
            secret@,
            sequence,
            fee.gas_limit,
            fee.amount.amount,
            fee.amount.denom@,
            text_view(fee.granter),
        ),
{
    let key = cosmrs::crypto::secp256k1::SigningKey::from_slice(secret).ok()?;
    let amount = cosmrs::Coin::new(fee.amount.amount, &fee.amount.denom).ok()?;
    let mut paid = cosmrs::tx::Fee::from_amount_and_gas(amount, fee.gas_limit);
    paid.granter = match &fee.granter {
        Some(granter) => Some(granter.parse().ok()?),
        None => None,
    };
    let signer = cosmrs::tx::SignerInfo::single_direct(Some(key.public_key()), sequence);
    signer.auth_info(paid).into_bytes().ok()
}

/// Calls `cosmrs::tx::SignDoc::sign` with the key that
/// `SigningKey::from_slice` makes of the secret, and `to_bytes` on the raw
/// transaction. The signature scheme is deterministic, so the contract names
/// the result.
#[verifier::external_body]
fn sign_document(secret: &[u8], sign_doc: &SignDoc) -> (bytes: Option<Vec<u8>>)
    ensures
        bytes_view(bytes) == signed_tx(
            secret@,
            sign_doc.body_bytes@,
            sign_doc.auth_info_bytes@,
            sign_doc.chain_id@,
            sign_doc.account_number,
        ),
{
    let key = cosmrs::crypto::secp256k1::SigningKey::from_slice(secret).ok()?;
    let document = cosmrs::tx::SignDoc {
        body_bytes: sign_doc.body_bytes.clone(),
        auth_info_bytes: sign_doc.auth_info_bytes.clone(),
        chain_id: sign_doc.chain_id.clone(),
        account_number: sign_doc.account_number,
    };
    document.sign(&key).ok()?.to_bytes().ok()
}

/// Calls `prost::Message::encode_to_vec` on a `cosmos.authz.v1beta1.MsgExec`
/// with this grantee and these messages. The contract only names the result.
#[verifier::external_body]
fn encode_msg_exec(grantee: &str, messages: &Vec<Any>) -> (bytes: Vec<u8>)
    ensures
        bytes@ == msg_exec_encoding(grantee@, messages_view(messages@)),
{
    let msgs = messages.iter().map(
        |m| cosmrs::Any { type_url: m.type_url.clone(), value: m.value.clone() },
    ).collect();
    let exec = cosmrs::proto::cosmos::authz::v1beta1::MsgExec { grantee: grantee.to_string(), msgs };
    cosmrs::proto::traits::Message::encode_to_vec(&exec)
}

/// Builds a `cosmrs::bank::MsgSend` from the parsed addresses and coins and
/// calls `cosmrs::tx::Msg::into_any`. The contract only names the result.
#[verifier::external_body]
fn encode_msg_send(from: &str, to: &str, coins: &Vec<Coin>) -> (message: Option<Any>)
    ensures
        any_view(message) == msg_send_encoding(from@, to@, coins_view(coins@)),
{
    let amount: Result<Vec<cosmrs::Coin>, _> = coins.iter().map(
        |c| cosmrs::Coin::new(c.amount, &c.denom),
    ).collect();
    let send = cosmrs::bank::MsgSend {
        from_address: from.parse().ok()?,
        to_address: to.parse().ok()?,
        amount: amount.ok()?,
    };
    let any = cosmrs::tx::Msg::into_any(send).ok()?;
    Some(Any { type_url: any.type_url, value: any.value })
}

/// The message that sends coins from one address to another. Fails with
/// `Encoding` exactly where `msg_send_encoding` has none.
pub fn send_message(from: &str, to: &str, coins: &Vec<Coin>) -> (r: Result<Any, DaemonError>)
    ensures
        match r {
            Ok(message) => msg_send_encoding(from@, to@, coins_view(coins@)) == Some(message@),
            Err(e) => e == DaemonError::Encoding && msg_send_encoding(
                from@,
                to@,
                coins_view(coins@),
            ).is_none(),
        },
{
    match encode_msg_send(from, to, coins) {
        Some(message) => Ok(message),
        None => Err(DaemonError::Encoding),
    }
}

/// A byte that a chain identifier may hold: a letter, a digit, `-`, `_` or `.`.
pub open spec fn is_chain_id_byte(b: u8) -> bool {
    (97 <= b <= 122) || (65 <= b <= 90) || (48 <= b <= 57) || b == 45 || b == 95 || b == 46
}

/// A chain identifier is between 1 and 50 bytes of the identifier alphabet.
pub open spec fn valid_chain_id(id: Seq<u8>) -> bool {
    &&& 1 <= id.len() <= 50
    &&& forall|i: int| 0 <= i < id.len() ==> is_chain_id_byte(#[trigger] id[i])
}

/// Whether text is a well-formed chain identifier.
pub fn is_valid_chain_id(chain_id: &str) -> (valid: bool)
    ensures
        valid == valid_chain_id(chain_id.spec_bytes()),
{
    let bytes = chain_id.as_bytes();
    if bytes.len() < 1 || bytes.len() > 50 {
        return false;
    }
    let mut i: usize = 0;
    while i < bytes.len()
        invariant
            i <= bytes.len(),
            1 <= bytes.len() <= 50,
            bytes@ == chain_id.spec_bytes(),
            forall|j: int| 0 <= j < i ==> is_chain_id_byte(#[trigger] bytes@[j]),
        decreases bytes.len() - i,
    {
        let b = bytes[i];
        let ok = (97 <= b && b <= 122) || (65 <= b && b <= 90) || (48 <= b && b <= 57) || b == 45
            || b == 95 || b == 46;
        if !ok {
            assert(!is_chain_id_byte(bytes@[i as int]));
            return false;
        }
        i += 1;
    }
    true
}

/// The height up to which a transaction built at `block_height` stays valid.
pub open spec fn timeout_for(block_height: u64) -> int {
    block_height + TIMEOUT_OFFSET
}

/// The document for a body, a fee and an account, in the order body,
/// envelope, chain, account number: `None` where the chain identifier is not
/// well formed or body or envelope have no wire form.
pub open spec fn sign_doc_for(
    secret: Seq<u8>,
    body: TxBody,
    fee: Fee,
    sequence: u64,
    chain_id: String,
    account_number: u64,
) -> Option<(Seq<u8>, Seq<u8>, Seq<char>, u64)> {
    let body_bytes = body_encoding(messages_view(body.messages@), body.memo@, body.timeout_height);
    let auth_info_bytes = auth_info_encoding(
        secret,
        sequence,
        fee.gas_limit,
        fee.amount.amount,
        fee.amount.denom@,
        text_view(fee.granter),
    );
    if valid_chain_id(vstd::utf8::encode_utf8(chain_id@)) && body_bytes.is_some()
        && auth_info_bytes.is_some() {
        Some((body_bytes.unwrap(), auth_info_bytes.unwrap(), chain_id@, account_number))
    } else {
        None
    }
}

impl View for SignDoc {
    type V = (Seq<u8>, Seq<u8>, Seq<char>, u64);

    open spec fn view(&self) -> (Seq<u8>, Seq<u8>, Seq<char>, u64) {
        (self.body_bytes@, self.auth_info_bytes@, self.chain_id@, self.account_number)
    }
}

/// The signed transaction for a document, as `sign_document` names it.
pub open spec fn signed_document(secret: Seq<u8>, doc: (Seq<u8>, Seq<u8>, Seq<char>, u64)) -> Option<
    Seq<u8>,
> {
    signed_tx(secret, doc.0, doc.1, doc.2, doc.3)
}

/// Builds the body of a transaction that is valid for `TIMEOUT_OFFSET`
/// blocks after `block_height`. Fails with `Encoding` exactly where that
/// height does not fit in 64 bits.
pub fn assemble(messages: Vec<Any>, memo: Option<&str>, block_height: u64) -> (r: Result<
    TxBody,
    DaemonError,
>)
    ensures
        match r {
            Ok(body) => body.messages == messages && body.timeout_height == timeout_for(
                block_height,
            ) && body.memo@ == (match memo {
                Some(m) => m@,
                None => Seq::<char>::empty(),
            }),
            Err(e) => e == DaemonError::Encoding && timeout_for(block_height) > u64::MAX,
        },
{
    match block_height.checked_add(TIMEOUT_OFFSET) {
        Some(timeout_height) => Ok(TxBuilder::build_body(messages, memo, timeout_height)),
        None => Err(DaemonError::Encoding),
    }
}

/// Wraps messages for a sender that acts under delegated authority: the
/// result is the single message that executes them on behalf of their
/// granter, sent by `grantee`.
pub fn wrap_authz(messages: Vec<Any>, grantee: &str) -> (wrapped: Vec<Any>)
    ensures
        wrapped@.len() == 1,
        wrapped@[0].type_url@ == "/cosmos.authz.v1beta1.MsgExec"@,
        wrapped@[0].value@ == msg_exec_encoding(grantee@, messages_view(messages@)),
{
    let value = encode_msg_exec(grantee, &messages);
    let mut wrapped: Vec<Any> = Vec::new();
    wrapped.push(Any { type_url: "/cosmos.authz.v1beta1.MsgExec".to_owned(), value });
    wrapped
}

/// Builds the document to sign, in the order body, envelope, chain, account
/// number. Fails with `Encoding` exactly where `sign_doc_for` has none.
pub fn build_sign_doc(
    secret: &[u8],
    body: &TxBody,
    fee: &Fee,
    sequence: u64,
    chain_id: String,
    account_number: u64,
) -> (r: Result<SignDoc, DaemonError>)
    ensures
        match r {
            Ok(doc) => sign_doc_for(secret@, *body, *fee, sequence, chain_id, account_number)
                == Some(doc@),
            Err(e) => e == DaemonError::Encoding && sign_doc_for(
                secret@,
                *body,
                *fee,
                sequence,
                chain_id,
                account_number,
            ).is_none(),
        },
{
    if !is_valid_chain_id(chain_id.as_str()) {
        return Err(DaemonError::Encoding);
    }
    let body_bytes = match encode_body(body) {
        Some(bytes) => bytes,
        None => {
            return Err(DaemonError::Encoding);
        },
    };
    match encode_auth_info(secret, sequence, fee) {
        Some(auth_info_bytes) => Ok(SignDoc { body_bytes, auth_info_bytes, chain_id, account_number }),
        None => Err(DaemonError::Encoding),
    }
}

/// Signs a document with a secp256k1 secret and packs the result for
/// transport: `None` exactly where `signed_document` has none.
pub fn sign_with_secret(secret: &[u8], sign_doc: &SignDoc) -> (bytes: Option<Vec<u8>>)
    ensures
        bytes_view(bytes) == signed_document(secret@, sign_doc@),
{
    sign_document(secret, sign_doc)
}

impl TxBuilder {
    /// A builder for a body, with nothing preset.
    pub fn new(body: TxBody) -> (builder: TxBuilder)
        ensures
            builder.body == body,
            builder.fee_amount.is_none(),
            builder.gas_limit.is_none(),
            builder.sequence.is_none(),
    {
        TxBuilder { body, fee_amount: None, gas_limit: None, sequence: None }
    }

    /// Presets the fee amount.
    pub fn fee_amount(&mut self, fee_amount: u128)
        ensures
            *final(self) == (TxBuilder { fee_amount: Some(fee_amount), ..*old(self) }),
    {
        self.fee_amount = Some(fee_amount);
    }

    /// Presets the gas limit.
    pub fn gas_limit(&mut self, gas_limit: u64)
        ensures
            *final(self) == (TxBuilder { gas_limit: Some(gas_limit), ..*old(self) }),
    {
        self.gas_limit = Some(gas_limit);
    }

    /// Presets the sequence number.
    pub fn sequence(&mut self, sequence: u64)
        ensures
            *final(self) == (TxBuilder { sequence: Some(sequence), ..*old(self) }),
    {
        self.sequence = Some(sequence);
    }

    /// A body from its parts; a missing memo is the empty memo.
    pub fn build_body(msgs: Vec<Any>, memo: Option<&str>, timeout: u64) -> (body: TxBody)
        ensures
            body.messages == msgs,
            body.timeout_height == timeout,
            body.memo@ == (match memo {
                Some(m) => m@,
                None => Seq::<char>::empty(),
            }),
    {
        let memo = match memo {
            Some(m) => m.to_owned(),
            None => String::new(),
        };
        TxBody { messages: msgs, memo, timeout_height: timeout }
    }

    /// A fee from its parts.
    pub fn build_fee(amount: u128, denom: &str, gas_limit: u64, granter: Option<String>) -> (fee:
        Fee)
        ensures
            fee.gas_limit == gas_limit,
            fee.amount.amount == amount,
            fee.amount.denom@ == denom@,
            fee.granter == granter,
    {
        Fee { gas_limit, amount: Coin { denom: denom.to_owned(), amount }, granter }
    }

    /// Whether gas has to be estimated: not where both the fee amount and
    /// the gas limit are preset.
    pub fn needs_simulation(&self) -> (needed: bool)
        ensures
            needed == !(self.fee_amount.is_some() && self.gas_limit.is_some()),
    {
        !(self.fee_amount.is_some() && self.gas_limit.is_some())
    }

    /// The sequence number to sign with: the preset one, else the account's.
    pub open spec fn signing_sequence(&self, account_sequence: u64) -> u64 {
        match self.sequence {
            Some(s) => s,
            None => account_sequence,
        }
    }

    /// The sequence number to sign with: the preset one, else the one that
    /// the account was just observed with. Nothing is counted locally.
    pub fn sequence_for(&self, account_sequence: u64) -> (sequence: u64)
        ensures
            sequence == self.signing_sequence(account_sequence),
    {
        match self.sequence {
            Some(s) => s,
            None => account_sequence,
        }
    }

    /// The gas limit and fee amount to pay: each the preset value, else the
    /// estimated one.
    pub fn fee_for(&self, estimated_gas_limit: u64, estimated_fee: u128) -> (r: (u64, u128))
        ensures
            r.0 == (match self.gas_limit {
                Some(g) => g,
                None => estimated_gas_limit,
            }),
            r.1 == (match self.fee_amount {
                Some(f) => f,
                None => estimated_fee,
            }),
    {
        let gas_limit = match self.gas_limit {
            Some(g) => g,
            None => estimated_gas_limit,
        };
        let fee_amount = match self.fee_amount {
            Some(f) => f,
            None => estimated_fee,
        };
        (gas_limit, fee_amount)
    }
}

/// The sequence number of an account after the ledger accepted a
/// transaction that was signed with `signed_with`: acceptance consumes
/// exactly that one number.
pub open spec fn sequence_after_accepted(signed_with: u64) -> int {
    signed_with + 1
}

/// Sequence numbers only count accepted broadcasts. `observed` holds the
/// account's sequence as read before the first broadcast and after each
/// accepted one. Where every transaction was built without a preset
/// sequence for the account as just observed, and nobody else sent from the
/// account, the sequence observed last is the first one plus the number of
/// accepted broadcasts.
pub proof fn lemma_sequence_counts_accepted(tx_builder: TxBuilder, observed: Seq<u64>)
    requires
        tx_builder.sequence.is_none(),
        observed.len() >= 1,
        forall|i: int|
            0 <= i < observed.len() - 1 ==> #[trigger] observed[i + 1] == sequence_after_accepted(
                tx_builder.signing_sequence(observed[i]),
            ),
    ensures
        observed.last() == observed[0] + (observed.len() - 1),
    decreases observed.len(),
{
    if observed.len() > 1 {
        let earlier = observed.drop_last();
        assert forall|i: int| 0 <= i < earlier.len() - 1 implies #[trigger] earlier[i + 1]
            == sequence_after_accepted(tx_builder.signing_sequence(earlier[i])) by {
            assert(earlier[i + 1] == observed[i + 1]);
        }
        lemma_sequence_counts_accepted(tx_builder, earlier);
        assert(observed[observed.len() - 2 + 1] == sequence_after_accepted(
            tx_builder.signing_sequence(observed[observed.len() - 2]),
        ));
    }
}

} // verus!
