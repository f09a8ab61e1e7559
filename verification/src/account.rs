//! Reading an account's number and sequence out of the node's account record.
//!
//! The record comes in one of three wire shapes: a plain account, a periodic
//! vesting account that wraps one, and an Ethereum-keyed account that wraps
//! one. The shapes are tried in that order.

use vstd::prelude::*;
use crate::error::DaemonError;
use crate::wire::{
    append_range, key_at, read_key, skip_value, value_end, RECURSION_LIMIT, WIRE_LENGTH_DELIMITED,
};

verus! {

/// The part of an account that a sender needs.
#[derive(Debug, Clone, PartialEq, Eq)]
pub struct BaseAccount {
    pub address: String,
    pub account_number: u64,
    pub sequence: u64,
}

/// An account as plain values: address, account number, sequence.
pub type AccountView = (Seq<char>, u64, u64);

impl View for BaseAccount {
    type V = AccountView;

    open spec fn view(&self) -> AccountView {
        (self.address@, self.account_number, self.sequence)
    }
}

impl BaseAccount {
    /// An account from its parts.
    pub fn new(address: String, account_number: u64, sequence: u64) -> (account: BaseAccount)
        ensures
            account.address == address,
            account.account_number == account_number,
            account.sequence == sequence,
    {
        BaseAccount { address, account_number, sequence }
    }
}

/// The view of an account that may be absent.
pub open spec fn account_view(account: Option<BaseAccount>) -> Option<AccountView> {
    match account {
        Some(a) => Some(a@),
        None => None,
    }
}

/// What decoding bytes as a plain account gives: the account, or `None`
/// where the bytes are not a well-formed record of that shape.
pub uninterp spec fn base_account_decoding(bytes: Seq<u8>) -> Option<AccountView>;

/// What decoding bytes as a periodic vesting account gives: `None` where the
/// bytes are not a well-formed record of that shape, else the plain account
/// inside the vesting account inside the record, each of which may be absent.
pub uninterp spec fn periodic_vesting_decoding(bytes: Seq<u8>) -> Option<
    Option<Option<AccountView>>,
>;

/// What decoding bytes as a message whose field 1 is a plain account gives:
/// `None` where the bytes are not a well-formed such message, else the
/// account in field 1, which may be absent.
pub uninterp spec fn wrapped_account_decoding(bytes: Seq<u8>) -> Option<Option<AccountView>>;

/// Calls `prost::Message::decode` for `cosmos.auth.v1beta1.BaseAccount` and
/// keeps address, account number and sequence. The contract only names the
/// result: the same bytes always decode to the same account.
#[verifier::external_body]
fn decode_base_account(bytes: &[u8]) -> (decoded: Option<BaseAccount>)
    ensures
        account_view(decoded) == base_account_decoding(bytes@),
{
    match <cosmrs::proto::cosmos::auth::v1beta1::BaseAccount as cosmrs::proto::traits::Message>::decode(bytes) {
        Ok(a) => Some(
            BaseAccount { address: a.address, account_number: a.account_number, sequence: a.sequence },
        ),
        Err(_) => None,
    }
}

/// The views of the accounts nested in a decoded vesting record.
pub open spec fn nested_view(decoded: Option<Option<Option<BaseAccount>>>) -> Option<
    Option<Option<AccountView>>,
> {
    match decoded {
        Some(Some(inner)) => Some(Some(account_view(inner))),
        Some(None) => Some(None),
        None => None,
    }
}

/// Calls `prost::Message::decode` for
/// `cosmos.vesting.v1beta1.PeriodicVestingAccount` and hands out the plain
/// account under `base_vesting_account.base_account`, with both levels of
/// presence as decoded. The contract only names the result.
#[verifier::external_body]
fn decode_periodic_vesting_account(bytes: &[u8]) -> (decoded: Option<Option<Option<BaseAccount>>>)
    ensures
        nested_view(decoded) == periodic_vesting_decoding(bytes@),
{
    let plain = |a: cosmrs::proto::cosmos::auth::v1beta1::BaseAccount| BaseAccount {
        address: a.address,
        account_number: a.account_number,
        sequence: a.sequence,
    };
    match <cosmrs::proto::cosmos::vesting::v1beta1::PeriodicVestingAccount as cosmrs::proto::traits::Message>::decode(bytes) {
        Ok(v) => Some(v.base_vesting_account.map(|b| b.base_account.map(plain))),
        Err(_) => None,
    }
}

/// The view of an account that may be absent in a decoded message.
pub open spec fn wrapped_view(decoded: Option<Option<BaseAccount>>) -> Option<Option<AccountView>> {
    match decoded {
        Some(inner) => Some(account_view(inner)),
        None => None,
    }
}

/// Calls `prost::Message::decode` for `cosmos.auth.v1beta1.ModuleAccount`, a
/// message whose field 1 is a plain account, and hands out that account as
/// decoded, present or not. The contract only names the result.
#[verifier::external_body]
fn decode_wrapped_account(bytes: &[u8]) -> (decoded: Option<Option<BaseAccount>>)
    ensures
        wrapped_view(decoded) == wrapped_account_decoding(bytes@),
{
    let plain = |a: cosmrs::proto::cosmos::auth::v1beta1::BaseAccount| BaseAccount {
        address: a.address,
        account_number: a.account_number,
        sequence: a.sequence,
    };
    match <cosmrs::proto::cosmos::auth::v1beta1::ModuleAccount as cosmrs::proto::traits::Message>::decode(bytes) {
        Ok(m) => Some(m.base_account.map(plain)),
        Err(_) => None,
    }
}

/// The plain account in a record read as a periodic vesting account.
pub open spec fn vesting_account_decoding(bytes: Seq<u8>) -> Option<AccountView> {
    match periodic_vesting_decoding(bytes) {
        Some(Some(Some(account))) => Some(account),
        _ => None,
    }
}

/// What reading the envelope of an Ethereum-keyed account from `at` on adds
/// to what was kept before: every field 1, key and value, in their order.
/// Fields 1, the account, and 2, the code hash, must be length-delimited;
/// fields of other numbers are passed over whatever their wire type. `None`
/// where the bytes from `at` on are not a sequence of well-formed fields.
/// A well-formed field ends behind its start and inside the bytes; the test
/// for that only makes the recursion end.
pub open spec fn eth_fields_from(bytes: Seq<u8>, at: int, kept: Seq<u8>) -> Option<Seq<u8>>
    decreases bytes.len() - at,
{
    if at >= bytes.len() {
        Some(kept)
    } else {
        match key_at(bytes, at) {
            None => None,
            Some(key) => if (key.tag == 1 || key.tag == 2) && key.wire_type
                != WIRE_LENGTH_DELIMITED {
                None
            } else {
                match value_end(
                    bytes,
                    key.next as int,
                    key.wire_type,
                    key.tag,
                    RECURSION_LIMIT as nat,
                ) {
                    None => None,
                    Some(end) => if end <= at || end > bytes.len() {
                        None
                    } else if key.tag == 1 {
                        eth_fields_from(bytes, end, kept + bytes.subrange(at, end))
                    } else {
                        eth_fields_from(bytes, end, kept)
                    },
                }
            },
        }
    }
}

/// The account fields of the envelope of an Ethereum-keyed account: the
/// occurrences of field 1 as they stand in the record, one after the other,
/// which is a message of its own. `None` where the bytes are no envelope.
pub open spec fn eth_envelope(bytes: Seq<u8>) -> Option<Seq<u8>> {
    eth_fields_from(bytes, 0, Seq::empty())
}

/// The plain account in a record read as an Ethereum-keyed account: the
/// account that the record's account fields decode to. Every occurrence of
/// field 1 has to decode by itself, and later occurrences are merged into
/// earlier ones, as in any message of this wire format.
pub open spec fn eth_account_decoding(bytes: Seq<u8>) -> Option<AccountView> {
    match eth_envelope(bytes) {
        Some(kept) => match wrapped_account_decoding(kept) {
            Some(Some(account)) => Some(account),
            _ => None,
        },
        None => None,
    }
}

/// Reads the envelope of an Ethereum-keyed account and hands out its
/// account fields.
pub fn read_eth_envelope(bytes: &[u8]) -> (kept: Option<Vec<u8>>)
    ensures
        crate::text::bytes_view(kept) == eth_envelope(bytes@),
{
    let mut at: usize = 0;
    let mut kept: Vec<u8> = Vec::new();
    while at < bytes.len()
        invariant
            at <= bytes.len(),
            eth_fields_from(bytes@, 0, Seq::empty()) == eth_fields_from(bytes@, at as int, kept@),
        decreases bytes.len() - at,
    {
        let key = match read_key(bytes, at) {
            Some(key) => key,
            None => {
                return None;
            },
        };
        if (key.tag == 1 || key.tag == 2) && key.wire_type != WIRE_LENGTH_DELIMITED {
            return None;
        }
        let end = match skip_value(bytes, key.next, key.wire_type, key.tag, RECURSION_LIMIT) {
            Some(end) => end,
            None => {
                return None;
            },
        };
        if key.tag == 1 {
            append_range(&mut kept, bytes, at, end);
        }
        at = end;
    }
    Some(kept)
}

/// A wire shape in which the node hands out an account.
#[derive(Debug, Clone, Copy, PartialEq, Eq, Structural)]
pub enum AccountShape {
    /// A plain account.
    Plain,
    /// A periodic vesting account that wraps a plain account.
    PeriodicVesting,
    /// An Ethereum-keyed account that wraps a plain account.
    EthKeyed,
}

/// The plain account in a record read in one shape.
pub open spec fn reading(shape: AccountShape, bytes: Seq<u8>) -> Option<AccountView> {
    match shape {
        AccountShape::Plain => base_account_decoding(bytes),
        AccountShape::PeriodicVesting => vesting_account_decoding(bytes),
        AccountShape::EthKeyed => eth_account_decoding(bytes),
    }
}

/// The shapes in the order in which they are tried.
pub open spec fn shapes_in_order() -> Seq<AccountShape> {
    seq![AccountShape::Plain, AccountShape::PeriodicVesting, AccountShape::EthKeyed]
}

/// `at` is the first index at which a reading gave an account.
pub open spec fn is_first_some<T>(readings: Seq<Option<T>>, at: int) -> bool {
    &&& 0 <= at < readings.len()
    &&& readings[at].is_some()
    &&& forall|j: int| 0 <= j < at ==> (#[trigger] readings[j]).is_none()
}

/// The readings of a record in each of some shapes, in their order.
pub open spec fn readings_of(shapes: Seq<AccountShape>, bytes: Seq<u8>) -> Seq<Option<AccountView>> {
    shapes.map_values(|shape: AccountShape| reading(shape, bytes))
}

/// The account that a record resolves to under some shapes: the first
/// reading, in the order of the shapes, that gives one.
pub open spec fn resolved_under(shapes: Seq<AccountShape>, bytes: Seq<u8>) -> Option<AccountView> {
    let readings = readings_of(shapes, bytes);
    if exists|at: int| is_first_some(readings, at) {
        readings[choose|at: int| is_first_some(readings, at)]
    } else {
        None
    }
}

/// The account that a record resolves to: its reading as a plain account,
/// else as a periodic vesting account, else as an Ethereum-keyed account.
pub open spec fn resolved_account(bytes: Seq<u8>) -> Option<AccountView> {
    resolved_under(shapes_in_order(), bytes)
}

/// A record resolves to its plain reading where there is one, else to its
/// vesting reading where there is one, else to its Ethereum-keyed reading.
pub proof fn lemma_resolution_order(bytes: Seq<u8>)
    ensures
        resolved_account(bytes) == if base_account_decoding(bytes).is_some() {
            base_account_decoding(bytes)
        } else if vesting_account_decoding(bytes).is_some() {
            vesting_account_decoding(bytes)
        } else {
            eth_account_decoding(bytes)
        },
{
    let readings = readings_of(shapes_in_order(), bytes);
    assert(readings.len() == 3);
    assert(readings[0] == base_account_decoding(bytes));
    assert(readings[1] == vesting_account_decoding(bytes));
    assert(readings[2] == eth_account_decoding(bytes));
    if readings[0].is_some() {
        lemma_first_some_is(readings, 0);
    } else if readings[1].is_some() {
        lemma_first_some_is(readings, 1);
    } else if readings[2].is_some() {
        lemma_first_some_is(readings, 2);
    } else {
        assert forall|at: int| !is_first_some(readings, at) by {
            if 0 <= at < 3 {
                assert(at == 0 || at == 1 || at == 2);
            }
        }
    }
}

proof fn lemma_first_some_is<T>(readings: Seq<Option<T>>, at: int)
    requires
        is_first_some(readings, at),
    ensures
        (choose|i: int| is_first_some(readings, i)) == at,
        exists|i: int| is_first_some(readings, i),
{
    let chosen = choose|i: int| is_first_some(readings, i);
    assert(is_first_some(readings, chosen));
    assert(!(chosen < at));
    assert(!(at < chosen));
}

/// Unwraps the plain account of a decoded periodic vesting record; a record
/// that lacks either level holds none.
pub fn unwrap_vesting(decoded: Option<Option<Option<BaseAccount>>>) -> (account: Option<BaseAccount>)
    ensures
        account == match decoded {
            Some(Some(Some(a))) => Some(a),
            _ => None::<BaseAccount>,
        },
{
    match decoded {
        Some(Some(Some(a))) => Some(a),
        _ => None,
    }
}

/// Reads a record as a periodic vesting account.
pub fn decode_vesting_account(bytes: &[u8]) -> (account: Option<BaseAccount>)
    ensures
        account_view(account) == vesting_account_decoding(bytes@),
{
    unwrap_vesting(decode_periodic_vesting_account(bytes))
}

/// Reads a record as an Ethereum-keyed account.
pub fn decode_eth_account(bytes: &[u8]) -> (account: Option<BaseAccount>)
    ensures
        account_view(account) == eth_account_decoding(bytes@),
{
    match read_eth_envelope(bytes) {
        Some(kept) => match decode_wrapped_account(kept.as_slice()) {
            Some(Some(account)) => Some(account),
            _ => None,
        },
        None => None,
    }
}

/// Reads a record in one shape.
pub fn decode_as(shape: AccountShape, bytes: &[u8]) -> (account: Option<BaseAccount>)
    ensures
        account_view(account) == reading(shape, bytes@),
{
    match shape {
        AccountShape::Plain => decode_base_account(bytes),
        AccountShape::PeriodicVesting => decode_vesting_account(bytes),
        AccountShape::EthKeyed => decode_eth_account(bytes),
    }
}

/// The shapes in the order in which they are tried: plain, periodic
/// vesting, Ethereum-keyed.
pub fn account_shapes() -> (shapes: Vec<AccountShape>)
    ensures
        shapes@ == shapes_in_order(),
{
    let mut shapes: Vec<AccountShape> = Vec::new();
    shapes.push(AccountShape::Plain);
    shapes.push(AccountShape::PeriodicVesting);
    shapes.push(AccountShape::EthKeyed);
    assert(shapes@ =~= shapes_in_order());
    shapes
}

/// Picks the first reading that gave an account; with none, the record is
/// of an unknown type.
pub fn first_match(readings: Vec<Option<BaseAccount>>) -> (r: Result<BaseAccount, DaemonError>)
    ensures
        match r {
            Ok(account) => exists|at: int|
                is_first_some(readings@, at) && readings@[at] == Some(account),
            Err(e) => e == DaemonError::UnknownAccountType && forall|j: int|
                0 <= j < readings@.len() ==> (#[trigger] readings@[j]).is_none(),
        },
{
    let mut rest = readings;
    let mut at: usize = 0;
    while at < rest.len()
        invariant
            at <= rest.len(),
            rest@ == readings@,
            forall|j: int| 0 <= j < at ==> (#[trigger] readings@[j]).is_none(),
        decreases rest.len() - at,
    {
        if rest[at].is_some() {
            assert(is_first_some(readings@, at as int));
            let found = rest.swap_remove(at);
            assert(found == readings@[at as int]);
            return Ok(found.unwrap());
        }
        at += 1;
    }
    Err(DaemonError::UnknownAccountType)
}

/// Resolves a record under some shapes, tried in their order. Fails with
/// `UnknownAccountType` exactly where no shape gives an account.
pub fn decode_with(shapes: &Vec<AccountShape>, bytes: &[u8]) -> (r: Result<BaseAccount, DaemonError>)
    ensures
        match r {
            Ok(account) => resolved_under(shapes@, bytes@) == Some(account@),
            Err(e) => e == DaemonError::UnknownAccountType && resolved_under(
                shapes@,
                bytes@,
            ).is_none(),
        },
{
    let mut readings: Vec<Option<BaseAccount>> = Vec::new();
    let mut i: usize = 0;
    while i < shapes.len()
        invariant
            i <= shapes.len(),
            readings@.len() == i,
            forall|j: int|
                0 <= j < i ==> account_view(#[trigger] readings@[j]) == reading(shapes@[j], bytes@),
        decreases shapes.len() - i,
    {
        readings.push(decode_as(shapes[i], bytes));
        i += 1;
    }
    let ghost views = readings_of(shapes@, bytes@);
    assert forall|j: int| 0 <= j < views.len() implies (#[trigger] views[j]) == account_view(
        readings@[j],
    ) by {}
    let r = first_match(readings);
    proof {
        match &r {
            Ok(account) => {
                let at = choose|at: int|
                    is_first_some(readings@, at) && readings@[at] == Some(*account);
                assert(is_first_some(views, at)) by {
                    assert forall|j: int| 0 <= j < at implies (#[trigger] views[j]).is_none() by {
                        assert(readings@[j].is_none());
                    }
                }
                lemma_first_some_is(views, at);
            },
            Err(_) => {
                assert forall|at: int| !is_first_some(views, at) by {
                    if 0 <= at < views.len() {
                        assert(readings@[at].is_none());
                    }
                }
            },
        }
    }
    r
}

/// Resolves the node's account record to the account it holds. Fails with
/// `UnknownAccountType` exactly where none of the three readings gives one.
pub fn decode_account(bytes: &[u8]) -> (r: Result<BaseAccount, DaemonError>)
    ensures
        match r {
            Ok(account) => resolved_account(bytes@) == Some(account@),
            Err(e) => e == DaemonError::UnknownAccountType && resolved_account(bytes@).is_none(),
        },
{
    let shapes = account_shapes();
    decode_with(&shapes, bytes)
}

} // verus!
