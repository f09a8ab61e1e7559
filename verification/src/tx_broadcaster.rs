//! The retry rules of a broadcast: an ordered list of strategies, each a test
//! on a failure and an action, decides after every attempt whether the
//! transaction is rebuilt and sent again.

use vstd::prelude::*;
use vstd::string::StringSliceAdditionalSpecFns;
use crate::error::DaemonError;
use crate::text::{
    contains, decimal_value, digits_end, find, matches_at, occurs_at, occurs_in, read_digits,
};
use crate::tx_builder::TxBuilder;
use crate::tx_resp::CosmTxResponse;

verus! {

/// The index of the first occurrence of `needle` in `hay`.
pub open spec fn first_occurrence(hay: Seq<u8>, needle: Seq<u8>) -> Option<int> {
    if occurs_in(hay, needle) {
        Some(
            choose|at: int|
                occurs_at(hay, needle, at) && forall|j: int|
                    0 <= j < at ==> !occurs_at(hay, needle, j),
        )
    } else {
        None
    }
}

/// The fee that a diagnostic asks for: the number written directly after the
/// first `required: `, if digits stand there, the denomination follows them
/// and the number fits in 128 bits.
pub open spec fn required_fee(log: Seq<u8>, denom: Seq<u8>) -> Option<u128> {
    match first_occurrence(log, "required: ".spec_bytes()) {
        None => None,
        Some(at) => {
            let start = at + "required: ".spec_bytes().len();
            let end = digits_end(log, start);
            let value = decimal_value(log.subrange(start, end));
            if start < end && value <= u128::MAX && occurs_at(log, denom, end) {
                Some(value as u128)
            } else {
                None
            }
        },
    }
}

/// Reads the fee that the ledger asks for out of its diagnostic.
pub fn parse_suggested_fee(raw_log: &str, denom: &str) -> (fee: Option<u128>)
    ensures
        fee == required_fee(raw_log.spec_bytes(), denom.spec_bytes()),
{
    let log = raw_log.as_bytes();
    let marker = "required: ".as_bytes();
    let at = match find(log, marker) {
        None => {
            return None;
        },
        Some(at) => at,
    };
    assert(occurs_at(log@, marker@, at as int));
    assert(first_occurrence(log@, marker@) == Some(at as int)) by {
        let chosen = first_occurrence(log@, marker@)->Some_0;
        assert(occurs_at(log@, marker@, chosen));
        assert(!(chosen < at));
        assert(!(at < chosen));
    }
    let log_len: usize = log.len();
    assert(at + marker@.len() <= log_len);
    let start: usize = at + marker.len();
    let (end, value) = read_digits(log, start);
    match value {
        Some(value) => if start < end && matches_at(log, denom.as_bytes(), end) {
            Some(value)
        } else {
            None
        },
        None => None,
    }
}

/// What a strategy does when its test is met.
#[derive(Debug, Clone, Copy, PartialEq, Eq, Structural)]
pub enum RetryAction {
    /// Build and send again with nothing changed but what is read afresh.
    Resubmit,
    /// Set the fee to the amount that the ledger asks for, then send again.
    RaiseFee,
    /// Give up at once.
    Abort,
}

/// A test on a failure, an action, and a budget of retries.
#[derive(Debug, Clone, PartialEq, Eq)]
pub struct RetryStrategy {
    /// A ledger code that meets the test, if any does.
    pub code: Option<u32>,
    /// Text whose presence in the diagnostic meets the test.
    pub fragment: String,
    /// How often the strategy may act; `None` is without limit.
    pub max_retries: Option<u64>,
    /// How often it has acted.
    pub current_retries: u64,
    pub action: RetryAction,
}

impl RetryStrategy {
    /// The budget is used up.
    pub open spec fn exhausted(self) -> bool {
        match self.max_retries {
            Some(max) => self.current_retries >= max,
            None => false,
        }
    }

    /// The failure has the strategy's code or its diagnostic holds the fragment.
    pub open spec fn condition_met(self, code: u32, log: Seq<u8>) -> bool {
        self.code == Some(code) || occurs_in(log, vstd::utf8::encode_utf8(self.fragment@))
    }

    /// The strategy has budget left and its test is met.
    pub open spec fn applies(self, code: u32, log: Seq<u8>) -> bool {
        !self.exhausted() && self.condition_met(code, log)
    }

    /// The strategy after it has acted once more.
    pub open spec fn retried(self) -> RetryStrategy {
        RetryStrategy {
            current_retries: if self.current_retries < u64::MAX {
                (self.current_retries + 1) as u64
            } else {
                u64::MAX
            },
            ..self
        }
    }

    /// Whether the strategy has budget left and its test is met by a failure
    /// with this code and diagnostic.
    pub fn applies_to(&self, code: u32, log: &[u8]) -> (r: bool)
        ensures
            r == self.applies(code, log@),
    {
        let spent = match self.max_retries {
            Some(max) => self.current_retries >= max,
            None => false,
        };
        if spent {
            return false;
        }
        let same_code = match self.code {
            Some(c) => c == code,
            None => false,
        };
        same_code || contains(log, self.fragment.as_str().as_bytes())
    }
}

/// Retries without limit when the ledger reports that the sequence number of
/// the transaction is not the one it expects.
pub fn account_sequence_strategy() -> (s: RetryStrategy)
    ensures
        s.code.is_none(),
        s.fragment@ == "incorrect account sequence"@,
        s.max_retries.is_none(),
        s.current_retries == 0,
        s.action == RetryAction::Resubmit,
{
    RetryStrategy {
        code: None,
        fragment: "incorrect account sequence".to_owned(),
        max_retries: None,
        current_retries: 0,
        action: RetryAction::Resubmit,
    }
}

/// Retries once, with the fee the ledger asks for, when the ledger reports
/// that the fee is too small.
pub fn insufficient_fee_strategy() -> (s: RetryStrategy)
    ensures
        s.code.is_none(),
        s.fragment@ == "insufficient fee"@,
        s.max_retries == Some(1u64),
        s.current_retries == 0,
        s.action == RetryAction::RaiseFee,
{
    RetryStrategy {
        code: None,
        fragment: "insufficient fee".to_owned(),
        max_retries: Some(1),
        current_retries: 0,
        action: RetryAction::RaiseFee,
    }
}

/// A strategy without a limit has budget left however often it has acted.
pub proof fn lemma_unlimited_strategy_keeps_budget(strategy: RetryStrategy)
    requires
        strategy.max_retries.is_none(),
    ensures
        !strategy.exhausted(),
        !strategy.retried().exhausted(),
        strategy.retried().max_retries.is_none(),
{
}

/// A fresh strategy with a limit of one has budget for one action and none
/// after it.
pub proof fn lemma_single_retry_is_spent(strategy: RetryStrategy)
    requires
        strategy.max_retries == Some(1u64),
        strategy.current_retries == 0,
    ensures
        !strategy.exhausted(),
        strategy.retried().exhausted(),
{
}

/// Acting never changes what a strategy tests for or what it does.
pub proof fn lemma_retried_keeps_test(strategy: RetryStrategy, code: u32, log: Seq<u8>)
    ensures
        strategy.retried().condition_met(code, log) == strategy.condition_met(code, log),
        strategy.retried().action == strategy.action,
        strategy.retried().current_retries >= strategy.current_retries,
{
}

/// What follows an attempt.
#[derive(Debug, Clone, PartialEq, Eq)]
pub enum BroadcastStep {
    /// The ledger took the transaction.
    Success(CosmTxResponse),
    /// Read the account afresh, build and sign a new transaction, send it.
    Rebuild,
    /// Stop and report the error.
    Abort(DaemonError),
}

/// `at` is the first strategy that applies to the failure.
pub open spec fn is_first_applicable(
    strategies: Seq<RetryStrategy>,
    code: u32,
    log: Seq<u8>,
    at: int,
) -> bool {
    &&& 0 <= at < strategies.len()
    &&& strategies[at].applies(code, log)
    &&& forall|j: int| 0 <= j < at ==> !(#[trigger] strategies[j]).applies(code, log)
}

/// The index of the first strategy that applies to the failure, in the order
/// in which the strategies were added.
pub open spec fn first_applicable(strategies: Seq<RetryStrategy>, code: u32, log: Seq<u8>) -> Option<
    int,
> {
    if exists|at: int| is_first_applicable(strategies, code, log, at) {
        Some(choose|at: int| is_first_applicable(strategies, code, log, at))
    } else {
        None
    }
}

/// The error that reports a failure which no strategy takes up: by its
/// diagnostic a sequence mismatch or an insufficient fee, else a rejection
/// with the ledger's code.
pub open spec fn rejection(code: u32, raw_log: String) -> DaemonError {
    let log = vstd::utf8::encode_utf8(raw_log@);
    if occurs_in(log, "incorrect account sequence".spec_bytes()) {
        DaemonError::AccountSequenceMismatch { raw_log }
    } else if occurs_in(log, "insufficient fee".spec_bytes()) {
        DaemonError::InsufficientFee { raw_log }
    } else {
        DaemonError::LedgerRejected { code, raw_log }
    }
}

/// What a failure with this code and diagnostic leads to: the strategies and
/// the builder as they are afterwards, and the step to take.
pub open spec fn after_failure(
    strategies: Seq<RetryStrategy>,
    builder: TxBuilder,
    denom: Seq<u8>,
    code: u32,
    raw_log: String,
) -> (Seq<RetryStrategy>, TxBuilder, BroadcastStep) {
    let log = vstd::utf8::encode_utf8(raw_log@);
    let given_up = (strategies, builder, BroadcastStep::Abort(rejection(code, raw_log)));
    match first_applicable(strategies, code, log) {
        None => given_up,
        Some(at) => {
            let acted = strategies.update(at, strategies[at].retried());
            match strategies[at].action {
                RetryAction::Abort => given_up,
                RetryAction::Resubmit => (acted, builder, BroadcastStep::Rebuild),
                RetryAction::RaiseFee => match required_fee(log, denom) {
                    Some(fee) => (
                        acted,
                        TxBuilder { fee_amount: Some(fee), ..builder },
                        BroadcastStep::Rebuild,
                    ),
                    None => (
                        strategies,
                        builder,
                        BroadcastStep::Abort(DaemonError::InsufficientFee { raw_log }),
                    ),
                },
            }
        },
    }
}

/// What the outcome of an attempt leads to. A response with code 0 is a
/// success. A response with another code, and a rejection reported as an
/// error, go to the strategies. Any other error ends the broadcast.
pub open spec fn after_attempt(
    strategies: Seq<RetryStrategy>,
    builder: TxBuilder,
    denom: Seq<u8>,
    outcome: Result<CosmTxResponse, DaemonError>,
) -> (Seq<RetryStrategy>, TxBuilder, BroadcastStep) {
    match outcome {
        Ok(response) => if response.code == 0 {
            (strategies, builder, BroadcastStep::Success(response))
        } else {
            after_failure(strategies, builder, denom, response.code, response.raw_log)
        },
        Err(DaemonError::LedgerRejected { code, raw_log }) => after_failure(
            strategies,
            builder,
            denom,
            code,
            raw_log,
        ),
        Err(error) => (strategies, builder, BroadcastStep::Abort(error)),
    }
}

/// Where exactly one index is the first applicable, `first_applicable` is it.
proof fn lemma_first_applicable_is(strategies: Seq<RetryStrategy>, code: u32, log: Seq<u8>, at: int)
    requires
        is_first_applicable(strategies, code, log, at),
    ensures
        first_applicable(strategies, code, log) == Some(at),
{
    let chosen = choose|i: int| is_first_applicable(strategies, code, log, i);
    assert(is_first_applicable(strategies, code, log, chosen));
    assert(!(chosen < at));
    assert(!(at < chosen));
}

/// A sequence mismatch is retried however often it occurs: where the first
/// strategy has no limit, resubmits, and its test is met, the failure leads
/// to a rebuild, the builder stays as it is, and the first strategy is as
/// ready for the next failure as it was for this one.
pub proof fn lemma_unlimited_first_strategy_always_rebuilds(
    strategies: Seq<RetryStrategy>,
    builder: TxBuilder,
    denom: Seq<u8>,
    code: u32,
    raw_log: String,
)
    requires
        strategies.len() > 0,
        strategies[0].max_retries.is_none(),
        strategies[0].action == RetryAction::Resubmit,
        strategies[0].condition_met(code, vstd::utf8::encode_utf8(raw_log@)),
    ensures
        after_failure(strategies, builder, denom, code, raw_log).2 == BroadcastStep::Rebuild,
        after_failure(strategies, builder, denom, code, raw_log).1 == builder,
        after_failure(strategies, builder, denom, code, raw_log).0.len() == strategies.len(),
        after_failure(strategies, builder, denom, code, raw_log).0[0].max_retries.is_none(),
        after_failure(strategies, builder, denom, code, raw_log).0[0].action
            == RetryAction::Resubmit,
        after_failure(strategies, builder, denom, code, raw_log).0[0].fragment
            == strategies[0].fragment,
        after_failure(strategies, builder, denom, code, raw_log).0[0].code == strategies[0].code,
{
    lemma_first_applicable_is(strategies, code, vstd::utf8::encode_utf8(raw_log@), 0);
}

/// An insufficient fee is retried once: with the standard strategies, where
/// a failure meets only the fee test and names the fee to pay, it leads to a
/// rebuild with that fee, and a second failure that meets only the fee test
/// ends the broadcast.
pub proof fn lemma_insufficient_fee_retries_once(
    strategies: Seq<RetryStrategy>,
    builder: TxBuilder,
    denom: Seq<u8>,
    code: u32,
    raw_log: String,
    next_code: u32,
    next_raw_log: String,
)
    requires
        strategies.len() == 2,
        strategies[1].max_retries == Some(1u64),
        strategies[1].current_retries == 0,
        strategies[1].action == RetryAction::RaiseFee,
        strategies[1].condition_met(code, vstd::utf8::encode_utf8(raw_log@)),
        strategies[1].condition_met(next_code, vstd::utf8::encode_utf8(next_raw_log@)),
        !strategies[0].condition_met(code, vstd::utf8::encode_utf8(raw_log@)),
        !strategies[0].condition_met(next_code, vstd::utf8::encode_utf8(next_raw_log@)),
        required_fee(vstd::utf8::encode_utf8(raw_log@), denom).is_some(),
    ensures
        ({
            let first = after_failure(strategies, builder, denom, code, raw_log);
            let second = after_failure(first.0, first.1, denom, next_code, next_raw_log);
            &&& first.2 == BroadcastStep::Rebuild
            &&& first.1.fee_amount == required_fee(vstd::utf8::encode_utf8(raw_log@), denom)
            &&& second.2 == BroadcastStep::Abort(rejection(next_code, next_raw_log))
            &&& second.0 == first.0
            &&& second.1 == first.1
        }),
{
    let log = vstd::utf8::encode_utf8(raw_log@);
    let next_log = vstd::utf8::encode_utf8(next_raw_log@);
    lemma_first_applicable_is(strategies, code, log, 1);
    let first = after_failure(strategies, builder, denom, code, raw_log);
    assert(first.0 == strategies.update(1, strategies[1].retried()));
    assert(first.0[1].exhausted());
    assert(!first.0[0].condition_met(next_code, next_log));
    assert forall|at: int| !is_first_applicable(first.0, next_code, next_log, at) by {
        if 0 <= at < first.0.len() {
            assert(at == 0 || at == 1);
        }
    }
}

/// Builds the error for a failure that no strategy takes up.
pub fn classify_rejection(code: u32, raw_log: String) -> (e: DaemonError)
    ensures
        e == rejection(code, raw_log),
{
    if contains(raw_log.as_str().as_bytes(), "incorrect account sequence".as_bytes()) {
        DaemonError::AccountSequenceMismatch { raw_log }
    } else if contains(raw_log.as_str().as_bytes(), "insufficient fee".as_bytes()) {
        DaemonError::InsufficientFee { raw_log }
    } else {
        DaemonError::LedgerRejected { code, raw_log }
    }
}

/// The ordered strategies of one broadcast.
#[derive(Debug, Clone, PartialEq, Eq)]
pub struct TxBroadcaster {
    pub strategies: Vec<RetryStrategy>,
}

impl Default for TxBroadcaster {
    /// A broadcaster without strategies: every failure ends the broadcast.
    fn default() -> (b: TxBroadcaster)
        ensures
            b.strategies@.len() == 0,
    {
        TxBroadcaster { strategies: Vec::new() }
    }
}

impl TxBroadcaster {
    /// Adds a strategy behind those already there.
    pub fn add_strategy(self, strategy: RetryStrategy) -> (b: TxBroadcaster)
        ensures
            b.strategies@ == self.strategies@.push(strategy),
    {
        let mut strategies = self.strategies;
        strategies.push(strategy);
        TxBroadcaster { strategies }
    }

    /// The index of the first strategy that applies to a failure.
    pub fn select(&self, code: u32, log: &[u8]) -> (at: Option<usize>)
        ensures
            at.is_some() == first_applicable(self.strategies@, code, log@).is_some(),
            at.is_some() ==> at.unwrap() as int == first_applicable(
                self.strategies@,
                code,
                log@,
            ).unwrap(),
            at.is_some() ==> is_first_applicable(self.strategies@, code, log@, at.unwrap() as int),
    {
        let mut i: usize = 0;
        while i < self.strategies.len()
            invariant
                i <= self.strategies@.len(),
                forall|j: int| 0 <= j < i ==> !(#[trigger] self.strategies@[j]).applies(code, log@),
            decreases self.strategies@.len() - i,
        {
            if self.strategies[i].applies_to(code, log) {
                proof {
                    assert(is_first_applicable(self.strategies@, code, log@, i as int));
                    let chosen = first_applicable(self.strategies@, code, log@).unwrap();
                    assert(is_first_applicable(self.strategies@, code, log@, chosen));
                    assert(!(chosen < i));
                    assert(!(i < chosen));
                }
                return Some(i);
            }
            i += 1;
        }
        None
    }

    /// Takes up a failure with this code and diagnostic: the first strategy
    /// that applies acts, and is charged one retry unless it gives up.
    pub fn on_failure(
        &mut self,
        tx_builder: &mut TxBuilder,
        fee_denom: &str,
        code: u32,
        raw_log: String,
    ) -> (step: BroadcastStep)
        ensures
            (final(self).strategies@, *final(tx_builder), step) == after_failure(
                old(self).strategies@,
                *old(tx_builder),
                fee_denom.spec_bytes(),
                code,
                raw_log,
            ),
    {
        let at = match self.select(code, raw_log.as_str().as_bytes()) {
            None => {
                return BroadcastStep::Abort(classify_rejection(code, raw_log));
            },
            Some(at) => at,
        };
        match self.strategies[at].action {
            RetryAction::Abort => {
                return BroadcastStep::Abort(classify_rejection(code, raw_log));
            },
            RetryAction::Resubmit => {},
            RetryAction::RaiseFee => match parse_suggested_fee(raw_log.as_str(), fee_denom) {
                Some(fee) => {
                    tx_builder.fee_amount = Some(fee);
                },
                None => {
                    return BroadcastStep::Abort(DaemonError::InsufficientFee { raw_log });
                },
            },
        }
        let mut strategy = self.strategies.remove(at);
        strategy.current_retries = strategy.current_retries.saturating_add(1);
        self.strategies.insert(at, strategy);
        assert(self.strategies@ =~= old(self).strategies@.update(
            at as int,
            old(self).strategies@[at as int].retried(),
        ));
        BroadcastStep::Rebuild
    }

    /// Decides what follows an attempt. The caller performs the step: on
    /// `Rebuild` it reads the account afresh, builds and signs a new
    /// transaction from `tx_builder` and sends it; it never sends a signed
    /// transaction twice.
    pub fn next_step(
        &mut self,
        tx_builder: &mut TxBuilder,
        fee_denom: &str,
        outcome: Result<CosmTxResponse, DaemonError>,
    ) -> (step: BroadcastStep)
        ensures
            (final(self).strategies@, *final(tx_builder), step) == after_attempt(
                old(self).strategies@,
                *old(tx_builder),
                fee_denom.spec_bytes(),
                outcome,
            ),
    {
        match outcome {
            Ok(response) => if response.code == 0 {
                BroadcastStep::Success(response)
            } else {
                self.on_failure(tx_builder, fee_denom, response.code, response.raw_log)
            },
            Err(DaemonError::LedgerRejected { code, raw_log }) => self.on_failure(
                tx_builder,
                fee_denom,
                code,
                raw_log,
            ),
            Err(error) => BroadcastStep::Abort(error),
        }
    }
}

} // verus!
