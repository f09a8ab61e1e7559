//! What the node reports about a transaction.

use vstd::prelude::*;
use vstd::string::StringSliceAdditionalSpecFns;
use crate::error::DaemonError;
use crate::text::{contains, occurs_in};

verus! {

/// One attribute of an event.
#[derive(Debug, Clone, PartialEq, Eq)]
pub struct TxResultBlockAttribute {
    pub key: String,
    pub value: String,
}

/// One event that the ledger emitted while it ran the transaction.
#[derive(Debug, Clone, PartialEq, Eq)]
pub struct TxResultBlockEvent {
    pub s_type: String,
    pub attributes: Vec<TxResultBlockAttribute>,
}

/// The outcome of a submission or of a lookup by hash. Code 0 is success.
#[derive(Debug, Clone, PartialEq, Eq)]
pub struct CosmTxResponse {
    pub height: u64,
    pub txhash: String,
    pub code: u32,
    pub raw_log: String,
    pub gas_wanted: u64,
    pub gas_used: u64,
    pub events: Vec<TxResultBlockEvent>,
}

/// Passes a response with code 0 and turns any other into `LedgerRejected`
/// with the response's code and diagnostic.
pub fn assert_broadcast_code_cosm_response(tx_response: CosmTxResponse) -> (r: Result<
    CosmTxResponse,
    DaemonError,
>)
    ensures
        tx_response.code == 0 ==> r == Ok::<CosmTxResponse, DaemonError>(tx_response),
        tx_response.code != 0 ==> r == Err::<CosmTxResponse, DaemonError>(
            DaemonError::LedgerRejected {
                code: tx_response.code,
                raw_log: tx_response.raw_log,
            },
        ),
{
    if tx_response.code == 0 {
        Ok(tx_response)
    } else {
        Err(
            DaemonError::LedgerRejected {
                code: tx_response.code,
                raw_log: tx_response.raw_log,
            },
        )
    }
}

/// How long a submitted transaction is looked for, in milliseconds.
pub const INCLUSION_DEADLINE_MILLIS: u64 = 60_000;

/// How long to wait between two lookups, in milliseconds.
pub const INCLUSION_INTERVAL_MILLIS: u64 = 1_000;

/// What follows the node's answer to a submission.
#[derive(Debug, Clone, PartialEq, Eq)]
pub enum SubmissionStep {
    /// The node took the transaction into its pool: wait for the ledger to
    /// include it.
    AwaitInclusion { txhash: String },
    /// The node refused the transaction: the answer goes to the retry
    /// strategies.
    Rejected(CosmTxResponse),
}

/// Decides what follows the node's answer to a submission: an answer with
/// code 0 is waited for under its hash, any other is a rejection.
pub fn after_submission(receipt: CosmTxResponse) -> (step: SubmissionStep)
    ensures
        receipt.code == 0 ==> step == (SubmissionStep::AwaitInclusion { txhash: receipt.txhash }),
        receipt.code != 0 ==> step == SubmissionStep::Rejected(receipt),
{
    if receipt.code == 0 {
        SubmissionStep::AwaitInclusion { txhash: receipt.txhash }
    } else {
        SubmissionStep::Rejected(receipt)
    }
}

/// What follows a lookup of a transaction by its hash.
#[derive(Debug, Clone, PartialEq, Eq)]
pub enum PollStep {
    /// The ledger holds the transaction.
    Included(CosmTxResponse),
    /// Wait this long, then look again.
    Wait { millis: u64 },
    /// The deadline has passed.
    TimedOut,
}

/// Decides what follows a lookup, `elapsed_millis` after the transaction was
/// submitted. A transaction that was found ends the wait. One that was not
/// is looked up again after `interval_millis`, or at the deadline if that
/// comes first; at or after the deadline the wait has timed out.
pub fn poll_step(
    lookup: Option<CosmTxResponse>,
    elapsed_millis: u64,
    deadline_millis: u64,
    interval_millis: u64,
) -> (step: PollStep)
    ensures
        lookup.is_some() ==> step == PollStep::Included(lookup.unwrap()),
        lookup.is_none() && elapsed_millis >= deadline_millis ==> step == PollStep::TimedOut,
        lookup.is_none() && elapsed_millis < deadline_millis ==> step == (PollStep::Wait {
            millis: if interval_millis <= deadline_millis - elapsed_millis {
                interval_millis
            } else {
                (deadline_millis - elapsed_millis) as u64
            },
        }),
{
    match lookup {
        Some(response) => PollStep::Included(response),
        None => if elapsed_millis >= deadline_millis {
            PollStep::TimedOut
        } else {
            let left = deadline_millis - elapsed_millis;
            PollStep::Wait { millis: if interval_millis <= left {
                interval_millis
            } else {
                left
            } }
        },
    }
}

/// The result of the wait for inclusion, once it has ended: the response,
/// or `TimeoutExceeded`. `None` while the wait goes on.
pub fn poll_result(step: PollStep) -> (r: Option<Result<CosmTxResponse, DaemonError>>)
    ensures
        r == match step {
            PollStep::Included(response) => Some(
                Ok::<CosmTxResponse, DaemonError>(response),
            ),
            PollStep::TimedOut => Some(
                Err::<CosmTxResponse, DaemonError>(
                    DaemonError::TimeoutExceeded,
                ),
            ),
            PollStep::Wait { .. } => None,
        },
{
    match step {
        PollStep::Included(response) => Some(Ok(response)),
        PollStep::TimedOut => Some(Err(DaemonError::TimeoutExceeded)),
        PollStep::Wait { .. } => None,
    }
}

/// The status code of a call that was cancelled.
pub const STATUS_CANCELLED: u32 = 1;

/// The status code of a call that ran out of time.
pub const STATUS_DEADLINE_EXCEEDED: u32 = 4;

/// The status code of a call that did not reach its service.
pub const STATUS_UNAVAILABLE: u32 = 14;

/// A failed call that never reached the ledger: its status is cancelled,
/// out of time or unavailable, or its diagnostic speaks of the transport or
/// of a service that was not ready.
pub open spec fn is_transport_failure(code: u32, message: Seq<u8>) -> bool {
    ||| code == STATUS_CANCELLED
    ||| code == STATUS_DEADLINE_EXCEEDED
    ||| code == STATUS_UNAVAILABLE
    ||| occurs_in(message, "transport error".spec_bytes())
    ||| occurs_in(message, "Service was not ready".spec_bytes())
}

/// The error that reports a failed simulation, from the status code and
/// the diagnostic of the call: `TransportError` where the call never
/// reached the ledger, else the ledger's rejection, which goes to the retry
/// strategies.
pub fn simulation_failure(code: u32, message: String) -> (e: DaemonError)
    ensures
        e == if is_transport_failure(code, vstd::utf8::encode_utf8(message@)) {
            DaemonError::TransportError { message }
        } else {
            DaemonError::LedgerRejected { code, raw_log: message }
        },
{
    let transport = code == STATUS_CANCELLED || code == STATUS_DEADLINE_EXCEEDED || code
        == STATUS_UNAVAILABLE || contains(message.as_str().as_bytes(), "transport error".as_bytes())
        || contains(message.as_str().as_bytes(), "Service was not ready".as_bytes());
    if transport {
        DaemonError::TransportError { message }
    } else {
        DaemonError::LedgerRejected { code, raw_log: message }
    }
}

} // verus!
