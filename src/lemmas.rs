use vstd::prelude::*;

use crate::completion::{prepared_slot, readiness_of, submitted_slot, Readiness};
use crate::outcome::{outcome_of, DnsOutcome, DnsResolutionResponse, SubmitError};

verus! {

/// A successful report reaches the awaiter as it was decoded: once the slot
/// holds the outcome of a success, a poll returns the very address bytes, in
/// their order, and the port that the callback read.
pub proof fn lemma_success_delivered_as_decoded(ip_address: [u8; 16], port: u16)
    ensures
        readiness_of(
            Some(outcome_of(Ok(()), Ok(DnsResolutionResponse { ip_address, port }))),
        ) == Readiness::Ready(DnsOutcome::Resolved(DnsResolutionResponse { ip_address, port })),
{
}

/// Every request ends with exactly one outcome. Whatever the preparation, the
/// engine's synchronous status and the callback's report, the slot ends up
/// filled; the callback is owed exactly when the request was prepared and
/// accepted, so an early failure is never followed by a second delivery, and
/// the delivered value is the early failure or else the callback's report.
pub proof fn lemma_exactly_one_outcome(
    query: Result<(), SubmitError>,
    status: Result<(), u32>,
    report: DnsOutcome,
)
    ensures
        ({
            let after_prepare = prepared_slot(query);
            let after_submit = if after_prepare is None {
                submitted_slot(status)
            } else {
                after_prepare
            };
            let callback_owed = after_submit is None;
            let delivered = if callback_owed {
                Some(report)
            } else {
                after_submit
            };
            &&& callback_owed <==> (query is Ok && status is Ok)
            &&& delivered is Some
            &&& !callback_owed ==> delivered == after_submit && delivered->0 is SubmissionFailed
            &&& callback_owed ==> delivered == Some(report)
        }),
{
}

/// Polling a slot that holds no result yet yields no value.
pub proof fn lemma_unready_poll_pending<T>()
    ensures
        readiness_of(None::<T>) == Readiness::<T>::Pending,
{
}

/// Polling a filled slot yields its value. A poll reads the slot through a
/// shared reference and leaves it as it was, so every later poll yields that
/// same value again.
pub proof fn lemma_ready_poll_repeatable<T>(value: T)
    ensures
        readiness_of(Some(value)) == Readiness::Ready(value),
{
}

} // verus!
