use vstd::prelude::*;

use crate::outcome::{DnsOutcome, SubmitError};

verus! {

/// What a poll of a single-shot result sees.
#[derive(Debug, PartialEq, Eq)]
pub enum Readiness<T> {
    /// No result yet: the caller is to wait for a wake-up.
    Pending,
    /// The result, delivered.
    Ready(T),
}

/// What a poll returns on a slot that holds `slot`.
pub open spec fn readiness_of<T>(slot: Option<T>) -> Readiness<T> {
    match slot {
        Some(v) => Readiness::Ready(v),
        None => Readiness::Pending,
    }
}

/// The shared completion state of one request: a slot assigned at most once.
///
/// Its view is the slot: `None` while the request is in flight, `Some(v)` once
/// `v` has been delivered. A filled slot is never written again.
pub struct SingleShot<T> {
    result: Option<T>,
}

impl<T> View for SingleShot<T> {
    type V = Option<T>;

    closed spec fn view(&self) -> Option<T> {
        self.result
    }
}

impl<T: Copy> SingleShot<T> {
    /// A slot for a request that is in flight.
    pub fn new() -> (r: Self)
        ensures
            r@ is None,
    {
        SingleShot { result: None }
    }

    /// Whether the result has been delivered.
    pub fn is_ready(&self) -> (r: bool)
        ensures
            r == self@ is Some,
    {
        self.result.is_some()
    }

    /// Delivers the result. The slot must still be empty: a second delivery
    /// for one request is a broken contract of the engine.
    pub fn complete(&mut self, value: T)
        requires
            old(self)@ is None,
        ensures
            final(self)@ == Some(value),
    {
        self.result = Some(value);
    }

    /// Reads the slot without waiting and without changing it.
    pub fn poll(&self) -> (r: Readiness<T>)
        ensures
            r == readiness_of(self@),
    {
        match self.result {
            Some(v) => Readiness::Ready(v),
            None => Readiness::Pending,
        }
    }
}

/// The slot after preparing a request: empty when the query is ready to be
/// sent, resolved with the failure when it could not be prepared.
pub open spec fn prepared_slot<Q>(query: Result<Q, SubmitError>) -> Option<DnsOutcome> {
    match query {
        Ok(_) => None,
        Err(e) => Some(DnsOutcome::SubmissionFailed(e)),
    }
}

/// The slot after the engine answered a submission: empty while the callback
/// is owed, resolved with the refusal when there will be none.
pub open spec fn submitted_slot(status: Result<(), u32>) -> Option<DnsOutcome> {
    match status {
        Ok(()) => None,
        Err(code) => Some(DnsOutcome::SubmissionFailed(SubmitError::Rejected(code))),
    }
}

/// What the engine's synchronous answer to a submission settles. `None` when
/// it accepted the request, whose outcome the callback will bring; the
/// refusal, when it refused it and no callback will come.
pub fn submission_outcome(status: Result<(), u32>) -> (r: Option<DnsOutcome>)
    ensures
        r == submitted_slot(status),
{
    match status {
        Ok(()) => None,
        Err(code) => Some(DnsOutcome::SubmissionFailed(SubmitError::Rejected(code))),
    }
}

impl SingleShot<DnsOutcome> {
    /// Takes the result of preparing a request's parameters. A prepared query is
    /// handed back to be sent; a failed preparation resolves the slot at once.
    pub fn prepared<Q>(&mut self, query: Result<Q, SubmitError>) -> (r: Option<Q>)
        requires
            old(self)@ is None,
        ensures
            final(self)@ == prepared_slot(query),
            match query {
                Ok(q) => r == Some(q),
                Err(_) => r is None,
            },
    {
        match query {
            Ok(q) => Some(q),
            Err(e) => {
                self.complete(DnsOutcome::SubmissionFailed(e));
                None
            },
        }
    }

    /// Takes the engine's synchronous answer to a submission, for the slot that
    /// the awaiter reads: see [`submission_outcome`]. When it accepted
    /// the request the slot waits for the callback; when it refused it, no
    /// callback will come, and the slot is resolved at once with the refusal.
    pub fn submitted(&mut self, status: Result<(), u32>)
        requires
            old(self)@ is None,
        ensures
            final(self)@ == submitted_slot(status),
    {
        if let Some(outcome) = submission_outcome(status) {
            self.complete(outcome);
        }
    }
}

} // verus!
