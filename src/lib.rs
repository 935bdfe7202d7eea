//! Bridges the callback-completion DNS client of an OpenThread engine into
//! single-shot, pollable results.
//!
//! The verified part is the logic of the bridge: turning names into the
//! engine's terminated text, deciding what a submission's status means,
//! decoding a callback's report into a tagged outcome, and the single-assignment
//! completion cell that the callback fills and the awaiter polls.
mod client;
mod completion;
mod lemmas;
mod outcome;

pub use client::{c_name, DnsClient};
pub use completion::{
    prepared_slot, readiness_of, submission_outcome, submitted_slot, Readiness, SingleShot,
};
pub use lemmas::{
    lemma_exactly_one_outcome, lemma_ready_poll_repeatable, lemma_success_delivered_as_decoded,
    lemma_unready_poll_pending,
};
pub use outcome::{
    host_address_outcome, is_unspecified, is_unspecified_address, outcome_of,
    service_and_host_outcome, service_response, with_port, DnsOutcome, DnsResolutionResponse,
    SubmitError, HOST_ADDRESS_PORT, NOT_FOUND,
};
