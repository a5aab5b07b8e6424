//! Error taxonomy of the orchestrator.
//!
//! `ClientError` classifies a single upstream call's failure: transport
//! trouble (connection or timeout) as opposed to an unparseable payload.
//! `OrchestrationError` is what the caller of the orchestrator sees: an
//! invalid inbound request, an upstream failure attributed to its stage and
//! carrying whatever usage the earlier stage already accumulated, or a gap in
//! the pricing configuration.

use vstd::prelude::*;
use crate::models::{Stage, TokenUsage};

verus! {

/// The flavor of a network-level failure against an upstream.
#[derive(Clone, Copy, PartialEq, Eq, Structural, Debug)]
pub enum TransportKind {
    Timeout,
    Connection,
}

/// Failure of one upstream call, as the provider client classifies it.
#[derive(Clone, Copy, PartialEq, Eq, Structural, Debug)]
pub enum ClientError {
    /// The upstream could not be reached or did not answer in time.
    Transport(TransportKind),
    /// The upstream answered with a payload that could not be decoded.
    Decode,
}

/// Failure of one orchestrated request, as the caller sees it.
#[derive(Clone, Copy, PartialEq, Eq, Structural, Debug)]
pub enum OrchestrationError {
    /// The inbound request was malformed (no messages at all).
    InvalidRequest,
    /// One stage's upstream call failed. `partial_usage` holds the token
    /// usage already accumulated by stages that finished before the failure:
    /// zero when the reasoning stage itself failed, the reasoning stage's
    /// usage when the completion stage failed.
    Upstream { stage: Stage, cause: ClientError, partial_usage: TokenUsage },
    /// No pricing entry exists for a provider/model pair the request used.
    PricingNotFound,
}

} // verus!
