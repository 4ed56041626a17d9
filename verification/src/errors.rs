//! Error taxonomy for the three request handlers.
//!
//! Timing errors (past slot, too far in the future, too late), authorization
//! errors (not the assigned proposer, not the elected gateway, invalid
//! signature), the per-slot conflict, not-found answers, and infrastructure
//! failures are all distinct variants, so a caller can tell expected
//! steady-state rejections from process-level anomalies.

use vstd::prelude::*;

verus! {

/// Why a request was rejected. Slot-valued payloads echo the offending
/// request back to the caller.
#[derive(Clone, Copy, PartialEq, Eq, Structural, Debug)]
pub enum ConstraintsApiError {
    /// The request targets a slot before the current head slot.
    RequestForPastSlot { request_slot: u64, head_slot: u64 },
    /// The proposer duty registry has not been loaded yet.
    ProposerDutiesNotKnown,
    /// The request targets a slot beyond the last known proposer duty.
    CannotElectGatewayTooFarInTheFuture { request_slot: u64, max_slot: u64 },
    /// No duty lists the claimed (slot, public key, validator index) triple.
    ValidatorIsNotProposerForRequestedSlot,
    /// The signature does not verify under the claimed key.
    InvalidSignature,
    /// Constraints may only target the current head slot.
    CanOnlySetConstraintsForCurrentSlot { request_slot: u64, curr_slot: u64 },
    /// The submission arrived after the per-slot cutoff.
    SetConstraintsTooLate { ns_into_slot: i128, cutoff_ns: i64 },
    /// The submitting key is not the currently elected gateway.
    NotElectedGateway,
    /// A constraints record already exists for this slot.
    ConstraintsAlreadySetForSlot,
    /// Neither a persisted election nor a known duty covers the slot.
    NoGatewayFoundForSlot { slot: u64 },
    /// The persistent store reported a failure.
    AuctioneerFailed,
    /// The wall clock could not be read.
    InternalServerError,
}

/// Failure reported by a persistent store implementation.
#[derive(Clone, Copy, PartialEq, Eq, Structural, Debug)]
pub enum StoreError {
    /// The backing store could not serve the request.
    Unavailable,
}

} // verus!
