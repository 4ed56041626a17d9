//! The pure accept/reject decisions behind the three handlers.
//!
//! Each decision is written twice: a `spec` function that defines the
//! outcome, including which rejection wins when several conditions are
//! violated at once (checks are ordered, cheapest first, signature last), and
//! an executable validator proved to return exactly that outcome.
//!
//! Signature verification is a BLS operation performed by an external
//! cryptography backend; the decisions here take its verdict (`sig_ok`) as an
//! input and consult it only after every structural, duty and timing check
//! has passed.

use vstd::prelude::*;

use crate::errors::ConstraintsApiError;
use crate::types::{
    BlsPublicKey, ChainInfo, ProposerDuty, SignedConstraintsMessage, SignedGatewayElection,
};

verus! {

/// Does `duty` assign exactly the validator an election claims? All three
/// fields — slot, public key and validator index — must match.
pub open spec fn duty_matches_election(duty: ProposerDuty, election: SignedGatewayElection) -> bool {
    &&& duty.slot == election.message.slot
    &&& duty.public_key@ == election.message.public_key@
    &&& duty.validator_index == election.message.validator_index
}

/// Is the duty list sorted by ascending slot? The external duty feed
/// maintains this, so the last entry carries the maximum known slot.
pub open spec fn duties_sorted(duties: Seq<ProposerDuty>) -> bool {
    forall|i: int, j: int| 0 <= i <= j < duties.len() ==> duties[i].slot <= duties[j].slot
}

/// Every check an election must pass before its signature is worth
/// verifying, in the order the validator applies them:
/// the slot must not be past, duties must be known, the slot must not lie
/// beyond the last known duty, and the claimed (slot, key, index) triple
/// must match a registered duty exactly.
pub open spec fn spec_election_prechecks(
    election: SignedGatewayElection,
    head_slot: u64,
    duties: Seq<ProposerDuty>,
) -> Result<(), ConstraintsApiError> {
    let slot = election.message.slot;
    if slot < head_slot {
        Err(ConstraintsApiError::RequestForPastSlot { request_slot: slot, head_slot })
    } else if duties.len() == 0 {
        Err(ConstraintsApiError::ProposerDutiesNotKnown)
    } else if slot > duties.last().slot {
        Err(ConstraintsApiError::CannotElectGatewayTooFarInTheFuture {
            request_slot: slot,
            max_slot: duties.last().slot,
        })
    } else if !(exists|i: int|
        0 <= i < duties.len() && duty_matches_election(duties[i], election)) {
        Err(ConstraintsApiError::ValidatorIsNotProposerForRequestedSlot)
    } else {
        Ok(())
    }
}

/// The complete election decision: the prechecks, then — only if they all
/// pass — the signature verdict.
pub open spec fn spec_validate_election(
    election: SignedGatewayElection,
    head_slot: u64,
    duties: Seq<ProposerDuty>,
    sig_ok: bool,
) -> Result<(), ConstraintsApiError> {
    match spec_election_prechecks(election, head_slot, duties) {
        Err(e) => Err(e),
        Ok(()) => if sig_ok {
            Ok(())
        } else {
            Err(ConstraintsApiError::InvalidSignature)
        },
    }
}

/// Every check an election must pass before signature verification.
/// Returning `Ok` means: verify the signature now.
pub fn election_prechecks(
    election: &SignedGatewayElection,
    head_slot: u64,
    duties: &Vec<ProposerDuty>,
) -> (r: Result<(), ConstraintsApiError>)
    ensures
        r == spec_election_prechecks(*election, head_slot, duties@),
{
    let slot = election.slot();
    if slot < head_slot {
        return Err(ConstraintsApiError::RequestForPastSlot { request_slot: slot, head_slot });
    }
    if duties.len() == 0 {
        return Err(ConstraintsApiError::ProposerDutiesNotKnown);
    }
    let max_slot = duties[duties.len() - 1].slot;
    if slot > max_slot {
        return Err(ConstraintsApiError::CannotElectGatewayTooFarInTheFuture {
            request_slot: slot,
            max_slot,
        });
    }
    let n = duties.len();
    let mut i: usize = 0;
    while i < n
        invariant
            i <= n,
            n == duties.len(),
            n > 0,
            election.message.slot >= head_slot,
            election.message.slot <= duties@.last().slot,
            forall|j: int| 0 <= j < i ==> !duty_matches_election(duties@[j], *election),
        decreases n - i,
    {
        let duty = &duties[i];
        if duty.slot == election.message.slot && duty.validator_index
            == election.message.validator_index && duty.public_key.key_eq(
            &election.message.public_key,
        ) {
            proof {
                assert(duty_matches_election(duties@[i as int], *election));
            }
            return Ok(());
        }
        i += 1;
    }
    Err(ConstraintsApiError::ValidatorIsNotProposerForRequestedSlot)
}

/// The complete election decision, as the elect-gateway handler applies it:
/// prechecks first, the externally obtained signature verdict last.
pub fn validate_election_request(
    election: &SignedGatewayElection,
    head_slot: u64,
    duties: &Vec<ProposerDuty>,
    sig_ok: bool,
) -> (r: Result<(), ConstraintsApiError>)
    ensures
        r == spec_validate_election(*election, head_slot, duties@, sig_ok),
{
    match election_prechecks(election, head_slot, duties) {
        Err(e) => Err(e),
        Ok(()) => if sig_ok {
            Ok(())
        } else {
            Err(ConstraintsApiError::InvalidSignature)
        },
    }
}

/// The wall-clock instant, in nanoseconds since the Unix epoch, at which
/// `slot` is scheduled to start.
pub open spec fn spec_slot_start_ns(chain: ChainInfo, slot: u64) -> int {
    (chain.genesis_time_in_secs + slot * chain.seconds_per_slot) * 1_000_000_000
}

/// How far into `slot` a message received at `receive_ns` arrived: the raw
/// signed difference, negative when the message preceded the slot's start.
pub open spec fn spec_ns_into_slot(chain: ChainInfo, slot: u64, receive_ns: u64) -> int {
    receive_ns - spec_slot_start_ns(chain, slot)
}

/// Does the slot's start instant fit the machine arithmetic the timing check
/// performs? A chain schedule in use always satisfies this.
pub open spec fn slot_timing_in_range(chain: ChainInfo, slot: u64) -> bool {
    chain.genesis_time_in_secs + slot * chain.seconds_per_slot <= u64::MAX
}

/// Every check a constraints submission must pass before its signature is
/// worth verifying, in order: it must target the head slot exactly, it must
/// have arrived no later than the cutoff after the slot's start, and it must
/// be submitted under the elected gateway's key.
pub open spec fn spec_constraints_prechecks(
    constraints: SignedConstraintsMessage,
    elected_gateway: Seq<u8>,
    head_slot: u64,
    receive_ns: u64,
    chain: ChainInfo,
    cutoff_ns: i64,
) -> Result<(), ConstraintsApiError> {
    let slot = constraints.message.slot;
    let ns_into_slot = spec_ns_into_slot(chain, head_slot, receive_ns);
    if slot != head_slot {
        Err(ConstraintsApiError::CanOnlySetConstraintsForCurrentSlot {
            request_slot: slot,
            curr_slot: head_slot,
        })
    } else if ns_into_slot > cutoff_ns {
        Err(ConstraintsApiError::SetConstraintsTooLate {
            ns_into_slot: ns_into_slot as i128,
            cutoff_ns,
        })
    } else if constraints.message.public_key@ != elected_gateway {
        Err(ConstraintsApiError::NotElectedGateway)
    } else {
        Ok(())
    }
}

/// The complete constraints decision: the prechecks, then the signature
/// verdict, then — last, because it needs the store — the per-slot
/// duplicate check.
pub open spec fn spec_validate_set_constraints(
    constraints: SignedConstraintsMessage,
    elected_gateway: Seq<u8>,
    head_slot: u64,
    receive_ns: u64,
    chain: ChainInfo,
    cutoff_ns: i64,
    sig_ok: bool,
    already_set: bool,
) -> Result<(), ConstraintsApiError> {
    match spec_constraints_prechecks(
        constraints,
        elected_gateway,
        head_slot,
        receive_ns,
        chain,
        cutoff_ns,
    ) {
        Err(e) => Err(e),
        Ok(()) => if !sig_ok {
            Err(ConstraintsApiError::InvalidSignature)
        } else if already_set {
            Err(ConstraintsApiError::ConstraintsAlreadySetForSlot)
        } else {
            Ok(())
        },
    }
}

/// The complete constraints decision, as the set-constraints handler applies
/// it: prechecks first, then the externally obtained signature verdict, then
/// the store's answer to the duplicate lookup (`already_set`).
pub fn validate_set_constraints_request(
    constraints: &SignedConstraintsMessage,
    elected_gateway: &BlsPublicKey,
    head_slot: u64,
    receive_ns: u64,
    chain: &ChainInfo,
    cutoff_ns: i64,
    sig_ok: bool,
    already_set: bool,
) -> (r: Result<(), ConstraintsApiError>)
    requires
        slot_timing_in_range(*chain, head_slot),
    ensures
        r == spec_validate_set_constraints(
            *constraints,
            elected_gateway@,
            head_slot,
            receive_ns,
            *chain,
            cutoff_ns,
            sig_ok,
            already_set,
        ),
{
    match constraints_prechecks(
        constraints,
        elected_gateway,
        head_slot,
        receive_ns,
        chain,
        cutoff_ns,
    ) {
        Err(e) => Err(e),
        Ok(()) => if !sig_ok {
            Err(ConstraintsApiError::InvalidSignature)
        } else if already_set {
            Err(ConstraintsApiError::ConstraintsAlreadySetForSlot)
        } else {
            Ok(())
        },
    }
}

/// Every check a constraints submission must pass before signature
/// verification. Returning `Ok` means: verify the signature now.
pub fn constraints_prechecks(
    constraints: &SignedConstraintsMessage,
    elected_gateway: &BlsPublicKey,
    head_slot: u64,
    receive_ns: u64,
    chain: &ChainInfo,
    cutoff_ns: i64,
) -> (r: Result<(), ConstraintsApiError>)
    requires
        slot_timing_in_range(*chain, head_slot),
    ensures
        r == spec_constraints_prechecks(
            *constraints,
            elected_gateway@,
            head_slot,
            receive_ns,
            *chain,
            cutoff_ns,
        ),
{
    let slot = constraints.slot();
    if slot != head_slot {
        return Err(ConstraintsApiError::CanOnlySetConstraintsForCurrentSlot {
            request_slot: slot,
            curr_slot: head_slot,
        });
    }
    let slot_start_secs: u64 = chain.genesis_time_in_secs + head_slot * chain.seconds_per_slot;
    let slot_start_ns: i128 = (slot_start_secs as i128) * 1_000_000_000;
    let ns_into_slot: i128 = (receive_ns as i128) - slot_start_ns;
    if ns_into_slot > cutoff_ns as i128 {
        return Err(ConstraintsApiError::SetConstraintsTooLate { ns_into_slot, cutoff_ns });
    }
    if !constraints.message.public_key.key_eq(elected_gateway) {
        return Err(ConstraintsApiError::NotElectedGateway);
    }
    Ok(())
}

} // verus!
