//! The crate's guarantees, stated once and proved, over the same decision
//! specs the handlers' contracts use: which rejection every out-of-order,
//! unauthorized, late or duplicate request receives, that the signature
//! verdict and the store are consulted only after all cheaper checks pass,
//! and what a gateway lookup answers in each store/duty situation.

use vstd::prelude::*;

use crate::api::{lemma_first_duty_absent, lemma_first_duty_exists, spec_first_duty_for_slot, spec_get_gateway};
use crate::errors::ConstraintsApiError;
use crate::types::{ChainInfo, ProposerDuty, SignedConstraintsMessage, SignedGatewayElection};
use crate::validation::{
    duties_sorted, duty_matches_election, spec_constraints_prechecks, spec_election_prechecks,
    spec_ns_into_slot, spec_validate_election, spec_validate_set_constraints,
};

verus! {

/// An election for a slot before the head slot is rejected as a past-slot
/// request, whatever the signature verdict and whatever the duties say.
pub proof fn law_past_slot_election_rejected(
    election: SignedGatewayElection,
    head_slot: u64,
    duties: Seq<ProposerDuty>,
    sig_ok: bool,
)
    requires
        election.message.slot < head_slot,
    ensures
        spec_validate_election(election, head_slot, duties, sig_ok) == Err::<
            (),
            _,
        >(ConstraintsApiError::RequestForPastSlot {
            request_slot: election.message.slot,
            head_slot,
        }),
{
}

/// An election for a slot beyond every known duty is rejected as too far in
/// the future, whatever the signature verdict. The slot must not already lie
/// in the past (a past slot is rejected as such first) and at least one duty
/// must be known (an empty registry is rejected as duties-not-known first).
pub proof fn law_too_far_in_future_rejected(
    election: SignedGatewayElection,
    head_slot: u64,
    duties: Seq<ProposerDuty>,
    sig_ok: bool,
)
    requires
        duties_sorted(duties),
        duties.len() > 0,
        election.message.slot >= head_slot,
        forall|i: int| 0 <= i < duties.len() ==> election.message.slot > duties[i].slot,
    ensures
        spec_validate_election(election, head_slot, duties, sig_ok) == Err::<
            (),
            _,
        >(ConstraintsApiError::CannotElectGatewayTooFarInTheFuture {
            request_slot: election.message.slot,
            max_slot: duties.last().slot,
        }),
{
    assert(election.message.slot > duties[duties.len() - 1].slot);
}

/// An election whose (slot, public key, validator index) triple matches no
/// known duty exactly is rejected as not-the-proposer, even with a valid
/// signature — provided no earlier check already rejected it.
pub proof fn law_not_proposer_rejected(
    election: SignedGatewayElection,
    head_slot: u64,
    duties: Seq<ProposerDuty>,
    sig_ok: bool,
)
    requires
        duties.len() > 0,
        election.message.slot >= head_slot,
        election.message.slot <= duties.last().slot,
        forall|i: int| 0 <= i < duties.len() ==> !duty_matches_election(duties[i], election),
    ensures
        spec_validate_election(election, head_slot, duties, sig_ok) == Err::<
            (),
            _,
        >(ConstraintsApiError::ValidatorIsNotProposerForRequestedSlot),
{
}

/// The signature verdict is consulted last. Whenever any duty or slot check
/// fails, the decision is that failure, identical under both verdicts; and
/// an invalid signature is reported only when every other check passed.
pub proof fn law_election_signature_checked_last(
    election: SignedGatewayElection,
    head_slot: u64,
    duties: Seq<ProposerDuty>,
)
    ensures
        forall|sig_ok: bool|
            spec_election_prechecks(election, head_slot, duties) is Err ==> spec_validate_election(
                election,
                head_slot,
                duties,
                sig_ok,
            ) == spec_election_prechecks(election, head_slot, duties),
        forall|sig_ok: bool|
            spec_validate_election(election, head_slot, duties, sig_ok) == Err::<
                (),
                _,
            >(ConstraintsApiError::InvalidSignature) ==> spec_election_prechecks(
                election,
                head_slot,
                duties,
            ) is Ok && !sig_ok,
{
}

/// A constraints submission that does not target the head slot exactly is
/// rejected as wrong-slot, whatever its key, signature verdict, timing, or
/// any record already in the store.
pub proof fn law_wrong_slot_rejected(
    constraints: SignedConstraintsMessage,
    elected_gateway: Seq<u8>,
    head_slot: u64,
    receive_ns: u64,
    chain: ChainInfo,
    cutoff_ns: i64,
    sig_ok: bool,
    already_set: bool,
)
    requires
        constraints.message.slot != head_slot,
    ensures
        spec_validate_set_constraints(
            constraints,
            elected_gateway,
            head_slot,
            receive_ns,
            chain,
            cutoff_ns,
            sig_ok,
            already_set,
        ) == Err::<(), _>(ConstraintsApiError::CanOnlySetConstraintsForCurrentSlot {
            request_slot: constraints.message.slot,
            curr_slot: head_slot,
        }),
{
}

/// A constraints submission that arrives later than the cutoff after its
/// slot's start is rejected as too late, even with a valid signature from
/// the correct gateway, and whatever the store holds.
pub proof fn law_too_late_rejected(
    constraints: SignedConstraintsMessage,
    elected_gateway: Seq<u8>,
    head_slot: u64,
    receive_ns: u64,
    chain: ChainInfo,
    cutoff_ns: i64,
    sig_ok: bool,
    already_set: bool,
)
    requires
        constraints.message.slot == head_slot,
        spec_ns_into_slot(chain, head_slot, receive_ns) > cutoff_ns,
    ensures
        spec_validate_set_constraints(
            constraints,
            elected_gateway,
            head_slot,
            receive_ns,
            chain,
            cutoff_ns,
            sig_ok,
            already_set,
        ) == Err::<(), _>(ConstraintsApiError::SetConstraintsTooLate {
            ns_into_slot: spec_ns_into_slot(chain, head_slot, receive_ns) as i128,
            cutoff_ns,
        }),
{
}

/// At most one constraints submission is accepted per slot. Once a record
/// exists for the head slot, no submission decision for that slot is an
/// acceptance; a well-formed, timely, correctly signed one is rejected
/// exactly as already set; and the already-set rejection is returned only
/// when a record exists. Together with `set_constraints`'s contract — a
/// record, once present, is present after every call — this carries to every
/// later submission for the slot, however many calls intervene.
pub proof fn law_at_most_one_submission_per_slot(
    constraints: SignedConstraintsMessage,
    elected_gateway: Seq<u8>,
    head_slot: u64,
    receive_ns: u64,
    chain: ChainInfo,
    cutoff_ns: i64,
    sig_ok: bool,
)
    ensures
        spec_validate_set_constraints(
            constraints,
            elected_gateway,
            head_slot,
            receive_ns,
            chain,
            cutoff_ns,
            sig_ok,
            true,
        ) is Err,
        spec_constraints_prechecks(
            constraints,
            elected_gateway,
            head_slot,
            receive_ns,
            chain,
            cutoff_ns,
        ) is Ok && sig_ok ==> spec_validate_set_constraints(
            constraints,
            elected_gateway,
            head_slot,
            receive_ns,
            chain,
            cutoff_ns,
            sig_ok,
            true,
        ) == Err::<(), _>(ConstraintsApiError::ConstraintsAlreadySetForSlot),
        forall|already_set: bool|
            spec_validate_set_constraints(
                constraints,
                elected_gateway,
                head_slot,
                receive_ns,
                chain,
                cutoff_ns,
                sig_ok,
                already_set,
            ) == Err::<(), _>(ConstraintsApiError::ConstraintsAlreadySetForSlot) ==> already_set,
{
}

/// The constraints checks are ordered: whenever a precheck fails, the
/// decision is that failure, identical under every signature verdict and
/// every store state.
pub proof fn law_constraints_signature_checked_last(
    constraints: SignedConstraintsMessage,
    elected_gateway: Seq<u8>,
    head_slot: u64,
    receive_ns: u64,
    chain: ChainInfo,
    cutoff_ns: i64,
)
    ensures
        forall|sig_ok: bool, already_set: bool|
            spec_constraints_prechecks(
                constraints,
                elected_gateway,
                head_slot,
                receive_ns,
                chain,
                cutoff_ns,
            ) is Err ==> spec_validate_set_constraints(
                constraints,
                elected_gateway,
                head_slot,
                receive_ns,
                chain,
                cutoff_ns,
                sig_ok,
                already_set,
            ) == spec_constraints_prechecks(
                constraints,
                elected_gateway,
                head_slot,
                receive_ns,
                chain,
                cutoff_ns,
            ),
{
}

/// A gateway lookup prefers a persisted election: when one exists for a
/// slot that is not past, its key is the answer, whatever the duties say.
pub proof fn law_lookup_prefers_persisted_election(
    slot: u64,
    head_slot: u64,
    elections: Map<u64, Seq<u8>>,
    duties: Seq<ProposerDuty>,
)
    requires
        slot >= head_slot,
        elections.contains_key(slot),
    ensures
        spec_get_gateway(slot, head_slot, elections, duties) == Ok::<_, ConstraintsApiError>(
            elections[slot],
        ),
{
}

/// With no persisted election, a gateway lookup for a slot that is not past
/// falls back to the assigned validator's own key when a duty covers the
/// slot: the validator is its own default gateway.
pub proof fn law_lookup_defaults_to_proposer(
    slot: u64,
    head_slot: u64,
    elections: Map<u64, Seq<u8>>,
    duties: Seq<ProposerDuty>,
)
    requires
        slot >= head_slot,
        !elections.contains_key(slot),
        exists|i: int| 0 <= i < duties.len() && duties[i].slot == slot,
    ensures
        spec_first_duty_for_slot(duties, slot) matches Some(duty) && spec_get_gateway(
            slot,
            head_slot,
            elections,
            duties,
        ) == Ok::<_, ConstraintsApiError>(duty.public_key@),
{
    lemma_first_duty_exists(duties, slot);
}

/// With neither a persisted election nor a known duty, a gateway lookup for
/// a slot that is not past fails as no-gateway-for-slot.
pub proof fn law_lookup_fails_without_election_or_duty(
    slot: u64,
    head_slot: u64,
    elections: Map<u64, Seq<u8>>,
    duties: Seq<ProposerDuty>,
)
    requires
        slot >= head_slot,
        !elections.contains_key(slot),
        forall|i: int| 0 <= i < duties.len() ==> duties[i].slot != slot,
    ensures
        spec_get_gateway(slot, head_slot, elections, duties) == Err::<
            Seq<u8>,
            _,
        >(ConstraintsApiError::NoGatewayFoundForSlot { slot }),
{
    lemma_first_duty_absent(duties, slot);
}

} // verus!
