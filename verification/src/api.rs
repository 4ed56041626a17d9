//! The three request handlers: elect a gateway, look a gateway up, and set
//! constraints — plus the entry points through which the external slot and
//! duty feeds replace the shared snapshots.
//!
//! A transport layer around this crate deserializes request bodies into the
//! types of [`crate::types`], obtains the BLS signature verdict from its
//! cryptography backend once the prechecks ask for it, and passes plain
//! values in. Each handler's contract pins the returned value and the
//! store's contents for every outcome.

use vstd::prelude::*;

use crate::errors::ConstraintsApiError;
use crate::store::ConstraintsAuctioneer;
use crate::types::{
    BlsPublicKey, ChainInfo, ConstraintsApiConfig, ProposerDuty, SignedConstraintsMessage,
    SignedGatewayElection, SlotInfo,
};
use crate::validation::{
    constraints_prechecks, duties_sorted, election_prechecks, slot_timing_in_range,
    spec_constraints_prechecks, spec_election_prechecks, spec_validate_election,
    validate_election_request,
};

verus! {

/// Which duty, if any, answers a gateway lookup for `slot`: the first (and,
/// in a well-formed registry, only) duty listing that slot.
pub open spec fn spec_first_duty_for_slot(duties: Seq<ProposerDuty>, slot: u64) -> Option<
    ProposerDuty,
>
    decreases duties.len(),
{
    if duties.len() == 0 {
        None
    } else if duties[0].slot == slot {
        Some(duties[0])
    } else {
        spec_first_duty_for_slot(duties.drop_first(), slot)
    }
}

/// The gateway lookup's answer when the store responds: a past slot is
/// rejected; a persisted election wins; otherwise the assigned validator is
/// its own default gateway; otherwise the slot is unknown.
pub open spec fn spec_get_gateway(
    slot: u64,
    head_slot: u64,
    elections: Map<u64, Seq<u8>>,
    duties: Seq<ProposerDuty>,
) -> Result<Seq<u8>, ConstraintsApiError> {
    if slot < head_slot {
        Err(ConstraintsApiError::RequestForPastSlot { request_slot: slot, head_slot })
    } else if elections.contains_key(slot) {
        Ok(elections[slot])
    } else {
        match spec_first_duty_for_slot(duties, slot) {
            Some(duty) => Ok(duty.public_key@),
            None => Err(ConstraintsApiError::NoGatewayFoundForSlot { slot }),
        }
    }
}

/// A key-or-error result, seen at the level the contracts speak of.
pub open spec fn gateway_result_view(r: Result<BlsPublicKey, ConstraintsApiError>) -> Result<
    Seq<u8>,
    ConstraintsApiError,
> {
    match r {
        Ok(key) => Ok(key@),
        Err(e) => Err(e),
    }
}

/// The authorization-and-timing core. It owns the store handle, the chain
/// schedule, the configuration, and the snapshots the two external feeds
/// keep current.
pub struct ConstraintsApi<A: ConstraintsAuctioneer> {
    pub auctioneer: A,
    pub chain_info: ChainInfo,
    pub config: ConstraintsApiConfig,
    pub proposer_duties: Vec<ProposerDuty>,
    pub curr_slot_info: SlotInfo,
}

impl<A: ConstraintsAuctioneer> ConstraintsApi<A> {
    /// Can the current head slot's start instant be placed on the wall clock
    /// without overflowing the timing arithmetic? True of any chain schedule
    /// in use; [`Self::on_new_slot`] preserves it.
    pub open spec fn wf(&self) -> bool {
        slot_timing_in_range(self.chain_info, self.curr_slot_info.slot)
    }

    /// A core with no duties and no head slot yet; both feeds fill them in.
    pub fn new(auctioneer: A, chain_info: ChainInfo, config: ConstraintsApiConfig) -> (r:
        ConstraintsApi<A>)
        requires
            chain_info.genesis_time_in_secs + chain_info.seconds_per_slot <= u64::MAX,
        ensures
            r.auctioneer == auctioneer,
            r.chain_info == chain_info,
            r.config == config,
            r.proposer_duties@ == Seq::<ProposerDuty>::empty(),
            r.curr_slot_info.slot == 0,
            r.curr_slot_info.elected_gateway@ == Seq::<u8>::empty(),
            r.wf(),
    {
        let r = ConstraintsApi {
            auctioneer,
            chain_info,
            config,
            proposer_duties: Vec::new(),
            curr_slot_info: SlotInfo { slot: 0, elected_gateway: BlsPublicKey { bytes: Vec::new() } },
        };
        proof {
            assert(r.proposer_duties@ =~= Seq::<ProposerDuty>::empty());
            assert(r.curr_slot_info.elected_gateway@ =~= Seq::<u8>::empty());
        }
        r
    }

    /// The slot feed's entry point: replace the head-slot snapshot wholesale
    /// on a slot transition.
    pub fn on_new_slot(&mut self, slot_info: SlotInfo)
        requires
            slot_timing_in_range(old(self).chain_info, slot_info.slot),
        ensures
            final(self).curr_slot_info == slot_info,
            final(self).auctioneer == old(self).auctioneer,
            final(self).chain_info == old(self).chain_info,
            final(self).config == old(self).config,
            final(self).proposer_duties == old(self).proposer_duties,
            final(self).wf(),
    {
        self.curr_slot_info = slot_info;
    }

    /// The duty feed's entry point: replace the duty registry wholesale.
    /// The feed delivers it sorted by ascending slot, so the last entry the
    /// horizon check reads is the maximum known duty slot.
    pub fn on_new_duties(&mut self, duties: Vec<ProposerDuty>)
        requires
            duties_sorted(duties@),
        ensures
            final(self).proposer_duties == duties,
            final(self).auctioneer == old(self).auctioneer,
            final(self).chain_info == old(self).chain_info,
            final(self).config == old(self).config,
            final(self).curr_slot_info == old(self).curr_slot_info,
            final(self).wf() == old(self).wf(),
    {
        self.proposer_duties = duties;
    }

    /// Do the duty and slot checks currently let this election through to
    /// signature verification? `Ok` means: obtain the signature verdict and
    /// call [`Self::elect_gateway`] with it.
    pub fn election_ready_for_signature(&self, election: &SignedGatewayElection) -> (r: Result<
        (),
        ConstraintsApiError,
    >)
        ensures
            r == spec_election_prechecks(
                *election,
                self.curr_slot_info.slot,
                self.proposer_duties@,
            ),
    {
        election_prechecks(election, self.curr_slot_info.slot, &self.proposer_duties)
    }

    /// Elect a gateway for a future slot. `sig_ok` is the cryptography
    /// backend's verdict on the election's signature under the claimed
    /// validator key; it is consulted only after every duty and slot check
    /// has passed. On acceptance the election is persisted.
    pub fn elect_gateway(&mut self, election: &SignedGatewayElection, sig_ok: bool) -> (r: Result<
        (),
        ConstraintsApiError,
    >)
        ensures
            final(self).chain_info == old(self).chain_info,
            final(self).config == old(self).config,
            final(self).proposer_duties == old(self).proposer_duties,
            final(self).curr_slot_info == old(self).curr_slot_info,
            final(self).auctioneer.constraints() == old(self).auctioneer.constraints(),
            ({
                let decision = spec_validate_election(
                    *election,
                    old(self).curr_slot_info.slot,
                    old(self).proposer_duties@,
                    sig_ok,
                );
                match decision {
                    Err(e) => r == Err::<(), _>(e) && final(self).auctioneer.elections() == old(
                        self,
                    ).auctioneer.elections(),
                    Ok(()) => {
                        &&& r is Ok ==> final(self).auctioneer.elections() == old(
                            self,
                        ).auctioneer.elections().insert(
                            election.message.slot,
                            election.message.gateway_public_key@,
                        )
                        &&& r is Err ==> r == Err::<(), _>(ConstraintsApiError::AuctioneerFailed)
                            && final(self).auctioneer.elections() == old(
                            self,
                        ).auctioneer.elections()
                    },
                }
            }),
    {
        let head_slot = self.curr_slot_info.slot;
        match validate_election_request(election, head_slot, &self.proposer_duties, sig_ok) {
            Err(e) => Err(e),
            Ok(()) => match self.auctioneer.save_new_gateway_election(
                &election.message.gateway_public_key,
                election.message.slot,
            ) {
                Ok(()) => Ok(()),
                Err(_) => Err(ConstraintsApiError::AuctioneerFailed),
            },
        }
    }

    /// Look up the gateway for `slot`: a persisted election's key if one
    /// exists, else the assigned validator's own key, else an error. A past
    /// slot is rejected from the inputs alone, before the store is
    /// consulted, so only a slot at or after the head can see a store
    /// failure; in every other case the answer is exactly
    /// [`spec_get_gateway`].
    pub fn get_gateway(&self, slot: u64) -> (r: Result<BlsPublicKey, ConstraintsApiError>)
        ensures
            slot < self.curr_slot_info.slot ==> r == Err::<
                BlsPublicKey,
                _,
            >(ConstraintsApiError::RequestForPastSlot {
                request_slot: slot,
                head_slot: self.curr_slot_info.slot,
            }),
            r == Err::<BlsPublicKey, _>(ConstraintsApiError::AuctioneerFailed) ==> slot
                >= self.curr_slot_info.slot,
            r == Err::<BlsPublicKey, _>(ConstraintsApiError::AuctioneerFailed)
                || gateway_result_view(r) == spec_get_gateway(
                slot,
                self.curr_slot_info.slot,
                self.auctioneer.elections(),
                self.proposer_duties@,
            ),
    {
        let head_slot = self.curr_slot_info.slot;
        if slot < head_slot {
            return Err(ConstraintsApiError::RequestForPastSlot { request_slot: slot, head_slot });
        }
        match self.auctioneer.get_gateway(slot) {
            Err(_) => Err(ConstraintsApiError::AuctioneerFailed),
            Ok(Some(elected_gateway)) => Ok(elected_gateway),
            Ok(None) => {
                let n = self.proposer_duties.len();
                let mut i: usize = 0;
                while i < n
                    invariant
                        i <= n,
                        n == self.proposer_duties.len(),
                        slot >= self.curr_slot_info.slot,
                        !self.auctioneer.elections().contains_key(slot),
                        forall|j: int| 0 <= j < i ==> self.proposer_duties@[j].slot != slot,
                    decreases n - i,
                {
                    if self.proposer_duties[i].slot == slot {
                        proof {
                            lemma_first_duty_found(self.proposer_duties@, slot, i as int);
                        }
                        return Ok(self.proposer_duties[i].public_key.duplicate());
                    }
                    i += 1;
                }
                proof {
                    lemma_first_duty_absent(self.proposer_duties@, slot);
                }
                Err(ConstraintsApiError::NoGatewayFoundForSlot { slot })
            },
        }
    }


    /// Do the slot, timing and gateway-key checks currently let this
    /// constraints submission through to signature verification? `Ok`
    /// means: obtain the signature verdict and call
    /// [`Self::set_constraints`] with it.
    pub fn constraints_ready_for_signature(
        &self,
        constraints: &SignedConstraintsMessage,
        receive_ns: u64,
    ) -> (r: Result<(), ConstraintsApiError>)
        requires
            self.wf(),
        ensures
            r == spec_constraints_prechecks(
                *constraints,
                self.curr_slot_info.elected_gateway@,
                self.curr_slot_info.slot,
                receive_ns,
                self.chain_info,
                self.config.set_constraints_cutoff_ns,
            ),
    {
        constraints_prechecks(
            constraints,
            &self.curr_slot_info.elected_gateway,
            self.curr_slot_info.slot,
            receive_ns,
            &self.chain_info,
            self.config.set_constraints_cutoff_ns,
        )
    }

    /// Accept or reject a constraints submission received at `receive_ns`
    /// (nanoseconds since the Unix epoch). `sig_ok` is the cryptography
    /// backend's verdict on the message's signature under the elected
    /// gateway's key; it is consulted only after the slot, timing and key
    /// checks pass, and the store is consulted for a duplicate only after
    /// that. On acceptance the message is persisted — exactly once per slot:
    /// the duplicate lookup and the write happen under one exclusive borrow
    /// of the core, so no second submission can slip between them.
    pub fn set_constraints(
        &mut self,
        constraints: SignedConstraintsMessage,
        receive_ns: u64,
        sig_ok: bool,
    ) -> (r: Result<(), ConstraintsApiError>)
        requires
            old(self).wf(),
        ensures
            final(self).chain_info == old(self).chain_info,
            final(self).config == old(self).config,
            final(self).proposer_duties == old(self).proposer_duties,
            final(self).curr_slot_info == old(self).curr_slot_info,
            final(self).auctioneer.elections() == old(self).auctioneer.elections(),
            forall|s: u64|
                old(self).auctioneer.constraints().contains_key(s)
                    ==> final(self).auctioneer.constraints().contains_key(s),
            ({
                let head_slot = old(self).curr_slot_info.slot;
                let already_set = old(self).auctioneer.constraints().contains_key(head_slot);
                let unchanged = final(self).auctioneer.constraints() == old(
                    self,
                ).auctioneer.constraints();
                let pre = spec_constraints_prechecks(
                    constraints,
                    old(self).curr_slot_info.elected_gateway@,
                    head_slot,
                    receive_ns,
                    old(self).chain_info,
                    old(self).config.set_constraints_cutoff_ns,
                );
                match pre {
                    Err(e) => r == Err::<(), _>(e) && unchanged,
                    Ok(()) => if !sig_ok {
                        r == Err::<(), _>(ConstraintsApiError::InvalidSignature) && unchanged
                    } else {
                        &&& r is Ok ==> !already_set && final(self).auctioneer.constraints()
                            == old(self).auctioneer.constraints().insert(
                            head_slot,
                            constraints.message@,
                        )
                        &&& r == Err::<(), _>(ConstraintsApiError::ConstraintsAlreadySetForSlot)
                            ==> already_set && unchanged
                        &&& r == Err::<(), _>(ConstraintsApiError::AuctioneerFailed) ==> unchanged
                        &&& (r is Ok || r == Err::<(), _>(
                            ConstraintsApiError::ConstraintsAlreadySetForSlot,
                        ) || r == Err::<(), _>(ConstraintsApiError::AuctioneerFailed))
                    },
                }
            }),
    {
        let head_slot = self.curr_slot_info.slot;
        match constraints_prechecks(
            &constraints,
            &self.curr_slot_info.elected_gateway,
            head_slot,
            receive_ns,
            &self.chain_info,
            self.config.set_constraints_cutoff_ns,
        ) {
            Err(e) => {
                return Err(e);
            },
            Ok(()) => {},
        }
        if !sig_ok {
            return Err(ConstraintsApiError::InvalidSignature);
        }
        match self.auctioneer.get_constraints(head_slot) {
            Err(_) => {
                return Err(ConstraintsApiError::AuctioneerFailed);
            },
            Ok(Some(_)) => {
                return Err(ConstraintsApiError::ConstraintsAlreadySetForSlot);
            },
            Ok(None) => {},
        }
        match self.auctioneer.save_constraints(constraints.message) {
            Ok(()) => Ok(()),
            Err(_) => Err(ConstraintsApiError::AuctioneerFailed),
        }
    }
}

/// If `duties[i]` is the first duty listing `slot`, the lookup spec returns
/// exactly that duty.
pub proof fn lemma_first_duty_found(duties: Seq<ProposerDuty>, slot: u64, i: int)
    requires
        0 <= i < duties.len(),
        duties[i].slot == slot,
        forall|j: int| 0 <= j < i ==> duties[j].slot != slot,
    ensures
        spec_first_duty_for_slot(duties, slot) == Some(duties[i]),
    decreases i,
{
    if i == 0 {
    } else {
        lemma_first_duty_found(duties.drop_first(), slot, i - 1);
    }
}

/// If some duty lists `slot`, the lookup spec finds one listing exactly
/// that slot.
pub proof fn lemma_first_duty_exists(duties: Seq<ProposerDuty>, slot: u64)
    requires
        exists|i: int| 0 <= i < duties.len() && duties[i].slot == slot,
    ensures
        spec_first_duty_for_slot(duties, slot) matches Some(duty) && duty.slot == slot,
    decreases duties.len(),
{
    if duties[0].slot != slot {
        let i = choose|i: int| 0 <= i < duties.len() && duties[i].slot == slot;
        assert(duties.drop_first()[i - 1].slot == slot);
        lemma_first_duty_exists(duties.drop_first(), slot);
    }
}

/// If no duty lists `slot`, the lookup spec returns nothing.
pub proof fn lemma_first_duty_absent(duties: Seq<ProposerDuty>, slot: u64)
    requires
        forall|j: int| 0 <= j < duties.len() ==> duties[j].slot != slot,
    ensures
        spec_first_duty_for_slot(duties, slot) is None,
    decreases duties.len(),
{
    if duties.len() > 0 {
        lemma_first_duty_absent(duties.drop_first(), slot);
    }
}

/// Relies on `std::time::SystemTime::now` followed by
/// `duration_since(UNIX_EPOCH)`: the platform wall clock's answer, as
/// nanoseconds since the Unix epoch, or nothing when the clock reads before
/// the epoch. The clock is not monotonic and nothing is promised of the
/// value.
#[verifier::external_body]
fn read_system_clock_ns() -> (r: Option<u128>) {
    match std::time::SystemTime::now().duration_since(std::time::UNIX_EPOCH) {
        Ok(elapsed) => Some(elapsed.as_nanos()),
        Err(_) => None,
    }
}

/// How a raw clock reading becomes a request timestamp: a reading is
/// truncated to the width the timing checks work in; a missing reading (a
/// clock before the epoch) is a server-side error, never a panic.
pub fn clock_reading_to_timestamp(reading: Option<u128>) -> (r: Result<u64, ConstraintsApiError>)
    ensures
        reading matches Some(nanos) ==> r == Ok::<_, ConstraintsApiError>(nanos as u64),
        reading is None ==> r == Err::<u64, _>(ConstraintsApiError::InternalServerError),
{
    match reading {
        Some(nanos) => Ok(#[verifier::truncate] (nanos as u64)),
        None => Err(ConstraintsApiError::InternalServerError),
    }
}

/// The wall clock, in nanoseconds since the Unix epoch, narrowed by
/// [`clock_reading_to_timestamp`], which fixes what each reading becomes.
/// The reading itself is the environment's, so nothing more can be promised
/// of the success value here.
pub fn get_nanos_timestamp() -> (r: Result<u64, ConstraintsApiError>)
    ensures
        r is Err ==> r == Err::<u64, _>(ConstraintsApiError::InternalServerError),
{
    clock_reading_to_timestamp(read_system_clock_ns())
}

} // verus!
