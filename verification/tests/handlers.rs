//! End-to-end scenarios through the three handlers, backed by the in-memory
//! store.

use constraints_api::api::ConstraintsApi;
use constraints_api::errors::ConstraintsApiError;
use constraints_api::store::{ConstraintsAuctioneer, MemoryAuctioneer};
use constraints_api::types::{
    BlsPublicKey, BlsSignature, ChainInfo, Constraint, ConstraintsApiConfig, ConstraintsMessage,
    GatewayElection, ProposerDuty, SignedConstraintsMessage, SignedGatewayElection, SlotInfo,
};

const GENESIS_SECS: u64 = 1_600_000_000;
const SECONDS_PER_SLOT: u64 = 12;
const CUTOFF_NS: i64 = 4_000_000_000;

fn key(tag: u8) -> BlsPublicKey {
    BlsPublicKey { bytes: vec![tag; 48] }
}

fn sig(tag: u8) -> BlsSignature {
    BlsSignature { bytes: vec![tag; 96] }
}

fn chain() -> ChainInfo {
    ChainInfo { genesis_time_in_secs: GENESIS_SECS, seconds_per_slot: SECONDS_PER_SLOT }
}

fn config() -> ConstraintsApiConfig {
    ConstraintsApiConfig {
        set_constraints_cutoff_ns: CUTOFF_NS,
        max_gateway_election_size: 1024 * 1024,
        max_set_constraints_size: 1024 * 1024,
    }
}

fn api_at_head(head_slot: u64, elected_gateway: BlsPublicKey) -> ConstraintsApi<MemoryAuctioneer> {
    let mut api = ConstraintsApi::new(MemoryAuctioneer::new(), chain(), config());
    api.on_new_slot(SlotInfo { slot: head_slot, elected_gateway });
    api
}

fn duty(slot: u64, index: u64, tag: u8) -> ProposerDuty {
    ProposerDuty { slot, validator_index: index, public_key: key(tag) }
}

fn election(slot: u64, index: u64, validator_tag: u8, gateway_tag: u8) -> SignedGatewayElection {
    SignedGatewayElection {
        message: GatewayElection {
            slot,
            validator_index: index,
            public_key: key(validator_tag),
            gateway_public_key: key(gateway_tag),
        },
        signature: sig(7),
    }
}

fn slot_start_ns(slot: u64) -> u64 {
    (GENESIS_SECS + slot * SECONDS_PER_SLOT) * 1_000_000_000
}

fn constraints_msg(slot: u64, gateway_tag: u8) -> SignedConstraintsMessage {
    SignedConstraintsMessage {
        message: ConstraintsMessage {
            slot,
            public_key: key(gateway_tag),
            constraints: vec![Constraint { data: vec![0xc1] }],
        },
        signature: sig(8),
    }
}

#[test]
fn elect_gateway_accepts_assigned_validator_and_persists() {
    let mut api = api_at_head(100, key(2));
    api.on_new_duties(vec![duty(100, 5, 1)]);
    let result = api.elect_gateway(&election(100, 5, 1, 2), true);
    assert_eq!(result, Ok(()));
    // the store received exactly this election
    let stored = api.auctioneer.get_gateway(100).unwrap().unwrap();
    assert_eq!(stored.bytes, key(2).bytes);
}

#[test]
fn elect_gateway_rejects_past_slot() {
    let mut api = api_at_head(100, key(2));
    api.on_new_duties(vec![duty(100, 5, 1)]);
    let result = api.elect_gateway(&election(99, 5, 1, 2), true);
    assert_eq!(
        result,
        Err(ConstraintsApiError::RequestForPastSlot { request_slot: 99, head_slot: 100 })
    );
}

#[test]
fn elect_gateway_rejects_unknown_duties() {
    let mut api = api_at_head(100, key(2));
    let result = api.elect_gateway(&election(100, 5, 1, 2), true);
    assert_eq!(result, Err(ConstraintsApiError::ProposerDutiesNotKnown));
}

#[test]
fn elect_gateway_rejects_slot_beyond_duty_horizon() {
    let mut api = api_at_head(100, key(2));
    api.on_new_duties(vec![duty(100, 5, 1), duty(101, 6, 3)]);
    let result = api.elect_gateway(&election(102, 5, 1, 2), true);
    assert_eq!(
        result,
        Err(ConstraintsApiError::CannotElectGatewayTooFarInTheFuture {
            request_slot: 102,
            max_slot: 101,
        })
    );
}

#[test]
fn elect_gateway_rejects_mismatched_triple() {
    let mut api = api_at_head(100, key(2));
    api.on_new_duties(vec![duty(100, 5, 1)]);
    // right slot and key, wrong validator index
    let result = api.elect_gateway(&election(100, 6, 1, 2), true);
    assert_eq!(result, Err(ConstraintsApiError::ValidatorIsNotProposerForRequestedSlot));
    // right slot and index, wrong key
    let result = api.elect_gateway(&election(100, 5, 9, 2), true);
    assert_eq!(result, Err(ConstraintsApiError::ValidatorIsNotProposerForRequestedSlot));
}

#[test]
fn elect_gateway_rejects_invalid_signature_only_after_duty_checks() {
    let mut api = api_at_head(100, key(2));
    api.on_new_duties(vec![duty(100, 5, 1)]);
    // all duty checks pass, bad signature: the signature error surfaces
    let result = api.elect_gateway(&election(100, 5, 1, 2), false);
    assert_eq!(result, Err(ConstraintsApiError::InvalidSignature));
    // a past slot and a bad signature at once: the slot check answers first
    let result = api.elect_gateway(&election(99, 5, 1, 2), false);
    assert_eq!(
        result,
        Err(ConstraintsApiError::RequestForPastSlot { request_slot: 99, head_slot: 100 })
    );
}

#[test]
fn elect_gateway_overwrites_earlier_election() {
    let mut api = api_at_head(100, key(2));
    api.on_new_duties(vec![duty(100, 5, 1)]);
    assert_eq!(api.elect_gateway(&election(100, 5, 1, 2), true), Ok(()));
    assert_eq!(api.elect_gateway(&election(100, 5, 1, 3), true), Ok(()));
    let stored = api.auctioneer.get_gateway(100).unwrap().unwrap();
    assert_eq!(stored.bytes, key(3).bytes);
}

#[test]
fn set_constraints_accepts_timely_signed_submission_once() {
    let mut api = api_at_head(100, key(2));
    let receive_ns = slot_start_ns(100) + 1_000_000;
    let result = api.set_constraints(constraints_msg(100, 2), receive_ns, true);
    assert_eq!(result, Ok(()));
    let stored = api.auctioneer.get_constraints(100).unwrap().unwrap();
    assert_eq!(stored.slot, 100);
    assert_eq!(stored.public_key.bytes, key(2).bytes);
    assert_eq!(stored.constraints.len(), 1);
    assert_eq!(stored.constraints[0].data, vec![0xc1]);
}

#[test]
fn set_constraints_rejects_second_submission_for_same_slot() {
    let mut api = api_at_head(100, key(2));
    let receive_ns = slot_start_ns(100) + 1_000_000;
    assert_eq!(api.set_constraints(constraints_msg(100, 2), receive_ns, true), Ok(()));
    let second = api.set_constraints(constraints_msg(100, 2), receive_ns + 1, true);
    assert_eq!(second, Err(ConstraintsApiError::ConstraintsAlreadySetForSlot));
    // the stored record is still the first one, unchanged
    let stored = api.auctioneer.get_constraints(100).unwrap().unwrap();
    assert_eq!(stored.constraints.len(), 1);
    assert_eq!(stored.constraints[0].data, vec![0xc1]);
}

#[test]
fn set_constraints_rejects_wrong_slot() {
    let mut api = api_at_head(100, key(2));
    let receive_ns = slot_start_ns(100) + 1_000_000;
    let result = api.set_constraints(constraints_msg(101, 2), receive_ns, true);
    assert_eq!(
        result,
        Err(ConstraintsApiError::CanOnlySetConstraintsForCurrentSlot {
            request_slot: 101,
            curr_slot: 100,
        })
    );
}

#[test]
fn set_constraints_rejects_arrival_just_past_cutoff() {
    let mut api = api_at_head(100, key(2));
    let receive_ns = slot_start_ns(100) + (CUTOFF_NS as u64) + 1;
    let result = api.set_constraints(constraints_msg(100, 2), receive_ns, true);
    assert_eq!(
        result,
        Err(ConstraintsApiError::SetConstraintsTooLate {
            ns_into_slot: CUTOFF_NS as i128 + 1,
            cutoff_ns: CUTOFF_NS,
        })
    );
    // nothing was stored
    assert!(api.auctioneer.get_constraints(100).unwrap().is_none());
}

#[test]
fn set_constraints_accepts_arrival_exactly_at_cutoff() {
    let mut api = api_at_head(100, key(2));
    let receive_ns = slot_start_ns(100) + CUTOFF_NS as u64;
    assert_eq!(api.set_constraints(constraints_msg(100, 2), receive_ns, true), Ok(()));
}

#[test]
fn set_constraints_accepts_arrival_before_slot_start() {
    // a receive instant before the slot's start gives a negative offset,
    // which is under the cutoff, not an underflow
    let mut api = api_at_head(100, key(2));
    let receive_ns = slot_start_ns(100) - 5;
    assert_eq!(api.set_constraints(constraints_msg(100, 2), receive_ns, true), Ok(()));
}

#[test]
fn set_constraints_rejects_key_other_than_elected_gateway() {
    let mut api = api_at_head(100, key(2));
    let receive_ns = slot_start_ns(100) + 1_000_000;
    let result = api.set_constraints(constraints_msg(100, 9), receive_ns, true);
    assert_eq!(result, Err(ConstraintsApiError::NotElectedGateway));
}

#[test]
fn set_constraints_rejects_invalid_signature_only_after_prechecks() {
    let mut api = api_at_head(100, key(2));
    let receive_ns = slot_start_ns(100) + 1_000_000;
    let result = api.set_constraints(constraints_msg(100, 2), receive_ns, false);
    assert_eq!(result, Err(ConstraintsApiError::InvalidSignature));
    // too late and badly signed at once: the timing check answers first
    let late_ns = slot_start_ns(100) + (CUTOFF_NS as u64) + 1;
    let result = api.set_constraints(constraints_msg(100, 2), late_ns, false);
    assert!(matches!(result, Err(ConstraintsApiError::SetConstraintsTooLate { .. })));
}

#[test]
fn get_gateway_prefers_persisted_election() {
    let mut api = api_at_head(100, key(2));
    api.on_new_duties(vec![duty(100, 5, 1)]);
    assert_eq!(api.elect_gateway(&election(100, 5, 1, 2), true), Ok(()));
    // the duty's own key (tag 1) would be the fallback; the election wins
    let found = api.get_gateway(100).unwrap();
    assert_eq!(found.bytes, key(2).bytes);
}

#[test]
fn get_gateway_after_accepted_constraints_still_answers_election() {
    let mut api = api_at_head(100, key(2));
    api.on_new_duties(vec![duty(100, 5, 1)]);
    assert_eq!(api.elect_gateway(&election(100, 5, 1, 2), true), Ok(()));
    let receive_ns = slot_start_ns(100) + 1_000_000;
    assert_eq!(api.set_constraints(constraints_msg(100, 2), receive_ns, true), Ok(()));
    let found = api.get_gateway(100).unwrap();
    assert_eq!(found.bytes, key(2).bytes);
}

#[test]
fn get_gateway_defaults_to_assigned_validator() {
    let mut api = api_at_head(100, key(2));
    api.on_new_duties(vec![duty(100, 5, 1), duty(101, 6, 3)]);
    let found = api.get_gateway(101).unwrap();
    assert_eq!(found.bytes, key(3).bytes);
}

#[test]
fn get_gateway_rejects_past_slot() {
    let api = api_at_head(100, key(2));
    match api.get_gateway(99) {
        Err(e) => assert_eq!(
            e,
            ConstraintsApiError::RequestForPastSlot { request_slot: 99, head_slot: 100 }
        ),
        Ok(_) => panic!("a past slot must be rejected"),
    }
}

#[test]
fn get_gateway_fails_without_election_or_duty() {
    let mut api = api_at_head(100, key(2));
    api.on_new_duties(vec![duty(100, 5, 1)]);
    match api.get_gateway(102) {
        Err(e) => assert_eq!(e, ConstraintsApiError::NoGatewayFoundForSlot { slot: 102 }),
        Ok(_) => panic!("an uncovered slot must be rejected"),
    }
}

#[test]
fn slot_feed_replaces_snapshot_wholesale() {
    let mut api = api_at_head(100, key(2));
    api.on_new_slot(SlotInfo { slot: 101, elected_gateway: key(3) });
    // constraints for the old head slot are now the wrong slot
    let receive_ns = slot_start_ns(101) + 1_000_000;
    let result = api.set_constraints(constraints_msg(100, 3), receive_ns, true);
    assert_eq!(
        result,
        Err(ConstraintsApiError::CanOnlySetConstraintsForCurrentSlot {
            request_slot: 100,
            curr_slot: 101,
        })
    );
    // and the new gateway key is the one checked
    let result = api.set_constraints(constraints_msg(101, 2), receive_ns, true);
    assert_eq!(result, Err(ConstraintsApiError::NotElectedGateway));
}
