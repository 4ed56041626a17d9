//! The persistence interface the handlers rely on, and an in-memory
//! implementation of it.
//!
//! The store keeps, per slot, the elected gateway's key and the accepted
//! constraints message. Each implementation exposes both as mathematical
//! maps, and every method's contract is stated against those maps, so the
//! handlers' proofs hold for any conforming store. A real deployment backs
//! this with keyed external storage; [`MemoryAuctioneer`] backs it with hash
//! maps and is itself verified against the same contracts.

use std::collections::HashMap;

use vstd::prelude::*;

use crate::errors::StoreError;
use crate::types::{BlsPublicKey, ConstraintsMessage, ConstraintsMessageView, copy_bytes};

verus! {

broadcast use vstd::std_specs::hash::group_hash_axioms;

/// Keyed persistence for gateway elections and constraints messages.
///
/// A method may fail with [`StoreError`]; on failure nothing is recorded.
/// Lookups that succeed report exactly the model maps' contents.
pub trait ConstraintsAuctioneer: Sized {
    /// The persisted gateway elections: slot to elected gateway key.
    spec fn elections(&self) -> Map<u64, Seq<u8>>;

    /// The persisted constraints: slot to accepted message.
    spec fn constraints(&self) -> Map<u64, ConstraintsMessageView>;

    /// Record `gateway` as elected for `slot`, unconditionally replacing any
    /// earlier election for that slot.
    fn save_new_gateway_election(&mut self, gateway: &BlsPublicKey, slot: u64) -> (r: Result<
        (),
        StoreError,
    >)
        ensures
            r is Ok ==> final(self).elections() == old(self).elections().insert(slot, gateway@),
            r is Err ==> final(self).elections() == old(self).elections(),
            final(self).constraints() == old(self).constraints(),
    ;

    /// Look up the gateway elected for `slot`, if any was persisted.
    fn get_gateway(&self, slot: u64) -> (r: Result<Option<BlsPublicKey>, StoreError>)
        ensures
            r matches Ok(found) ==> match found {
                Some(key) => self.elections().contains_key(slot) && key@ == self.elections()[slot],
                None => !self.elections().contains_key(slot),
            },
    ;

    /// Record an accepted constraints message under its slot.
    fn save_constraints(&mut self, message: ConstraintsMessage) -> (r: Result<(), StoreError>)
        ensures
            r is Ok ==> final(self).constraints() == old(self).constraints().insert(
                message.slot,
                message@,
            ),
            r is Err ==> final(self).constraints() == old(self).constraints(),
            final(self).elections() == old(self).elections(),
    ;

    /// Look up the constraints message accepted for `slot`, if any.
    fn get_constraints(&self, slot: u64) -> (r: Result<Option<ConstraintsMessage>, StoreError>)
        ensures
            r matches Ok(found) ==> match found {
                Some(message) => self.constraints().contains_key(slot) && message@
                    == self.constraints()[slot],
                None => !self.constraints().contains_key(slot),
            },
    ;
}

/// An in-process store: two hash maps keyed by slot. It never fails, which
/// also makes it the store of choice for exercising every validator branch
/// without I/O.
pub struct MemoryAuctioneer {
    pub gateway_by_slot: HashMap<u64, Vec<u8>>,
    pub constraints_by_slot: HashMap<u64, ConstraintsMessage>,
}

impl MemoryAuctioneer {
    /// An empty store.
    pub fn new() -> (r: MemoryAuctioneer)
        ensures
            r.elections() == Map::<u64, Seq<u8>>::empty(),
            r.constraints() == Map::<u64, ConstraintsMessageView>::empty(),
    {
        let r = MemoryAuctioneer {
            gateway_by_slot: HashMap::new(),
            constraints_by_slot: HashMap::new(),
        };
        proof {
            assert(r.elections() =~= Map::<u64, Seq<u8>>::empty());
            assert(r.constraints() =~= Map::<u64, ConstraintsMessageView>::empty());
        }
        r
    }
}

impl ConstraintsAuctioneer for MemoryAuctioneer {
    open spec fn elections(&self) -> Map<u64, Seq<u8>> {
        self.gateway_by_slot@.map_values(|key: Vec<u8>| key@)
    }

    open spec fn constraints(&self) -> Map<u64, ConstraintsMessageView> {
        self.constraints_by_slot@.map_values(|m: ConstraintsMessage| m@)
    }

    fn save_new_gateway_election(&mut self, gateway: &BlsPublicKey, slot: u64) -> (r: Result<
        (),
        StoreError,
    >)
        ensures
            r is Ok,
    {
        let key_bytes = copy_bytes(&gateway.bytes);
        self.gateway_by_slot.insert(slot, key_bytes);
        proof {
            assert(self.elections() =~= old(self).elections().insert(slot, gateway@));
        }
        Ok(())
    }

    fn get_gateway(&self, slot: u64) -> (r: Result<Option<BlsPublicKey>, StoreError>)
        ensures
            r is Ok,
    {
        match self.gateway_by_slot.get(&slot) {
            Some(key_bytes) => Ok(Some(BlsPublicKey { bytes: copy_bytes(key_bytes) })),
            None => Ok(None),
        }
    }

    fn save_constraints(&mut self, message: ConstraintsMessage) -> (r: Result<(), StoreError>)
        ensures
            r is Ok,
    {
        let ghost message_view = message@;
        let slot = message.slot;
        self.constraints_by_slot.insert(slot, message);
        proof {
            assert(self.constraints() =~= old(self).constraints().insert(slot, message_view));
        }
        Ok(())
    }

    fn get_constraints(&self, slot: u64) -> (r: Result<Option<ConstraintsMessage>, StoreError>)
        ensures
            r is Ok,
    {
        match self.constraints_by_slot.get(&slot) {
            Some(message) => Ok(Some(duplicate_message(message))),
            None => Ok(None),
        }
    }
}

/// An owned copy of a constraints message, equal to the original in view.
fn duplicate_message(message: &ConstraintsMessage) -> (r: ConstraintsMessage)
    ensures
        r@ == message@,
{
    let mut rules: Vec<crate::types::Constraint> = Vec::new();
    let n = message.constraints.len();
    let mut i: usize = 0;
    while i < n
        invariant
            i <= n,
            n == message.constraints.len(),
            rules@.len() == i,
            forall|j: int| 0 <= j < i ==> rules@[j]@ == message.constraints@[j]@,
        decreases n - i,
    {
        let entry = crate::types::Constraint { data: copy_bytes(&message.constraints[i].data) };
        rules.push(entry);
        i += 1;
    }
    let r = ConstraintsMessage {
        slot: message.slot,
        public_key: message.public_key.duplicate(),
        constraints: rules,
    };
    proof {
        assert(r@.constraints =~= message@.constraints);
    }
    r
}

} // verus!
