//! Data model: keys, signatures, duties, the two signed message kinds, and
//! the chain schedule parameters that the timing checks read.

use vstd::prelude::*;

verus! {

/// A BLS public key, carried as its raw byte encoding. Keys identify
/// validators and gateways; the decision logic only ever compares them for
/// equality and hands them to an external signature verifier.
pub struct BlsPublicKey {
    pub bytes: Vec<u8>,
}

impl View for BlsPublicKey {
    type V = Seq<u8>;

    open spec fn view(&self) -> Seq<u8> {
        self.bytes@
    }
}

impl BlsPublicKey {
    /// Byte-for-byte equality of two keys.
    pub fn key_eq(&self, other: &BlsPublicKey) -> (r: bool)
        ensures
            r == (self@ == other@),
    {
        if self.bytes.len() != other.bytes.len() {
            return false;
        }
        let n = self.bytes.len();
        let mut i: usize = 0;
        while i < n
            invariant
                i <= n,
                n == self.bytes.len(),
                n == other.bytes.len(),
                forall|j: int| 0 <= j < i ==> self.bytes@[j] == other.bytes@[j],
            decreases n - i,
        {
            if self.bytes[i] != other.bytes[i] {
                return false;
            }
            i += 1;
        }
        proof {
            assert(self@ =~= other@);
        }
        true
    }

    /// An owned copy of the key.
    pub fn duplicate(&self) -> (r: BlsPublicKey)
        ensures
            r@ == self@,
    {
        BlsPublicKey { bytes: copy_bytes(&self.bytes) }
    }
}

/// A BLS signature, carried as its raw byte encoding. The core never
/// inspects it; it is checked by an external verifier.
pub struct BlsSignature {
    pub bytes: Vec<u8>,
}

impl View for BlsSignature {
    type V = Seq<u8>;

    open spec fn view(&self) -> Seq<u8> {
        self.bytes@
    }
}

/// An assignment of a validator to build (or delegate) one slot. Produced
/// wholesale by an external duty feed; immutable once issued.
pub struct ProposerDuty {
    pub slot: u64,
    pub validator_index: u64,
    pub public_key: BlsPublicKey,
}

/// The body of a gateway election: the validator assigned to `slot`
/// delegates block-construction authority to `gateway_public_key`.
pub struct GatewayElection {
    pub slot: u64,
    pub validator_index: u64,
    pub public_key: BlsPublicKey,
    pub gateway_public_key: BlsPublicKey,
}

/// A gateway election together with the validator's signature over it.
pub struct SignedGatewayElection {
    pub message: GatewayElection,
    pub signature: BlsSignature,
}

impl SignedGatewayElection {
    /// The slot the election targets.
    pub fn slot(&self) -> (r: u64)
        ensures
            r == self.message.slot,
    {
        self.message.slot
    }

    /// The claimed validator public key.
    pub fn public_key(&self) -> (r: &BlsPublicKey)
        ensures
            r == &self.message.public_key,
    {
        &self.message.public_key
    }

    /// The claimed validator index.
    pub fn validator_index(&self) -> (r: u64)
        ensures
            r == self.message.validator_index,
    {
        self.message.validator_index
    }

    /// The gateway the validator delegates to.
    pub fn gateway_public_key(&self) -> (r: &BlsPublicKey)
        ensures
            r == &self.message.gateway_public_key,
    {
        &self.message.gateway_public_key
    }
}

/// One block-construction rule inside a constraints message. The core
/// treats its payload as opaque bytes.
pub struct Constraint {
    pub data: Vec<u8>,
}

impl View for Constraint {
    type V = Seq<u8>;

    open spec fn view(&self) -> Seq<u8> {
        self.data@
    }
}

/// The body of a constraints submission: binding block-construction rules
/// for `slot`, submitted under the elected gateway's key.
pub struct ConstraintsMessage {
    pub slot: u64,
    pub public_key: BlsPublicKey,
    pub constraints: Vec<Constraint>,
}

/// Mathematical image of a [`ConstraintsMessage`], used by the store model.
pub ghost struct ConstraintsMessageView {
    pub slot: u64,
    pub public_key: Seq<u8>,
    pub constraints: Seq<Seq<u8>>,
}

impl View for ConstraintsMessage {
    type V = ConstraintsMessageView;

    open spec fn view(&self) -> ConstraintsMessageView {
        ConstraintsMessageView {
            slot: self.slot,
            public_key: self.public_key@,
            constraints: self.constraints@.map_values(|c: Constraint| c@),
        }
    }
}

/// A constraints message together with the gateway's signature over it.
pub struct SignedConstraintsMessage {
    pub message: ConstraintsMessage,
    pub signature: BlsSignature,
}

impl SignedConstraintsMessage {
    /// The slot the constraints target.
    pub fn slot(&self) -> (r: u64)
        ensures
            r == self.message.slot,
    {
        self.message.slot
    }

    /// The claimed gateway public key.
    pub fn public_key(&self) -> (r: &BlsPublicKey)
        ensures
            r == &self.message.public_key,
    {
        &self.message.public_key
    }

    /// The submitted rules.
    pub fn constraints(&self) -> (r: &Vec<Constraint>)
        ensures
            r == &self.message.constraints,
    {
        &self.message.constraints
    }
}

/// Schedule parameters of the underlying chain: when slot 0 started and how
/// long each slot lasts. Together they place every slot's start instant on
/// the wall clock.
pub struct ChainInfo {
    pub genesis_time_in_secs: u64,
    pub seconds_per_slot: u64,
}

/// One atomic snapshot of the current head slot and the gateway elected for
/// it, as pushed by the external slot feed.
pub struct SlotInfo {
    pub slot: u64,
    pub elected_gateway: BlsPublicKey,
}

/// Configuration constants handed to the handlers at construction.
pub struct ConstraintsApiConfig {
    /// Latest accepted arrival of a constraints submission, in nanoseconds
    /// after its slot's scheduled start.
    pub set_constraints_cutoff_ns: i64,
    /// Upper bound on an election request body, in bytes.
    pub max_gateway_election_size: usize,
    /// Upper bound on a constraints request body, in bytes.
    pub max_set_constraints_size: usize,
}

/// An element-wise copy of a byte vector.
pub fn copy_bytes(src: &Vec<u8>) -> (r: Vec<u8>)
    ensures
        r@ == src@,
{
    let mut out: Vec<u8> = Vec::new();
    let n = src.len();
    let mut i: usize = 0;
    while i < n
        invariant
            i <= n,
            n == src.len(),
            out@ == src@.subrange(0, i as int),
        decreases n - i,
    {
        out.push(src[i]);
        proof {
            assert(out@ =~= src@.subrange(0, i + 1 as int));
        }
        i += 1;
    }
    proof {
        assert(src@.subrange(0, n as int) =~= src@);
    }
    out
}

} // verus!
