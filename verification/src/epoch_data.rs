//! Raw epoch metadata and its constrained form.
//!
//! An [`EpochData`] carries the raw (possibly unknown-at-setup) metadata of
//! one epoch: index, maximum-non-signers threshold, the new validator
//! public-key sequence and the entropy of this epoch and of its parent.
//! Constraining it yields wires for each field, the epoch's message hash in
//! the first source group, and the auxiliary bit-serializations used for
//! hash verification outside the main circuit.
//!
//! The message hash stands in for hashing the serialized epoch metadata to a
//! group point: the metadata is absorbed field element by field element into
//! an accumulator (the digest of the serialized data), and the hash is the
//! digest absorbed once more under a domain tag. An epoch without entropy
//! reads as zero entropy.

use vstd::prelude::*;

use crate::field::{add_mod, fadd, fmul, freduce, in_field, mul_mod, reduce, FIELD_MODULUS};
use crate::wires::{
    decompose_bits, g2_seq_wf, opt_bit, opt_freduce, opt_in_field, BoolWire, FpWire, G1Wire,
    G2Wire, SERIALIZED_BITS,
};

verus! {

/// The multiplier under which the digest accumulator absorbs each field.
pub const HASH_MIX: u64 = 65537;

/// The tag absorbed last, separating the message hash from the plain digest
/// of the serialized epoch data.
pub const HASH_DOMAIN_TAG: u64 = 2;

/// Raw metadata of one epoch. `None` fields are witnesses not known yet
/// (setup-only circuit construction); entropy fields may also be absent for
/// an entropy-less chain, which constrains to zero entropy.
#[derive(Clone, Debug)]
pub struct EpochData {
    /// The epoch's index.
    pub index: Option<u16>,
    /// Unpredictable value adding entropy to this epoch's data.
    pub epoch_entropy: Option<u64>,
    /// The entropy value of the parent epoch.
    pub parent_entropy: Option<u64>,
    /// The maximum number of validators that may abstain from signing.
    pub maximum_non_signers: u32,
    /// The new validator public keys, as raw second-group values.
    pub public_keys: Vec<Option<u64>>,
}

/// The wires and auxiliary data obtained by constraining one [`EpochData`].
pub struct ConstrainedEpochData {
    /// The epoch's index.
    pub index: FpWire,
    /// This epoch's entropy.
    pub epoch_entropy: FpWire,
    /// The parent epoch's entropy.
    pub parent_entropy: FpWire,
    /// The non-signer threshold.
    pub maximum_non_signers: FpWire,
    /// The new validator public keys.
    pub pubkeys: Vec<G2Wire>,
    /// The hash of the epoch's serialized data, in the first source group.
    pub message_hash: G1Wire,
    /// Bit-serialization of the epoch data digest.
    pub bits: Vec<BoolWire>,
    /// Auxiliary bits for proving the outer hash outside the main circuit.
    pub xof_bits: Vec<BoolWire>,
    /// Auxiliary bits for proving the inner hash outside the main circuit.
    pub crh_bits: Vec<BoolWire>,
}

/// The field value of the epoch index wire: the index itself (every index is
/// canonical), unknown while the index is.
pub open spec fn index_value(index: Option<u16>) -> Option<u64> {
    match index {
        Some(i) => Some(i as u64),
        None => None,
    }
}

/// The field value of an entropy wire: the entropy reduced into the field,
/// zero when the epoch carries none.
pub open spec fn entropy_value(entropy: Option<u64>) -> u64 {
    freduce(
        match entropy {
            Some(e) => e,
            None => 0u64,
        },
    )
}

/// One absorption step of the digest accumulator.
pub open spec fn absorb(acc: u64, v: u64) -> u64 {
    fadd(fmul(acc, HASH_MIX), v)
}

/// Absorption lifted to possibly-unknown values.
pub open spec fn opt_absorb(acc: Option<u64>, v: Option<u64>) -> Option<u64> {
    match (acc, v) {
        (Some(a), Some(x)) => Some(absorb(a, x)),
        _ => None,
    }
}

/// Absorbs a sequence of raw public keys, each reduced into the field, in
/// order.
pub open spec fn absorb_keys(acc: Option<u64>, keys: Seq<Option<u64>>) -> Option<u64>
    decreases keys.len(),
{
    if keys.len() == 0 {
        acc
    } else {
        opt_absorb(absorb_keys(acc, keys.drop_last()), opt_freduce(keys.last()))
    }
}

/// The digest of the serialized epoch data: index, this epoch's entropy, the
/// parent's entropy, the threshold, then every public key, absorbed in that
/// order. Unknown while the index or any key is unknown.
pub open spec fn epoch_digest(data: EpochData) -> Option<u64> {
    absorb_keys(
        opt_absorb(
            opt_absorb(
                opt_absorb(index_value(data.index), Some(entropy_value(data.epoch_entropy))),
                Some(entropy_value(data.parent_entropy)),
            ),
            Some(freduce(data.maximum_non_signers as u64)),
        ),
        data.public_keys@,
    )
}

/// The epoch's message hash: the digest absorbed once more under the domain
/// tag.
pub open spec fn epoch_message_value(data: EpochData) -> Option<u64> {
    opt_absorb(epoch_digest(data), Some(HASH_DOMAIN_TAG))
}

/// One executable absorption step.
fn absorb_step(acc: u64, v: u64) -> (r: u64)
    requires
        in_field(acc),
        in_field(v),
    ensures
        r == absorb(acc, v),
        in_field(r),
{
    add_mod(mul_mod(acc, HASH_MIX), v)
}

impl EpochData {
    /// An empty epoch: every witness unknown. Used when running the trusted
    /// setup, where only the shape of the circuit matters.
    pub fn empty(num_validators: usize, maximum_non_signers: usize) -> (r: EpochData)
        requires
            maximum_non_signers <= u32::MAX as usize,
        ensures
            r.index is None,
            r.epoch_entropy is None,
            r.parent_entropy is None,
            r.maximum_non_signers == maximum_non_signers as u32,
            r.public_keys@.len() == num_validators,
            forall|i: int| 0 <= i < num_validators ==> #[trigger] r.public_keys@[i] is None,
    {
        let mut public_keys: Vec<Option<u64>> = Vec::new();
        let mut i: usize = 0;
        while i < num_validators
            invariant
                i <= num_validators,
                public_keys@.len() == i,
                forall|k: int| 0 <= k < i ==> #[trigger] public_keys@[k] is None,
            decreases num_validators - i,
        {
            public_keys.push(None);
            i = i + 1;
        }
        EpochData {
            index: None,
            epoch_entropy: None,
            parent_entropy: None,
            maximum_non_signers: maximum_non_signers as u32,
            public_keys,
        }
    }

    /// Constrains the raw metadata: allocates a wire for each field, derives
    /// the message hash from the serialized data, and produces the auxiliary
    /// bit-serializations (the hash-related ones only when
    /// `generate_constraints_for_hash` asks for them).
    pub fn constrain(&self, generate_constraints_for_hash: bool) -> (r: ConstrainedEpochData)
        ensures
            r.index.value == index_value(self.index),
            r.index.wf(),
            r.epoch_entropy.value == Some(entropy_value(self.epoch_entropy)),
            r.epoch_entropy.wf(),
            r.parent_entropy.value == Some(entropy_value(self.parent_entropy)),
            r.parent_entropy.wf(),
            r.maximum_non_signers.value == Some(freduce(self.maximum_non_signers as u64)),
            r.maximum_non_signers.wf(),
            r.pubkeys@.len() == self.public_keys@.len(),
            forall|i: int| 0 <= i < self.public_keys@.len() ==> #[trigger] r.pubkeys@[i].value
                == opt_freduce(self.public_keys@[i]),
            g2_seq_wf(r.pubkeys@),
            r.message_hash.value == epoch_message_value(*self),
            r.message_hash.wf(),
            r.bits@.len() == SERIALIZED_BITS,
            forall|j: int| 0 <= j < SERIALIZED_BITS ==> #[trigger] r.bits@[j].value == opt_bit(
                epoch_digest(*self),
                j as u64,
            ),
            generate_constraints_for_hash ==> (r.xof_bits@.len() == SERIALIZED_BITS && forall|
                j: int,
            | 0 <= j < SERIALIZED_BITS ==> #[trigger] r.xof_bits@[j].value == opt_bit(
                epoch_message_value(*self),
                j as u64,
            )),
            generate_constraints_for_hash ==> (r.crh_bits@.len() == SERIALIZED_BITS && forall|
                j: int,
            | 0 <= j < SERIALIZED_BITS ==> #[trigger] r.crh_bits@[j].value == opt_bit(
                epoch_digest(*self),
                j as u64,
            )),
            !generate_constraints_for_hash ==> r.xof_bits@.len() == 0 && r.crh_bits@.len() == 0,
    {
        // The index is canonical as it stands: every index is below the
        // modulus.
        let index = match self.index {
            Some(i) => FpWire { value: Some(i as u64) },
            None => FpWire::unknown(),
        };

        let epoch_entropy_raw = match self.epoch_entropy {
            Some(e) => e,
            None => 0u64,
        };
        let parent_entropy_raw = match self.parent_entropy {
            Some(e) => e,
            None => 0u64,
        };
        let epoch_entropy = FpWire::new_witness(epoch_entropy_raw);
        let parent_entropy = FpWire::new_witness(parent_entropy_raw);
        let maximum_non_signers = FpWire::new_witness(self.maximum_non_signers as u64);

        // Allocate the new validator keys, reduced into the field.
        let mut pubkeys: Vec<G2Wire> = Vec::new();
        let mut i: usize = 0;
        while i < self.public_keys.len()
            invariant
                i <= self.public_keys@.len(),
                pubkeys@.len() == i,
                forall|k: int| 0 <= k < i ==> #[trigger] pubkeys@[k].value == opt_freduce(
                    self.public_keys@[k],
                ),
                forall|k: int| 0 <= k < i ==> (#[trigger] pubkeys@[k]).wf(),
            decreases self.public_keys@.len() - i,
        {
            let wire = match self.public_keys[i] {
                Some(v) => G2Wire::new_witness(v),
                None => G2Wire::unknown(),
            };
            pubkeys.push(wire);
            i = i + 1;
        }

        // Absorb the serialized fields into the digest accumulator.
        let mut acc: Option<u64> = match self.index {
            Some(i) => Some(i as u64),
            None => None,
        };
        acc = match acc {
            Some(a) => Some(absorb_step(a, epoch_entropy_raw % FIELD_MODULUS)),
            None => None,
        };
        acc = match acc {
            Some(a) => Some(absorb_step(a, parent_entropy_raw % FIELD_MODULUS)),
            None => None,
        };
        acc = match acc {
            Some(a) => Some(absorb_step(a, reduce(self.maximum_non_signers as u64))),
            None => None,
        };

        let base = Ghost(acc);
        let mut j: usize = 0;
        while j < self.public_keys.len()
            invariant
                j <= self.public_keys@.len(),
                acc == absorb_keys(base@, self.public_keys@.subrange(0, j as int)),
                opt_in_field(acc),
            decreases self.public_keys@.len() - j,
        {
            let prefix = Ghost(self.public_keys@.subrange(0, j as int));
            let next = Ghost(self.public_keys@.subrange(0, j as int + 1));
            proof {
                assert(next@.drop_last() =~= prefix@);
                assert(next@.last() == self.public_keys@[j as int]);
            }
            acc = match (acc, self.public_keys[j]) {
                (Some(a), Some(p)) => Some(absorb_step(a, reduce(p))),
                _ => None,
            };
            j = j + 1;
        }
        proof {
            assert(self.public_keys@.subrange(0, self.public_keys@.len() as int)
                =~= self.public_keys@);
            assert(acc == epoch_digest(*self));
        }

        // The message hash is the digest absorbed once more under the domain
        // tag.
        let message_hash = match acc {
            Some(d) => G1Wire { value: Some(absorb_step(d, HASH_DOMAIN_TAG)) },
            None => G1Wire::unknown(),
        };

        // Auxiliary bit-serializations for hash checks outside this circuit.
        let bits = decompose_bits(acc);
        let (xof_bits, crh_bits) = if generate_constraints_for_hash {
            (decompose_bits(message_hash.value), decompose_bits(acc))
        } else {
            (Vec::new(), Vec::new())
        };

        ConstrainedEpochData {
            index,
            epoch_entropy,
            parent_entropy,
            maximum_non_signers,
            pubkeys,
            message_hash,
            bits,
            xof_bits,
            crh_bits,
        }
    }
}

} // verus!
