//! The epoch transition gadget.
//!
//! One [`SingleUpdate`] carries the new epoch block's metadata and the bitmap
//! of the previous epoch's validators who signed on it. Constraining it
//! checks the validator handoff, the entropy continuity and the signer
//! quorum, and yields a [`ConstrainedEpoch`] whose new keys and threshold
//! feed the next transition of the chain. Each transition is stateless: the
//! gadget retains nothing across calls.

use vstd::prelude::*;

use crate::bls::{aggregate_value, bitmap_constraints, BlsVerifyGadget};
use crate::constraints::{Constraint, ConstraintSystem, GadgetError};
use crate::epoch_data::{
    entropy_value, epoch_digest, epoch_message_value, index_value, ConstrainedEpochData,
    EpochData,
};
use crate::field::freduce;
use crate::wires::{
    constrain_bool, g2_seq_wf, opt_and, opt_bit, opt_freduce, BoolWire, FpWire, G1Wire, G2Wire,
    SERIALIZED_BITS,
};

verus! {

/// An epoch block transition: the new epoch block's metadata together with
/// the bitmap of the validators who signed on the new epoch block.
#[derive(Clone, Debug)]
pub struct SingleUpdate {
    /// The new epoch block's metadata.
    pub epoch_data: EpochData,
    /// Bitmap of the validators who signed on the next epoch block.
    pub signed_bitmap: Vec<Option<bool>>,
}

/// The outcome of constraining one [`SingleUpdate`]: the wires the next
/// transition, and the enclosing proof, consume.
#[derive(Debug)]
pub struct ConstrainedEpoch {
    /// The new validators for this epoch.
    pub new_pubkeys: Vec<G2Wire>,
    /// The new threshold needed for signatures.
    pub new_max_non_signers: FpWire,
    /// The epoch's hash in the first source group.
    pub message_hash: G1Wire,
    /// The aggregate public key selected by the bitmap over the previous
    /// epoch's validators.
    pub aggregate_pk: G2Wire,
    /// The epoch's index.
    pub index: FpWire,
    /// Unpredictable value adding entropy to the epoch data.
    pub epoch_entropy: FpWire,
    /// Entropy value of the previous epoch.
    pub parent_entropy: FpWire,
    /// Serialized epoch data digest bits.
    pub bits: Vec<BoolWire>,
    /// Auxiliary data for proving the outer hash outside the main circuit.
    pub xof_bits: Vec<BoolWire>,
    /// Auxiliary data for proving the inner hash outside the main circuit.
    pub crh_bits: Vec<BoolWire>,
}

/// The boolean wires of a raw signer bitmap, in order.
pub open spec fn bitmap_wires(bits: Seq<Option<bool>>) -> Seq<BoolWire> {
    bits.map_values(|b: Option<bool>| BoolWire { value: b })
}

/// Whether the constrained epoch's index is nonzero: the dummy first epoch
/// of a chain has index zero and skips the entropy continuity check.
pub open spec fn index_is_nonzero(data: EpochData) -> Option<bool> {
    match index_value(data.index) {
        Some(v) => Some(v != 0),
        None => None,
    }
}

/// The constraints appended by one epoch transition: the conditional entropy
/// continuity equality, then the signer-bitmap occurrence bound. The
/// continuity check compares the previous epoch's index wire against the new
/// epoch's parent-entropy wire, which is the recorded behaviour of this
/// gadget, even though the previous epoch's entropy record is also at hand.
pub open spec fn update_constraints(
    update: SingleUpdate,
    previous_epoch_index: FpWire,
    previous_max_non_signers: FpWire,
    constrain_entropy_bit: BoolWire,
) -> Seq<Constraint> {
    seq![
        (Constraint::ConditionalFpEq {
            left: previous_epoch_index.value,
            right: Some(entropy_value(update.epoch_data.parent_entropy)),
            condition: opt_and(index_is_nonzero(update.epoch_data), constrain_entropy_bit.value),
        }),
    ] + bitmap_constraints(bitmap_wires(update.signed_bitmap@), previous_max_non_signers)
}

impl SingleUpdate {
    /// An empty update: every witness unknown. Used when running the trusted
    /// setup.
    pub fn empty(num_validators: usize, maximum_non_signers: usize) -> (r: SingleUpdate)
        requires
            maximum_non_signers <= u32::MAX as usize,
        ensures
            r.epoch_data.index is None,
            r.epoch_data.epoch_entropy is None,
            r.epoch_data.parent_entropy is None,
            r.epoch_data.maximum_non_signers == maximum_non_signers as u32,
            r.epoch_data.public_keys@.len() == num_validators,
            forall|i: int| 0 <= i < num_validators ==> #[trigger] r.epoch_data.public_keys@[i]
                is None,
            r.signed_bitmap@.len() == num_validators,
            forall|i: int| 0 <= i < num_validators ==> #[trigger] r.signed_bitmap@[i] is None,
    {
        let epoch_data = EpochData::empty(num_validators, maximum_non_signers);
        let mut signed_bitmap: Vec<Option<bool>> = Vec::new();
        let mut i: usize = 0;
        while i < num_validators
            invariant
                i <= num_validators,
                signed_bitmap@.len() == i,
                forall|k: int| 0 <= k < i ==> #[trigger] signed_bitmap@[k] is None,
            decreases num_validators - i,
        {
            signed_bitmap.push(None);
            i = i + 1;
        }
        SingleUpdate { epoch_data, signed_bitmap }
    }

    /// Constrains one epoch transition against the previous epoch's context:
    /// checks that the validator count is unchanged and that the bitmap
    /// covers the previous validator set, enforces entropy continuity unless
    /// this is the dummy first epoch or the caller disabled the check,
    /// constrains the signer bitmap against the previous keys and threshold,
    /// and emits the new epoch's context for the next transition.
    ///
    /// Both shape checks report an input-shape error before any wire is
    /// allocated or constraint appended.
    #[allow(unused_variables)]
    pub fn constrain(
        &self,
        previous_pubkeys: &Vec<G2Wire>,
        previous_epoch_index: &FpWire,
        previous_epoch_randomness: &FpWire,
        previous_max_non_signers: &FpWire,
        constrain_entropy_bit: &BoolWire,
        num_validators: u32,
        generate_constraints_for_hash: bool,
        cs: &mut ConstraintSystem,
    ) -> (r: Result<ConstrainedEpoch, GadgetError>)
        requires
            g2_seq_wf(previous_pubkeys@),
        ensures
            (num_validators as int == self.epoch_data.public_keys@.len()
                && self.signed_bitmap@.len() == previous_pubkeys@.len()) ==> (r matches Ok(ce)
                && final (cs).constraints@ == old(cs).constraints@ + update_constraints(
                *self,
                *previous_epoch_index,
                *previous_max_non_signers,
                *constrain_entropy_bit,
            ) && ce.new_pubkeys@.len() == self.epoch_data.public_keys@.len() && (forall|i: int|
                0 <= i < self.epoch_data.public_keys@.len()
                    ==> #[trigger] ce.new_pubkeys@[i].value == opt_freduce(
                    self.epoch_data.public_keys@[i],
                )) && g2_seq_wf(ce.new_pubkeys@) && ce.new_max_non_signers.value == Some(
                freduce(self.epoch_data.maximum_non_signers as u64),
            ) && ce.message_hash.value == epoch_message_value(self.epoch_data)
                && ce.message_hash.wf() && ce.aggregate_pk.value == aggregate_value(
                previous_pubkeys@,
                bitmap_wires(self.signed_bitmap@),
            ) && ce.aggregate_pk.wf() && ce.index.value == index_value(self.epoch_data.index)
                && ce.epoch_entropy.value == Some(entropy_value(self.epoch_data.epoch_entropy))
                && ce.parent_entropy.value == Some(entropy_value(self.epoch_data.parent_entropy))
                && ce.bits@.len() == SERIALIZED_BITS && (forall|j: int|
                0 <= j < SERIALIZED_BITS ==> #[trigger] ce.bits@[j].value == opt_bit(
                    epoch_digest(self.epoch_data),
                    j as u64,
                )) && (generate_constraints_for_hash ==> ce.xof_bits@.len() == SERIALIZED_BITS
                && (forall|j: int|
                0 <= j < SERIALIZED_BITS ==> #[trigger] ce.xof_bits@[j].value == opt_bit(
                    epoch_message_value(self.epoch_data),
                    j as u64,
                )) && ce.crh_bits@.len() == SERIALIZED_BITS && (forall|j: int|
                0 <= j < SERIALIZED_BITS ==> #[trigger] ce.crh_bits@[j].value == opt_bit(
                    epoch_digest(self.epoch_data),
                    j as u64,
                ))) && (!generate_constraints_for_hash ==> ce.xof_bits@.len() == 0
                && ce.crh_bits@.len() == 0)),
            !(num_validators as int == self.epoch_data.public_keys@.len()
                && self.signed_bitmap@.len() == previous_pubkeys@.len()) ==> (r == Result::<
                ConstrainedEpoch,
                GadgetError,
            >::Err(GadgetError::LengthMismatch) && *final (cs) == *old(cs)),
    {
        // The number of validators across all epochs must be consistent.
        if num_validators as usize != self.epoch_data.public_keys.len() {
            return Err(GadgetError::LengthMismatch);
        }
        // The bitmap must cover the previous epoch's validator set.
        if self.signed_bitmap.len() != previous_pubkeys.len() {
            return Err(GadgetError::LengthMismatch);
        }

        // Get the constrained epoch data.
        let epoch_data: ConstrainedEpochData = self.epoch_data.constrain(
            generate_constraints_for_hash,
        );

        let index_bit = epoch_data.index.is_eq_zero().not();

        // Enforce equality with the previous epoch's entropy record only
        // when the current epoch is not a dummy block and entropy was
        // present in the first epoch.
        let entropy_condition = index_bit.and(constrain_entropy_bit);
        cs.conditional_enforce_equal_fp(
            previous_epoch_index,
            &epoch_data.parent_entropy,
            &entropy_condition,
        );

        // Convert the bitmap to constrained boolean wires.
        let signed_bitmap = constrain_bool(&self.signed_bitmap);
        proof {
            assert(signed_bitmap@ =~= bitmap_wires(self.signed_bitmap@));
        }

        // Verify that the bitmap is consistent with the pubkeys read from
        // the previous epoch, and prepare the message hash and the aggregate
        // public key.
        let (message_hash, aggregated_public_key) = match BlsVerifyGadget::enforce_bitmap(
            previous_pubkeys,
            &signed_bitmap,
            &epoch_data.message_hash,
            previous_max_non_signers,
            cs,
        ) {
            Ok(pair) => pair,
            Err(e) => {
                return Err(e);
            },
        };

        proof {
            assert(final (cs).constraints@ =~= old(cs).constraints@ + update_constraints(
                *self,
                *previous_epoch_index,
                *previous_max_non_signers,
                *constrain_entropy_bit,
            ));
        }

        Ok(
            ConstrainedEpoch {
                new_pubkeys: epoch_data.pubkeys,
                new_max_non_signers: epoch_data.maximum_non_signers,
                message_hash,
                aggregate_pk: aggregated_public_key,
                index: epoch_data.index,
                epoch_entropy: epoch_data.epoch_entropy,
                parent_entropy: epoch_data.parent_entropy,
                bits: epoch_data.bits,
                xof_bits: epoch_data.xof_bits,
                crh_bits: epoch_data.crh_bits,
            },
        )
    }
}

} // verus!
