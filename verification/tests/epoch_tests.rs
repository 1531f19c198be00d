use bls_gadgets::constraints::{ConstraintSystem, GadgetError};
use bls_gadgets::epoch_data::{EpochData, HASH_DOMAIN_TAG, HASH_MIX};
use bls_gadgets::field::FIELD_MODULUS;
use bls_gadgets::single_update::{ConstrainedEpoch, SingleUpdate};
use bls_gadgets::wires::{BoolWire, FpWire, G2Wire, SERIALIZED_BITS};

fn next_rand(state: &mut u64) -> u64 {
    let mut x = *state;
    x ^= x << 13;
    x ^= x >> 7;
    x ^= x << 17;
    *state = x;
    x % FIELD_MODULUS
}

fn pubkeys(state: &mut u64, num: usize) -> Vec<u64> {
    (0..num).map(|_| next_rand(state)).collect()
}

fn to_option_iter<T: Copy>(values: &[T]) -> Vec<Option<T>> {
    values.iter().map(|v| Some(*v)).collect()
}

fn generate_single_update(
    index: u16,
    epoch_entropy: Option<u64>,
    parent_entropy: Option<u64>,
    maximum_non_signers: u32,
    public_keys: &[u64],
    bitmap: &[bool],
) -> SingleUpdate {
    let epoch_data = EpochData {
        index: Some(index),
        epoch_entropy,
        parent_entropy,
        maximum_non_signers,
        public_keys: to_option_iter(public_keys),
    };
    SingleUpdate { epoch_data, signed_bitmap: to_option_iter(bitmap) }
}

fn single_update_enforce(
    cs: &mut ConstraintSystem,
    prev_n_validators: usize,
    n_validators: usize,
    prev_index: u16,
    prev_randomness: Option<u64>,
    index: u16,
    maximum_non_signers: u32,
    bitmap: &[bool],
) -> Result<ConstrainedEpoch, GadgetError> {
    let state = &mut 0x0f0f_f0f0_1234_4321u64;
    let prev_validators: Vec<G2Wire> = pubkeys(state, n_validators)
        .iter()
        .map(|v| G2Wire::new_witness(*v))
        .collect();
    let prev_index_wire = FpWire::new_witness(prev_index as u64);
    let prev_max_non_signers = FpWire::new_witness(maximum_non_signers as u64);
    let prev_randomness_wire = FpWire::new_witness(prev_randomness.unwrap_or(0));

    let next_epoch = generate_single_update(
        index,
        Some(0),
        prev_randomness,
        maximum_non_signers,
        &pubkeys(state, n_validators),
        bitmap,
    );

    next_epoch.constrain(
        &prev_validators,
        &prev_index_wire,
        &prev_randomness_wire,
        &prev_max_non_signers,
        &BoolWire::new_witness(false),
        prev_n_validators as u32,
        false,
        cs,
    )
}

#[test]
fn test_enough_pubkeys_for_update() {
    let mut cs = ConstraintSystem::new();
    single_update_enforce(&mut cs, 5, 5, 1, None, 2, 1, &[true, true, true, true, false])
        .unwrap();
    assert!(cs.is_satisfied().unwrap());
}

#[test]
fn not_enough_pubkeys_for_update() {
    let mut cs = ConstraintSystem::new();
    // 2 false in the bitmap when only 1 allowed
    single_update_enforce(&mut cs, 5, 5, 4, None, 5, 1, &[true, true, false, true, false])
        .unwrap();
    assert!(!cs.is_satisfied().unwrap());
}

#[test]
fn validator_number_cannot_change() {
    // the validator count must be consistent across epochs: a drift is an
    // input-shape error, not a host-level abort
    let mut cs = ConstraintSystem::new();
    let r = single_update_enforce(&mut cs, 5, 6, 0, None, 0, 0, &[]);
    assert_eq!(r.unwrap_err(), GadgetError::LengthMismatch);
    assert_eq!(cs.num_constraints(), 0);
}

#[test]
fn bitmap_must_cover_previous_validators() {
    // bitmap length != previous pubkey count: an input-shape error before
    // any constraint is appended
    let mut cs = ConstraintSystem::new();
    let r = single_update_enforce(&mut cs, 5, 5, 0, None, 1, 0, &[true, true, true]);
    assert_eq!(r.unwrap_err(), GadgetError::LengthMismatch);
    assert_eq!(cs.num_constraints(), 0);
}

#[test]
fn epoch_chaining_entropy_continuity() {
    // A dummy first epoch (index zero, nobody signing, threshold covering
    // the whole set) is satisfiable with the entropy check enabled, because
    // index zero disables the continuity constraint. A second epoch whose
    // parent-entropy wire does not match what the continuity constraint
    // compares it against is unsatisfiable when the check is enabled, and
    // satisfiable when it is disabled. Note: the implemented continuity
    // constraint compares the previous epoch's *index* wire against the new
    // epoch's parent entropy, not the previous entropy record itself, so the
    // matching value here is the first epoch's index rather than its emitted
    // entropy.
    let state = &mut 0xc0de_c0de_c0de_c0deu64;
    let genesis_keys = pubkeys(state, 4);
    let genesis_wires: Vec<G2Wire> =
        genesis_keys.iter().map(|v| G2Wire::new_witness(*v)).collect();

    // dummy first epoch: index 0, entropy 7, zero validators signing,
    // threshold = the whole set
    let first = generate_single_update(0, Some(7), Some(0), 4, &pubkeys(state, 4), &[false; 4]);
    let mut cs = ConstraintSystem::new();
    let first_out = first
        .constrain(
            &genesis_wires,
            &FpWire::new_witness(0),
            &FpWire::new_witness(0),
            &FpWire::new_witness(4),
            &BoolWire::new_witness(true),
            4,
            false,
            &mut cs,
        )
        .unwrap();
    assert!(cs.is_satisfied().unwrap());

    // second epoch chained on the first: parent entropy 9 matches neither
    // the first epoch's emitted entropy (7) nor its index (0)
    let second = generate_single_update(1, Some(11), Some(9), 4, &pubkeys(state, 4), &[true; 4]);

    // entropy continuity enabled: unsatisfiable
    let mut cs_enabled = ConstraintSystem::new();
    second
        .constrain(
            &first_out.new_pubkeys,
            &first_out.index,
            &first_out.epoch_entropy,
            &first_out.new_max_non_signers,
            &BoolWire::new_witness(true),
            4,
            false,
            &mut cs_enabled,
        )
        .unwrap();
    assert!(!cs_enabled.is_satisfied().unwrap());

    // entropy continuity disabled: satisfiable
    let mut cs_disabled = ConstraintSystem::new();
    second
        .constrain(
            &first_out.new_pubkeys,
            &first_out.index,
            &first_out.epoch_entropy,
            &first_out.new_max_non_signers,
            &BoolWire::new_witness(false),
            4,
            false,
            &mut cs_disabled,
        )
        .unwrap();
    assert!(cs_disabled.is_satisfied().unwrap());

    // a matching parent-entropy wire keeps the enabled check satisfiable
    let matching = generate_single_update(1, Some(11), Some(0), 4, &pubkeys(state, 4), &[true; 4]);
    let mut cs_matching = ConstraintSystem::new();
    matching
        .constrain(
            &first_out.new_pubkeys,
            &first_out.index,
            &first_out.epoch_entropy,
            &first_out.new_max_non_signers,
            &BoolWire::new_witness(true),
            4,
            false,
            &mut cs_matching,
        )
        .unwrap();
    assert!(cs_matching.is_satisfied().unwrap());
}

#[test]
fn empty_update_builds_setup_circuit() {
    // the empty update carries no witnesses; constraining it still shapes
    // the circuit, and satisfiability then reports the missing assignments
    let update = SingleUpdate::empty(3, 1);
    assert_eq!(update.signed_bitmap.len(), 3);
    assert_eq!(update.epoch_data.public_keys.len(), 3);
    assert_eq!(update.epoch_data.maximum_non_signers, 1);

    let prev: Vec<G2Wire> = (0..3).map(|_| G2Wire::unknown()).collect();
    let mut cs = ConstraintSystem::new();
    let out = update
        .constrain(
            &prev,
            &FpWire::unknown(),
            &FpWire::unknown(),
            &FpWire::unknown(),
            &BoolWire::unknown(),
            3,
            false,
            &mut cs,
        )
        .unwrap();
    assert_eq!(cs.num_constraints(), 2);
    assert_eq!(cs.is_satisfied(), Err(GadgetError::AssignmentMissing));
    assert_eq!(out.new_pubkeys.len(), 3);
    assert!(out.message_hash.value.is_none());
}

#[test]
fn epoch_message_hash_value() {
    // the message hash absorbs index, entropy, parent entropy, threshold and
    // every key in order, then the domain tag
    let data = EpochData {
        index: Some(3),
        epoch_entropy: Some(10),
        parent_entropy: Some(20),
        maximum_non_signers: 1,
        public_keys: vec![Some(100), Some(200)],
    };
    let constrained = data.constrain(false);

    let q = FIELD_MODULUS as u128;
    let step = |acc: u128, v: u128| -> u128 { (acc * (HASH_MIX as u128) + v) % q };
    let mut expected: u128 = 3;
    expected = step(expected, 10);
    expected = step(expected, 20);
    expected = step(expected, 1);
    expected = step(expected, 100);
    expected = step(expected, 200);
    let digest = expected;
    expected = step(expected, HASH_DOMAIN_TAG as u128);

    assert_eq!(constrained.message_hash.value, Some(expected as u64));
    assert_eq!(constrained.index.value, Some(3));
    assert_eq!(constrained.epoch_entropy.value, Some(10));
    assert_eq!(constrained.parent_entropy.value, Some(20));
    assert_eq!(constrained.maximum_non_signers.value, Some(1));
    assert_eq!(constrained.pubkeys.len(), 2);
    assert_eq!(constrained.pubkeys[0].value, Some(100));

    // the serialized digest bits are the digest's little-endian binary
    // digits; the hash-related auxiliary bits are off unless asked for
    assert_eq!(constrained.bits.len(), SERIALIZED_BITS);
    for (j, bit) in constrained.bits.iter().enumerate() {
        assert_eq!(bit.value, Some(((digest as u64) >> j) & 1 == 1));
    }
    assert_eq!(constrained.xof_bits.len(), 0);
    assert_eq!(constrained.crh_bits.len(), 0);

    let with_hash = data.constrain(true);
    assert_eq!(with_hash.xof_bits.len(), SERIALIZED_BITS);
    assert_eq!(with_hash.crh_bits.len(), SERIALIZED_BITS);
    for (j, bit) in with_hash.xof_bits.iter().enumerate() {
        assert_eq!(bit.value, Some(((expected as u64) >> j) & 1 == 1));
    }
}

#[test]
fn missing_entropy_reads_as_zero() {
    // an entropy-less epoch constrains both entropy wires to zero
    let data = EpochData {
        index: Some(1),
        epoch_entropy: None,
        parent_entropy: None,
        maximum_non_signers: 0,
        public_keys: vec![Some(5)],
    };
    let constrained = data.constrain(false);
    assert_eq!(constrained.epoch_entropy.value, Some(0));
    assert_eq!(constrained.parent_entropy.value, Some(0));
    assert!(constrained.message_hash.value.is_some());
}
