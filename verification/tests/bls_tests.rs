use bls_gadgets::bls::BlsVerifyGadget;
use bls_gadgets::constraints::{Constraint, ConstraintSystem, GadgetError};
use bls_gadgets::field::FIELD_MODULUS;
use bls_gadgets::pairing::{prepare_g1, prepare_g2, G2_GENERATOR_VALUE};
use bls_gadgets::wires::{BoolWire, FpWire, G1Wire, G2Wire};

fn next_rand(state: &mut u64) -> u64 {
    let mut x = *state;
    x ^= x << 13;
    x ^= x >> 7;
    x ^= x << 17;
    *state = x;
    x % FIELD_MODULUS
}

fn addq(a: u64, b: u64) -> u64 {
    ((a as u128 + b as u128) % (FIELD_MODULUS as u128)) as u64
}

fn mulq(a: u64, b: u64) -> u64 {
    ((a as u128 * b as u128) % (FIELD_MODULUS as u128)) as u64
}

/// A key pair of the model scheme: the public key is the secret-key multiple
/// of the second-group generator.
fn keygen(state: &mut u64) -> (u64, u64) {
    let sk = next_rand(state);
    let pk = mulq(sk, G2_GENERATOR_VALUE);
    (sk, pk)
}

/// A signature over a message hash: the secret-key multiple of the hash.
fn sign_hash(message_hash: u64, sk: u64) -> u64 {
    mulq(sk, message_hash)
}

fn sum(values: &[u64]) -> u64 {
    let mut acc: u64 = 0;
    for v in values {
        acc = addq(acc, *v);
    }
    acc
}

fn g2_wires(values: &[u64]) -> Vec<G2Wire> {
    values.iter().map(|v| G2Wire::new_witness(*v)).collect()
}

fn bool_wires(bits: &[bool]) -> Vec<BoolWire> {
    bits.iter().map(|b| BoolWire::new_witness(*b)).collect()
}

/// Converts the arguments to constraints and checks them against `verify`.
fn cs_verify(
    message_hash: u64,
    pub_keys: &[u64],
    signature: u64,
    bitmap: &[bool],
    num_non_signers: u64,
) -> ConstraintSystem {
    let mut cs = ConstraintSystem::new();
    let message_hash_var = G1Wire::new_witness(message_hash);
    let signature_var = G1Wire::new_witness(signature);
    let pub_keys = g2_wires(pub_keys);
    let bitmap = bool_wires(bitmap);
    let max_occurrences = FpWire::new_witness(num_non_signers);
    BlsVerifyGadget::verify(
        &pub_keys,
        &bitmap,
        &message_hash_var,
        &signature_var,
        &max_occurrences,
        &mut cs,
    )
    .unwrap();
    cs
}

#[test]
fn batch_verify_ok() {
    // generate 5 (aggregate sig, message hash) pairs over 7 keys per round
    // and verify them all in 1 call
    let batch_size = 5;
    let num_keys = 7;
    let state = &mut 0x1234_5678_9abc_def0u64;

    let messages: Vec<u64> = (0..batch_size).map(|_| next_rand(state)).collect();
    let mut secret_keys: Vec<Vec<u64>> = Vec::new();
    let mut public_keys_batches: Vec<Vec<u64>> = Vec::new();
    for _ in 0..batch_size {
        let mut sks = Vec::new();
        let mut pks = Vec::new();
        for _ in 0..num_keys {
            let (sk, pk) = keygen(state);
            sks.push(sk);
            pks.push(pk);
        }
        secret_keys.push(sks);
        public_keys_batches.push(pks);
    }
    // the aggregate public key for each round
    let aggregate_pubkeys: Vec<u64> = public_keys_batches.iter().map(|pks| sum(pks)).collect();
    // the keys of each round sign the message of that round
    let asigs: Vec<u64> = secret_keys
        .iter()
        .zip(messages.iter())
        .map(|(sks, message)| {
            let sigs: Vec<u64> = sks.iter().map(|sk| sign_hash(*message, *sk)).collect();
            sum(&sigs)
        })
        .collect();
    // the complete aggregate signature
    let asig = sum(&asigs);

    let mut cs = ConstraintSystem::new();
    let messages: Vec<G1Wire> = messages.iter().map(|m| G1Wire::new_witness(*m)).collect();
    let aggregate_pubkeys = g2_wires(&aggregate_pubkeys);
    let asig = G1Wire::new_witness(asig);

    BlsVerifyGadget::batch_verify(&aggregate_pubkeys, &messages, &asig, &mut cs).unwrap();
    assert!(cs.is_satisfied().unwrap());
}

#[test]
fn one_signature_ok() {
    let state = &mut 0xdead_beef_0bad_cafeu64;
    let (secret_key, pub_key) = keygen(state);
    let message_hash = next_rand(state);
    let signature = sign_hash(message_hash, secret_key);
    let fake_signature = addq(signature, 1);

    // good sig passes
    let cs = cs_verify(message_hash, &[pub_key], signature, &[true], 0);
    assert!(cs.is_satisfied().unwrap());

    // bad sig fails
    let cs = cs_verify(message_hash, &[pub_key], fake_signature, &[true], 0);
    assert!(!cs.is_satisfied().unwrap());
}

#[test]
fn multiple_signatures_ok() {
    let state = &mut 0x0123_4567_89ab_cdefu64;
    let message_hash = next_rand(state);
    let (sk, pk) = keygen(state);
    let (sk2, pk2) = keygen(state);
    let sigs = [sign_hash(message_hash, sk), sign_hash(message_hash, sk2)];
    let asig = sum(&sigs);

    // good aggregate sig passes
    let cs = cs_verify(message_hash, &[pk, pk2], asig, &[true, true], 1);
    assert!(cs.is_satisfied().unwrap());

    // using the single sig is fine if the second guy is out, as long as we
    // tolerate 1 non-signer
    let cs = cs_verify(message_hash, &[pk, pk2], sigs[0], &[true, false], 1);
    assert!(cs.is_satisfied().unwrap());

    // bitmap set to false on the second one fails since we don't tolerate
    // >0 failures
    let cs = cs_verify(message_hash, &[pk, pk2], asig, &[true, false], 0);
    assert!(!cs.is_satisfied().unwrap());
    let cs = cs_verify(message_hash, &[pk, pk2], sigs[0], &[true, false], 0);
    assert!(!cs.is_satisfied().unwrap());
}

#[test]
fn zero_fails() {
    // a validator whose secret key is the additive identity has the group
    // identity as its public key; marked as a non-signer it adds nothing to
    // the aggregate, and even a generous threshold must not let it mask a
    // signature that does not match the honest subset's key
    let state = &mut 0x5555_aaaa_5555_aaaau64;
    let message_hash = next_rand(state);

    let sk: u64 = 0;
    let pk = mulq(sk, G2_GENERATOR_VALUE);
    assert_eq!(pk, 0);
    let (sk2, pk2) = keygen(state);

    let honest_sig = sign_hash(message_hash, sk2);
    let forged_sig = addq(honest_sig, 1);

    let cs = cs_verify(message_hash, &[pk, pk2], forged_sig, &[false, true], 3);
    assert!(!cs.is_satisfied().unwrap());
}

#[test]
fn seven_validators_quorum_threshold() {
    // 7 validators, bitmap with exactly 1 false: a genuine aggregate
    // signature over the true subset's keys satisfies the system at
    // threshold 1, and the very same inputs are unsatisfiable at threshold 0
    let state = &mut 0x7777_7777_7777_7777u64;
    let message_hash = next_rand(state);
    let mut sks = Vec::new();
    let mut pks = Vec::new();
    for _ in 0..7 {
        let (sk, pk) = keygen(state);
        sks.push(sk);
        pks.push(pk);
    }
    let bitmap = [true, true, true, false, true, true, true];
    let signer_sigs: Vec<u64> = sks
        .iter()
        .zip(bitmap.iter())
        .filter(|(_, b)| **b)
        .map(|(sk, _)| sign_hash(message_hash, *sk))
        .collect();
    let asig = sum(&signer_sigs);

    let cs = cs_verify(message_hash, &pks, asig, &bitmap, 1);
    assert!(cs.is_satisfied().unwrap());

    let cs = cs_verify(message_hash, &pks, asig, &bitmap, 0);
    assert!(!cs.is_satisfied().unwrap());
}

#[test]
fn excess_non_signers_fail_regardless_of_signature() {
    // with more false bits than the threshold allows, even a genuine
    // aggregate signature of the signing subset leaves the system
    // unsatisfiable
    let state = &mut 0x1111_2222_3333_4444u64;
    let message_hash = next_rand(state);
    let (sk, pk) = keygen(state);
    let (_sk2, pk2) = keygen(state);
    let genuine_subset_sig = sign_hash(message_hash, sk);

    let cs = cs_verify(message_hash, &[pk, pk2], genuine_subset_sig, &[true, false], 0);
    assert!(!cs.is_satisfied().unwrap());
}

#[test]
fn aggregated_all_true_matches_all_pubkeys() {
    // aggregation over a bitmap of all-true equals the unconditional
    // aggregation of the same key sequence
    let state = &mut 0x9999_8888_7777_6666u64;
    let keys: Vec<u64> = (0..6).map(|_| next_rand(state)).collect();
    let pks = g2_wires(&keys);
    let bitmap = bool_wires(&[true; 6]);

    let by_bitmap = BlsVerifyGadget::enforce_aggregated_pubkeys(&pks, &bitmap).unwrap();
    let all = BlsVerifyGadget::enforce_aggregated_all_pubkeys(&pks).unwrap();
    assert_eq!(by_bitmap.value, all.value);
    assert_eq!(all.value, Some(sum(&keys)));
}

#[test]
fn batch_of_one_matches_verify() {
    // batch verification of a single (key, message) pair appends exactly the
    // pairing constraint that verify appends on the same triple
    let state = &mut 0xaaaa_bbbb_cccc_ddddu64;
    let message_hash = next_rand(state);
    let (sk, pk) = keygen(state);
    let signature = sign_hash(message_hash, sk);

    let mut cs_single = ConstraintSystem::new();
    let pks = g2_wires(&[pk]);
    let bitmap = bool_wires(&[true]);
    let mh = G1Wire::new_witness(message_hash);
    let sig = G1Wire::new_witness(signature);
    let max = FpWire::new_witness(0);
    BlsVerifyGadget::verify(&pks, &bitmap, &mh, &sig, &max, &mut cs_single).unwrap();

    let apk = BlsVerifyGadget::enforce_aggregated_pubkeys(&pks, &bitmap).unwrap();
    let mut cs_batch = ConstraintSystem::new();
    let batch_keys = vec![apk];
    let batch_hashes = vec![G1Wire::new_witness(message_hash)];
    BlsVerifyGadget::batch_verify(&batch_keys, &batch_hashes, &sig, &mut cs_batch).unwrap();

    assert_eq!(cs_single.num_constraints(), 2);
    assert_eq!(cs_batch.num_constraints(), 1);
    // the pairing constraints agree bit for bit
    assert_eq!(cs_single.constraints[1], cs_batch.constraints[0]);
    assert!(cs_single.is_satisfied().unwrap());
    assert!(cs_batch.is_satisfied().unwrap());
}

#[test]
fn batch_verify_prepared_matches_batch_verify() {
    let state = &mut 0xfeed_face_feed_faceu64;
    let message_hash = next_rand(state);
    let (sk, pk) = keygen(state);
    let signature = sign_hash(message_hash, sk);

    let pk_wire = G2Wire::new_witness(pk);
    let mh_wire = G1Wire::new_witness(message_hash);
    let sig_wire = G1Wire::new_witness(signature);

    let mut cs_batch = ConstraintSystem::new();
    BlsVerifyGadget::batch_verify(
        &vec![pk_wire],
        &vec![mh_wire],
        &sig_wire,
        &mut cs_batch,
    )
    .unwrap();

    let mut cs_prepared = ConstraintSystem::new();
    let prepared_keys = vec![prepare_g2(&pk_wire)];
    let prepared_hashes = vec![prepare_g1(&mh_wire)];
    BlsVerifyGadget::batch_verify_prepared(
        &prepared_keys,
        &prepared_hashes,
        &sig_wire,
        &mut cs_prepared,
    )
    .unwrap();

    assert_eq!(cs_batch.constraints, cs_prepared.constraints);
    assert!(cs_prepared.is_satisfied().unwrap());
}

#[test]
fn false_bit_ignores_unknown_key() {
    // a bit known to be false selects the group identity, so the aggregate
    // stays known even when the skipped key's witness is not
    let pks = vec![G2Wire::unknown(), G2Wire::new_witness(42)];
    let bitmap = bool_wires(&[false, true]);
    let apk = BlsVerifyGadget::enforce_aggregated_pubkeys(&pks, &bitmap).unwrap();
    assert_eq!(apk.value, Some(42));
}

#[test]
fn empty_key_sequence_aggregates_to_identity() {
    let pks: Vec<G2Wire> = Vec::new();
    let bitmap: Vec<BoolWire> = Vec::new();
    let apk = BlsVerifyGadget::enforce_aggregated_pubkeys(&pks, &bitmap).unwrap();
    assert_eq!(apk.value, Some(0));
    let all = BlsVerifyGadget::enforce_aggregated_all_pubkeys(&pks).unwrap();
    assert_eq!(all.value, Some(0));
}

#[test]
fn verify_length_mismatch_is_an_error() {
    // bitmap length != pubkey count: an input-shape error, reported before
    // any constraint referencing the mismatched data is appended
    let mut cs = ConstraintSystem::new();
    let pks = g2_wires(&[5, 6]);
    let bitmap = bool_wires(&[true]);
    let mh = G1Wire::new_witness(1);
    let sig = G1Wire::new_witness(2);
    let max = FpWire::new_witness(1);
    let r = BlsVerifyGadget::verify(&pks, &bitmap, &mh, &sig, &max, &mut cs);
    assert_eq!(r, Err(GadgetError::LengthMismatch));
    assert_eq!(cs.num_constraints(), 0);

    let r = BlsVerifyGadget::enforce_aggregated_pubkeys(&pks, &bitmap);
    assert_eq!(r.unwrap_err(), GadgetError::LengthMismatch);

    let r = BlsVerifyGadget::enforce_bitmap(&pks, &bitmap, &mh, &max, &mut cs);
    assert!(matches!(r, Err(GadgetError::LengthMismatch)));
    assert_eq!(cs.num_constraints(), 0);
}

#[test]
fn batch_length_mismatch_is_an_error() {
    // message-hash count != pubkey count in batch mode
    let mut cs = ConstraintSystem::new();
    let pks = g2_wires(&[5, 6]);
    let hashes = vec![G1Wire::new_witness(1)];
    let sig = G1Wire::new_witness(2);
    let r = BlsVerifyGadget::batch_verify(&pks, &hashes, &sig, &mut cs);
    assert_eq!(r, Err(GadgetError::LengthMismatch));
    assert_eq!(cs.num_constraints(), 0);

    let prepared_keys = vec![prepare_g2(&G2Wire::new_witness(5))];
    let prepared_hashes = vec![
        prepare_g1(&G1Wire::new_witness(1)),
        prepare_g1(&G1Wire::new_witness(2)),
    ];
    let r =
        BlsVerifyGadget::batch_verify_prepared(&prepared_keys, &prepared_hashes, &sig, &mut cs);
    assert_eq!(r, Err(GadgetError::LengthMismatch));
    assert_eq!(cs.num_constraints(), 0);
}

#[test]
fn bls_equation_length_mismatch_is_an_error() {
    let mut cs = ConstraintSystem::new();
    let g1_terms = vec![prepare_g1(&G1Wire::new_witness(1))];
    let g2_terms = vec![
        prepare_g2(&G2Wire::new_witness(2)),
        prepare_g2(&G2Wire::new_witness(3)),
    ];
    let r = BlsVerifyGadget::enforce_bls_equation(&g1_terms, &g2_terms, &mut cs);
    assert_eq!(r, Err(GadgetError::LengthMismatch));
    assert_eq!(cs.num_constraints(), 0);
}

#[test]
fn unknown_witness_reports_assignment_missing() {
    // a signature allocated without a witness leaves the pairing constraint
    // unevaluable: satisfiability reports a missing assignment
    let mut cs = ConstraintSystem::new();
    let pks = g2_wires(&[5]);
    let bitmap = bool_wires(&[true]);
    let mh = G1Wire::new_witness(1);
    let sig = G1Wire::unknown();
    let max = FpWire::new_witness(0);
    BlsVerifyGadget::verify(&pks, &bitmap, &mh, &sig, &max, &mut cs).unwrap();
    assert_eq!(cs.is_satisfied(), Err(GadgetError::AssignmentMissing));
}

#[test]
fn verify_appends_expected_constraint_shapes() {
    let cs = cs_verify(3, &[5], mulq(3, 5), &[true], 0);
    assert_eq!(cs.num_constraints(), 2);
    match cs.constraints[0] {
        Constraint::OccurrenceBound { occurrences, bound } => {
            assert_eq!(occurrences, Some(0));
            assert_eq!(bound, Some(0));
        }
        _ => panic!("expected an occurrence bound first"),
    }
    match cs.constraints[1] {
        Constraint::GtEq { left, right } => {
            // e(sig, -generator) + e(mh, pk) == 0 for the genuine signature
            assert_eq!(left, Some(0));
            assert_eq!(right, Some(0));
        }
        _ => panic!("expected the pairing equation second"),
    }
}
