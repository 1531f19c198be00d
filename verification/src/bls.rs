//! BLS signature verification gadget.
//!
//! Enforces the multi-signature pairing equation over the model pairing,
//! optionally after threshold-aware aggregate-key derivation from a signer
//! bitmap, and a batched variant that amortizes the signature/generator
//! pairing term across many (public key, message hash) pairs.
//!
//! Every operation either appends constraints to the given constraint system
//! and returns the resulting wires, or returns an input-shape error before
//! appending any constraint that references the mismatched data. Whether a
//! signature is valid is never returned as a boolean: it is encoded as
//! satisfiability of the appended constraints.

use vstd::prelude::*;

use crate::bitmap::{count_occurrences, enforce_maximum_occurrences_in_bitmap};
use crate::constraints::{cs_satisfied, Constraint, ConstraintSystem, GadgetError};
use crate::field::{fmul, fneg, in_field};
use crate::pairing::{
    gt_identity, pairing_product, prepare_g1, prepare_g2, prepared_g1_seq_wf, prepared_g2_seq_wf,
    product_of_pairings, enforce_gt_equal, PreparedG1, PreparedG2, G2_GENERATOR_VALUE,
    GT_IDENTITY_VALUE,
};
use crate::wires::{
    g1_seq_wf, g2_seq_wf, opt_fadd, opt_fmul, opt_in_field, opt_select, BoolWire, FpWire, G1Wire,
    G2Wire,
};

verus! {

/// The group sum of the public keys whose bitmap bit is true; unknown as
/// soon as a bit, or a selected key, is unknown.
pub open spec fn aggregate_value(pub_keys: Seq<G2Wire>, signed_bitmap: Seq<BoolWire>) -> Option<
    u64,
>
    decreases pub_keys.len(),
{
    if pub_keys.len() == 0 {
        Some(0u64)
    } else {
        opt_fadd(
            aggregate_value(pub_keys.drop_last(), signed_bitmap.drop_last()),
            opt_select(signed_bitmap.last().value, pub_keys.last().value, Some(0u64)),
        )
    }
}

/// The group sum of all the public keys.
pub open spec fn aggregate_all_value(pub_keys: Seq<G2Wire>) -> Option<u64>
    decreases pub_keys.len(),
{
    if pub_keys.len() == 0 {
        Some(0u64)
    } else {
        opt_fadd(aggregate_all_value(pub_keys.drop_last()), pub_keys.last().value)
    }
}

/// A known aggregate of canonical keys is canonical.
pub proof fn lemma_aggregate_value_in_field(pub_keys: Seq<G2Wire>, signed_bitmap: Seq<BoolWire>)
    requires
        g2_seq_wf(pub_keys),
    ensures
        aggregate_value(pub_keys, signed_bitmap) matches Some(v) ==> in_field(v),
    decreases pub_keys.len(),
{
    if pub_keys.len() > 0 {
        assert(g2_seq_wf(pub_keys.drop_last()));
        lemma_aggregate_value_in_field(pub_keys.drop_last(), signed_bitmap.drop_last());
        let prev = aggregate_value(pub_keys.drop_last(), signed_bitmap.drop_last());
        let sel = opt_select(signed_bitmap.last().value, pub_keys.last().value, Some(0u64));
        if prev is Some && sel is Some {
            assert(pub_keys.last().wf());
            crate::field::lemma_fadd_in_field(prev.unwrap(), sel.unwrap());
        }
    }
}

/// The prepared images of a sequence of first-group wires, in order.
pub open spec fn prepare_g1_seq(s: Seq<G1Wire>) -> Seq<PreparedG1> {
    s.map_values(|w: G1Wire| PreparedG1 { value: w.value })
}

/// The prepared images of a sequence of second-group wires, in order.
pub open spec fn prepare_g2_seq(s: Seq<G2Wire>) -> Seq<PreparedG2> {
    s.map_values(|w: G2Wire| PreparedG2 { value: w.value })
}

/// The constraint appended by the bitmap check: the count of false bits does
/// not exceed the allowed maximum of non-signers.
pub open spec fn bitmap_constraints(signed_bitmap: Seq<BoolWire>, maximum_non_signers: FpWire) -> Seq<
    Constraint,
> {
    seq![
        Constraint::OccurrenceBound {
            occurrences: count_occurrences(signed_bitmap, false),
            bound: maximum_non_signers.value,
        },
    ]
}

/// The target-group value of the verification pairing product
/// `e(signature, -generator) * e(message_hash, aggregate_pk)`.
pub open spec fn verify_equation_value(
    signature: G1Wire,
    message_hash: G1Wire,
    aggregate_pk_value: Option<u64>,
) -> Option<u64> {
    opt_fadd(
        opt_fadd(
            Some(GT_IDENTITY_VALUE),
            opt_fmul(signature.value, Some(fneg(G2_GENERATOR_VALUE))),
        ),
        opt_fmul(message_hash.value, aggregate_pk_value),
    )
}

/// The constraints appended by `verify`: the bitmap occurrence bound, then
/// the pairing equation against the target-group identity.
pub open spec fn verify_constraints(
    pub_keys: Seq<G2Wire>,
    signed_bitmap: Seq<BoolWire>,
    message_hash: G1Wire,
    signature: G1Wire,
    maximum_non_signers: FpWire,
) -> Seq<Constraint> {
    bitmap_constraints(signed_bitmap, maximum_non_signers).push(
        Constraint::GtEq {
            left: verify_equation_value(
                signature,
                message_hash,
                aggregate_value(pub_keys, signed_bitmap),
            ),
            right: Some(GT_IDENTITY_VALUE),
        },
    )
}

/// The constraint appended by batch verification: one combined pairing
/// product, the signature/negated-generator term amortized in front of the
/// (message hash, aggregate key) terms.
pub open spec fn batch_constraints(
    prepared_aggregated_pub_keys: Seq<PreparedG2>,
    prepared_message_hashes: Seq<PreparedG1>,
    aggregated_signature: G1Wire,
) -> Seq<Constraint> {
    seq![
        Constraint::GtEq {
            left: pairing_product(
                seq![(PreparedG1 { value: aggregated_signature.value })]
                    + prepared_message_hashes,
                seq![(PreparedG2 { value: Some(fneg(G2_GENERATOR_VALUE)) })]
                    + prepared_aggregated_pub_keys,
            ),
            right: Some(GT_IDENTITY_VALUE),
        },
    ]
}

/// A pairing product of two two-element sequences, unfolded.
proof fn lemma_pairing_product_pair(a: PreparedG1, b: PreparedG1, c: PreparedG2, d: PreparedG2)
    ensures
        pairing_product(seq![a, b], seq![c, d]) == opt_fadd(
            opt_fadd(Some(GT_IDENTITY_VALUE), opt_fmul(a.value, c.value)),
            opt_fmul(b.value, d.value),
        ),
{
    let s2 = seq![a, b];
    let t2 = seq![c, d];
    assert(s2.drop_last() =~= seq![a]);
    assert(t2.drop_last() =~= seq![c]);
    assert(seq![a].drop_last() =~= Seq::<PreparedG1>::empty());
    assert(seq![c].drop_last() =~= Seq::<PreparedG2>::empty());
    assert(pairing_product(Seq::<PreparedG1>::empty(), Seq::<PreparedG2>::empty()) == Some(
        GT_IDENTITY_VALUE,
    ));
    assert(pairing_product(seq![a], seq![c]) == opt_fadd(
        Some(GT_IDENTITY_VALUE),
        opt_fmul(a.value, c.value),
    ));
}

/// BLS signature verification gadget: aggregates a bitmap-selected subset of
/// public keys and enforces the bilinear pairing equation for single and
/// batched aggregate signatures.
pub struct BlsVerifyGadget;

impl BlsVerifyGadget {
    /// Enforces verification of a BLS signature against a list of public
    /// keys and a bitmap indicating which of them signed, tolerating at most
    /// `maximum_non_signers` absent signers.
    ///
    /// Appends the bitmap occurrence bound, then the pairing equation
    /// `e(signature, -generator) * e(message_hash, aggregate_pk) = 1`;
    /// returns an input-shape error, appending nothing, when the bitmap and
    /// key sequences differ in length.
    pub fn verify(
        pub_keys: &Vec<G2Wire>,
        signed_bitmap: &Vec<BoolWire>,
        message_hash: &G1Wire,
        signature: &G1Wire,
        maximum_non_signers: &FpWire,
        cs: &mut ConstraintSystem,
    ) -> (r: Result<(), GadgetError>)
        requires
            g2_seq_wf(pub_keys@),
            message_hash.wf(),
            signature.wf(),
        ensures
            signed_bitmap@.len() == pub_keys@.len() ==> (r is Ok && final (cs).constraints@
                == old(cs).constraints@ + verify_constraints(
                pub_keys@,
                signed_bitmap@,
                *message_hash,
                *signature,
                *maximum_non_signers,
            )),
            signed_bitmap@.len() != pub_keys@.len() ==> (r == Result::<(), GadgetError>::Err(
                GadgetError::LengthMismatch,
            ) && *final (cs) == *old(cs)),
    {
        // Get the message hash and the aggregated public key based on the
        // bitmap and allowed number of non-signers.
        let (message_hash_wire, aggregated_pk) = match Self::enforce_bitmap(
            pub_keys,
            signed_bitmap,
            message_hash,
            maximum_non_signers,
            cs,
        ) {
            Ok(pair) => pair,
            Err(e) => {
                return Err(e);
            },
        };

        let prepared_aggregated_pk = prepare_g2(&aggregated_pk);
        let prepared_message_hash = prepare_g1(&message_hash_wire);

        // Prepare the signature and the negated fixed generator.
        let (prepared_signature, prepared_g2_neg_generator) =
            Self::prepare_signature_neg_generator(signature);

        let mut g1_terms: Vec<PreparedG1> = Vec::new();
        g1_terms.push(prepared_signature);
        g1_terms.push(prepared_message_hash);
        let mut g2_terms: Vec<PreparedG2> = Vec::new();
        g2_terms.push(prepared_g2_neg_generator);
        g2_terms.push(prepared_aggregated_pk);

        proof {
            assert(g1_terms@ =~= seq![prepared_signature, prepared_message_hash]);
            assert(g2_terms@ =~= seq![prepared_g2_neg_generator, prepared_aggregated_pk]);
            lemma_pairing_product_pair(
                prepared_signature,
                prepared_message_hash,
                prepared_g2_neg_generator,
                prepared_aggregated_pk,
            );
        }

        // e(signature, -generator) * e(message_hash, aggregate_pk) == 1.
        let r = Self::enforce_bls_equation(&g1_terms, &g2_terms, cs);

        proof {
            assert(final (cs).constraints@ =~= old(cs).constraints@ + verify_constraints(
                pub_keys@,
                signed_bitmap@,
                *message_hash,
                *signature,
                *maximum_non_signers,
            ));
        }
        r
    }

    /// Enforces batch verification of one aggregate signature against a list
    /// of (aggregate public key, message hash) pairs: prepares every operand
    /// and enforces the combined pairing product. Returns an input-shape
    /// error, appending nothing, when the two lists differ in length.
    pub fn batch_verify(
        aggregated_pub_keys: &Vec<G2Wire>,
        message_hashes: &Vec<G1Wire>,
        aggregated_signature: &G1Wire,
        cs: &mut ConstraintSystem,
    ) -> (r: Result<(), GadgetError>)
        requires
            g2_seq_wf(aggregated_pub_keys@),
            g1_seq_wf(message_hashes@),
            aggregated_signature.wf(),
        ensures
            message_hashes@.len() == aggregated_pub_keys@.len() ==> (r is Ok
                && final (cs).constraints@ == old(cs).constraints@ + batch_constraints(
                prepare_g2_seq(aggregated_pub_keys@),
                prepare_g1_seq(message_hashes@),
                *aggregated_signature,
            )),
            message_hashes@.len() != aggregated_pub_keys@.len() ==> (r == Result::<
                (),
                GadgetError,
            >::Err(GadgetError::LengthMismatch) && *final (cs) == *old(cs)),
    {
        let mut prepared_message_hashes: Vec<PreparedG1> = Vec::new();
        let mut i: usize = 0;
        while i < message_hashes.len()
            invariant
                i <= message_hashes@.len(),
                prepared_message_hashes@.len() == i,
                forall|k: int|
                    0 <= k < i ==> #[trigger] prepared_message_hashes@[k] == (PreparedG1 {
                        value: message_hashes@[k].value,
                    }),
            decreases message_hashes@.len() - i,
        {
            prepared_message_hashes.push(prepare_g1(&message_hashes[i]));
            i = i + 1;
        }

        let mut prepared_aggregated_pub_keys: Vec<PreparedG2> = Vec::new();
        let mut j: usize = 0;
        while j < aggregated_pub_keys.len()
            invariant
                j <= aggregated_pub_keys@.len(),
                prepared_aggregated_pub_keys@.len() == j,
                forall|k: int|
                    0 <= k < j ==> #[trigger] prepared_aggregated_pub_keys@[k] == (PreparedG2 {
                        value: aggregated_pub_keys@[k].value,
                    }),
            decreases aggregated_pub_keys@.len() - j,
        {
            prepared_aggregated_pub_keys.push(prepare_g2(&aggregated_pub_keys[j]));
            j = j + 1;
        }

        proof {
            assert(prepared_message_hashes@ =~= prepare_g1_seq(message_hashes@));
            assert(prepared_aggregated_pub_keys@ =~= prepare_g2_seq(aggregated_pub_keys@));
            assert forall|k: int| 0 <= k < prepared_message_hashes@.len() implies opt_in_field(
                #[trigger] prepared_message_hashes@[k].value,
            ) by {
                assert(message_hashes@[k].wf());
            }
            assert forall|k: int|
                0 <= k < prepared_aggregated_pub_keys@.len() implies opt_in_field(
                #[trigger] prepared_aggregated_pub_keys@[k].value,
            ) by {
                assert(aggregated_pub_keys@[k].wf());
            }
        }

        Self::batch_verify_prepared(
            &prepared_aggregated_pub_keys,
            &prepared_message_hashes,
            aggregated_signature,
            cs,
        )
    }

    /// Batch verification against already-prepared keys and message hashes:
    /// enforces `e(signature, -generator) * e(mh_0, pk_0) * ... = 1`.
    /// Returns an input-shape error, appending nothing, when the two lists
    /// differ in length.
    pub fn batch_verify_prepared(
        prepared_aggregated_pub_keys: &Vec<PreparedG2>,
        prepared_message_hashes: &Vec<PreparedG1>,
        aggregated_signature: &G1Wire,
        cs: &mut ConstraintSystem,
    ) -> (r: Result<(), GadgetError>)
        requires
            prepared_g2_seq_wf(prepared_aggregated_pub_keys@),
            prepared_g1_seq_wf(prepared_message_hashes@),
            aggregated_signature.wf(),
        ensures
            prepared_message_hashes@.len() == prepared_aggregated_pub_keys@.len() ==> (r is Ok
                && final (cs).constraints@ == old(cs).constraints@ + batch_constraints(
                prepared_aggregated_pub_keys@,
                prepared_message_hashes@,
                *aggregated_signature,
            )),
            prepared_message_hashes@.len() != prepared_aggregated_pub_keys@.len() ==> (r
                == Result::<(), GadgetError>::Err(GadgetError::LengthMismatch) && *final (cs)
                == *old(cs)),
    {
        // Prepare the signature and the negated fixed generator.
        let (prepared_signature, prepared_g2_neg_generator) =
            Self::prepare_signature_neg_generator(aggregated_signature);

        // The vectors whose combined pairing is enforced: the signature term
        // in front, then one term per (message hash, aggregate key) pair.
        let mut prepared_g1s: Vec<PreparedG1> = Vec::new();
        prepared_g1s.push(prepared_signature);
        let mut i: usize = 0;
        while i < prepared_message_hashes.len()
            invariant
                i <= prepared_message_hashes@.len(),
                prepared_g1s@.len() == i + 1,
                prepared_g1s@[0] == prepared_signature,
                forall|k: int|
                    1 <= k < i + 1 ==> #[trigger] prepared_g1s@[k]
                        == prepared_message_hashes@[k - 1],
            decreases prepared_message_hashes@.len() - i,
        {
            prepared_g1s.push(prepared_message_hashes[i]);
            i = i + 1;
        }

        let mut prepared_g2s: Vec<PreparedG2> = Vec::new();
        prepared_g2s.push(prepared_g2_neg_generator);
        let mut j: usize = 0;
        while j < prepared_aggregated_pub_keys.len()
            invariant
                j <= prepared_aggregated_pub_keys@.len(),
                prepared_g2s@.len() == j + 1,
                prepared_g2s@[0] == prepared_g2_neg_generator,
                forall|k: int|
                    1 <= k < j + 1 ==> #[trigger] prepared_g2s@[k]
                        == prepared_aggregated_pub_keys@[k - 1],
            decreases prepared_aggregated_pub_keys@.len() - j,
        {
            prepared_g2s.push(prepared_aggregated_pub_keys[j]);
            j = j + 1;
        }

        proof {
            assert(prepared_g1s@ =~= seq![(PreparedG1 { value: aggregated_signature.value })]
                + prepared_message_hashes@);
            assert(prepared_g2s@ =~= seq![
                (PreparedG2 { value: Some(fneg(G2_GENERATOR_VALUE)) }),
            ] + prepared_aggregated_pub_keys@);
        }

        // Enforce the combined BLS check.
        let r = Self::enforce_bls_equation(&prepared_g1s, &prepared_g2s, cs);

        proof {
            if prepared_message_hashes@.len() == prepared_aggregated_pub_keys@.len() {
                assert(final (cs).constraints@ =~= old(cs).constraints@ + batch_constraints(
                    prepared_aggregated_pub_keys@,
                    prepared_message_hashes@,
                    *aggregated_signature,
                ));
            }
        }
        r
    }

    /// Derives the aggregate public key selected by the bitmap: for each
    /// index, conditionally selects the key or the group identity and
    /// accumulates by group addition. Returns an input-shape error when the
    /// bitmap and key sequences differ in length.
    pub fn enforce_aggregated_pubkeys(
        pub_keys: &Vec<G2Wire>,
        signed_bitmap: &Vec<BoolWire>,
    ) -> (r: Result<G2Wire, GadgetError>)
        requires
            g2_seq_wf(pub_keys@),
        ensures
            signed_bitmap@.len() == pub_keys@.len() ==> (r matches Ok(apk) && apk.value
                == aggregate_value(pub_keys@, signed_bitmap@) && apk.wf()),
            signed_bitmap@.len() != pub_keys@.len() ==> r == Result::<G2Wire, GadgetError>::Err(
                GadgetError::LengthMismatch,
            ),
    {
        // Bitmap and public keys must be of the same length.
        if signed_bitmap.len() != pub_keys.len() {
            return Err(GadgetError::LengthMismatch);
        }
        let mut aggregated_pk = G2Wire::zero();
        let mut i: usize = 0;
        while i < pub_keys.len()
            invariant
                g2_seq_wf(pub_keys@),
                signed_bitmap@.len() == pub_keys@.len(),
                i <= pub_keys@.len(),
                aggregated_pk.value == aggregate_value(
                    pub_keys@.subrange(0, i as int),
                    signed_bitmap@.subrange(0, i as int),
                ),
                aggregated_pk.wf(),
            decreases pub_keys@.len() - i,
        {
            let kp = Ghost(pub_keys@.subrange(0, i as int + 1));
            let bp = Ghost(signed_bitmap@.subrange(0, i as int + 1));
            proof {
                assert(kp@.drop_last() =~= pub_keys@.subrange(0, i as int));
                assert(bp@.drop_last() =~= signed_bitmap@.subrange(0, i as int));
                assert(kp@.last() == pub_keys@[i as int]);
                assert(bp@.last() == signed_bitmap@[i as int]);
                assert(pub_keys@[i as int].wf());
            }
            // If the bit is set, add the key; otherwise add the identity.
            let zero = G2Wire::zero();
            let adder = signed_bitmap[i].select_g2(&pub_keys[i], &zero);
            aggregated_pk = aggregated_pk.group_add(&adder);
            i = i + 1;
        }
        proof {
            assert(pub_keys@.subrange(0, pub_keys@.len() as int) =~= pub_keys@);
            assert(signed_bitmap@.subrange(0, signed_bitmap@.len() as int) =~= signed_bitmap@);
        }
        Ok(aggregated_pk)
    }

    /// Derives the aggregate public key of all the keys: the unconditional
    /// group sum, used when every validator is assumed to have signed.
    pub fn enforce_aggregated_all_pubkeys(pub_keys: &Vec<G2Wire>) -> (r: Result<
        G2Wire,
        GadgetError,
    >)
        requires
            g2_seq_wf(pub_keys@),
        ensures
            r matches Ok(apk) && apk.value == aggregate_all_value(pub_keys@) && apk.wf(),
    {
        let mut aggregated_pk = G2Wire::zero();
        let mut i: usize = 0;
        while i < pub_keys.len()
            invariant
                g2_seq_wf(pub_keys@),
                i <= pub_keys@.len(),
                aggregated_pk.value == aggregate_all_value(pub_keys@.subrange(0, i as int)),
                aggregated_pk.wf(),
            decreases pub_keys@.len() - i,
        {
            let kp = Ghost(pub_keys@.subrange(0, i as int + 1));
            proof {
                assert(kp@.drop_last() =~= pub_keys@.subrange(0, i as int));
                assert(kp@.last() == pub_keys@[i as int]);
                assert(pub_keys@[i as int].wf());
            }
            // aggregated_pk += pk
            aggregated_pk = aggregated_pk.group_add(&pub_keys[i]);
            i = i + 1;
        }
        proof {
            assert(pub_keys@.subrange(0, pub_keys@.len() as int) =~= pub_keys@);
        }
        Ok(aggregated_pk)
    }

    /// Enforces that the bitmap contains no more than `maximum_non_signers`
    /// false bits, derives the bitmap-selected aggregate public key, and
    /// passes the message hash through unchanged. This is the composition
    /// point between the threshold policy and key aggregation. Returns an
    /// input-shape error, appending nothing, when the bitmap and key
    /// sequences differ in length.
    pub fn enforce_bitmap(
        pub_keys: &Vec<G2Wire>,
        signed_bitmap: &Vec<BoolWire>,
        message_hash: &G1Wire,
        maximum_non_signers: &FpWire,
        cs: &mut ConstraintSystem,
    ) -> (r: Result<(G1Wire, G2Wire), GadgetError>)
        requires
            g2_seq_wf(pub_keys@),
        ensures
            signed_bitmap@.len() == pub_keys@.len() ==> (r matches Ok(pair) && pair.0
                == *message_hash && pair.1.value == aggregate_value(pub_keys@, signed_bitmap@)
                && pair.1.wf() && final (cs).constraints@ == old(cs).constraints@
                + bitmap_constraints(signed_bitmap@, *maximum_non_signers)),
            signed_bitmap@.len() != pub_keys@.len() ==> (r == Result::<
                (G1Wire, G2Wire),
                GadgetError,
            >::Err(GadgetError::LengthMismatch) && *final (cs) == *old(cs)),
    {
        // The input-shape check comes first, before any constraint that
        // references the mismatched data is appended.
        if signed_bitmap.len() != pub_keys.len() {
            return Err(GadgetError::LengthMismatch);
        }

        enforce_maximum_occurrences_in_bitmap(signed_bitmap, maximum_non_signers, false, cs);

        let aggregated_pk = match Self::enforce_aggregated_pubkeys(pub_keys, signed_bitmap) {
            Ok(apk) => apk,
            Err(e) => {
                return Err(e);
            },
        };

        proof {
            assert(final (cs).constraints@ =~= old(cs).constraints@ + bitmap_constraints(
                signed_bitmap@,
                *maximum_non_signers,
            ));
        }
        Ok((message_hash.clone(), aggregated_pk))
    }

    /// Prepares the signature and the negated fixed generator of the second
    /// group: the one piece of fixed public data of the verification
    /// equation, allocated as a circuit constant.
    fn prepare_signature_neg_generator(signature: &G1Wire) -> (r: (PreparedG1, PreparedG2))
        ensures
            r.0 == (PreparedG1 { value: signature.value }),
            r.1 == (PreparedG2 { value: Some(fneg(G2_GENERATOR_VALUE)) }),
            opt_in_field(r.1.value),
    {
        // Ensure the signature is prepared.
        let prepared_signature = prepare_g1(signature);

        // Allocate the generator as a constant, negate it for the purpose of
        // verification, and prepare it.
        let g2_generator = G2Wire { value: Some(G2_GENERATOR_VALUE) };
        let g2_neg_generator = g2_generator.negate();
        let prepared_g2_neg_generator = prepare_g2(&g2_neg_generator);

        (prepared_signature, prepared_g2_neg_generator)
    }

    /// Computes the product of pairings over parallel sequences and enforces
    /// equality with the target-group identity, which is what declares the
    /// verification passed. Returns an input-shape error, appending nothing,
    /// when the two sequences differ in length.
    pub fn enforce_bls_equation(
        g1: &Vec<PreparedG1>,
        g2: &Vec<PreparedG2>,
        cs: &mut ConstraintSystem,
    ) -> (r: Result<(), GadgetError>)
        requires
            prepared_g1_seq_wf(g1@),
            prepared_g2_seq_wf(g2@),
        ensures
            g1@.len() == g2@.len() ==> (r is Ok && final (cs).constraints@ == old(
                cs,
            ).constraints@.push(
                Constraint::GtEq {
                    left: pairing_product(g1@, g2@),
                    right: Some(GT_IDENTITY_VALUE),
                },
            )),
            g1@.len() != g2@.len() ==> (r == Result::<(), GadgetError>::Err(
                GadgetError::LengthMismatch,
            ) && *final (cs) == *old(cs)),
    {
        if g1.len() != g2.len() {
            return Err(GadgetError::LengthMismatch);
        }
        let bls_equation = product_of_pairings(g1, g2);
        let gt_one = gt_identity();
        enforce_gt_equal(&bls_equation, &gt_one, cs);
        Ok(())
    }
}

/// The aggregate key over an all-true bitmap equals the unconditional
/// aggregate of all the keys: when every validator signed, selecting by the
/// bitmap and summing the whole key sequence derive the same key.
pub proof fn lemma_aggregate_all_true(pub_keys: Seq<G2Wire>, signed_bitmap: Seq<BoolWire>)
    requires
        signed_bitmap.len() == pub_keys.len(),
        forall|i: int| 0 <= i < signed_bitmap.len() ==> #[trigger] signed_bitmap[i].value == Some(
            true,
        ),
    ensures
        aggregate_value(pub_keys, signed_bitmap) == aggregate_all_value(pub_keys),
    decreases pub_keys.len(),
{
    if pub_keys.len() > 0 {
        lemma_aggregate_all_true(pub_keys.drop_last(), signed_bitmap.drop_last());
        assert(signed_bitmap.last().value == Some(true));
    }
}

/// The aggregate signature produced by the bitmap-selected validators: the
/// group sum of the per-validator signatures, each the secret-key multiple
/// of the message hash; unknown while a bit is unknown.
pub open spec fn aggregate_signature_value(
    secret_keys: Seq<u64>,
    signed_bitmap: Seq<BoolWire>,
    message_hash_value: u64,
) -> Option<u64>
    decreases secret_keys.len(),
{
    if secret_keys.len() == 0 {
        Some(0u64)
    } else {
        opt_fadd(
            aggregate_signature_value(
                secret_keys.drop_last(),
                signed_bitmap.drop_last(),
                message_hash_value,
            ),
            opt_select(
                signed_bitmap.last().value,
                Some(fmul(secret_keys.last(), message_hash_value)),
                Some(0u64),
            ),
        )
    }
}

/// Bilinearity at the aggregate level: when each public key is its secret
/// key's multiple of the generator, the group sum of the bitmap-selected
/// validators' individual signatures `sk_i * message_hash` equals the
/// message hash times the bitmap-selected aggregate public key — exactly the
/// genuine signature that `lemma_verify_decides_satisfiability` declares
/// satisfiable.
pub proof fn lemma_aggregate_signature_is_genuine(
    secret_keys: Seq<u64>,
    pub_keys: Seq<G2Wire>,
    signed_bitmap: Seq<BoolWire>,
    message_hash_value: u64,
)
    requires
        pub_keys.len() == secret_keys.len(),
        forall|i: int| 0 <= i < secret_keys.len() ==> in_field(#[trigger] secret_keys[i]),
        forall|i: int| 0 <= i < pub_keys.len() ==> #[trigger] pub_keys[i].value == Some(
            fmul(secret_keys[i], G2_GENERATOR_VALUE),
        ),
        in_field(message_hash_value),
    ensures
        aggregate_signature_value(secret_keys, signed_bitmap, message_hash_value) == opt_fmul(
            Some(message_hash_value),
            aggregate_value(pub_keys, signed_bitmap),
        ),
    decreases secret_keys.len(),
{
    let m = message_hash_value;
    if secret_keys.len() == 0 {
        vstd::arithmetic::div_mod::lemma_small_mod(0nat, crate::field::FIELD_MODULUS as nat);
        assert(fmul(m, 0) == 0);
    } else {
        lemma_aggregate_signature_is_genuine(
            secret_keys.drop_last(),
            pub_keys.drop_last(),
            signed_bitmap.drop_last(),
            m,
        );
        let sk = secret_keys.last();
        let prev = aggregate_value(pub_keys.drop_last(), signed_bitmap.drop_last());
        // the last key is its secret key: the generator is one
        vstd::arithmetic::div_mod::lemma_small_mod(
            sk as nat,
            crate::field::FIELD_MODULUS as nat,
        );
        assert(fmul(sk, G2_GENERATOR_VALUE) == sk);
        if prev is Some {
            let a = prev.unwrap();
            assert forall|i: int| 0 <= i < pub_keys.drop_last().len() implies (
            #[trigger] pub_keys.drop_last()[i]).wf() by {
                crate::field::lemma_fmul_in_field(secret_keys[i], G2_GENERATOR_VALUE);
            }
            lemma_aggregate_value_in_field(pub_keys.drop_last(), signed_bitmap.drop_last());
            crate::field::lemma_fmul_in_field(m, a);
            match signed_bitmap.last().value {
                Some(true) => {
                    crate::field::lemma_fmul_distributes(m, a, sk);
                },
                Some(false) => {
                    crate::field::lemma_fadd_zero(crate::field::fmul(m, a));
                    crate::field::lemma_fadd_zero(a);
                },
                None => {},
            }
        }
    }
}

/// Batch verification over a single (aggregate public key, message hash)
/// pair enforces exactly the pairing-product constraint that `verify`
/// enforces on the same (keys, bitmap, message, signature) inputs: the two
/// gadgets differ only in the occurrence-bound constraint that `verify`'s
/// bitmap check appends first.
pub proof fn lemma_batch_of_one_matches_verify(
    pub_keys: Seq<G2Wire>,
    signed_bitmap: Seq<BoolWire>,
    message_hash: G1Wire,
    signature: G1Wire,
    maximum_non_signers: FpWire,
    aggregate_pk: G2Wire,
)
    requires
        aggregate_pk.value == aggregate_value(pub_keys, signed_bitmap),
    ensures
        batch_constraints(
            prepare_g2_seq(seq![aggregate_pk]),
            prepare_g1_seq(seq![message_hash]),
            signature,
        ) == verify_constraints(
            pub_keys,
            signed_bitmap,
            message_hash,
            signature,
            maximum_non_signers,
        ).drop_first(),
{
    let ps = PreparedG1 { value: signature.value };
    let pm = PreparedG1 { value: message_hash.value };
    let pn = PreparedG2 { value: Some(fneg(G2_GENERATOR_VALUE)) };
    let pa = PreparedG2 { value: aggregate_pk.value };
    assert(seq![ps] + prepare_g1_seq(seq![message_hash]) =~= seq![ps, pm]);
    assert(seq![pn] + prepare_g2_seq(seq![aggregate_pk]) =~= seq![pn, pa]);
    lemma_pairing_product_pair(ps, pm, pn, pa);
    assert(batch_constraints(
        prepare_g2_seq(seq![aggregate_pk]),
        prepare_g1_seq(seq![message_hash]),
        signature,
    ) =~= verify_constraints(
        pub_keys,
        signed_bitmap,
        message_hash,
        signature,
        maximum_non_signers,
    ).drop_first());
}

/// Whenever the bitmap leaves more entries false than the threshold allows,
/// the constraints `verify` appends cannot all hold: the system becomes
/// unsatisfiable regardless of the signature's validity.
pub proof fn lemma_excess_non_signers_unsatisfiable(
    before: Seq<Constraint>,
    pub_keys: Seq<G2Wire>,
    signed_bitmap: Seq<BoolWire>,
    message_hash: G1Wire,
    signature: G1Wire,
    maximum_non_signers: FpWire,
)
    requires
        (count_occurrences(signed_bitmap, false) matches Some(c) && maximum_non_signers.value
            matches Some(t) && c > t),
    ensures
        !cs_satisfied(
            before + verify_constraints(
                pub_keys,
                signed_bitmap,
                message_hash,
                signature,
                maximum_non_signers,
            ),
        ),
{
    let vc = verify_constraints(pub_keys, signed_bitmap, message_hash, signature, maximum_non_signers);
    let s = before + vc;
    let at = before.len() as int;
    assert(s[at] == vc[0]);
    assert(vc[0] == Constraint::OccurrenceBound {
        occurrences: count_occurrences(signed_bitmap, false),
        bound: maximum_non_signers.value,
    });
    assert(!crate::constraints::constraint_holds(s[at]));
}

/// With every witness known, the constraints `verify` appends hold exactly
/// when the quorum is met and the signature is the genuine one for the
/// bitmap-selected keys — the unique first-group element whose pairing with
/// the generator equals the pairing of the message hash with the aggregate
/// key. A genuine aggregate signature of a quorum keeps the system
/// satisfiable; any other signature over the same inputs makes it
/// unsatisfiable.
pub proof fn lemma_verify_decides_satisfiability(
    before: Seq<Constraint>,
    pub_keys: Seq<G2Wire>,
    signed_bitmap: Seq<BoolWire>,
    message_hash: G1Wire,
    signature: G1Wire,
    maximum_non_signers: FpWire,
)
    requires
        g2_seq_wf(pub_keys),
        message_hash.wf(),
        signature.wf(),
        count_occurrences(signed_bitmap, false) is Some,
        maximum_non_signers.value is Some,
        aggregate_value(pub_keys, signed_bitmap) is Some,
        message_hash.value is Some,
        signature.value is Some,
    ensures
        cs_satisfied(
            before + verify_constraints(
                pub_keys,
                signed_bitmap,
                message_hash,
                signature,
                maximum_non_signers,
            ),
        ) <==> (cs_satisfied(before) && count_occurrences(signed_bitmap, false).unwrap()
            <= maximum_non_signers.value.unwrap() && signature.value == Some(
            fmul(message_hash.value.unwrap(), aggregate_value(pub_keys, signed_bitmap).unwrap()),
        )),
{
    let vc = verify_constraints(pub_keys, signed_bitmap, message_hash, signature, maximum_non_signers);
    let s = before + vc;
    let m = message_hash.value.unwrap();
    let a = aggregate_value(pub_keys, signed_bitmap).unwrap();
    let sv = signature.value.unwrap();

    lemma_aggregate_value_in_field(pub_keys, signed_bitmap);
    crate::field::lemma_fmul_in_field(sv, fneg(G2_GENERATOR_VALUE));
    crate::field::lemma_fadd_zero(fmul(sv, fneg(G2_GENERATOR_VALUE)));
    crate::field::lemma_fmul_neg_one(sv);
    crate::field::lemma_fmul_in_field(m, a);
    crate::field::lemma_fneg_add_cancels(sv, fmul(m, a));

    // The pairing constraint's left side reduces to fneg(signature) + m * a.
    assert(verify_equation_value(signature, message_hash, Some(a)) == Some(
        crate::field::fadd(fneg(sv), fmul(m, a)),
    ));

    let occ = vc[0];
    let gt = vc[1];
    assert(crate::constraints::constraint_holds(occ) <==> count_occurrences(
        signed_bitmap,
        false,
    ).unwrap() <= maximum_non_signers.value.unwrap());
    assert(crate::constraints::constraint_holds(gt) <==> signature.value == Some(fmul(m, a)));

    // Satisfiability splits over the concatenation.
    if cs_satisfied(s) {
        assert forall|i: int| 0 <= i < before.len() implies crate::constraints::constraint_holds(
            #[trigger] before[i],
        ) by {
            assert(before[i] == s[i]);
        }
        assert(crate::constraints::constraint_holds(s[before.len() as int]));
        assert(crate::constraints::constraint_holds(s[before.len() as int + 1]));
    }
    if cs_satisfied(before) && crate::constraints::constraint_holds(occ)
        && crate::constraints::constraint_holds(gt) {
        assert forall|i: int| 0 <= i < s.len() implies crate::constraints::constraint_holds(
            #[trigger] s[i],
        ) by {
            if i < before.len() {
                assert(s[i] == before[i]);
            } else if i == before.len() {
                assert(s[i] == occ);
            } else {
                assert(s[i] == gt);
            }
        }
    }
}

} // verus!
