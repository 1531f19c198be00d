//! Circuit gadgets for BLS aggregate-signature verification and
//! rotating-validator-set epoch transitions.
//!
//! The gadgets express signature verification as algebraic constraints over a
//! model constraint system: every operation either appends constraints to a
//! [`constraints::ConstraintSystem`] and returns the resulting wires, or
//! returns an input-shape error before touching the system. Cryptographic
//! validity is never a returned boolean; it is encoded as satisfiability of
//! the accumulated constraints, checked by evaluating them against the
//! witness values the wires carry.
//!
//! Group and pairing arithmetic is modelled over the scalar field of
//! [`field::FIELD_MODULUS`]: both source groups and the target group are the
//! additive group of that field, and the pairing is the bilinear map
//! `e(a, b) = a * b`. The gadget logic — bitmap-driven key aggregation,
//! threshold policy, the combined pairing product, and cross-epoch
//! continuity — is written and proved against that model.

pub mod bitmap;
pub mod bls;
pub mod constraints;
pub mod epoch_data;
pub mod field;
pub mod pairing;
pub mod single_update;
pub mod wires;
