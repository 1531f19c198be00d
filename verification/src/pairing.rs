//! The pairing capability of the model curve.
//!
//! Both source groups and the target group are the additive group of the
//! scalar field, and the pairing is the bilinear map `e(a, b) = a * b`.
//! Written additively, a "product" of pairings is the field sum of the
//! pairwise pairings, and the target-group identity is zero. Points are
//! prepared once and reused across a multi-pairing product.

use vstd::prelude::*;

use crate::constraints::{Constraint, ConstraintSystem};
use crate::field::{add_mod, in_field, mul_mod};
use crate::wires::{opt_fadd, opt_fmul, opt_in_field, G1Wire, G2Wire};

verus! {

/// The value of the fixed generator of the second source group. One
/// generates the whole additive group of the field.
pub const G2_GENERATOR_VALUE: u64 = 1;

/// The identity of the target group (zero, the group being written
/// additively).
pub const GT_IDENTITY_VALUE: u64 = 0;

/// A pairing-ready encoding of a first-group point.
#[derive(Clone, Copy, Debug)]
pub struct PreparedG1 {
    pub value: Option<u64>,
}

/// A pairing-ready encoding of a second-group point.
#[derive(Clone, Copy, Debug)]
pub struct PreparedG2 {
    pub value: Option<u64>,
}

/// A target-group element: the result of a pairing product.
#[derive(Clone, Copy, Debug)]
pub struct GtWire {
    pub value: Option<u64>,
}

/// Every prepared first-group value of the sequence is canonical if known.
pub open spec fn prepared_g1_seq_wf(s: Seq<PreparedG1>) -> bool {
    forall|i: int| 0 <= i < s.len() ==> opt_in_field(#[trigger] s[i].value)
}

/// Every prepared second-group value of the sequence is canonical if known.
pub open spec fn prepared_g2_seq_wf(s: Seq<PreparedG2>) -> bool {
    forall|i: int| 0 <= i < s.len() ==> opt_in_field(#[trigger] s[i].value)
}

/// Prepares a first-group point for use in a pairing product.
pub fn prepare_g1(p: &G1Wire) -> (r: PreparedG1)
    ensures
        r == (PreparedG1 { value: p.value }),
{
    PreparedG1 { value: p.value }
}

/// Prepares a second-group point for use in a pairing product.
pub fn prepare_g2(p: &G2Wire) -> (r: PreparedG2)
    ensures
        r == (PreparedG2 { value: p.value }),
{
    PreparedG2 { value: p.value }
}

/// The combined pairing of parallel sequences: the target-group sum of the
/// pairings of corresponding elements, unknown as soon as one operand is
/// unknown.
pub open spec fn pairing_product(g1: Seq<PreparedG1>, g2: Seq<PreparedG2>) -> Option<u64>
    decreases g1.len(),
{
    if g1.len() == 0 {
        Some(GT_IDENTITY_VALUE)
    } else if g2.len() == 0 {
        None
    } else {
        opt_fadd(
            pairing_product(g1.drop_last(), g2.drop_last()),
            opt_fmul(g1.last().value, g2.last().value),
        )
    }
}

/// Computes the combined pairing of two parallel prepared sequences.
pub fn product_of_pairings(g1: &Vec<PreparedG1>, g2: &Vec<PreparedG2>) -> (r: GtWire)
    requires
        g1@.len() == g2@.len(),
        prepared_g1_seq_wf(g1@),
        prepared_g2_seq_wf(g2@),
    ensures
        r.value == pairing_product(g1@, g2@),
{
    let mut acc: Option<u64> = Some(GT_IDENTITY_VALUE);
    let mut i: usize = 0;
    while i < g1.len()
        invariant
            g1@.len() == g2@.len(),
            prepared_g1_seq_wf(g1@),
            prepared_g2_seq_wf(g2@),
            i <= g1@.len(),
            acc == pairing_product(g1@.subrange(0, i as int), g2@.subrange(0, i as int)),
            acc matches Some(v) ==> in_field(v),
        decreases g1@.len() - i,
    {
        let p1 = Ghost(g1@.subrange(0, i as int + 1));
        let p2 = Ghost(g2@.subrange(0, i as int + 1));
        proof {
            assert(p1@.drop_last() =~= g1@.subrange(0, i as int));
            assert(p2@.drop_last() =~= g2@.subrange(0, i as int));
            assert(p1@.last() == g1@[i as int]);
            assert(p2@.last() == g2@[i as int]);
        }
        acc = match (acc, g1[i].value, g2[i].value) {
            (Some(a), Some(x), Some(y)) => Some(add_mod(a, mul_mod(x, y))),
            _ => None,
        };
        i = i + 1;
    }
    proof {
        assert(g1@.subrange(0, g1@.len() as int) =~= g1@);
        assert(g2@.subrange(0, g2@.len() as int) =~= g2@);
    }
    GtWire { value: acc }
}

/// The target-group identity, as a wire.
pub fn gt_identity() -> (r: GtWire)
    ensures
        r.value == Some(GT_IDENTITY_VALUE),
{
    GtWire { value: Some(GT_IDENTITY_VALUE) }
}

/// Records that two target-group elements must be equal.
pub fn enforce_gt_equal(left: &GtWire, right: &GtWire, cs: &mut ConstraintSystem)
    ensures
        final (cs).constraints@ == old(cs).constraints@.push(
            Constraint::GtEq { left: left.value, right: right.value },
        ),
{
    cs.enforce(Constraint::GtEq { left: left.value, right: right.value });
}

} // verus!
