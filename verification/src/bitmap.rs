//! The bitmap-occupancy constraint: a bound on how many entries of a signer
//! bitmap carry a designated value. With the designated value `false` it
//! enforces the threshold policy: no more non-signers than the declared
//! maximum.

use vstd::prelude::*;

use crate::constraints::{Constraint, ConstraintSystem};
use crate::field::{add_mod, fadd, in_field};
use crate::wires::{BoolWire, FpWire};

verus! {

/// How many entries of the bitmap carry `target`, counted in the scalar
/// field; unknown when any entry is unknown.
pub open spec fn count_occurrences(bits: Seq<BoolWire>, target: bool) -> Option<u64>
    decreases bits.len(),
{
    if bits.len() == 0 {
        Some(0u64)
    } else {
        match (count_occurrences(bits.drop_last(), target), bits.last().value) {
            (Some(c), Some(b)) => Some(if b == target { fadd(c, 1) } else { c }),
            _ => None,
        }
    }
}

/// Enforces that the count of `target` entries in the bitmap does not exceed
/// `maximum`: appends exactly one occurrence-bound constraint relating that
/// count to the bound.
pub fn enforce_maximum_occurrences_in_bitmap(
    bitmap: &Vec<BoolWire>,
    maximum: &FpWire,
    target: bool,
    cs: &mut ConstraintSystem,
)
    ensures
        final (cs).constraints@ == old(cs).constraints@.push(
            Constraint::OccurrenceBound {
                occurrences: count_occurrences(bitmap@, target),
                bound: maximum.value,
            },
        ),
{
    let mut count: Option<u64> = Some(0);
    let mut i: usize = 0;
    while i < bitmap.len()
        invariant
            i <= bitmap@.len(),
            count == count_occurrences(bitmap@.subrange(0, i as int), target),
            count matches Some(c) ==> in_field(c),
        decreases bitmap@.len() - i,
    {
        let prefix = Ghost(bitmap@.subrange(0, i as int));
        let next = Ghost(bitmap@.subrange(0, i as int + 1));
        proof {
            assert(next@.drop_last() =~= prefix@);
            assert(next@.last() == bitmap@[i as int]);
        }
        count = match (count, bitmap[i].value) {
            (Some(c), Some(b)) => Some(if b == target {
                add_mod(c, 1)
            } else {
                c
            }),
            _ => None,
        };
        i = i + 1;
    }
    proof {
        assert(bitmap@.subrange(0, bitmap@.len() as int) =~= bitmap@);
    }
    cs.enforce(Constraint::OccurrenceBound { occurrences: count, bound: maximum.value });
}

} // verus!
