//! The model constraint system.
//!
//! Gadget operations append [`Constraint`]s to a [`ConstraintSystem`]; each
//! recorded constraint captures the witness values of the wires it relates.
//! Whether a forged signature slipped in, or too many validators abstained,
//! is never an error: it surfaces only as unsatisfiability, reported by
//! [`ConstraintSystem::is_satisfied`] once every involved witness is known.

use vstd::prelude::*;

use crate::wires::{BoolWire, FpWire};

verus! {

/// Why a gadget operation, or a satisfiability query, could not complete.
#[derive(Clone, Copy, Debug, PartialEq, Eq)]
pub enum GadgetError {
    /// Two sequences that must run in parallel differ in length (bitmap
    /// against public keys, first-group terms against second-group terms,
    /// batch message hashes against batch keys), or the validator count
    /// drifted across epochs.
    LengthMismatch,
    /// A constraint was evaluated while some witness it involves is still
    /// unknown.
    AssignmentMissing,
}

/// One recorded constraint, carrying the witness values of the wires it
/// relates (`None` where the witness is not known yet).
#[derive(Clone, Copy, Debug, PartialEq, Eq)]
pub enum Constraint {
    /// The count of designated entries in a bitmap does not exceed a bound.
    OccurrenceBound { occurrences: Option<u64>, bound: Option<u64> },
    /// Two field wires are equal whenever a boolean wire is true.
    ConditionalFpEq { left: Option<u64>, right: Option<u64>, condition: Option<bool> },
    /// Two target-group elements are equal.
    GtEq { left: Option<u64>, right: Option<u64> },
}

/// Every witness a constraint involves is known, so it can be evaluated.
/// A conditional equality whose condition is known false needs nothing more.
pub open spec fn constraint_known(c: Constraint) -> bool {
    match c {
        Constraint::OccurrenceBound { occurrences, bound } => {
            occurrences is Some && bound is Some
        },
        Constraint::ConditionalFpEq { left, right, condition } => {
            condition is Some && (condition == Some(false) || (left is Some && right is Some))
        },
        Constraint::GtEq { left, right } => left is Some && right is Some,
    }
}

/// The constraint is known and holds of the witness values it carries.
pub open spec fn constraint_holds(c: Constraint) -> bool {
    match c {
        Constraint::OccurrenceBound { occurrences, bound } => {
            occurrences matches Some(n) && bound matches Some(b) && n <= b
        },
        Constraint::ConditionalFpEq { left, right, condition } => {
            condition == Some(false) || (condition == Some(true) && left is Some && left
                == right)
        },
        Constraint::GtEq { left, right } => left is Some && left == right,
    }
}

/// Every constraint of the sequence can be evaluated.
pub open spec fn cs_known(s: Seq<Constraint>) -> bool {
    forall|i: int| 0 <= i < s.len() ==> constraint_known(#[trigger] s[i])
}

/// Every constraint of the sequence holds: the system is satisfied by the
/// witness values its wires carry.
pub open spec fn cs_satisfied(s: Seq<Constraint>) -> bool {
    forall|i: int| 0 <= i < s.len() ==> constraint_holds(#[trigger] s[i])
}

/// The outcome of scanning the constraints in order: the first constraint
/// with an unknown witness stops the scan with an error, the first violated
/// constraint reports the system unsatisfied.
pub open spec fn scan_result(s: Seq<Constraint>) -> Result<bool, GadgetError>
    decreases s.len(),
{
    if s.len() == 0 {
        Ok(true)
    } else if !constraint_known(s[0]) {
        Err(GadgetError::AssignmentMissing)
    } else if !constraint_holds(s[0]) {
        Ok(false)
    } else {
        scan_result(s.drop_first())
    }
}

/// The scan reports true exactly when every constraint holds.
pub proof fn lemma_scan_true_iff_satisfied(s: Seq<Constraint>)
    ensures
        (scan_result(s) == Result::<bool, GadgetError>::Ok(true)) <==> cs_satisfied(s),
    decreases s.len(),
{
    if s.len() == 0 {
    } else {
        lemma_scan_true_iff_satisfied(s.drop_first());
        assert(forall|i: int| 0 <= i < s.drop_first().len() ==> #[trigger] s.drop_first()[i]
            == s[i + 1]);
        if constraint_known(s[0]) && constraint_holds(s[0]) {
            if cs_satisfied(s.drop_first()) {
                assert forall|i: int| 0 <= i < s.len() implies constraint_holds(
                    #[trigger] s[i],
                ) by {
                    if i > 0 {
                        assert(s[i] == s.drop_first()[i - 1]);
                    }
                }
            }
        }
    }
}

/// Evaluates one constraint: its truth value, or an error when a witness it
/// involves is still unknown.
fn eval_constraint(c: &Constraint) -> (r: Result<bool, GadgetError>)
    ensures
        constraint_known(*c) ==> r == Result::<bool, GadgetError>::Ok(constraint_holds(*c)),
        !constraint_known(*c) ==> r == Result::<bool, GadgetError>::Err(
            GadgetError::AssignmentMissing,
        ),
{
    match c {
        Constraint::OccurrenceBound { occurrences, bound } => {
            match (occurrences, bound) {
                (Some(n), Some(b)) => Ok(*n <= *b),
                _ => Err(GadgetError::AssignmentMissing),
            }
        },
        Constraint::ConditionalFpEq { left, right, condition } => {
            match condition {
                Some(false) => Ok(true),
                Some(true) => match (left, right) {
                    (Some(l), Some(r)) => Ok(*l == *r),
                    _ => Err(GadgetError::AssignmentMissing),
                },
                None => Err(GadgetError::AssignmentMissing),
            }
        },
        Constraint::GtEq { left, right } => {
            match (left, right) {
                (Some(l), Some(r)) => Ok(*l == *r),
                _ => Err(GadgetError::AssignmentMissing),
            }
        },
    }
}

/// The accumulated set of algebraic constraints of one circuit under
/// construction. Gadget operations only ever append to it.
#[derive(Debug)]
pub struct ConstraintSystem {
    pub constraints: Vec<Constraint>,
}

impl ConstraintSystem {
    /// A fresh system with no constraints.
    pub fn new() -> (r: ConstraintSystem)
        ensures
            r.constraints@ =~= Seq::<Constraint>::empty(),
    {
        ConstraintSystem { constraints: Vec::new() }
    }

    /// How many constraints have been recorded.
    pub fn num_constraints(&self) -> (r: usize)
        ensures
            r == self.constraints@.len(),
    {
        self.constraints.len()
    }

    /// Records one constraint.
    pub fn enforce(&mut self, c: Constraint)
        ensures
            final (self).constraints@ == old(self).constraints@.push(c),
    {
        self.constraints.push(c);
    }

    /// Records that two field wires must be equal whenever the condition
    /// wire is true.
    pub fn conditional_enforce_equal_fp(&mut self, left: &FpWire, right: &FpWire, condition: &BoolWire)
        ensures
            final (self).constraints@ == old(self).constraints@.push(
                Constraint::ConditionalFpEq {
                    left: left.value,
                    right: right.value,
                    condition: condition.value,
                },
            ),
    {
        self.enforce(
            Constraint::ConditionalFpEq {
                left: left.value,
                right: right.value,
                condition: condition.value,
            },
        );
    }

    /// Evaluates the system against the witness values its wires carried
    /// when the constraints were recorded. Scanning in order, the first
    /// constraint involving an unknown witness yields
    /// `Err(AssignmentMissing)`; otherwise the result tells whether every
    /// constraint holds.
    pub fn is_satisfied(&self) -> (r: Result<bool, GadgetError>)
        ensures
            r == scan_result(self.constraints@),
            (r == Result::<bool, GadgetError>::Ok(true)) <==> cs_satisfied(self.constraints@),
    {
        let s = Ghost(self.constraints@);
        let n = self.constraints.len();
        proof {
            assert(s@.skip(0) =~= s@);
        }
        let mut i: usize = 0;
        while i < n
            invariant
                n == s@.len(),
                i <= n,
                s@ == self.constraints@,
                scan_result(s@) == scan_result(s@.skip(i as int)),
                forall|k: int| 0 <= k < i ==> constraint_holds(#[trigger] s@[k]),
            decreases n - i,
        {
            let tail = Ghost(s@.skip(i as int));
            proof {
                assert(tail@.len() > 0);
                assert(tail@[0] == s@[i as int]);
            }
            match eval_constraint(&self.constraints[i]) {
                Err(e) => {
                    proof {
                        lemma_scan_true_iff_satisfied(s@);
                    }
                    return Err(e);
                },
                Ok(false) => {
                    proof {
                        lemma_scan_true_iff_satisfied(s@);
                    }
                    return Ok(false);
                },
                Ok(true) => {
                    proof {
                        assert(tail@.drop_first() =~= s@.skip(i as int + 1));
                    }
                    i = i + 1;
                },
            }
        }
        proof {
            assert(s@.skip(n as int) =~= Seq::<Constraint>::empty());
            lemma_scan_true_iff_satisfied(s@);
        }
        Ok(true)
    }
}

} // verus!
