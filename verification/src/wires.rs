//! Circuit wires.
//!
//! A wire carries a witness value, or `None` while the circuit is built for
//! setup only and the witness is not known yet. Boolean wires carry signer
//! bitmaps and epoch-boundary flags; field-element wires carry the epoch
//! index, entropy and the non-signer threshold; group wires carry message
//! hashes, signatures (first source group) and public keys (second source
//! group). Operations on unknown values yield unknown values.

use vstd::prelude::*;

use crate::field::{add_mod, fadd, fneg, freduce, in_field, neg_mod, reduce};

verus! {

/// Length of the auxiliary bit-serializations: one bit per binary digit of a
/// canonical field element.
pub const SERIALIZED_BITS: usize = 31;

/// An optional value is canonical when, if known, it is a canonical field
/// element.
pub open spec fn opt_in_field(v: Option<u64>) -> bool {
    v matches Some(x) ==> in_field(x)
}

/// Addition lifted to possibly-unknown values.
pub open spec fn opt_fadd(a: Option<u64>, b: Option<u64>) -> Option<u64> {
    match (a, b) {
        (Some(x), Some(y)) => Some(fadd(x, y)),
        _ => None,
    }
}

/// Multiplication lifted to possibly-unknown values.
pub open spec fn opt_fmul(a: Option<u64>, b: Option<u64>) -> Option<u64> {
    match (a, b) {
        (Some(x), Some(y)) => Some(crate::field::fmul(x, y)),
        _ => None,
    }
}

/// Negation lifted to possibly-unknown values.
pub open spec fn opt_fneg(a: Option<u64>) -> Option<u64> {
    match a {
        Some(x) => Some(fneg(x)),
        None => None,
    }
}

/// Reduction lifted to possibly-unknown values.
pub open spec fn opt_freduce(a: Option<u64>) -> Option<u64> {
    match a {
        Some(x) => Some(freduce(x)),
        None => None,
    }
}

/// Boolean negation lifted to possibly-unknown values.
pub open spec fn opt_not(a: Option<bool>) -> Option<bool> {
    match a {
        Some(x) => Some(!x),
        None => None,
    }
}

/// Boolean conjunction lifted to possibly-unknown values.
pub open spec fn opt_and(a: Option<bool>, b: Option<bool>) -> Option<bool> {
    match (a, b) {
        (Some(x), Some(y)) => Some(x && y),
        _ => None,
    }
}

/// Conditional selection between two possibly-unknown values: an unknown
/// condition yields an unknown result; a known condition picks its branch.
pub open spec fn opt_select(c: Option<bool>, t: Option<u64>, f: Option<u64>) -> Option<u64> {
    match c {
        Some(true) => t,
        Some(false) => f,
        None => None,
    }
}

/// The bit of `v` at position `j`, little-endian.
pub open spec fn bit_of(v: u64, j: u64) -> bool {
    ((v >> j) & 1) == 1
}

/// The bit at position `j` of a possibly-unknown value.
pub open spec fn opt_bit(v: Option<u64>, j: u64) -> Option<bool> {
    match v {
        Some(x) => Some(bit_of(x, j)),
        None => None,
    }
}

/// A wire constrained to a boolean value.
#[derive(Clone, Copy, Debug)]
pub struct BoolWire {
    pub value: Option<bool>,
}

/// A wire carrying a scalar-field element.
#[derive(Clone, Copy, Debug)]
pub struct FpWire {
    pub value: Option<u64>,
}

/// A wire carrying an element of the first source group of the pairing
/// (message hashes and signatures live here).
#[derive(Clone, Copy, Debug)]
pub struct G1Wire {
    pub value: Option<u64>,
}

/// A wire carrying an element of the second source group of the pairing
/// (public keys live here).
#[derive(Clone, Copy, Debug)]
pub struct G2Wire {
    pub value: Option<u64>,
}

impl BoolWire {
    /// Allocates a boolean wire with a known witness.
    pub fn new_witness(b: bool) -> (r: BoolWire)
        ensures
            r.value == Some(b),
    {
        BoolWire { value: Some(b) }
    }

    /// Allocates a boolean wire whose witness is not known yet
    /// (setup-only circuit construction).
    pub fn unknown() -> (r: BoolWire)
        ensures
            r.value is None,
    {
        BoolWire { value: None }
    }

    /// The negation of this wire.
    pub fn not(&self) -> (r: BoolWire)
        ensures
            r.value == opt_not(self.value),
    {
        match self.value {
            Some(b) => BoolWire { value: Some(!b) },
            None => BoolWire { value: None },
        }
    }

    /// The conjunction of this wire with another.
    pub fn and(&self, other: &BoolWire) -> (r: BoolWire)
        ensures
            r.value == opt_and(self.value, other.value),
    {
        match (self.value, other.value) {
            (Some(a), Some(b)) => BoolWire { value: Some(a && b) },
            _ => BoolWire { value: None },
        }
    }

    /// Selects between two second-group wires: the first when this wire is
    /// true, the second when it is false.
    pub fn select_g2(&self, t: &G2Wire, f: &G2Wire) -> (r: G2Wire)
        ensures
            r.value == opt_select(self.value, t.value, f.value),
    {
        match self.value {
            Some(true) => G2Wire { value: t.value },
            Some(false) => G2Wire { value: f.value },
            None => G2Wire { value: None },
        }
    }
}

impl FpWire {
    /// This wire's value is canonical if known.
    pub open spec fn wf(self) -> bool {
        opt_in_field(self.value)
    }

    /// Allocates a field wire with a known witness, reduced into the field.
    pub fn new_witness(v: u64) -> (r: FpWire)
        ensures
            r.value == Some(freduce(v)),
            r.wf(),
    {
        FpWire { value: Some(reduce(v)) }
    }

    /// Allocates a field wire whose witness is not known yet.
    pub fn unknown() -> (r: FpWire)
        ensures
            r.value is None,
            r.wf(),
    {
        FpWire { value: None }
    }

    /// A boolean wire which is true exactly when this wire is zero.
    pub fn is_eq_zero(&self) -> (r: BoolWire)
        ensures
            r.value == (match self.value {
                Some(v) => Some(v == 0),
                None => None::<bool>,
            }),
    {
        match self.value {
            Some(v) => BoolWire { value: Some(v == 0) },
            None => BoolWire { value: None },
        }
    }
}

impl G1Wire {
    /// This wire's value is canonical if known.
    pub open spec fn wf(self) -> bool {
        opt_in_field(self.value)
    }

    /// Allocates a first-group wire with a known witness, reduced into the
    /// field.
    pub fn new_witness(v: u64) -> (r: G1Wire)
        ensures
            r.value == Some(freduce(v)),
            r.wf(),
    {
        G1Wire { value: Some(reduce(v)) }
    }

    /// Allocates a first-group wire whose witness is not known yet.
    pub fn unknown() -> (r: G1Wire)
        ensures
            r.value is None,
            r.wf(),
    {
        G1Wire { value: None }
    }
}

impl G2Wire {
    /// This wire's value is canonical if known.
    pub open spec fn wf(self) -> bool {
        opt_in_field(self.value)
    }

    /// Allocates a second-group wire with a known witness, reduced into the
    /// field.
    pub fn new_witness(v: u64) -> (r: G2Wire)
        ensures
            r.value == Some(freduce(v)),
            r.wf(),
    {
        G2Wire { value: Some(reduce(v)) }
    }

    /// Allocates a second-group wire whose witness is not known yet.
    pub fn unknown() -> (r: G2Wire)
        ensures
            r.value is None,
            r.wf(),
    {
        G2Wire { value: None }
    }

    /// The identity element of the second group.
    pub fn zero() -> (r: G2Wire)
        ensures
            r.value == Some(0u64),
            r.wf(),
    {
        G2Wire { value: Some(0) }
    }

    /// The group sum of this wire and another.
    pub fn group_add(&self, other: &G2Wire) -> (r: G2Wire)
        requires
            self.wf(),
            other.wf(),
        ensures
            r.value == opt_fadd(self.value, other.value),
            r.wf(),
    {
        match (self.value, other.value) {
            (Some(a), Some(b)) => G2Wire { value: Some(add_mod(a, b)) },
            _ => G2Wire { value: None },
        }
    }

    /// The group negation of this wire.
    pub fn negate(&self) -> (r: G2Wire)
        requires
            self.wf(),
        ensures
            r.value == opt_fneg(self.value),
            r.wf(),
    {
        match self.value {
            Some(a) => G2Wire { value: Some(neg_mod(a)) },
            None => G2Wire { value: None },
        }
    }
}

/// Every wire of a first-group sequence is canonical.
pub open spec fn g1_seq_wf(s: Seq<G1Wire>) -> bool {
    forall|i: int| 0 <= i < s.len() ==> #[trigger] s[i].wf()
}

/// Every wire of a second-group sequence is canonical.
pub open spec fn g2_seq_wf(s: Seq<G2Wire>) -> bool {
    forall|i: int| 0 <= i < s.len() ==> #[trigger] s[i].wf()
}

/// Constrains a raw sequence of possibly-unknown booleans into boolean wires,
/// one wire per entry, in order.
pub fn constrain_bool(values: &Vec<Option<bool>>) -> (r: Vec<BoolWire>)
    ensures
        r@.len() == values@.len(),
        forall|i: int| 0 <= i < values@.len() ==> #[trigger] r@[i] == (BoolWire {
            value: values@[i],
        }),
{
    let mut wires: Vec<BoolWire> = Vec::new();
    let mut i: usize = 0;
    while i < values.len()
        invariant
            i <= values@.len(),
            wires@.len() == i,
            forall|k: int| 0 <= k < i ==> #[trigger] wires@[k] == (BoolWire { value: values@[k] }),
        decreases values@.len() - i,
    {
        wires.push(BoolWire { value: values[i] });
        i = i + 1;
    }
    wires
}

/// Decomposes a possibly-unknown field value into its `SERIALIZED_BITS`
/// little-endian binary digits, as boolean wires.
pub fn decompose_bits(v: Option<u64>) -> (r: Vec<BoolWire>)
    ensures
        r@.len() == SERIALIZED_BITS,
        forall|j: int| 0 <= j < SERIALIZED_BITS ==> #[trigger] r@[j].value == opt_bit(v, j as u64),
{
    let mut bits: Vec<BoolWire> = Vec::new();
    let mut j: usize = 0;
    while j < SERIALIZED_BITS
        invariant
            j <= SERIALIZED_BITS,
            bits@.len() == j,
            forall|k: int| 0 <= k < j ==> #[trigger] bits@[k].value == opt_bit(v, k as u64),
        decreases SERIALIZED_BITS - j,
    {
        let wire = match v {
            Some(x) => BoolWire { value: Some(((x >> (j as u64)) & 1) == 1) },
            None => BoolWire { value: None },
        };
        bits.push(wire);
        j = j + 1;
    }
    bits
}

} // verus!
