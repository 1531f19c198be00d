//! Arithmetic in the scalar field of the model curve.
//!
//! Wire values live in the prime field of `FIELD_MODULUS` (the Mersenne prime
//! `2^31 - 1`). The spec functions `fadd`, `fmul`, `fneg` and `freduce` are
//! the mathematical model that every contract in the crate speaks of; the
//! executable functions compute them and are proved to.

use vstd::prelude::*;

verus! {

/// The prime modulus of the scalar field: the Mersenne prime `2^31 - 1`.
/// Every canonical wire value lies in `[0, FIELD_MODULUS)`.
pub const FIELD_MODULUS: u64 = 2147483647;

/// A value is a canonical field element when it is reduced modulo the field.
pub open spec fn in_field(v: u64) -> bool {
    v < FIELD_MODULUS
}

/// Reduction of an arbitrary machine word into the field.
pub open spec fn freduce(v: u64) -> u64 {
    ((v as int) % (FIELD_MODULUS as int)) as u64
}

/// Field addition on canonical representatives.
pub open spec fn fadd(a: u64, b: u64) -> u64 {
    (((a as int) + (b as int)) % (FIELD_MODULUS as int)) as u64
}

/// Field multiplication on canonical representatives.
pub open spec fn fmul(a: u64, b: u64) -> u64 {
    (((a as int) * (b as int)) % (FIELD_MODULUS as int)) as u64
}

/// Field negation on canonical representatives.
pub open spec fn fneg(a: u64) -> u64 {
    (((FIELD_MODULUS as int) - (a as int)) % (FIELD_MODULUS as int)) as u64
}

/// Reduces a machine word into the field.
pub fn reduce(v: u64) -> (r: u64)
    ensures
        r == freduce(v),
        in_field(r),
{
    v % FIELD_MODULUS
}

/// Adds two canonical field elements.
pub fn add_mod(a: u64, b: u64) -> (r: u64)
    requires
        in_field(a),
        in_field(b),
    ensures
        r == fadd(a, b),
        in_field(r),
{
    (a + b) % FIELD_MODULUS
}

/// Multiplies two canonical field elements.
pub fn mul_mod(a: u64, b: u64) -> (r: u64)
    requires
        in_field(a),
        in_field(b),
    ensures
        r == fmul(a, b),
        in_field(r),
{
    proof {
        assert((a as int) * (b as int) <= 2147483646int * 2147483646int) by (nonlinear_arith)
            requires
                a as int <= 2147483646,
                b as int <= 2147483646,
                0 <= a as int,
                0 <= b as int,
        ;
    }
    (a * b) % FIELD_MODULUS
}

/// Negates a canonical field element.
pub fn neg_mod(a: u64) -> (r: u64)
    requires
        in_field(a),
    ensures
        r == fneg(a),
        in_field(r),
{
    if a == 0 {
        0
    } else {
        FIELD_MODULUS - a
    }
}

/// Addition of two canonical elements stays canonical.
pub proof fn lemma_fadd_in_field(a: u64, b: u64)
    ensures
        in_field(fadd(a, b)),
{
    vstd::arithmetic::div_mod::lemma_mod_bound((a as int) + (b as int), FIELD_MODULUS as int);
}

/// Multiplication of two canonical elements stays canonical.
pub proof fn lemma_fmul_in_field(a: u64, b: u64)
    ensures
        in_field(fmul(a, b)),
{
    vstd::arithmetic::mul::lemma_mul_nonnegative(a as int, b as int);
    vstd::arithmetic::div_mod::lemma_mod_bound((a as int) * (b as int), FIELD_MODULUS as int);
}

/// Negation of a canonical element stays canonical, and agrees with the
/// branch-free description `0 -> 0`, `a -> FIELD_MODULUS - a`.
pub proof fn lemma_fneg_canonical(a: u64)
    requires
        in_field(a),
    ensures
        in_field(fneg(a)),
        a == 0 ==> fneg(a) == 0,
        a != 0 ==> fneg(a) == FIELD_MODULUS - a,
{
    let m = FIELD_MODULUS as int;
    if a == 0 {
        vstd::arithmetic::div_mod::lemma_mod_self_0(m);
    } else {
        vstd::arithmetic::div_mod::lemma_small_mod((m - a as int) as nat, m as nat);
    }
}

/// Adding the additive identity leaves a canonical element unchanged.
pub proof fn lemma_fadd_zero(a: u64)
    requires
        in_field(a),
    ensures
        fadd(0, a) == a,
        fadd(a, 0) == a,
{
    vstd::arithmetic::div_mod::lemma_small_mod(a as nat, FIELD_MODULUS as nat);
}

/// Multiplying by the negation of one negates: `x * (-1) == -x` in the field.
pub proof fn lemma_fmul_neg_one(x: u64)
    requires
        in_field(x),
    ensures
        fmul(x, fneg(1)) == fneg(x),
{
    let m = FIELD_MODULUS as int;
    lemma_fneg_canonical(1);
    assert(fneg(1) == m - 1);
    // x * (m - 1) == m * x + (-x), so both sides reduce to (-x) mod m.
    assert((x as int) * (m - 1) == m * (x as int) + (-(x as int))) by (nonlinear_arith);
    vstd::arithmetic::div_mod::lemma_mod_multiples_vanish(x as int, -(x as int), m);
    vstd::arithmetic::div_mod::lemma_mod_multiples_vanish(1int, -(x as int), m);
    assert((m * 1int + (-(x as int))) == m - x as int);
    if x == 0 {
        vstd::arithmetic::div_mod::lemma_mod_self_0(m);
        lemma_fneg_canonical(0);
    } else {
        vstd::arithmetic::div_mod::lemma_small_mod((m - x as int) as nat, m as nat);
        lemma_fneg_canonical(x);
    }
}

/// Multiplication distributes over addition in the field.
pub proof fn lemma_fmul_distributes(m: u64, a: u64, b: u64)
    ensures
        fmul(m, fadd(a, b)) == fadd(fmul(m, a), fmul(m, b)),
{
    let q = FIELD_MODULUS as int;
    vstd::arithmetic::div_mod::lemma_mul_mod_noop_right(m as int, a as int + b as int, q);
    assert((m as int) * (a as int + b as int) == (m as int) * (a as int) + (m as int) * (
    b as int)) by (nonlinear_arith);
    vstd::arithmetic::div_mod::lemma_add_mod_noop(
        (m as int) * (a as int),
        (m as int) * (b as int),
        q,
    );
}

/// The sum of a canonical element's negation with a canonical element is the
/// additive identity exactly when the two elements are equal.
pub proof fn lemma_fneg_add_cancels(x: u64, y: u64)
    requires
        in_field(x),
        in_field(y),
    ensures
        (fadd(fneg(x), y) == 0) <==> x == y,
{
    let m = FIELD_MODULUS as int;
    lemma_fneg_canonical(x);
    if x == y {
        if x == 0 {
            vstd::arithmetic::div_mod::lemma_small_mod(0nat, m as nat);
        } else {
            // (m - x) + x == m, and m mod m == 0.
            vstd::arithmetic::div_mod::lemma_mod_self_0(m);
        }
    } else {
        let n = fneg(x) as int;
        let s = n + y as int;
        if x == 0 {
            // s == y, with 0 < y < m.
            vstd::arithmetic::div_mod::lemma_small_mod(y as nat, m as nat);
        } else if y < x {
            // s == m - (x - y), with 0 < s < m.
            vstd::arithmetic::div_mod::lemma_small_mod(s as nat, m as nat);
        } else {
            // s == m + (y - x); one multiple of m vanishes, leaving y - x != 0.
            vstd::arithmetic::div_mod::lemma_mod_multiples_vanish(1int, (y - x) as int, m);
            vstd::arithmetic::div_mod::lemma_small_mod((y - x) as nat, m as nat);
        }
    }
}

} // verus!
