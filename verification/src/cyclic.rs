//! Counters that advance by one and wrap at a modulus.
//!
//! The oscillator's phase clock and the scheduler's track position are both
//! such counters; what is proved here is shared by the two.

use vstd::prelude::*;

verus! {

/// The counter's value after one step.
pub open spec fn wrap_next(value: nat, modulus: nat) -> nat {
    (value + 1) % modulus
}

/// The counter's value after `steps` single steps.
pub open spec fn wrap_advance(value: nat, modulus: nat, steps: nat) -> nat
    decreases steps,
{
    if steps == 0 {
        value
    } else {
        wrap_next(wrap_advance(value, modulus, (steps - 1) as nat), modulus)
    }
}

/// One step adds one, and goes back to zero from the last value below the
/// modulus.
pub proof fn lemma_wrap_next(value: nat, modulus: nat)
    requires
        value < modulus,
    ensures
        wrap_next(value, modulus) == if value + 1 == modulus {
            0
        } else {
            value + 1
        },
        wrap_next(value, modulus) < modulus,
{
    let v = value as int;
    let m = modulus as int;
    if v + 1 == m {
        assert((v + 1) % m == 0) by (nonlinear_arith)
            requires
                v + 1 == m,
                m > 0,
        ;
    } else {
        assert((v + 1) % m == v + 1) by (nonlinear_arith)
            requires
                0 <= v + 1 < m,
        ;
    }
}

/// One more step after `steps` steps in closed form is `steps + 1` steps in closed form.
pub proof fn lemma_wrap_step(value: nat, modulus: nat, steps: nat)
    requires
        modulus > 0,
    ensures
        wrap_next((value + steps) % modulus, modulus) == (value + steps + 1) % modulus,
{
    let m = modulus as int;
    let x = (value + steps) as int;
    assert(((x % m) + 1) % m == (x + 1) % m) by (nonlinear_arith)
        requires
            m > 0,
            x >= 0,
    ;
}

/// Stepping a counter `steps` times adds `steps` to it modulo the modulus.
pub proof fn lemma_wrap_advance(value: nat, modulus: nat, steps: nat)
    requires
        modulus > 0,
        value < modulus,
    ensures
        wrap_advance(value, modulus, steps) == (value + steps) % modulus,
    decreases steps,
{
    if steps == 0 {
        assert(value % modulus == value) by (nonlinear_arith)
            requires
                value < modulus,
        ;
    } else {
        let before = (steps - 1) as nat;
        lemma_wrap_advance(value, modulus, before);
        lemma_wrap_step(value, modulus, before);
    }
}

/// A counter is back where it started after as many steps as its modulus.
pub proof fn lemma_wrap_period(value: nat, modulus: nat)
    requires
        modulus > 0,
        value < modulus,
    ensures
        wrap_advance(value, modulus, modulus) == value,
{
    lemma_wrap_advance(value, modulus, modulus);
    let m = modulus as int;
    let v = value as int;
    assert((v + m) % m == v) by (nonlinear_arith)
        requires
            m > 0,
            0 <= v < m,
    ;
}

} // verus!
