//! Root finding by Steffensen's method.
//!
//! Newton's method without a derivative: the slope of `f` at `x` is taken
//! from `f` itself, as `f(x + f(x)) / f(x) - 1`. Near a simple root the
//! iterates converge quadratically.

use crate::binary64::{Binary64, FOUR_EPSILON_BITS, ONE_BITS};
use crate::real_func::{computes, is_total, is_total_unit, performs, Arithmetic, Operation, RealFunc};
use vstd::prelude::*;

verus! {

/// The most updates that one search makes.
pub const MAXIMUM_NUMBER_OF_ITERATIONS: u32 = 16;

/// Whether a function value ends the search: `|eval| < 2^-50`.
pub open spec fn spec_is_small(eval: Binary64) -> bool {
    eval.spec_abs().spec_lt(Binary64 { bits: FOUR_EPSILON_BITS })
}

/// The slope that stands in for the derivative at a point where the
/// function has the value `eval`: `f(x + eval) / eval - 1`.
pub open spec fn spec_slope(f: RealFunc, unit: Arithmetic, x: Binary64, eval: Binary64) -> Binary64 {
    unit(
        Operation::Subtract,
        unit(Operation::Divide, f(unit(Operation::Add, x, eval)), eval),
        Binary64 { bits: ONE_BITS },
    )
}

/// The iterate after `x`: `x - f(x) / slope`.
pub open spec fn spec_steffensen_step(f: RealFunc, unit: Arithmetic, x: Binary64) -> Binary64 {
    unit(Operation::Subtract, x, unit(Operation::Divide, f(x), spec_slope(f, unit, x, f(x))))
}

/// The iterate reached from `x` in at most `steps` updates. The update at a
/// point where `f` is small is the last one.
pub open spec fn steffensen_iterate(f: RealFunc, unit: Arithmetic, x: Binary64, steps: nat) -> Binary64
    decreases steps,
{
    if steps == 0 {
        x
    } else if spec_is_small(f(x)) {
        spec_steffensen_step(f, unit, x)
    } else {
        steffensen_iterate(f, unit, spec_steffensen_step(f, unit, x), (steps - 1) as nat)
    }
}

/// Tells whether a function value ends the search: `|eval| < 2^-50`.
#[verifier::when_used_as_spec(spec_is_small)]
pub fn is_small(eval: Binary64) -> (small: bool)
    ensures
        small == spec_is_small(eval),
{
    eval.abs().lt(Binary64::from_bits(FOUR_EPSILON_BITS))
}

/// Makes one update from `x`, where `f` has the value `eval`: returns
/// `x - eval / (f(x + eval) / eval - 1)`.
pub fn steffensen_step<F: Fn(Binary64) -> Binary64, A: Fn(Operation, Binary64, Binary64) -> Binary64>(
    f: &F,
    unit: &A,
    x: Binary64,
    eval: Binary64,
) -> (next: Binary64)
    requires
        is_total(*f),
        is_total_unit(*unit),
    ensures
        forall|m: RealFunc, u: Arithmetic|
            #![trigger computes(*f, m), performs(*unit, u)]
            computes(*f, m) && performs(*unit, u) ==> next == u(
                Operation::Subtract,
                x,
                u(Operation::Divide, eval, spec_slope(m, u, x, eval)),
            ),
{
    let shifted = unit(Operation::Add, x, eval);
    let ratio = unit(Operation::Divide, f(shifted), eval);
    let slope = unit(Operation::Subtract, ratio, Binary64::from_bits(ONE_BITS));
    unit(Operation::Subtract, x, unit(Operation::Divide, eval, slope))
}

/// Finds a root of `f` near `x` by Steffensen's method.
///
/// Makes at most 16 updates. The test for a small function value uses the
/// value from before the update, so the update at a point where
/// `|f| < 2^-50` is still made, and is the last. Nothing is checked: where
/// the slope comes out zero or the iterates run away, the answer is an
/// infinity or a NaN.
pub fn steffensens_method<F: Fn(Binary64) -> Binary64, A: Fn(Operation, Binary64, Binary64) -> Binary64>(
    f: F,
    unit: A,
    x: Binary64,
) -> (root: Binary64)
    requires
        is_total(f),
        is_total_unit(unit),
    ensures
        forall|m: RealFunc, u: Arithmetic|
            #![trigger computes(f, m), performs(unit, u)]
            computes(f, m) && performs(unit, u) ==> root == steffensen_iterate(
                m,
                u,
                x,
                MAXIMUM_NUMBER_OF_ITERATIONS as nat,
            ),
        forall|m: RealFunc, u: Arithmetic|
            #![trigger computes(f, m), performs(unit, u)]
            computes(f, m) && performs(unit, u) && spec_is_small(m(x)) ==> root
                == spec_steffensen_step(m, u, x),
{
    let mut xn: Binary64 = x;
    let mut iteration: u32 = 0;
    while iteration < MAXIMUM_NUMBER_OF_ITERATIONS
        invariant_except_break
            forall|m: RealFunc, u: Arithmetic|
                #![trigger computes(f, m), performs(unit, u)]
                computes(f, m) && performs(unit, u) ==> steffensen_iterate(
                    m,
                    u,
                    xn,
                    (MAXIMUM_NUMBER_OF_ITERATIONS - iteration) as nat,
                ) == steffensen_iterate(m, u, x, MAXIMUM_NUMBER_OF_ITERATIONS as nat),
        invariant
            is_total(f),
            is_total_unit(unit),
            iteration <= MAXIMUM_NUMBER_OF_ITERATIONS,
        ensures
            forall|m: RealFunc, u: Arithmetic|
                #![trigger computes(f, m), performs(unit, u)]
                computes(f, m) && performs(unit, u) ==> xn == steffensen_iterate(
                    m,
                    u,
                    x,
                    MAXIMUM_NUMBER_OF_ITERATIONS as nat,
                ),
        decreases MAXIMUM_NUMBER_OF_ITERATIONS - iteration,
    {
        let f_xn = f(xn);
        xn = steffensen_step(&f, &unit, xn, f_xn);
        if is_small(f_xn) {
            break;
        }
        iteration = iteration + 1;
    }
    xn
}

/// A search that starts where `f` is already small makes one update and
/// stops, however many it may make.
pub proof fn lemma_steffensen_converged(f: RealFunc, unit: Arithmetic, x: Binary64, steps: nat)
    requires
        spec_is_small(f(x)),
        steps > 0,
    ensures
        steffensen_iterate(f, unit, x, steps) == spec_steffensen_step(f, unit, x),
{
}

} // verus!
