//! Square roots by Heron's method.
//!
//! The mean of a guess and of `x` over the guess is a better guess at the
//! square root of `x`: Newton's method on `y^2 - x`. From any positive start
//! the guesses converge quadratically.

use crate::binary64::{Binary64, EPSILON_BITS, HALF_BITS};
use crate::real_func::{is_total_unit, performs, Arithmetic, Operation};
use vstd::prelude::*;

verus! {

/// One more than the most updates that one computation makes.
pub const MAXIMUM_NUMBER_OF_ITERATIONS: u32 = 16;

/// Whether a relative error ends the computation: `|error| <= 2^-52`.
pub open spec fn spec_is_negligible(error: Binary64) -> bool {
    error.spec_abs().spec_le(Binary64 { bits: EPSILON_BITS })
}

/// How far the square of `approximate_root` is from `x`, relative to `x`:
/// `(x - approximate_root^2) / x`.
pub open spec fn spec_relative_error(unit: Arithmetic, x: Binary64, approximate_root: Binary64) -> Binary64 {
    unit(
        Operation::Divide,
        unit(Operation::Subtract, x, unit(Operation::Multiply, approximate_root, approximate_root)),
        x,
    )
}

/// The guess after `approximate_root`:
/// `0.5 * (approximate_root + x / approximate_root)`.
pub open spec fn spec_heron_step(unit: Arithmetic, x: Binary64, approximate_root: Binary64) -> Binary64 {
    unit(
        Operation::Multiply,
        Binary64 { bits: HALF_BITS },
        unit(Operation::Add, approximate_root, unit(Operation::Divide, x, approximate_root)),
    )
}

/// The guess reached from `approximate_root` in at most `steps` updates,
/// which stop early at a guess whose relative error is negligible.
pub open spec fn heron_iterate(unit: Arithmetic, x: Binary64, approximate_root: Binary64, steps: nat) -> Binary64
    decreases steps,
{
    if steps == 0 || spec_is_negligible(spec_relative_error(unit, x, approximate_root)) {
        approximate_root
    } else {
        heron_iterate(unit, x, spec_heron_step(unit, x, approximate_root), (steps - 1) as nat)
    }
}

/// Tells whether a relative error ends the computation: `|error| <= 2^-52`.
#[verifier::when_used_as_spec(spec_is_negligible)]
pub fn is_negligible(error: Binary64) -> (negligible: bool)
    ensures
        negligible == spec_is_negligible(error),
{
    error.abs().le(Binary64::from_bits(EPSILON_BITS))
}

/// Computes `(x - approximate_root^2) / x`.
pub fn relative_error<A: Fn(Operation, Binary64, Binary64) -> Binary64>(
    unit: &A,
    x: Binary64,
    approximate_root: Binary64,
) -> (error: Binary64)
    requires
        is_total_unit(*unit),
    ensures
        forall|u: Arithmetic| #[trigger]
            performs(*unit, u) ==> error == spec_relative_error(u, x, approximate_root),
{
    let square = unit(Operation::Multiply, approximate_root, approximate_root);
    unit(Operation::Divide, unit(Operation::Subtract, x, square), x)
}

/// Computes `0.5 * (approximate_root + x / approximate_root)`.
pub fn heron_step<A: Fn(Operation, Binary64, Binary64) -> Binary64>(
    unit: &A,
    x: Binary64,
    approximate_root: Binary64,
) -> (next: Binary64)
    requires
        is_total_unit(*unit),
    ensures
        forall|u: Arithmetic| #[trigger]
            performs(*unit, u) ==> next == spec_heron_step(u, x, approximate_root),
{
    let quotient = unit(Operation::Divide, x, approximate_root);
    let sum = unit(Operation::Add, approximate_root, quotient);
    unit(Operation::Multiply, Binary64::from_bits(HALF_BITS), sum)
}

/// Approximates the square root of `x`, which is meant to be positive.
///
/// Starts from `x` itself and makes at most 15 updates, stopping at the
/// first guess whose square is within `2^-52` of `x`, relative to `x`. The
/// sign of `x` is not checked: for other `x` the computation still ends, and
/// its answer means nothing.
pub fn herons_method<A: Fn(Operation, Binary64, Binary64) -> Binary64>(unit: A, x: Binary64) -> (root:
    Binary64)
    requires
        is_total_unit(unit),
    ensures
        forall|u: Arithmetic| #[trigger]
            performs(unit, u) ==> root == heron_iterate(
                u,
                x,
                x,
                (MAXIMUM_NUMBER_OF_ITERATIONS - 1) as nat,
            ),
        forall|u: Arithmetic| #[trigger]
            performs(unit, u) && spec_is_negligible(spec_relative_error(u, x, x)) ==> root == x,
{
    let mut approximate_root: Binary64 = x;
    let mut iteration: u32 = 0;
    while iteration < MAXIMUM_NUMBER_OF_ITERATIONS - 1
        invariant
            is_total_unit(unit),
            iteration <= MAXIMUM_NUMBER_OF_ITERATIONS - 1,
            forall|u: Arithmetic| #[trigger]
                performs(unit, u) ==> heron_iterate(
                    u,
                    x,
                    approximate_root,
                    (MAXIMUM_NUMBER_OF_ITERATIONS - 1 - iteration) as nat,
                ) == heron_iterate(u, x, x, (MAXIMUM_NUMBER_OF_ITERATIONS - 1) as nat),
        ensures
            forall|u: Arithmetic| #[trigger]
                performs(unit, u) ==> approximate_root == heron_iterate(
                    u,
                    x,
                    x,
                    (MAXIMUM_NUMBER_OF_ITERATIONS - 1) as nat,
                ),
        decreases MAXIMUM_NUMBER_OF_ITERATIONS - 1 - iteration,
    {
        let error = relative_error(&unit, x, approximate_root);
        if is_negligible(error) {
            break;
        }
        approximate_root = heron_step(&unit, x, approximate_root);
        iteration = iteration + 1;
    }
    approximate_root
}

/// A guess whose relative error is negligible is returned as it is, however
/// many updates are allowed.
pub proof fn lemma_heron_converged(unit: Arithmetic, x: Binary64, approximate_root: Binary64, steps: nat)
    requires
        spec_is_negligible(spec_relative_error(unit, x, approximate_root)),
    ensures
        heron_iterate(unit, x, approximate_root, steps) == approximate_root,
{
}

/// A result at which the computation stopped for a negligible error is a
/// fixed point: started again from it, the computation returns it at once.
pub proof fn lemma_heron_idempotent(
    unit: Arithmetic,
    x: Binary64,
    approximate_root: Binary64,
    steps: nat,
    again: nat,
)
    requires
        spec_is_negligible(
            spec_relative_error(unit, x, heron_iterate(unit, x, approximate_root, steps)),
        ),
    ensures
        heron_iterate(unit, x, heron_iterate(unit, x, approximate_root, steps), again)
            == heron_iterate(unit, x, approximate_root, steps),
{
}

} // verus!
