//! Functions handed to the solvers: the function whose root is sought, and
//! the floating-point unit that does the solvers' arithmetic.
//!
//! Both are ordinary callables on doubles. A solver asks of them only that
//! they accept every argument. Its contract speaks of mathematical functions:
//! whatever function the callable computes, the solver's result is the
//! stated expression in that function.

use crate::binary64::Binary64;
use vstd::prelude::*;

verus! {

/// The four operations that a solver asks of the floating-point unit.
#[derive(Clone, Copy, Debug)]
pub enum Operation {
    /// `x + y`
    Add,
    /// `x - y`
    Subtract,
    /// `x * y`
    Multiply,
    /// `x / y`
    Divide,
}

/// A function of one double, as a mathematical object.
pub type RealFunc = spec_fn(Binary64) -> Binary64;

/// A floating-point unit, as a mathematical object: the result of each
/// operation on each pair of doubles.
pub type Arithmetic = spec_fn(Operation, Binary64, Binary64) -> Binary64;

/// `f` may be called on every double.
pub open spec fn is_total<F: Fn(Binary64) -> Binary64>(f: F) -> bool {
    forall|x: Binary64| #[trigger] f.requires((x,))
}

/// `f` computes `model`: whatever `f` returns on `x` is `model(x)`.
pub open spec fn computes<F: Fn(Binary64) -> Binary64>(f: F, model: RealFunc) -> bool {
    forall|x: Binary64, y: Binary64| #[trigger] f.ensures((x,), y) ==> y == model(x)
}

/// `unit` may be asked for every operation on every pair of doubles.
pub open spec fn is_total_unit<A: Fn(Operation, Binary64, Binary64) -> Binary64>(unit: A) -> bool {
    forall|op: Operation, x: Binary64, y: Binary64| #[trigger] unit.requires((op, x, y))
}

/// `unit` performs `model`: whatever `unit` returns for `op` on `x` and `y`
/// is `model(op, x, y)`.
pub open spec fn performs<A: Fn(Operation, Binary64, Binary64) -> Binary64>(
    unit: A,
    model: Arithmetic,
) -> bool {
    forall|op: Operation, x: Binary64, y: Binary64, r: Binary64| #[trigger]
        unit.ensures((op, x, y), r) ==> r == model(op, x, y)
}

} // verus!
