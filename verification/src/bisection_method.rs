//! Root finding by bisection.
//!
//! A continuous function that is negative at one end of an interval and
//! positive at the other has a root in between. Halving the interval and
//! keeping the half over which the sign still changes closes in on it.

use crate::binary64::{Binary64, EPSILON_BITS, HALF_BITS};
use crate::real_func::{computes, is_total, is_total_unit, performs, Arithmetic, Operation, RealFunc};
use vstd::prelude::*;

verus! {

/// The most function evaluations at midpoints that one search makes: a double
/// has 52 fraction bits, so 64 halvings exhaust any interval of moderate width.
pub const MAXIMUM_NUMBER_OF_ITERATIONS: u32 = 64;

/// `0.5 * (x + y)` on the unit `unit`.
pub open spec fn spec_midpoint(unit: Arithmetic, x: Binary64, y: Binary64) -> Binary64 {
    unit(Operation::Multiply, Binary64 { bits: HALF_BITS }, unit(Operation::Add, x, y))
}

/// Whether a function value is as good as zero: `|eval| <= 2^-52`.
pub open spec fn spec_within_tolerance(eval: Binary64) -> bool {
    eval.spec_abs().spec_le(Binary64 { bits: EPSILON_BITS })
}

/// Computes `0.5 * (x + y)`.
pub fn midpoint<A: Fn(Operation, Binary64, Binary64) -> Binary64>(
    unit: &A,
    x: Binary64,
    y: Binary64,
) -> (middle: Binary64)
    requires
        is_total_unit(*unit),
    ensures
        forall|u: Arithmetic| #[trigger] performs(*unit, u) ==> middle == spec_midpoint(u, x, y),
{
    let sum = unit(Operation::Add, x, y);
    unit(Operation::Multiply, Binary64::from_bits(HALF_BITS), sum)
}

/// Tells whether a function value is as good as zero: `|eval| <= 2^-52`.
#[verifier::when_used_as_spec(spec_within_tolerance)]
pub fn within_tolerance(eval: Binary64) -> (close: bool)
    ensures
        close == spec_within_tolerance(eval),
{
    eval.abs().le(Binary64::from_bits(EPSILON_BITS))
}

/// The state of a search: the end at which the function is negative, the end
/// at which it is positive, and the point at which it is evaluated next.
/// `left` need not be the smaller end.
#[derive(Clone, Copy, Debug)]
pub struct Bracket {
    pub left: Binary64,
    pub right: Binary64,
    pub midpoint: Binary64,
}

impl Bracket {
    /// The sign of `f` changes over the bracket, or at least does not
    /// contradict it: `f` is not positive at `left` and not negative at `right`.
    pub open spec fn encloses_sign_change(self, f: RealFunc) -> bool {
        !f(self.left).spec_is_positive() && !f(self.right).spec_is_negative()
    }

    /// The number of steps on the line of doubles from one end to the other.
    pub open spec fn width(self) -> int {
        if self.left.ordinal() <= self.right.ordinal() {
            self.right.ordinal() - self.left.ordinal()
        } else {
            self.left.ordinal() - self.right.ordinal()
        }
    }

    /// Whether the number `x` lies between the ends, these included.
    pub open spec fn contains(self, x: Binary64) -> bool {
        &&& !x.spec_is_nan()
        &&& self.left.ordinal() <= x.ordinal() <= self.right.ordinal()
            || self.right.ordinal() <= x.ordinal() <= self.left.ordinal()
    }

    /// Whether both ends lie between the ends of `outer`.
    pub open spec fn within(self, outer: Bracket) -> bool {
        outer.contains(self.left) && outer.contains(self.right)
    }

    /// The end that gives way to the midpoint when the function has the value
    /// `eval` there.
    pub open spec fn replaced_end(self, eval: Binary64) -> Binary64 {
        if eval.spec_is_negative() {
            self.left
        } else {
            self.right
        }
    }

    /// Whether the midpoint cuts the bracket in two when the function has the
    /// value `eval` there: both ends are numbers, the midpoint lies between
    /// them, and it is not the end that it replaces.
    pub open spec fn splits(self, eval: Binary64) -> bool {
        &&& !self.left.spec_is_nan()
        &&& !self.right.spec_is_nan()
        &&& self.contains(self.midpoint)
        &&& self.midpoint.ordinal() != self.replaced_end(eval).ordinal()
    }

    /// Whether function values `a_eval` and `b_eval` at the two ends allow a
    /// bracket: the smaller of them is not positive and the greater not
    /// negative. Values that are both negative or both positive do not.
    /// Beside a NaN, which is neither smaller nor greater, `a_eval` must not
    /// be negative and `b_eval` not positive.
    pub open spec fn spec_admits(a_eval: Binary64, b_eval: Binary64) -> bool {
        if a_eval.spec_lt(b_eval) {
            !b_eval.spec_is_negative() && !a_eval.spec_is_positive()
        } else {
            !a_eval.spec_is_negative() && !b_eval.spec_is_positive()
        }
    }

    /// The bracket with ends `a` and `b`, where the function has the values
    /// `a_eval` and `b_eval`, if these allow one. The end with the smaller
    /// value becomes `left`.
    pub open spec fn spec_new(
        unit: Arithmetic,
        a: Binary64,
        b: Binary64,
        a_eval: Binary64,
        b_eval: Binary64,
    ) -> Option<Bracket> {
        if !Bracket::spec_admits(a_eval, b_eval) {
            None
        } else if a_eval.spec_lt(b_eval) {
            Some(Bracket { left: a, right: b, midpoint: spec_midpoint(unit, a, b) })
        } else {
            Some(Bracket { left: b, right: a, midpoint: spec_midpoint(unit, a, b) })
        }
    }

    /// The half of the bracket that is kept when the function has the value
    /// `eval` at the midpoint, with its own midpoint.
    pub open spec fn spec_narrow(self, unit: Arithmetic, eval: Binary64) -> Bracket {
        if eval.spec_is_negative() {
            Bracket {
                left: self.midpoint,
                right: self.right,
                midpoint: spec_midpoint(unit, self.midpoint, self.right),
            }
        } else {
            Bracket {
                left: self.left,
                right: self.midpoint,
                midpoint: spec_midpoint(unit, self.left, self.midpoint),
            }
        }
    }

    /// Sets up a search between `a` and `b`, given the function's values
    /// there. The end with the negative value becomes `left`, whichever of the
    /// two it is. There is no bracket where both values lie on one side of
    /// zero. The first midpoint is that of `a` and `b` in the order given.
    pub fn new<A: Fn(Operation, Binary64, Binary64) -> Binary64>(
        unit: &A,
        a: Binary64,
        b: Binary64,
        a_eval: Binary64,
        b_eval: Binary64,
    ) -> (bracket: Option<Bracket>)
        requires
            is_total_unit(*unit),
        ensures
            forall|u: Arithmetic| #[trigger]
                performs(*unit, u) ==> bracket == Bracket::spec_new(u, a, b, a_eval, b_eval),
            bracket is Some <==> Bracket::spec_admits(a_eval, b_eval),
            bracket matches Some(found) ==> {
                ||| found.left == a && found.right == b && a_eval.spec_lt(b_eval)
                    && !a_eval.spec_is_positive() && !b_eval.spec_is_negative()
                ||| found.left == b && found.right == a && !a_eval.spec_lt(b_eval)
                    && !b_eval.spec_is_positive() && !a_eval.spec_is_negative()
            },
            a_eval.spec_is_negative() && b_eval.spec_is_positive() ==> (bracket matches Some(found)
                && found.left == a && found.right == b),
            a_eval.spec_is_positive() && b_eval.spec_is_negative() ==> (bracket matches Some(found)
                && found.left == b && found.right == a),
            a_eval.spec_is_negative() && b_eval.spec_is_negative() ==> bracket is None,
            a_eval.spec_is_positive() && b_eval.spec_is_positive() ==> bracket is None,
    {
        if a_eval.lt(b_eval) {
            if b_eval.is_negative() || a_eval.is_positive() {
                return None;
            }
            Some(Bracket { left: a, right: b, midpoint: midpoint(unit, a, b) })
        } else {
            if a_eval.is_negative() || b_eval.is_positive() {
                return None;
            }
            Some(Bracket { left: b, right: a, midpoint: midpoint(unit, a, b) })
        }
    }

    /// Halves the bracket, given the function's value at the midpoint. Where
    /// that is negative the midpoint becomes the new `left`, else the new
    /// `right`; the other end stays. A sign change that the bracket enclosed
    /// is still enclosed, and where the midpoint cut the bracket in two the
    /// half lies inside it and is strictly narrower.
    pub fn narrow<A: Fn(Operation, Binary64, Binary64) -> Binary64>(
        self,
        unit: &A,
        eval: Binary64,
    ) -> (half: Bracket)
        requires
            is_total_unit(*unit),
        ensures
            forall|u: Arithmetic| #[trigger] performs(*unit, u) ==> half == self.spec_narrow(u, eval),
            eval.spec_is_negative() ==> half.left == self.midpoint && half.right == self.right,
            !eval.spec_is_negative() ==> half.left == self.left && half.right == self.midpoint,
            forall|m: RealFunc| #[trigger]
                self.encloses_sign_change(m) && m(self.midpoint) == eval
                    ==> half.encloses_sign_change(m),
            self.splits(eval) ==> half.within(self) && half.width() < self.width(),
    {
        if eval.is_negative() {
            Bracket {
                left: self.midpoint,
                right: self.right,
                midpoint: midpoint(unit, self.midpoint, self.right),
            }
        } else {
            Bracket {
                left: self.left,
                right: self.midpoint,
                midpoint: midpoint(unit, self.left, self.midpoint),
            }
        }
    }
}

/// The bracket after at most `steps` halvings, which stop early at a midpoint
/// where `f` is within tolerance of zero.
pub open spec fn bisection_iterate(f: RealFunc, unit: Arithmetic, bracket: Bracket, steps: nat) -> Bracket
    decreases steps,
{
    if steps == 0 || spec_within_tolerance(f(bracket.midpoint)) {
        bracket
    } else {
        bisection_iterate(f, unit, bracket.spec_narrow(unit, f(bracket.midpoint)), (steps - 1) as nat)
    }
}

/// What bisection of `f` between `a` and `b` returns.
pub open spec fn bisection_root(f: RealFunc, unit: Arithmetic, a: Binary64, b: Binary64) -> Binary64 {
    if f(a).spec_is_zero() {
        a
    } else if f(b).spec_is_zero() {
        b
    } else {
        match Bracket::spec_new(unit, a, b, f(a), f(b)) {
            None => Binary64::spec_nan(),
            Some(bracket) => bisection_iterate(
                f,
                unit,
                bracket,
                (MAXIMUM_NUMBER_OF_ITERATIONS - 1) as nat,
            ).midpoint,
        }
    }
}

/// Finds a root of `f` between `a` and `b` by bisection.
///
/// If `f` is zero at `a`, or else at `b`, that end is the answer. Otherwise
/// `f` must be negative at one end and positive at the other, in either
/// order; if it is not, the answer is a NaN. The search evaluates `f` at no
/// more than 63 midpoints and stops at the first where `|f| <= 2^-52`. The
/// answer is the last midpoint computed, whether or not `f` is small there.
pub fn bisection_method<F: Fn(Binary64) -> Binary64, A: Fn(Operation, Binary64, Binary64) -> Binary64>(
    f: F,
    unit: A,
    a: Binary64,
    b: Binary64,
) -> (root: Binary64)
    requires
        is_total(f),
        is_total_unit(unit),
    ensures
        forall|m: RealFunc, u: Arithmetic|
            #![trigger computes(f, m), performs(unit, u)]
            computes(f, m) && performs(unit, u) ==> root == bisection_root(m, u, a, b),
        forall|m: RealFunc| #[trigger] computes(f, m) && m(a).spec_is_zero() ==> root == a,
        forall|m: RealFunc| #[trigger]
            computes(f, m) && !m(a).spec_is_zero() && m(b).spec_is_zero() ==> root == b,
        forall|m: RealFunc| #[trigger]
            computes(f, m) && m(a).spec_is_negative() && m(b).spec_is_negative()
                ==> root.spec_is_nan(),
        forall|m: RealFunc| #[trigger]
            computes(f, m) && m(a).spec_is_positive() && m(b).spec_is_positive()
                ==> root.spec_is_nan(),
        forall|m: RealFunc, u: Arithmetic|
            #![trigger computes(f, m), performs(unit, u)]
            computes(f, m) && performs(unit, u) && !m(a).spec_is_zero() && !m(b).spec_is_zero()
                && Bracket::spec_admits(m(a), m(b)) && spec_within_tolerance(
                m(spec_midpoint(u, a, b)),
            ) ==> root == spec_midpoint(u, a, b),
{
    let a_eval = f(a);
    let b_eval = f(b);
    if a_eval.is_zero() {
        return a;
    }
    if b_eval.is_zero() {
        return b;
    }
    let mut bracket = match Bracket::new(&unit, a, b, a_eval, b_eval) {
        None => {
            return Binary64::nan();
        },
        Some(bracket) => bracket,
    };
    let ghost first = bracket;
    let mut iteration: u32 = 0;
    while iteration < MAXIMUM_NUMBER_OF_ITERATIONS - 1
        invariant
            is_total(f),
            is_total_unit(unit),
            iteration <= 63,
            forall|m: RealFunc, u: Arithmetic|
                #![trigger computes(f, m), performs(unit, u)]
                computes(f, m) && performs(unit, u) ==> bisection_iterate(
                    m,
                    u,
                    bracket,
                    (63 - iteration) as nat,
                ) == bisection_iterate(m, u, first, 63),
        ensures
            forall|m: RealFunc, u: Arithmetic|
                #![trigger computes(f, m), performs(unit, u)]
                computes(f, m) && performs(unit, u) ==> bracket == bisection_iterate(m, u, first, 63),
        decreases 63 - iteration,
    {
        let eval = f(bracket.midpoint);
        if within_tolerance(eval) {
            break;
        }
        bracket = bracket.narrow(&unit, eval);
        iteration = iteration + 1;
    }
    bracket.midpoint
}

/// A bracket that could be set up encloses a sign change: the function is not
/// positive at `left` and not negative at `right`.
pub proof fn lemma_new_encloses_sign_change(f: RealFunc, unit: Arithmetic, a: Binary64, b: Binary64)
    ensures
        Bracket::spec_new(unit, a, b, f(a), f(b)) matches Some(bracket)
            ==> bracket.encloses_sign_change(f),
{
}

/// Halving keeps the sign change enclosed.
pub proof fn lemma_narrow_encloses_sign_change(f: RealFunc, unit: Arithmetic, bracket: Bracket)
    requires
        bracket.encloses_sign_change(f),
    ensures
        bracket.spec_narrow(unit, f(bracket.midpoint)).encloses_sign_change(f),
{
}

/// The sign change stays enclosed throughout a search: after any number of
/// halvings the function is not positive at `left` and not negative at `right`.
pub proof fn lemma_iterate_encloses_sign_change(
    f: RealFunc,
    unit: Arithmetic,
    bracket: Bracket,
    steps: nat,
)
    requires
        bracket.encloses_sign_change(f),
    ensures
        bisection_iterate(f, unit, bracket, steps).encloses_sign_change(f),
    decreases steps,
{
    if steps != 0 && !spec_within_tolerance(f(bracket.midpoint)) {
        lemma_narrow_encloses_sign_change(f, unit, bracket);
        lemma_iterate_encloses_sign_change(
            f,
            unit,
            bracket.spec_narrow(unit, f(bracket.midpoint)),
            (steps - 1) as nat,
        );
    }
}

/// From the bracket that a search is set up with to the one it ends with,
/// the function is not positive at `left` and not negative at `right`.
pub proof fn lemma_bisection_encloses_sign_change(
    f: RealFunc,
    unit: Arithmetic,
    a: Binary64,
    b: Binary64,
    steps: nat,
)
    ensures
        Bracket::spec_new(unit, a, b, f(a), f(b)) matches Some(bracket) ==> bisection_iterate(
            f,
            unit,
            bracket,
            steps,
        ).encloses_sign_change(f),
{
    lemma_new_encloses_sign_change(f, unit, a, b);
    if let Some(bracket) = Bracket::spec_new(unit, a, b, f(a), f(b)) {
        lemma_iterate_encloses_sign_change(f, unit, bracket, steps);
    }
}

/// A halving at a midpoint that cuts the bracket in two leaves a bracket
/// inside the old one and strictly narrower.
pub proof fn lemma_narrow_shrinks(unit: Arithmetic, bracket: Bracket, eval: Binary64)
    requires
        bracket.splits(eval),
    ensures
        bracket.spec_narrow(unit, eval).within(bracket),
        bracket.spec_narrow(unit, eval).width() < bracket.width(),
{
}

/// A search stays where it is once the function is within tolerance at the
/// midpoint: no further halving changes the bracket.
pub proof fn lemma_iterate_converged(f: RealFunc, unit: Arithmetic, bracket: Bracket, steps: nat)
    requires
        spec_within_tolerance(f(bracket.midpoint)),
    ensures
        bisection_iterate(f, unit, bracket, steps) == bracket,
{
}

/// One more halving allowed is one more halving done on the result, unless
/// the search had stopped there.
pub proof fn lemma_iterate_one_more(f: RealFunc, unit: Arithmetic, bracket: Bracket, steps: nat)
    ensures
        bisection_iterate(f, unit, bracket, steps + 1) == ({
            let reached = bisection_iterate(f, unit, bracket, steps);
            if spec_within_tolerance(f(reached.midpoint)) {
                reached
            } else {
                reached.spec_narrow(unit, f(reached.midpoint))
            }
        }),
    decreases steps,
{
    let half = bracket.spec_narrow(unit, f(bracket.midpoint));
    if spec_within_tolerance(f(bracket.midpoint)) {
    } else if steps == 0 {
        assert(bisection_iterate(f, unit, bracket, 1) == bisection_iterate(f, unit, half, 0));
    } else {
        lemma_iterate_one_more(f, unit, half, (steps - 1) as nat);
        assert(bisection_iterate(f, unit, bracket, steps + 1) == bisection_iterate(
            f,
            unit,
            half,
            steps,
        ));
    }
}

/// Throughout a search whose midpoints cut their brackets in two, each
/// halving leaves a bracket inside the one before and strictly narrower; a
/// search that has stopped leaves the bracket as it is.
pub proof fn lemma_iterate_shrinks(f: RealFunc, unit: Arithmetic, bracket: Bracket, steps: nat)
    requires
        ({
            let reached = bisection_iterate(f, unit, bracket, steps);
            spec_within_tolerance(f(reached.midpoint)) || reached.splits(f(reached.midpoint))
        }),
    ensures
        ({
            let reached = bisection_iterate(f, unit, bracket, steps);
            let next = bisection_iterate(f, unit, bracket, steps + 1);
            if spec_within_tolerance(f(reached.midpoint)) {
                next == reached
            } else {
                next.within(reached) && next.width() < reached.width()
            }
        }),
{
    lemma_iterate_one_more(f, unit, bracket, steps);
    let reached = bisection_iterate(f, unit, bracket, steps);
    if !spec_within_tolerance(f(reached.midpoint)) {
        lemma_narrow_shrinks(unit, reached, f(reached.midpoint));
    }
}

/// A search that starts where the function is already within tolerance at
/// the first midpoint returns that midpoint.
pub proof fn lemma_bisection_root_converged(f: RealFunc, unit: Arithmetic, a: Binary64, b: Binary64)
    requires
        !f(a).spec_is_zero(),
        !f(b).spec_is_zero(),
        Bracket::spec_admits(f(a), f(b)),
        spec_within_tolerance(f(spec_midpoint(unit, a, b))),
    ensures
        bisection_root(f, unit, a, b) == spec_midpoint(unit, a, b),
{
}

} // verus!
