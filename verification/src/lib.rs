//! Fixed-step explicit Euler integration of autonomous first-order
//! ordinary differential equations of the form `dy/dx = f(y)`.
//!
//! An [`OrdinaryDifferentialEquation`] pairs a right-hand side `f` with an
//! initial condition; an [`OdeSolver`] walks from the initial point to a
//! target point in fixed increments, advancing the estimate by
//! `step_size * f(current_value)` at every step.  All quantities are machine
//! integers, so every arithmetic step is exact and proved free of overflow.

use vstd::arithmetic::div_mod::lemma_basic_div;
use vstd::arithmetic::div_mod::lemma_div_is_ordered_by_denominator;
use vstd::arithmetic::div_mod::lemma_div_plus_one;
use vstd::prelude::*;

verus! {

/// A scalar function of one variable: the right-hand side `f` of an
/// autonomous equation `dy/dx = f(y)`.
///
/// `eval_spec` gives the mathematical meaning of the function and
/// `evaluate` computes exactly that value, so every implementation is a
/// pure, total function on the values it accepts.
pub trait ScalarFunction: Sized {
    /// The mathematical value of the function at `x`.
    spec fn eval_spec(&self, x: int) -> int;

    /// Computes the function at `x`.
    fn evaluate(&self, x: i64) -> (r: i64)
        ensures
            r as int == self.eval_spec(x as int),
    ;
}

/// The identity function `f(y) = y`.
pub struct IdentityFunction;

impl ScalarFunction for IdentityFunction {
    open spec fn eval_spec(&self, x: int) -> int {
        x
    }

    fn evaluate(&self, x: i64) -> (r: i64) {
        x
    }
}

/// The constant function `f(y) = value`, the simplest non-identity
/// right-hand side: it gives an equation with a constant slope.
pub struct ConstantFunction {
    pub value: i64,
}

impl ScalarFunction for ConstantFunction {
    open spec fn eval_spec(&self, x: int) -> int {
        self.value as int
    }

    fn evaluate(&self, _x: i64) -> (r: i64) {
        self.value
    }
}

/// A named autonomous equation `dy/dx = f(y)` together with the initial
/// condition `y(initial_pt) == initial_value`.
///
/// The name is informational only; no uniqueness is enforced.  A value is
/// never mutated after construction.
pub struct OrdinaryDifferentialEquation<F: ScalarFunction> {
    pub name: String,
    pub ode: F,
    pub initial_pt: i64,
    pub initial_value: i64,
}

impl<F: ScalarFunction> OrdinaryDifferentialEquation<F> {
    /// Builds an equation from a name, a right-hand side and an initial
    /// condition.  No validation is performed: every input is accepted
    /// as it is.
    pub fn new(name: &str, ode: F, initial_pt: i64, initial_value: i64) -> (r: Self)
        ensures
            r.name@ == name@,
            r.ode == ode,
            r.initial_pt == initial_pt,
            r.initial_value == initial_value,
    {
        OrdinaryDifferentialEquation { name: name.to_string(), ode, initial_pt, initial_value }
    }

    /// Evaluates the right-hand side directly at `at`.
    pub fn evaluate_at(&self, at: i64) -> (r: i64)
        ensures
            r as int == self.ode.eval_spec(at as int),
    {
        self.ode.evaluate(at)
    }
}

/// One forward Euler step: the estimate `value` advanced by
/// `step * f(value)`.
pub open spec fn euler_step<F: ScalarFunction>(f: F, value: int, step: int) -> int {
    value + step * f.eval_spec(value)
}

/// The estimate after `n` forward Euler steps of size `step` starting
/// from `value`.
pub open spec fn euler_iter<F: ScalarFunction>(f: F, value: int, step: int, n: nat) -> int
    decreases n,
{
    if n == 0 {
        value
    } else {
        euler_iter(f, euler_step(f, value, step), step, (n - 1) as nat)
    }
}

/// How many increments of `step` it takes to move `current` up to or past
/// `target`: zero when `current` has already reached `target` or when the
/// step is not positive (no progress is ever made then).
pub open spec fn step_count(current: int, target: int, step: int) -> nat
    decreases (if step > 0 && current < target { target - current } else { 0 }),
{
    if step > 0 && current < target {
        (1 + step_count(current + step, target, step)) as nat
    } else {
        0
    }
}

/// Every intermediate estimate of `n` forward Euler steps from `value`,
/// and every intermediate product `step * f(value)`, stays within the
/// bounds of `i64`.
pub open spec fn euler_in_range<F: ScalarFunction>(f: F, value: int, step: int, n: nat) -> bool
    decreases n,
{
    n > 0 ==> {
        &&& i64::MIN <= step * f.eval_spec(value) <= i64::MAX
        &&& i64::MIN <= euler_step(f, value, step) <= i64::MAX
        &&& euler_in_range(f, euler_step(f, value, step), step, (n - 1) as nat)
    }
}

/// A fixed-step explicit Euler integrator bound to one equation.
///
/// The integrator borrows the equation it solves and holds no other state:
/// every call to [`OdeSolver::solve_at`] recomputes from the equation's
/// initial condition.
pub struct OdeSolver<'a, F: ScalarFunction> {
    pub ode: &'a OrdinaryDifferentialEquation<F>,
    pub step_size: i64,
}

impl<'a, F: ScalarFunction> OdeSolver<'a, F> {
    /// Binds an integrator to an equation with the given step size.
    pub fn new(ode: &'a OrdinaryDifferentialEquation<F>, step_size: i64) -> (r: Self)
        ensures
            r.ode == ode,
            r.step_size == step_size,
    {
        OdeSolver { ode, step_size }
    }

    /// Approximates the equation's value at `at` by forward Euler stepping
    /// from the initial condition.
    ///
    /// The right-hand side is applied to the current accumulated value,
    /// never to the current abscissa: the equation is taken to be
    /// autonomous, `dy/dx = f(y)`.
    ///
    /// The returned value is exactly `euler_iter` applied for
    /// `step_count(initial_pt, at, step_size)` steps; in particular the
    /// initial value comes back unchanged whenever `at` does not lie beyond
    /// the initial point, and the last step may overshoot `at` (no
    /// fractional final step is taken).
    ///
    /// When `at` lies beyond the initial point the step size must be
    /// positive: with a step of zero or less the stepping loop would never
    /// reach the target, so such calls are ruled out here instead of
    /// looping forever.  The remaining preconditions only keep every
    /// intermediate quantity within `i64`.
    pub fn solve_at(&self, at: i64) -> (r: i64)
        requires
            at > self.ode.initial_pt ==> self.step_size > 0,
            at > self.ode.initial_pt ==> at + self.step_size <= i64::MAX,
            euler_in_range(
                self.ode.ode,
                self.ode.initial_value as int,
                self.step_size as int,
                step_count(self.ode.initial_pt as int, at as int, self.step_size as int),
            ),
        ensures
            r as int == euler_iter(
                self.ode.ode,
                self.ode.initial_value as int,
                self.step_size as int,
                step_count(self.ode.initial_pt as int, at as int, self.step_size as int),
            ),
            at <= self.ode.initial_pt ==> r == self.ode.initial_value,
    {
        let mut current_step: i64 = self.ode.initial_pt;
        let mut current_value: i64 = self.ode.initial_value;
        while current_step < at
            invariant
                current_step < at ==> self.step_size > 0,
                current_step < at ==> at + self.step_size <= i64::MAX,
                euler_in_range(
                    self.ode.ode,
                    current_value as int,
                    self.step_size as int,
                    step_count(current_step as int, at as int, self.step_size as int),
                ),
                euler_iter(
                    self.ode.ode,
                    current_value as int,
                    self.step_size as int,
                    step_count(current_step as int, at as int, self.step_size as int),
                ) == euler_iter(
                    self.ode.ode,
                    self.ode.initial_value as int,
                    self.step_size as int,
                    step_count(self.ode.initial_pt as int, at as int, self.step_size as int),
                ),
            decreases step_count(current_step as int, at as int, self.step_size as int),
        {
            let f_val = self.ode.ode.evaluate(current_value);
            current_step = current_step + self.step_size;
            current_value = current_value + self.step_size * f_val;
        }
        current_value
    }
}

/// For an equation whose right-hand side is the identity function,
/// direct evaluation returns its argument unchanged, whatever the
/// initial condition; together with the contract of
/// [`OrdinaryDifferentialEquation::evaluate_at`] this says that such an
/// equation evaluates to exactly its input everywhere.
pub proof fn lemma_identity_evaluation(
    eq: OrdinaryDifferentialEquation<IdentityFunction>,
    x: int,
)
    ensures
        eq.ode.eval_spec(x) == x,
{
}

/// The number of forward steps taken from `current` toward a target
/// beyond it is the ceiling of `(target - current) / step`: making the
/// step smaller while the endpoints stay fixed changes the count to
/// exactly this value.
pub proof fn lemma_step_count_is_ceiling(current: int, target: int, step: int)
    requires
        step > 0,
        current < target,
    ensures
        step_count(current, target, step) == (target - current + step - 1) / step,
    decreases target - current,
{
    if current + step < target {
        lemma_step_count_is_ceiling(current + step, target, step);
    } else {
        reveal_with_fuel(step_count, 2);
        lemma_basic_div(target - current - 1, step);
    }
    lemma_div_plus_one(target - current - 1, step);
    assert(step_count(current, target, step) == 1 + step_count(current + step, target, step));
}

/// Shrinking the step while the endpoints stay fixed never lowers the
/// number of forward steps taken.
pub proof fn lemma_step_count_monotonic(current: int, target: int, small: int, large: int)
    requires
        0 < small <= large,
        current < target,
    ensures
        step_count(current, target, small) >= step_count(current, target, large),
{
    lemma_step_count_is_ceiling(current, target, small);
    lemma_step_count_is_ceiling(current, target, large);
    lemma_div_is_ordered_by_denominator(target - current - 1, small, large);
    lemma_div_plus_one(target - current - 1, small);
    lemma_div_plus_one(target - current - 1, large);
}

} // verus!
