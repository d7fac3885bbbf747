use ode_solver::ConstantFunction;
use ode_solver::IdentityFunction;
use ode_solver::OdeSolver;
use ode_solver::OrdinaryDifferentialEquation;

#[test]
fn test_simple_ode() {
    let ode = OrdinaryDifferentialEquation::new("simple_ode", IdentityFunction, 0, 1);
    assert_eq!(50, ode.evaluate_at(50));
}

#[test]
fn test_solve_simple_ode() {
    let ode = OrdinaryDifferentialEquation::new("simple_ode", IdentityFunction, 0, 1);
    let solver = OdeSolver::new(&ode, 1);
    assert_eq!(16, solver.solve_at(4));
}

#[test]
fn evaluation_is_passthrough_for_identity() {
    let ode = OrdinaryDifferentialEquation::new("identity", IdentityFunction, 3, 7);
    assert_eq!(0, ode.evaluate_at(0));
    assert_eq!(-7, ode.evaluate_at(-7));
    assert_eq!(i64::MAX, ode.evaluate_at(i64::MAX));
    assert_eq!(i64::MIN, ode.evaluate_at(i64::MIN));
}

#[test]
fn construction_keeps_every_field() {
    let ode = OrdinaryDifferentialEquation::new("doubling", IdentityFunction, -3, 12);
    assert_eq!("doubling", ode.name);
    assert_eq!(-3, ode.initial_pt);
    assert_eq!(12, ode.initial_value);
    let solver = OdeSolver::new(&ode, 5);
    assert_eq!(5, solver.step_size);
}

#[test]
fn target_at_initial_point_takes_no_step() {
    let ode = OrdinaryDifferentialEquation::new("identity", IdentityFunction, 2, 9);
    let solver = OdeSolver::new(&ode, 1);
    assert_eq!(9, solver.solve_at(2));
}

#[test]
fn target_before_initial_point_takes_no_step() {
    let ode = OrdinaryDifferentialEquation::new("identity", IdentityFunction, 2, 9);
    let solver = OdeSolver::new(&ode, 1);
    assert_eq!(9, solver.solve_at(-100));
}

#[test]
fn target_not_beyond_initial_point_ignores_step_size() {
    let ode = OrdinaryDifferentialEquation::new("identity", IdentityFunction, 2, 9);
    let zero_step = OdeSolver::new(&ode, 0);
    assert_eq!(9, zero_step.solve_at(2));
    let negative_step = OdeSolver::new(&ode, -4);
    assert_eq!(9, negative_step.solve_at(1));
}

#[test]
fn last_step_may_overshoot_the_target() {
    // ceil(5 / 2) = 3 steps of size 2: 1 -> 3 -> 9 -> 27.
    let ode = OrdinaryDifferentialEquation::new("identity", IdentityFunction, 0, 1);
    let solver = OdeSolver::new(&ode, 2);
    assert_eq!(27, solver.solve_at(5));
}

#[test]
fn smaller_step_size_takes_more_steps() {
    // With f(y) = y each step multiplies the value by 1 + step_size, so the
    // result reveals the step count: 4, 2 and 1 steps respectively.
    let ode = OrdinaryDifferentialEquation::new("identity", IdentityFunction, 0, 1);
    assert_eq!(16, OdeSolver::new(&ode, 1).solve_at(4));
    assert_eq!(9, OdeSolver::new(&ode, 2).solve_at(4));
    assert_eq!(5, OdeSolver::new(&ode, 4).solve_at(4));
    // ceil(4 / 3) = 2 steps: 1 -> 4 -> 16.
    assert_eq!(16, OdeSolver::new(&ode, 3).solve_at(4));
}

#[test]
fn negative_initial_point_steps_up_to_the_target() {
    // Four steps of size 1 from -2: the value doubles each time.
    let ode = OrdinaryDifferentialEquation::new("identity", IdentityFunction, -2, 1);
    let solver = OdeSolver::new(&ode, 1);
    assert_eq!(16, solver.solve_at(2));
}

#[test]
fn swapped_in_evaluator_drives_the_integrator() {
    // dy/dx = 3: two steps of size 1 add 3 each, and evaluation ignores
    // its argument.
    let ode =
        OrdinaryDifferentialEquation::new("slope_three", ConstantFunction { value: 3 }, 0, 1);
    assert_eq!(3, ode.evaluate_at(-50));
    let solver = OdeSolver::new(&ode, 1);
    assert_eq!(7, solver.solve_at(2));
}
