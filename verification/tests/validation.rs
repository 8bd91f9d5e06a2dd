use astrora_core::errors::{LambertError, ParameterFault, StateFault, SolverMethod};
use astrora_core::lambert::{Lambert, SolverRoute};

#[test]
fn valid_inputs_pass_validation() {
    assert_eq!(Lambert::validate_inputs(false, false, true, true), Ok(()));
}

#[test]
fn tiny_position_is_an_invalid_parameter() {
    // |r| = 0.5 m is below the 1 m floor.
    let r_mag = 0.5_f64;
    let verdict = Lambert::validate_inputs(r_mag < 1.0, false, true, true);
    assert_eq!(
        verdict,
        Err(LambertError::InvalidParameter(ParameterFault::PositionBelowMinimum))
    );
}

#[test]
fn negative_time_of_flight_is_an_invalid_parameter() {
    let tof = -100.0_f64;
    let verdict = Lambert::validate_inputs(false, false, tof > 0.0, true);
    assert_eq!(
        verdict,
        Err(LambertError::InvalidParameter(ParameterFault::NonPositiveTimeOfFlight))
    );
}

#[test]
fn zero_mu_is_an_invalid_parameter() {
    let mu = 0.0_f64;
    let verdict = Lambert::validate_inputs(false, false, true, mu > 0.0);
    assert_eq!(
        verdict,
        Err(LambertError::InvalidParameter(
            ParameterFault::NonPositiveGravitationalParameter
        ))
    );
}

#[test]
fn position_check_comes_before_time_and_mu() {
    // When everything is wrong, the position fault is the one reported.
    let verdict = Lambert::validate_inputs(true, true, false, false);
    assert_eq!(
        verdict,
        Err(LambertError::InvalidParameter(ParameterFault::PositionBelowMinimum))
    );
    // With positions fine, the time of flight is reported before mu.
    let verdict = Lambert::validate_inputs(false, false, false, false);
    assert_eq!(
        verdict,
        Err(LambertError::InvalidParameter(ParameterFault::NonPositiveTimeOfFlight))
    );
}

#[test]
fn degenerate_geometry_is_an_invalid_state() {
    assert_eq!(Lambert::check_transfer_plane(false), Ok(()));
    assert_eq!(
        Lambert::check_transfer_plane(true),
        Err(LambertError::InvalidState(StateFault::DegenerateGeometry))
    );
}

#[test]
fn requests_route_by_revolution_count() {
    assert_eq!(Lambert::route(0), SolverRoute::SingleRevolution);
    assert_eq!(Lambert::route(1), SolverRoute::MultiRevolution);
    assert_eq!(Lambert::route(7), SolverRoute::MultiRevolution);
}

#[test]
fn every_error_kind_has_a_description() {
    let errors = vec![
        LambertError::InvalidParameter(ParameterFault::PositionBelowMinimum),
        LambertError::InvalidParameter(ParameterFault::NonPositiveTimeOfFlight),
        LambertError::InvalidParameter(ParameterFault::NonPositiveGravitationalParameter),
        LambertError::InvalidParameter(ParameterFault::RevolutionsExceedMaximum {
            requested: 3,
            max_feasible: 1,
        }),
        LambertError::InvalidState(StateFault::DegenerateGeometry),
        LambertError::InvalidState(StateFault::MismatchedBatchLengths {
            r1s: 2,
            r2s: 3,
            tofs: 2,
        }),
        LambertError::ConvergenceFailure {
            method: SolverMethod::UniversalVariable,
            iterations: 100,
        },
        LambertError::ConvergenceFailure {
            method: SolverMethod::MultiRevolution,
            iterations: 50,
        },
        LambertError::NotImplemented,
    ];
    for e in &errors {
        assert!(!e.describe().is_empty());
    }
    assert_eq!(
        errors[0].describe(),
        "invalid parameter: position magnitude must be greater than 1 m"
    );
    assert!(errors[6].describe().starts_with("convergence failure"));
}

#[test]
fn validation_is_deterministic() {
    // Two identical requests make identical decisions: the layer holds no
    // hidden state.
    let first = Lambert::validate_inputs(false, true, true, false);
    let second = Lambert::validate_inputs(false, true, true, false);
    assert_eq!(first, second);
    assert_eq!(
        Lambert::admissible_revolutions(4, 2),
        Lambert::admissible_revolutions(4, 2)
    );
}
