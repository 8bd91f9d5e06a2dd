use astrora_core::errors::{LambertError, ParameterFault};
use astrora_core::lambert::Lambert;

/// The maximum feasible revolution count for a quarter-turn geometry between
/// two circular radii `r` (m), a time of flight `tof` (s) and gravitational
/// parameter `mu`, following the dimensionless reparameterization: chord and
/// semi-perimeter give lambda, the time of flight is scaled to T, and
/// N_max = floor((T - T00) / pi) when T exceeds the direct-transfer
/// threshold T00 = acos(lambda) + lambda * sqrt(1 - lambda^2).
fn max_feasible_quarter_turn(r: f64, tof: f64, mu: f64) -> u32 {
    let chord = (2.0_f64).sqrt() * r;
    let s = (r + r + chord) / 2.0;
    let lambda = (1.0 - chord / s).sqrt();
    let t_dimensionless = tof * mu.sqrt() / (2.0 * s.powf(1.5));
    let t_00 = lambda.acos() + lambda * (1.0 - lambda * lambda).sqrt();
    if t_dimensionless > t_00 {
        ((t_dimensionless - t_00) / std::f64::consts::PI).floor() as u32
    } else {
        0
    }
}

#[test]
fn counts_within_the_maximum_are_admissible() {
    assert_eq!(Lambert::admissible_revolutions(0, 0), Ok(()));
    assert_eq!(Lambert::admissible_revolutions(2, 2), Ok(()));
    assert_eq!(Lambert::admissible_revolutions(1, 3), Ok(()));
}

#[test]
fn one_past_the_maximum_is_rejected() {
    for max_feasible in [0u32, 1, 2, 17] {
        let verdict = Lambert::admissible_revolutions(max_feasible + 1, max_feasible);
        assert_eq!(
            verdict,
            Err(LambertError::InvalidParameter(
                ParameterFault::RevolutionsExceedMaximum {
                    requested: max_feasible + 1,
                    max_feasible,
                }
            ))
        );
    }
}

#[test]
fn short_tof_rejects_ten_revolutions() {
    // r1 = (7000 km, 0, 0), r2 = (0, 7000 km, 0), mu of Earth, tof = 1000 s:
    // the scaled time of flight sits below the direct-transfer threshold, so
    // no complete revolution fits and requesting 10 must be rejected before
    // any iteration.
    let mu = 3.986004418e14_f64;
    let n_max = max_feasible_quarter_turn(7000.0e3, 1000.0, mu);
    assert_eq!(n_max, 0);
    let verdict = Lambert::admissible_revolutions(10, n_max);
    assert_eq!(
        verdict,
        Err(LambertError::InvalidParameter(
            ParameterFault::RevolutionsExceedMaximum {
                requested: 10,
                max_feasible: 0,
            }
        ))
    );
}

#[test]
fn nine_periods_admit_two_revolutions() {
    // The same geometry with tof = 9 circular periods leaves room for at
    // least two complete revolutions, so revs = 2 is admissible.
    let mu = 3.986004418e14_f64;
    let r = 7000.0e3_f64;
    let period = 2.0 * std::f64::consts::PI * (r.powi(3) / mu).sqrt();
    let n_max = max_feasible_quarter_turn(r, 9.0 * period, mu);
    assert_eq!(n_max, 3);
    assert_eq!(Lambert::admissible_revolutions(2, n_max), Ok(()));
    assert!(Lambert::admissible_revolutions(4, n_max).is_err());
}
