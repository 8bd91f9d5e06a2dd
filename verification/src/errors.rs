//! The solver's error taxonomy.
//!
//! Every user-facing error of the solver is built here, so the single- and
//! multi-revolution paths report failures in one consistent vocabulary:
//! invalid parameters, invalid states, convergence failures, and branches
//! that are intentionally deferred.

use vstd::prelude::*;

verus! {

/// A rejected input parameter, reported before any iteration starts.
#[derive(Debug, Clone, Copy, PartialEq, Eq, Structural)]
pub enum ParameterFault {
    /// A position vector's magnitude is below the 1 m floor.
    PositionBelowMinimum,
    /// The requested time of flight is zero or negative.
    NonPositiveTimeOfFlight,
    /// The gravitational parameter is zero or negative.
    NonPositiveGravitationalParameter,
    /// The requested revolution count exceeds the maximum feasible for the
    /// given geometry and time of flight.
    RevolutionsExceedMaximum { requested: u32, max_feasible: u32 },
}

/// A request whose combined inputs leave the solver without a well-posed
/// problem to iterate on.
#[derive(Debug, Clone, Copy, PartialEq, Eq, Structural)]
pub enum StateFault {
    /// Near-180° transfer geometry: the transfer plane is not uniquely
    /// determined, so no single solution can be selected.
    DegenerateGeometry,
    /// The batch entry points were handed input sequences of unequal length.
    MismatchedBatchLengths { r1s: usize, r2s: usize, tofs: usize },
}

/// The root-finding procedure that failed to converge.
#[derive(Debug, Clone, Copy, PartialEq, Eq, Structural)]
pub enum SolverMethod {
    /// Newton-Raphson on the universal variable (single revolution).
    UniversalVariable,
    /// Newton-type iteration on the dimensionless variable (multi-revolution).
    MultiRevolution,
}

/// Everything a solve call can report instead of a solution.
///
/// No error is ever converted into a default or placeholder numeric result:
/// a caller receives either a full solution or one of these.
#[derive(Debug, Clone, Copy, PartialEq, Eq, Structural)]
pub enum LambertError {
    /// An input was rejected by up-front validation.
    InvalidParameter(ParameterFault),
    /// The combined inputs leave no well-posed problem.
    InvalidState(StateFault),
    /// An iteration budget was exhausted without meeting the time-of-flight
    /// tolerance; the unconverged estimate is discarded, never returned.
    ConvergenceFailure { method: SolverMethod, iterations: u32 },
    /// The request reaches an algorithmic branch that is intentionally
    /// deferred (such as returning both multi-revolution branches at once).
    NotImplemented,
}

impl LambertError {
    /// The human-readable description of the error.
    pub closed spec fn spec_describe(self) -> Seq<char> {
        match self {
            LambertError::InvalidParameter(ParameterFault::PositionBelowMinimum) =>
                "invalid parameter: position magnitude must be greater than 1 m"@,
            LambertError::InvalidParameter(ParameterFault::NonPositiveTimeOfFlight) =>
                "invalid parameter: time of flight must be positive"@,
            LambertError::InvalidParameter(ParameterFault::NonPositiveGravitationalParameter) =>
                "invalid parameter: gravitational parameter must be positive"@,
            LambertError::InvalidParameter(ParameterFault::RevolutionsExceedMaximum { .. }) =>
                "invalid parameter: revs exceeds the maximum feasible revolution count for the given geometry and time of flight"@,
            LambertError::InvalidState(StateFault::DegenerateGeometry) =>
                "invalid state: position vectors are nearly opposite, so the transfer plane is not unique"@,
            LambertError::InvalidState(StateFault::MismatchedBatchLengths { .. }) =>
                "invalid state: batch input arrays must have the same length"@,
            LambertError::ConvergenceFailure { method: SolverMethod::UniversalVariable, .. } =>
                "convergence failure: the universal-variable solver exhausted its 100-iteration budget at the 1e-8 s time-of-flight tolerance"@,
            LambertError::ConvergenceFailure { method: SolverMethod::MultiRevolution, .. } =>
                "convergence failure: the multi-revolution solver exhausted its 50-iteration budget at the 1e-8 dimensionless time tolerance"@,
            LambertError::NotImplemented =>
                "not implemented: this algorithmic branch is intentionally deferred"@,
        }
    }

    /// Returns the human-readable description of the error.
    pub fn describe(&self) -> (r: &'static str)
        ensures
            r@ == self.spec_describe(),
    {
        match self {
            LambertError::InvalidParameter(ParameterFault::PositionBelowMinimum) =>
                "invalid parameter: position magnitude must be greater than 1 m",
            LambertError::InvalidParameter(ParameterFault::NonPositiveTimeOfFlight) =>
                "invalid parameter: time of flight must be positive",
            LambertError::InvalidParameter(ParameterFault::NonPositiveGravitationalParameter) =>
                "invalid parameter: gravitational parameter must be positive",
            LambertError::InvalidParameter(ParameterFault::RevolutionsExceedMaximum { .. }) =>
                "invalid parameter: revs exceeds the maximum feasible revolution count for the given geometry and time of flight",
            LambertError::InvalidState(StateFault::DegenerateGeometry) =>
                "invalid state: position vectors are nearly opposite, so the transfer plane is not unique",
            LambertError::InvalidState(StateFault::MismatchedBatchLengths { .. }) =>
                "invalid state: batch input arrays must have the same length",
            LambertError::ConvergenceFailure { method: SolverMethod::UniversalVariable, .. } =>
                "convergence failure: the universal-variable solver exhausted its 100-iteration budget at the 1e-8 s time-of-flight tolerance",
            LambertError::ConvergenceFailure { method: SolverMethod::MultiRevolution, .. } =>
                "convergence failure: the multi-revolution solver exhausted its 50-iteration budget at the 1e-8 dimensionless time tolerance",
            LambertError::NotImplemented =>
                "not implemented: this algorithmic branch is intentionally deferred",
        }
    }
}

} // verus!
