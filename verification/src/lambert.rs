//! The dispatch and batch policies of the Lambert solver.
//!
//! A solve request is validated once, routed to the single- or
//! multi-revolution path by its revolution count, and — for the batch entry
//! points — aggregated element by element. Every decision those steps make
//! is fixed and proved here; the floating-point comparisons that feed the
//! decisions are made by the caller and handed in as plain values.

use vstd::prelude::*;

use crate::errors::LambertError;
use crate::errors::ParameterFault;
use crate::errors::StateFault;

verus! {

/// The Lambert problem solver's decision layer.
///
/// The methods of this type fix what a solve request's discrete structure
/// means: which inputs are rejected and with which error, which solver path
/// a request takes, and how batch results are aggregated.
pub struct Lambert;

/// The solver path a request is routed to.
#[derive(Debug, Clone, Copy, PartialEq, Eq, Structural)]
pub enum SolverRoute {
    /// Direct transfer: Newton-Raphson on the universal variable.
    SingleRevolution,
    /// One or more complete revolutions: the dimensionless reparameterization.
    MultiRevolution,
}

/// The validation verdict for the shared scalar inputs. Position magnitudes
/// are checked first, then the time of flight, then the gravitational
/// parameter; the first failure is reported.
pub open spec fn spec_validate_inputs(
    r1_below_min: bool,
    r2_below_min: bool,
    tof_positive: bool,
    mu_positive: bool,
) -> Result<(), LambertError> {
    if r1_below_min || r2_below_min {
        Err(LambertError::InvalidParameter(ParameterFault::PositionBelowMinimum))
    } else if !tof_positive {
        Err(LambertError::InvalidParameter(ParameterFault::NonPositiveTimeOfFlight))
    } else if !mu_positive {
        Err(LambertError::InvalidParameter(ParameterFault::NonPositiveGravitationalParameter))
    } else {
        Ok(())
    }
}

/// The feasibility verdict for a requested revolution count against the
/// maximum the geometry and time of flight admit.
pub open spec fn spec_admissible_revolutions(requested: u32, max_feasible: u32) -> Result<
    (),
    LambertError,
> {
    if requested <= max_feasible {
        Ok(())
    } else {
        Err(
            LambertError::InvalidParameter(
                ParameterFault::RevolutionsExceedMaximum { requested, max_feasible },
            ),
        )
    }
}

/// Whether index `k` holds the first error of a result sequence.
pub open spec fn is_first_error<T>(results: Seq<Result<T, LambertError>>, k: int) -> bool {
    &&& 0 <= k < results.len()
    &&& results[k] is Err
    &&& forall|j: int| 0 <= j < k ==> results[j] is Ok
}

impl Lambert {
    /// Checks the scalar inputs shared by every solve call, given the
    /// caller's magnitude comparisons: whether each position magnitude is
    /// below the 1 m floor, and whether the time of flight and the
    /// gravitational parameter are positive. Rejections are reported before
    /// any iteration, position first, then time of flight, then mu.
    pub fn validate_inputs(
        r1_below_min: bool,
        r2_below_min: bool,
        tof_positive: bool,
        mu_positive: bool,
    ) -> (r: Result<(), LambertError>)
        ensures
            r == spec_validate_inputs(r1_below_min, r2_below_min, tof_positive, mu_positive),
            r is Ok <==> (!r1_below_min && !r2_below_min && tof_positive && mu_positive),
    {
        if r1_below_min || r2_below_min {
            Err(LambertError::InvalidParameter(ParameterFault::PositionBelowMinimum))
        } else if !tof_positive {
            Err(LambertError::InvalidParameter(ParameterFault::NonPositiveTimeOfFlight))
        } else if !mu_positive {
            Err(LambertError::InvalidParameter(ParameterFault::NonPositiveGravitationalParameter))
        } else {
            Ok(())
        }
    }

    /// Checks that the transfer plane is uniquely determined, given whether
    /// the caller found the geometry scalar A negligibly small (a near-180°
    /// transfer). A degenerate geometry is an invalid state, not a guess.
    pub fn check_transfer_plane(a_param_negligible: bool) -> (r: Result<(), LambertError>)
        ensures
            r is Ok <==> !a_param_negligible,
            a_param_negligible ==> r == Err::<(), LambertError>(
                LambertError::InvalidState(StateFault::DegenerateGeometry),
            ),
    {
        if a_param_negligible {
            Err(LambertError::InvalidState(StateFault::DegenerateGeometry))
        } else {
            Ok(())
        }
    }

    /// Routes a request by its revolution count: zero goes to the
    /// single-revolution solver, anything more to the multi-revolution one.
    pub fn route(revs: u32) -> (r: SolverRoute)
        ensures
            r is SingleRevolution <==> revs == 0,
    {
        if revs == 0 {
            SolverRoute::SingleRevolution
        } else {
            SolverRoute::MultiRevolution
        }
    }

    /// Checks a requested revolution count against the maximum feasible for
    /// the geometry and time of flight, rejecting an excessive request
    /// before any iteration and naming both counts in the error.
    pub fn admissible_revolutions(requested: u32, max_feasible: u32) -> (r: Result<
        (),
        LambertError,
    >)
        ensures
            r == spec_admissible_revolutions(requested, max_feasible),
            r is Ok <==> requested <= max_feasible,
    {
        if requested <= max_feasible {
            Ok(())
        } else {
            Err(
                LambertError::InvalidParameter(
                    ParameterFault::RevolutionsExceedMaximum { requested, max_feasible },
                ),
            )
        }
    }

    /// Checks that the three input sequences of a porkchop-style batch have
    /// one length, so results can be recombined by index.
    pub fn check_matching_lengths(n_r1: usize, n_r2: usize, n_tof: usize) -> (r: Result<
        (),
        LambertError,
    >)
        ensures
            r is Ok <==> (n_r1 == n_r2 && n_r1 == n_tof),
            r is Err ==> r == Err::<(), LambertError>(
                LambertError::InvalidState(
                    StateFault::MismatchedBatchLengths { r1s: n_r1, r2s: n_r2, tofs: n_tof },
                ),
            ),
    {
        if n_r1 != n_r2 || n_r1 != n_tof {
            Err(
                LambertError::InvalidState(
                    StateFault::MismatchedBatchLengths { r1s: n_r1, r2s: n_r2, tofs: n_tof },
                ),
            )
        } else {
            Ok(())
        }
    }

    /// Aggregates per-element solve results, short-circuiting on the first
    /// error: all results succeed and their values are returned in order, or
    /// the first error is returned and nothing else.
    pub fn collect_batch<T: Copy>(results: &Vec<Result<T, LambertError>>) -> (out: Result<
        Vec<T>,
        LambertError,
    >)
        ensures
            out is Ok <==> (forall|j: int|
                0 <= j < results@.len() ==> (#[trigger] results@[j]) is Ok),
            out matches Ok(sols) ==> {
                &&& sols@.len() == results@.len()
                &&& forall|j: int|
                    0 <= j < results@.len() ==> (#[trigger] sols@[j]) == results@[j]->Ok_0
            },
            out matches Err(e) ==> exists|k: int|
                #[trigger] is_first_error(results@, k) && e == results@[k]->Err_0,
    {
        let mut sols: Vec<T> = Vec::new();
        let mut i: usize = 0;
        while i < results.len()
            invariant
                0 <= i <= results@.len(),
                sols@.len() == i,
                forall|j: int| 0 <= j < i ==> (#[trigger] results@[j]) is Ok,
                forall|j: int| 0 <= j < i ==> (#[trigger] sols@[j]) == results@[j]->Ok_0,
            decreases results@.len() - i,
        {
            let r = results[i];
            match r {
                Ok(s) => {
                    sols.push(s);
                },
                Err(e) => {
                    proof {
                        assert(is_first_error(results@, i as int));
                    }
                    return Err(e);
                },
            }
            i = i + 1;
        }
        Ok(sols)
    }
}

/// Law: for any geometry and time of flight, requesting one revolution more
/// than the computed maximum is rejected as an invalid parameter naming both
/// counts — the solver never starts iterating on an infeasible count.
pub proof fn lemma_one_past_maximum_is_rejected(max_feasible: u32)
    requires
        max_feasible < u32::MAX,
    ensures
        spec_admissible_revolutions((max_feasible + 1) as u32, max_feasible) == Err::<
            (),
            LambertError,
        >(
            LambertError::InvalidParameter(
                ParameterFault::RevolutionsExceedMaximum {
                    requested: (max_feasible + 1) as u32,
                    max_feasible,
                },
            ),
        ),
{
}

} // verus!
