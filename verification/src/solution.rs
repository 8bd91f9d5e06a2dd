//! The solver's input and output records.
//!
//! The records are generic over the scalar type: the verified layer never
//! computes with the scalars, it only carries them, selects among them and
//! aggregates them, so every contract here holds whatever arithmetic the
//! caller plugs in.

use vstd::prelude::*;

verus! {

/// A 3-component vector of scalars (position in meters, velocity in meters
/// per second).
#[derive(Debug, Clone, Copy, PartialEq)]
pub struct Vector3<S> {
    pub x: S,
    pub y: S,
    pub z: S,
}

impl<S> Vector3<S> {
    /// Builds a vector from its components.
    pub fn new(x: S, y: S, z: S) -> (v: Self)
        ensures
            v == (Vector3 { x, y, z }),
    {
        Vector3 { x, y, z }
    }
}

/// One solved Lambert transfer: the echoed inputs, the connecting conic's
/// velocities and elements, the revolution count actually solved, and the
/// branch that was taken. Created once per successful solve and immutable
/// thereafter.
#[derive(Debug, Clone, Copy, PartialEq)]
pub struct LambertSolution<S> {
    /// Initial position vector (m), echoed from the request.
    pub r1: Vector3<S>,
    /// Final position vector (m), echoed from the request.
    pub r2: Vector3<S>,
    /// Time of flight (s), echoed from the request.
    pub tof: S,
    /// Initial velocity vector (m/s).
    pub v1: Vector3<S>,
    /// Final velocity vector (m/s).
    pub v2: Vector3<S>,
    /// Gravitational parameter (m³/s²), echoed from the request.
    pub mu: S,
    /// Semi-major axis of the transfer conic (m).
    pub a: S,
    /// Eccentricity of the transfer conic.
    pub e: S,
    /// Number of complete revolutions actually solved (0 for direct).
    pub revs: u32,
    /// True when the short-way branch was used.
    pub short_way: bool,
}

impl<S> LambertSolution<S> {
    /// Assembles a solution record. The inputs of the request are echoed
    /// unchanged, and the revolution count and branch flag record exactly
    /// what was solved.
    pub fn new(
        r1: Vector3<S>,
        r2: Vector3<S>,
        tof: S,
        v1: Vector3<S>,
        v2: Vector3<S>,
        mu: S,
        a: S,
        e: S,
        revs: u32,
        short_way: bool,
    ) -> (s: Self)
        ensures
            s == (LambertSolution { r1, r2, tof, v1, v2, mu, a, e, revs, short_way }),
    {
        LambertSolution { r1, r2, tof, v1, v2, mu, a, e, revs, short_way }
    }
}

} // verus!
