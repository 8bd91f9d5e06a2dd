//! Tags for the reference frames in which position vectors are expressed.

use vstd::prelude::*;

verus! {

/// The coordinate frames a caller may tag its position vectors with.
///
/// Frame conversion itself is the business of an external collaborator; the
/// solver only carries the tag through, so the tag is a plain enum.
#[derive(Debug, Clone, Copy, PartialEq, Eq, Structural)]
pub enum FrameType {
    /// International Celestial Reference System (barycentric inertial).
    ICRS,
    /// Geocentric Celestial Reference System (geocentric inertial).
    GCRS,
    /// J2000 inertial frame (geocentric, epoch J2000.0).
    J2000,
    /// International Terrestrial Reference System (Earth-fixed, rotating).
    ITRS,
    /// True Equator Mean Equinox (geocentric inertial, legacy SGP4).
    TEME,
}

impl FrameType {
    /// The display name of the frame.
    pub closed spec fn spec_name(self) -> Seq<char> {
        match self {
            FrameType::ICRS => "ICRS"@,
            FrameType::GCRS => "GCRS"@,
            FrameType::J2000 => "J2000"@,
            FrameType::ITRS => "ITRS"@,
            FrameType::TEME => "TEME"@,
        }
    }

    /// Returns the frame's display name.
    pub fn name(&self) -> (r: &'static str)
        ensures
            r@ == self.spec_name(),
    {
        match self {
            FrameType::ICRS => "ICRS",
            FrameType::GCRS => "GCRS",
            FrameType::J2000 => "J2000",
            FrameType::ITRS => "ITRS",
            FrameType::TEME => "TEME",
        }
    }
}

} // verus!
