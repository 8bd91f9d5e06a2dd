//! Transfer-direction selection.
//!
//! A Lambert transfer either sweeps less than 180° of true anomaly (the
//! short way) or more (the long way). The caller fixes the direction
//! explicitly or asks for it to be inferred from the transfer geometry: with
//! `Auto`, the solver goes the short way exactly when the z-component of the
//! orbit normal `r1 × r2` is non-negative (the prograde convention).

use vstd::prelude::*;

verus! {

/// The caller's choice of transfer direction.
#[derive(Debug, Clone, Copy, PartialEq, Eq, Structural)]
pub enum TransferKind {
    /// Infer the direction from the sign of the orbit normal's z-component.
    Auto,
    /// Short-way transfer (true anomaly change below 180°).
    ShortWay,
    /// Long-way transfer (true anomaly change above 180°).
    LongWay,
}

/// The direction a transfer-kind choice resolves to, given whether the
/// z-component of the orbit normal `r1 × r2` is non-negative. `true` means
/// short way.
pub open spec fn spec_resolve_direction(kind: TransferKind, normal_z_nonneg: bool) -> bool {
    match kind {
        TransferKind::ShortWay => true,
        TransferKind::LongWay => false,
        TransferKind::Auto => normal_z_nonneg,
    }
}

impl TransferKind {
    /// Resolves this choice to a concrete direction: `true` for short way.
    ///
    /// `normal_z_nonneg` reports whether the z-component of `r1 × r2` is
    /// non-negative; it is ignored for the explicit choices.
    pub fn resolve(self, normal_z_nonneg: bool) -> (short_way: bool)
        ensures
            short_way == spec_resolve_direction(self, normal_z_nonneg),
    {
        match self {
            TransferKind::ShortWay => true,
            TransferKind::LongWay => false,
            TransferKind::Auto => normal_z_nonneg,
        }
    }
}

/// Law: `Auto` agrees with the explicit choice that matches the orbit-normal
/// sign under the prograde convention — short way when the normal's
/// z-component is non-negative, long way otherwise — and an explicit choice
/// is always honoured as given.
pub proof fn lemma_auto_agrees_with_explicit(normal_z_nonneg: bool)
    ensures
        spec_resolve_direction(TransferKind::Auto, normal_z_nonneg) == spec_resolve_direction(
            if normal_z_nonneg {
                TransferKind::ShortWay
            } else {
                TransferKind::LongWay
            },
            normal_z_nonneg,
        ),
        spec_resolve_direction(TransferKind::ShortWay, normal_z_nonneg),
        !spec_resolve_direction(TransferKind::LongWay, normal_z_nonneg),
{
}

} // verus!
