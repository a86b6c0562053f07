//! What a colouring function is: a map from a normalized phase to a colour.
//!
//! The viewers never choose colours themselves. Whoever builds the settings
//! hands in a function, and the point viewer evaluates it once per source each
//! time the phases change.

use crate::scalar::Scalar;
use crate::scalar::ONE;
use crate::vec_utils::Vector4;
use vstd::prelude::*;

verus! {

/// A colour as red, green, blue and opacity, each between zero and [`ONE`].
pub type Color = Vector4;

/// The part of a phase that is left when whole turns are taken away: a scalar
/// from zero up to, and not including, [`ONE`].
pub open spec fn normalized_phase_spec(phase: int) -> int {
    phase % 1_000_000
}

/// Whether `coloring` may be called on every normalized phase.
pub open spec fn colors_every_phase<C: Fn(Scalar) -> Color>(coloring: C) -> bool {
    forall|p: Scalar| 0 <= p < ONE ==> call_requires(coloring, (p,))
}

/// Takes whole turns away from a phase.
pub fn normalized_phase(phase: Scalar) -> (p: Scalar)
    ensures
        p == normalized_phase_spec(phase as int),
        0 <= p < ONE,
{
    let r: Scalar = phase % ONE;
    if r < 0 {
        r + ONE
    } else {
        r
    }
}

} // verus!
