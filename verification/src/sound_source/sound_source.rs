//! One transducer of the array.

use crate::scalar::Scalar;
use crate::vec_utils::Vector3;
use vstd::prelude::*;

verus! {

/// One emitting element. A source has no name: its index in the list it
/// stands in is what finds it again, and the column it gets in each texture.
#[derive(Clone, Copy, Debug)]
pub struct SoundSource {
    /// Where the element sits, in millimetres.
    pub pos: Vector3,
    /// The axis along which it emits, a unit vector.
    pub dir: Vector3,
    /// The phase it is driven with, in turns.
    pub phase: Scalar,
}

impl SoundSource {
    /// A source at `pos` that emits along `dir` with the phase `phase`.
    pub fn new(pos: Vector3, dir: Vector3, phase: Scalar) -> (source: SoundSource)
        ensures
            source.pos == pos,
            source.dir == dir,
            source.phase == phase,
    {
        SoundSource { pos, dir, phase }
    }
}

} // verus!
