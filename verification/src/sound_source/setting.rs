//! The settings of the point view.

use crate::coloring_method::colors_every_phase;
use crate::coloring_method::Color;
use crate::scalar::div_nearest;
use crate::scalar::is_round_div;
use crate::scalar::lemma_round_div_is;
use crate::scalar::round_div;
use crate::scalar::Scalar;
use crate::scalar::ONE;
use vstd::prelude::*;

verus! {

/// The speed of sound in air, in millimetres per second.
pub const SPEED_OF_SOUND: Scalar = 340_000_000_000;

/// The wavelength that belongs to a drive frequency: the speed of sound
/// divided by the frequency, rounded to the nearest scalar. The number in the
/// body is `SPEED_OF_SOUND * ONE`.
pub open spec fn wave_length_spec(freqency: int) -> int
    recommends
        freqency != 0,
{
    round_div(340_000_000_000_000_000, freqency)
}

/// Whether `wave_length` is the wavelength that belongs to `freqency`, said
/// without a division.
pub open spec fn is_wave_length(freqency: int, wave_length: int) -> bool {
    is_round_div(340_000_000_000_000_000, freqency, wave_length)
}

/// `wave_length_spec(freqency)` is the one scalar that passes
/// `is_wave_length`.
pub proof fn lemma_wave_length_is(freqency: int, wave_length: int)
    requires
        freqency != 0,
    ensures
        is_wave_length(freqency, wave_length) <==> wave_length == wave_length_spec(freqency),
{
    lemma_round_div_is(340_000_000_000_000_000, freqency, wave_length);
}

/// Computes the wavelength that belongs to a drive frequency.
pub(crate) fn wave_length_of(freqency: Scalar) -> (wave_length: Scalar)
    requires
        freqency != 0,
    ensures
        wave_length == wave_length_spec(freqency as int),
        is_wave_length(freqency as int, wave_length as int),
{
    let n: i128 = (SPEED_OF_SOUND as i128) * (ONE as i128);
    assert(n == SPEED_OF_SOUND * ONE == 340_000_000_000_000_000) by (nonlinear_arith)
        requires
            n == SPEED_OF_SOUND * ONE,
            SPEED_OF_SOUND == 340_000_000_000,
            ONE == 1_000_000,
    ;
    let q: i128 = div_nearest(n, freqency as i128);
    proof {
        lemma_wave_length_is(freqency as int, q as int);
    }
    q as i64
}

/// How the sources are drawn: their size and the function that colours them.
/// The wavelength is never set by hand; it follows from the frequency.
pub struct SoundSourceSettings<C: Fn(Scalar) -> Color> {
    pub(crate) freqency: Scalar,
    pub(crate) source_size: Scalar,
    pub(crate) wave_length: Scalar,
    pub(crate) coloring: C,
}

impl<C: Fn(Scalar) -> Color> SoundSourceSettings<C> {
    /// What holds of every settings value: the frequency is not zero, the
    /// wavelength belongs to it, and the colouring function takes every
    /// normalized phase.
    #[verifier::type_invariant]
    pub closed spec fn wf(&self) -> bool {
        &&& self.freqency != 0
        &&& self.wave_length == wave_length_spec(self.freqency as int)
        &&& colors_every_phase(self.coloring)
    }

    /// The drive frequency, in hertz.
    pub closed spec fn spec_freqency(&self) -> Scalar {
        self.freqency
    }

    /// The size of a source, in millimetres.
    pub closed spec fn spec_source_size(&self) -> Scalar {
        self.source_size
    }

    /// The wavelength, in millimetres.
    pub closed spec fn spec_wave_length(&self) -> Scalar {
        self.wave_length
    }

    /// The function that colours a source by its phase.
    pub closed spec fn spec_coloring(&self) -> C {
        self.coloring
    }

    /// The settings for a drive frequency that is not zero.
    pub fn new(freqency: Scalar, source_size: Scalar, coloring: C) -> (settings: Self)
        requires
            freqency != 0,
            colors_every_phase(coloring),
        ensures
            settings.wf(),
            settings.spec_freqency() == freqency,
            settings.spec_source_size() == source_size,
            settings.spec_wave_length() == wave_length_spec(freqency as int),
            is_wave_length(freqency as int, settings.spec_wave_length() as int),
            settings.spec_coloring() == coloring,
    {
        SoundSourceSettings {
            freqency,
            source_size,
            wave_length: wave_length_of(freqency),
            coloring,
        }
    }

    /// The drive frequency, in hertz.
    #[verifier::when_used_as_spec(spec_freqency)]
    pub fn freqency(&self) -> (f: Scalar)
        ensures
            f == self.spec_freqency(),
    {
        self.freqency
    }

    /// The size of a source, in millimetres.
    #[verifier::when_used_as_spec(spec_source_size)]
    pub fn source_size(&self) -> (s: Scalar)
        ensures
            s == self.spec_source_size(),
    {
        self.source_size
    }

    /// The wavelength, in millimetres.
    #[verifier::when_used_as_spec(spec_wave_length)]
    pub fn wave_length(&self) -> (w: Scalar)
        ensures
            w == self.spec_wave_length(),
            w == wave_length_spec(self.spec_freqency() as int),
            is_wave_length(self.spec_freqency() as int, w as int),
    {
        proof {
            use_type_invariant(self);
            lemma_wave_length_is(self.freqency as int, self.wave_length as int);
        }
        self.wave_length
    }
}

} // verus!
