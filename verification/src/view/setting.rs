//! The settings that the two views share for a session.

use crate::coloring_method::colors_every_phase;
use crate::coloring_method::Color;
use crate::scalar::Scalar;
use crate::scalar::ONE;
use crate::sound_source::setting::wave_length_of;
use crate::sound_source::is_wave_length;
use crate::sound_source::lemma_wave_length_is;
use crate::sound_source::wave_length_spec;
use scarlet::colormap::ListedColorMap;
use vstd::prelude::*;

verus! {

/// `scarlet::colormap::ListedColorMap`, the table of colours that the slice is
/// shaded with. This crate hands it through and never looks inside.
#[verifier::external_type_specification]
#[verifier::external_body]
pub struct ExListedColorMap(ListedColorMap);

/// What both views are drawn with. The frequency, the source size, the
/// colouring function and the colour map are fixed when the settings are
/// made; the colour scale and the opacity of the slice can be changed while
/// the viewer runs. The wavelength is never set by hand: it follows from the
/// frequency.
pub struct ViewerSettings<C: Fn(Scalar) -> Color> {
    freqency: Scalar,
    source_size: Scalar,
    wave_length: Scalar,
    trans_coloring: C,
    field_color_map: ListedColorMap,
    color_scale: Scalar,
    slice_alpha: Scalar,
}

impl<C: Fn(Scalar) -> Color> ViewerSettings<C> {
    /// What holds of every settings value: frequency and source size are not
    /// zero, the wavelength belongs to the frequency, and the colouring
    /// function takes every normalized phase.
    #[verifier::type_invariant]
    pub closed spec fn wf(&self) -> bool {
        &&& self.freqency != 0
        &&& self.source_size != 0
        &&& self.wave_length == wave_length_spec(self.freqency as int)
        &&& colors_every_phase(self.trans_coloring)
    }

    /// The drive frequency, in hertz.
    pub closed spec fn spec_freqency(&self) -> Scalar {
        self.freqency
    }

    /// The size of a source, in millimetres.
    pub closed spec fn spec_source_size(&self) -> Scalar {
        self.source_size
    }

    /// The wavelength, in millimetres.
    pub closed spec fn spec_wave_length(&self) -> Scalar {
        self.wave_length
    }

    /// The function that colours a source by its phase.
    pub closed spec fn spec_trans_coloring(&self) -> &C {
        &self.trans_coloring
    }

    /// The colour map that the slice is shaded with.
    pub closed spec fn spec_field_color_map(&self) -> &ListedColorMap {
        &self.field_color_map
    }

    /// The factor that the field is scaled by before it is coloured.
    pub closed spec fn spec_color_scale(&self) -> Scalar {
        self.color_scale
    }

    /// The opacity of the slice.
    pub closed spec fn spec_slice_alpha(&self) -> Scalar {
        self.slice_alpha
    }

    /// The settings for a drive frequency and a source size, neither of them
    /// zero. The colour scale and the opacity of the slice start at one.
    pub fn new(
        freqency: Scalar,
        source_size: Scalar,
        trans_coloring: C,
        field_color_map: ListedColorMap,
    ) -> (settings: Self)
        requires
            freqency != 0,
            source_size != 0,
            colors_every_phase(trans_coloring),
        ensures
            settings.wf(),
            settings.spec_freqency() == freqency,
            settings.spec_source_size() == source_size,
            settings.spec_wave_length() == wave_length_spec(freqency as int),
            is_wave_length(freqency as int, settings.spec_wave_length() as int),
            *settings.spec_trans_coloring() == trans_coloring,
            *settings.spec_field_color_map() == field_color_map,
            settings.spec_color_scale() == ONE,
            settings.spec_slice_alpha() == ONE,
    {
        ViewerSettings {
            freqency,
            source_size,
            wave_length: wave_length_of(freqency),
            trans_coloring,
            field_color_map,
            color_scale: ONE,
            slice_alpha: ONE,
        }
    }

    /// The drive frequency, in hertz.
    #[verifier::when_used_as_spec(spec_freqency)]
    pub fn freqency(&self) -> (f: Scalar)
        ensures
            f == self.spec_freqency(),
            f != 0,
    {
        proof {
            use_type_invariant(self);
        }
        self.freqency
    }

    /// The size of a source, in millimetres.
    #[verifier::when_used_as_spec(spec_source_size)]
    pub fn source_size(&self) -> (s: Scalar)
        ensures
            s == self.spec_source_size(),
            s != 0,
    {
        proof {
            use_type_invariant(self);
        }
        self.source_size
    }

    /// The wavelength, in millimetres.
    #[verifier::when_used_as_spec(spec_wave_length)]
    pub fn wave_length(&self) -> (w: Scalar)
        ensures
            w == self.spec_wave_length(),
            w == wave_length_spec(self.spec_freqency() as int),
            is_wave_length(self.spec_freqency() as int, w as int),
    {
        proof {
            use_type_invariant(self);
            lemma_wave_length_is(self.freqency as int, self.wave_length as int);
        }
        self.wave_length
    }

    /// The function that colours a source by its phase.
    #[verifier::when_used_as_spec(spec_trans_coloring)]
    pub fn trans_coloring(&self) -> (c: &C)
        ensures
            c == self.spec_trans_coloring(),
            colors_every_phase(*c),
    {
        proof {
            use_type_invariant(self);
        }
        &self.trans_coloring
    }

    /// The colour map that the slice is shaded with.
    #[verifier::when_used_as_spec(spec_field_color_map)]
    pub fn field_color_map(&self) -> (map: &ListedColorMap)
        ensures
            map == self.spec_field_color_map(),
    {
        &self.field_color_map
    }

    /// The factor that the field is scaled by before it is coloured.
    #[verifier::when_used_as_spec(spec_color_scale)]
    pub fn color_scale(&self) -> (s: Scalar)
        ensures
            s == self.spec_color_scale(),
    {
        self.color_scale
    }

    /// The opacity of the slice.
    #[verifier::when_used_as_spec(spec_slice_alpha)]
    pub fn slice_alpha(&self) -> (a: Scalar)
        ensures
            a == self.spec_slice_alpha(),
    {
        self.slice_alpha
    }

    /// Changes the colour scale and nothing else.
    pub fn set_color_scale(&mut self, color_scale: Scalar)
        ensures
            final(self).spec_color_scale() == color_scale,
            final(self).spec_slice_alpha() == old(self).spec_slice_alpha(),
            final(self).spec_freqency() == old(self).spec_freqency(),
            final(self).spec_source_size() == old(self).spec_source_size(),
            final(self).spec_wave_length() == old(self).spec_wave_length(),
            final(self).spec_trans_coloring() == old(self).spec_trans_coloring(),
            final(self).spec_field_color_map() == old(self).spec_field_color_map(),
    {
        proof {
            use_type_invariant(&*self);
        }
        self.color_scale = color_scale;
    }

    /// Changes the opacity of the slice and nothing else.
    pub fn set_slice_alpha(&mut self, slice_alpha: Scalar)
        ensures
            final(self).spec_slice_alpha() == slice_alpha,
            final(self).spec_color_scale() == old(self).spec_color_scale(),
            final(self).spec_freqency() == old(self).spec_freqency(),
            final(self).spec_source_size() == old(self).spec_source_size(),
            final(self).spec_wave_length() == old(self).spec_wave_length(),
            final(self).spec_trans_coloring() == old(self).spec_trans_coloring(),
            final(self).spec_field_color_map() == old(self).spec_field_color_map(),
    {
        proof {
            use_type_invariant(&*self);
        }
        self.slice_alpha = slice_alpha;
    }
}

} // verus!
