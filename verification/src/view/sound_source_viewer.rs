//! The point view: one disc per source, coloured by the source's phase.
//!
//! The viewer keeps, for each source, the model transform of its disc and its
//! colour. Colours are computed when the phases change, not when a frame is
//! drawn. Like the slice view it touches no device:
//! [`SoundSourceViewer::render_setting`] says what has to be allocated and
//! [`SoundSourceViewer::renderer`] what one frame has to do.

use crate::coloring_method::normalized_phase;
use crate::coloring_method::normalized_phase_spec;
use crate::coloring_method::Color;
use crate::scalar::div_nearest;
use crate::scalar::halved;
use crate::scalar::Scalar;
use crate::scalar::ONE;
use crate::sound_source::SoundSource;
use crate::vec_utils::mat4_moved_to;
use crate::vec_utils::mat4_ts;
use crate::vec_utils::mat4_ts_spec;
use crate::vec_utils::mat4_view;
use crate::vec_utils::vec3_view;
use crate::vec_utils::vec4_view;
use crate::vec_utils::Matrix4;
use crate::vec_utils::Vector3;
use crate::view::ViewerSettings;
use vstd::prelude::*;

verus! {

/// A corner of the quad that carries a disc.
#[derive(Clone, Copy, Debug)]
pub struct Vertex {
    /// The corner in homogeneous coordinates.
    pub a_pos: [i8; 4],
    /// The point of the disc's texture that belongs to the corner.
    pub a_tex_coord: [i8; 2],
}

impl Vertex {
    /// The corner at `pos`, with the texture coordinates `tc`.
    pub fn new(pos: [i8; 3], tc: [i8; 2]) -> (vertex: Vertex)
        ensures
            vertex.a_pos@ == seq![pos[0], pos[1], pos[2], 1i8],
            vertex.a_tex_coord == tc,
    {
        let vertex = Vertex { a_pos: [pos[0], pos[1], pos[2], 1], a_tex_coord: tc };
        assert(vertex.a_pos@ =~= seq![pos[0], pos[1], pos[2], 1i8]);
        vertex
    }
}

/// The four corners of a disc's quad before it is transformed: a square of
/// side two in the plane `z = 0`, centred on the origin.
pub open spec fn quad_corners() -> Seq<Seq<i8>> {
    seq![
        seq![-1i8, -1i8, 0i8, 1i8],
        seq![1i8, -1i8, 0i8, 1i8],
        seq![1i8, 1i8, 0i8, 1i8],
        seq![-1i8, 1i8, 0i8, 1i8],
    ]
}

/// The texture coordinates of the four corners.
pub open spec fn quad_tex_coords() -> Seq<Seq<i8>> {
    seq![seq![0i8, 0i8], seq![1i8, 0i8], seq![1i8, 1i8], seq![0i8, 1i8]]
}

/// The two triangles of the quad, as indices into its corners.
pub open spec fn quad_indices() -> Seq<u16> {
    seq![0u16, 1u16, 2u16, 2u16, 3u16, 0u16]
}

/// Half of `size`, rounded to the nearest scalar: the scale of a disc for
/// sources of that size.
pub open spec fn half_spec(size: int) -> int {
    halved(size)
}

/// Whether `models` holds, for each source in turn, the transform that scales
/// by `scale` and moves to the source's position.
pub open spec fn is_models(models: Seq<Matrix4>, sources: Seq<SoundSource>, scale: int) -> bool {
    &&& models.len() == sources.len()
    &&& forall|i: int|
        0 <= i < sources.len() ==> mat4_view(#[trigger] models[i]) == mat4_ts_spec(
            vec3_view(sources[i].pos),
            scale,
        )
}

/// Whether `after` is `before` with each disc put at the position of its
/// source: the first three entries of the translation column are the
/// source's position and nothing else changes. Discs beyond the sources stay
/// as they are.
pub open spec fn models_follow(
    before: Seq<Matrix4>,
    after: Seq<Matrix4>,
    sources: Seq<SoundSource>,
) -> bool {
    &&& after.len() == before.len()
    &&& forall|i: int|
        0 <= i < sources.len() ==> mat4_view(#[trigger] after[i]) == mat4_moved_to(
            mat4_view(before[i]),
            vec3_view(sources[i].pos),
        )
    &&& forall|i: int| sources.len() <= i < before.len() ==> #[trigger] after[i] == before[i]
}

/// Whether `after` is `before` with each disc coloured by the phase of its
/// source: the colour is one that `coloring` returns for the source's phase
/// without its whole turns. Colours beyond the sources stay as they are.
pub open spec fn colors_follow<C: Fn(Scalar) -> Color>(
    before: Seq<Color>,
    after: Seq<Color>,
    sources: Seq<SoundSource>,
    coloring: C,
) -> bool {
    &&& after.len() == before.len()
    &&& forall|i: int|
        0 <= i < sources.len() ==> call_ensures(
            coloring,
            (normalized_phase_spec(sources[i].phase as int) as Scalar,),
            #[trigger] after[i],
        )
    &&& forall|i: int| sources.len() <= i < before.len() ==> #[trigger] after[i] == before[i]
}

/// The colour that every disc has until the phases are first coloured:
/// opaque black.
pub open spec fn initial_color() -> Seq<int> {
    seq![0int, 0, 0, ONE as int]
}

/// What has to be allocated before the first frame of the point view.
pub struct PointSetup {
    /// The corners of the quad.
    pub vertex_data: [Vertex; 4],
    /// The triangles of the quad.
    pub index_data: [u16; 6],
    /// The number of discs: one set of draw parameters is kept for each.
    pub instances: usize,
}

/// What one frame of the point view has to do, in this order: bind the
/// output targets again, work out the transforms again from the viewer's
/// models, and issue one draw call per disc with the viewer's colours.
#[derive(Clone, Copy, Debug)]
pub struct PointFrame {
    /// Whether the output targets have to be bound to the window's surface
    /// again before anything is drawn.
    pub rebind_targets: bool,
    /// Whether the discs moved since the last frame, so that each disc's
    /// model-view-projection transform has to be worked out again.
    pub refresh_transforms: bool,
    /// The number of draw calls.
    pub draws: usize,
}

/// Whether `setup` is what the point view needs allocated for `count`
/// sources: the textured quad and one set of draw parameters per source.
pub open spec fn is_point_setup(setup: PointSetup, count: int) -> bool {
    &&& forall|i: int|
        0 <= i < 4 ==> (#[trigger] setup.vertex_data[i]).a_pos@ == quad_corners()[i]
            && setup.vertex_data[i].a_tex_coord@ == quad_tex_coords()[i]
    &&& setup.index_data@ == quad_indices()
    &&& setup.instances == count
}

/// Whether `colors` holds, for each source in turn, a colour that `coloring`
/// returns for the source's phase without its whole turns.
pub open spec fn is_colors<C: Fn(Scalar) -> Color>(
    colors: Seq<Color>,
    sources: Seq<SoundSource>,
    coloring: C,
) -> bool {
    &&& colors.len() == sources.len()
    &&& forall|i: int|
        0 <= i < sources.len() ==> call_ensures(
            coloring,
            (normalized_phase_spec(sources[i].phase as int) as Scalar,),
            #[trigger] colors[i],
        )
}

/// The transforms of the discs of `sources`, for sources of size
/// `source_size`.
fn model_matrices_from_sources(sources: &[SoundSource], source_size: Scalar) -> (models: Vec<
    Matrix4,
>)
    ensures
        is_models(models@, sources@, half_spec(source_size as int)),
{
    let s: Scalar = div_nearest(source_size as i128, 2) as i64;
    proof {
        crate::scalar::lemma_round_div_by_constant(source_size as int);
    }
    let mut models: Vec<Matrix4> = Vec::with_capacity(sources.len());
    let mut i: usize = 0;
    while i < sources.len()
        invariant
            i <= sources.len(),
            s == half_spec(source_size as int),
            is_models(models@, sources@.take(i as int), s as int),
        decreases sources.len() - i,
    {
        models.push(mat4_ts(sources[i].pos, s));
        i += 1;
    }
    assert(sources@.take(sources.len() as int) =~= sources@);
    models
}

/// The state of the point view.
pub struct SoundSourceViewer {
    models: Vec<Matrix4>,
    colors: Vec<Color>,
    initialized: bool,
    position_updated: bool,
}

impl SoundSourceViewer {
    /// The transform of each disc.
    pub closed spec fn spec_models(&self) -> &Vec<Matrix4> {
        &self.models
    }

    /// The colour of each disc.
    pub closed spec fn spec_colors(&self) -> &Vec<Color> {
        &self.colors
    }

    /// Whether the discs have been allocated for.
    pub closed spec fn spec_is_initialized(&self) -> bool {
        self.initialized
    }

    /// Whether the discs count as moved.
    pub closed spec fn spec_position_updated(&self) -> bool {
        self.position_updated
    }

    /// A viewer with one disc per source, each scaled to half the source
    /// size and placed at its source. Nothing is allocated yet and no disc
    /// has a colour; the discs count as moved, so the first frame works out
    /// their transforms.
    pub fn new<C: Fn(Scalar) -> Color>(sources: &[SoundSource], settings: &ViewerSettings<C>) -> (viewer: Self)
        ensures
            is_models(
                viewer.spec_models()@,
                sources@,
                half_spec(settings.spec_source_size() as int),
            ),
            viewer.spec_colors()@.len() == 0,
            !viewer.spec_is_initialized(),
            viewer.spec_position_updated(),
    {
        let models = model_matrices_from_sources(sources, settings.source_size());
        SoundSourceViewer {
            models,
            colors: Vec::new(),
            initialized: false,
            position_updated: true,
        }
    }

    /// The transform of each disc.
    #[verifier::when_used_as_spec(spec_models)]
    pub fn models(&self) -> (models: &Vec<Matrix4>)
        ensures
            models == self.spec_models(),
    {
        &self.models
    }

    /// The colour of each disc. There is none before the viewer is
    /// initialized.
    #[verifier::when_used_as_spec(spec_colors)]
    pub fn colors(&self) -> (colors: &Vec<Color>)
        ensures
            colors == self.spec_colors(),
    {
        &self.colors
    }

    /// Whether the discs have been allocated for.
    #[verifier::when_used_as_spec(spec_is_initialized)]
    pub fn is_initialized(&self) -> (b: bool)
        ensures
            b == self.spec_is_initialized(),
    {
        self.initialized
    }

    /// Whether the discs count as moved.
    #[verifier::when_used_as_spec(spec_position_updated)]
    pub fn position_updated(&self) -> (b: bool)
        ensures
            b == self.spec_position_updated(),
    {
        self.position_updated
    }

    /// Makes the transforms of all discs anew from `sources`, and counts the
    /// discs as moved.
    pub fn init_model<C: Fn(Scalar) -> Color>(
        &mut self,
        sources: &[SoundSource],
        settings: &ViewerSettings<C>,
    )
        ensures
            is_models(
                final(self).spec_models()@,
                sources@,
                half_spec(settings.spec_source_size() as int),
            ),
            final(self).spec_position_updated(),
            final(self).spec_colors() == old(self).spec_colors(),
            final(self).spec_is_initialized() == old(self).spec_is_initialized(),
    {
        self.models = model_matrices_from_sources(sources, settings.source_size());
        self.position_updated = true;
    }

    /// Says what has to be allocated for `sources`, and from then on counts
    /// as initialized. Every disc gets the colour of its source's phase.
    pub fn render_setting<C: Fn(Scalar) -> Color>(
        &mut self,
        sources: &[SoundSource],
        settings: &ViewerSettings<C>,
    ) -> (setup: PointSetup)
        ensures
            is_point_setup(setup, sources.len() as int),
            final(self).spec_is_initialized(),
            is_colors(final(self).spec_colors()@, sources@, *settings.spec_trans_coloring()),
            final(self).spec_models() == old(self).spec_models(),
            final(self).spec_position_updated() == old(self).spec_position_updated(),
    {
        let vertex_data: [Vertex; 4] = [
            Vertex::new([-1, -1, 0], [0, 0]),
            Vertex::new([1, -1, 0], [1, 0]),
            Vertex::new([1, 1, 0], [1, 1]),
            Vertex::new([-1, 1, 0], [0, 1]),
        ];
        let index_data: [u16; 6] = [0, 1, 2, 2, 3, 0];
        proof {
            assert(index_data@ =~= quad_indices());
            assert(vertex_data[0].a_tex_coord@ =~= quad_tex_coords()[0]);
            assert(vertex_data[1].a_tex_coord@ =~= quad_tex_coords()[1]);
            assert(vertex_data[2].a_tex_coord@ =~= quad_tex_coords()[2]);
            assert(vertex_data[3].a_tex_coord@ =~= quad_tex_coords()[3]);
        }
        let mut colors: Vec<Color> = Vec::with_capacity(sources.len());
        let mut i: usize = 0;
        while i < sources.len()
            invariant
                i <= sources.len(),
                colors@.len() == i,
                forall|k: int| 0 <= k < i ==> vec4_view(#[trigger] colors[k]) == initial_color(),
            decreases sources.len() - i,
        {
            let color: Color = [0, 0, 0, ONE];
            assert(vec4_view(color) =~= initial_color());
            colors.push(color);
            i += 1;
        }
        self.colors = colors;
        self.initialized = true;
        self.update_phase(sources, settings);
        PointSetup { vertex_data, index_data, instances: sources.len() }
    }

    /// Puts each disc at the position of its source, and counts the discs as
    /// moved. There is a disc for each source.
    pub fn update_position(&mut self, sources: &[SoundSource])
        requires
            sources.len() <= old(self).spec_models()@.len(),
        ensures
            models_follow(old(self).spec_models()@, final(self).spec_models()@, sources@),
            final(self).spec_position_updated(),
            final(self).spec_colors() == old(self).spec_colors(),
            final(self).spec_is_initialized() == old(self).spec_is_initialized(),
    {
        let mut i: usize = 0;
        while i < sources.len()
            invariant
                i <= sources.len() <= self.models@.len(),
                self.models@.len() == old(self).models@.len(),
                self.colors == old(self).colors,
                self.initialized == old(self).initialized,
                forall|k: int|
                    0 <= k < i ==> mat4_view(#[trigger] self.models[k]) == mat4_moved_to(
                        mat4_view(old(self).models[k]),
                        vec3_view(sources[k].pos),
                    ),
                forall|k: int|
                    i <= k < self.models@.len() ==> #[trigger] self.models[k] == old(self).models[k],
            decreases sources.len() - i,
        {
            let at: Vector3 = sources[i].pos;
            let mut model: Matrix4 = self.models[i];
            model[3][0] = at[0];
            model[3][1] = at[1];
            model[3][2] = at[2];
            assert(mat4_view(model) =~~= mat4_moved_to(
                mat4_view(old(self).models[i as int]),
                vec3_view(at),
            ));
            self.models.set(i, model);
            i += 1;
        }
        self.position_updated = true;
    }

    /// Colours each disc by the phase of its source: the colouring function
    /// of the settings is called once per source, on the source's phase
    /// without its whole turns. There is a colour slot for each source.
    pub fn update_phase<C: Fn(Scalar) -> Color>(
        &mut self,
        sources: &[SoundSource],
        settings: &ViewerSettings<C>,
    )
        requires
            sources.len() <= old(self).spec_colors()@.len(),
        ensures
            colors_follow(
                old(self).spec_colors()@,
                final(self).spec_colors()@,
                sources@,
                *settings.spec_trans_coloring(),
            ),
            final(self).spec_models() == old(self).spec_models(),
            final(self).spec_position_updated() == old(self).spec_position_updated(),
            final(self).spec_is_initialized() == old(self).spec_is_initialized(),
    {
        let coloring_method = settings.trans_coloring();
        let mut i: usize = 0;
        while i < sources.len()
            invariant
                i <= sources.len() <= self.colors@.len(),
                self.colors@.len() == old(self).colors@.len(),
                self.models == old(self).models,
                self.initialized == old(self).initialized,
                self.position_updated == old(self).position_updated,
                coloring_method == settings.spec_trans_coloring(),
                crate::coloring_method::colors_every_phase(*coloring_method),
                forall|k: int|
                    0 <= k < i ==> call_ensures(
                        *coloring_method,
                        (normalized_phase_spec(sources[k].phase as int) as Scalar,),
                        #[trigger] self.colors[k],
                    ),
                forall|k: int|
                    i <= k < self.colors@.len() ==> #[trigger] self.colors[k] == old(self).colors[k],
            decreases sources.len() - i,
        {
            let color: Color = coloring_method(normalized_phase(sources[i].phase));
            self.colors.set(i, color);
            i += 1;
        }
    }

    /// Says what one frame has to do and forgets that the discs moved.
    /// `resized` tells that the window changed its size since the last
    /// frame. A viewer that is not initialized has nothing to draw with and
    /// returns `None`. While the discs count as moved there is a transform
    /// for each colour slot.
    pub fn renderer(&mut self, resized: bool) -> (frame: Option<PointFrame>)
        requires
            old(self).spec_position_updated() ==> old(self).spec_colors()@.len() <= old(self).spec_models()@.len(),
        ensures
            final(self).spec_models() == old(self).spec_models(),
            final(self).spec_colors() == old(self).spec_colors(),
            final(self).spec_is_initialized() == old(self).spec_is_initialized(),
            !final(self).spec_position_updated(),
            frame is Some <==> old(self).spec_is_initialized(),
            frame is Some ==> frame.unwrap() == (PointFrame {
                rebind_targets: resized,
                refresh_transforms: old(self).spec_position_updated(),
                draws: old(self).spec_colors()@.len() as usize,
            }),
    {
        let refresh_transforms: bool = self.position_updated;
        self.position_updated = false;
        if !self.initialized {
            return None;
        }
        Some(PointFrame { rebind_targets: resized, refresh_transforms, draws: self.colors.len() })
    }
}

} // verus!
