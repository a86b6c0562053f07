//! The slice view: a movable, rotatable plane that shows the field of all
//! sources, fed through four one-dimensional textures.
//!
//! The viewer holds the plane's model transform and two dirty flags. It never
//! touches a device. [`AcousticFiledSliceViewer::render_setting`] says what
//! has to be allocated, [`AcousticFiledSliceViewer::renderer`] says what one
//! frame has to upload and draw, and the caller carries both out.
//!
//! A position travels as three bytes per axis. With `cell` the coordinate
//! divided by the source size and rounded, kept between 0 and 65535, the first
//! texture holds `cell mod 256`, the second `cell / 256`, and the third the
//! remainder of the coordinate within one source size, in 256ths. A phase
//! travels as one byte, 255 standing for a full turn.

use crate::coloring_method::normalized_phase;
use crate::coloring_method::normalized_phase_spec;
use crate::coloring_method::Color;
use crate::scalar::div_nearest;
use crate::scalar::div_nearest_low;
use crate::scalar::is_round_div;
use crate::scalar::is_signed_div;
use crate::scalar::lemma_round_div_is;
use crate::scalar::lemma_signed_div_is;
use crate::scalar::magnitude;
use crate::scalar::signed_quot;
use crate::scalar::remainder;
use crate::scalar::round_div;
use crate::scalar::round_div_low;
use crate::scalar::signed_rem;
use crate::scalar::Scalar;
use crate::scalar::ONE;
use crate::sound_source::SoundSource;
use crate::vec_utils::mat4_rotate;
use crate::vec_utils::mat4_rotated;
use crate::vec_utils::mat4_translated;
use crate::vec_utils::mat4_fits;
use crate::vec_utils::mat4_scale;
use crate::vec_utils::mat4_scale_spec;
use crate::vec_utils::mat4_view;
use crate::vec_utils::to_vec4;
use crate::vec_utils::vec3_view;
use crate::vec_utils::vec4_map;
use crate::vec_utils::Matrix4;
use crate::vec_utils::Quaterion;
use crate::vec_utils::Vector3;
use crate::view::ViewerSettings;
use vstd::prelude::*;

verus! {

/// One texel: four bytes, of which the position textures use the first three
/// and the phase texture the first.
pub type Texel = [u8; 4];

/// The half width of a fresh slice, in millimetres.
pub const SLICE_SCALE: Scalar = 150_000_000;

/// `x`, or the nearer end of the range from `lo` to `hi` where `x` lies
/// outside.
pub open spec fn clamp(x: int, lo: int, hi: int) -> int {
    if x < lo {
        lo
    } else if x > hi {
        hi
    } else {
        x
    }
}

/// The cell that the coordinate `p` falls in, for sources of size `size`:
/// `p / size` rounded to the nearest integer and kept between 0 and 65535.
pub open spec fn cell_spec(p: int, size: int) -> int
    recommends
        size != 0,
{
    clamp(round_div(p, size), 0, 0xffff)
}

/// The byte of the first position texture: the cell modulo 256.
pub open spec fn position_low_spec(p: int, size: int) -> int {
    cell_spec(p, size) % 256
}

/// The byte of the second position texture: the cell divided by 256.
pub open spec fn position_high_spec(p: int, size: int) -> int {
    cell_spec(p, size) / 256
}

/// The byte of the third position texture: what is left of `p` after whole
/// source sizes are taken away, in 256ths of a source size, rounded, kept
/// between 0 and 65535 and then taken modulo 256.
pub open spec fn position_sub_spec(p: int, size: int) -> int {
    clamp(round_div(signed_rem(p, size) * 256, size), 0, 0xffff) % 256
}

/// The byte of the phase texture: the phase without its whole turns, scaled
/// so that a full turn would be 255, and rounded to the nearest integer, a tie
/// going down.
pub open spec fn phase_byte_spec(phase: int) -> int {
    round_div_low(normalized_phase_spec(phase) * 255, 1_000_000)
}

/// Whether `c` is the cell of the coordinate `p`, said without a division:
/// `c` lies between 0 and 65535, and `p / size` lies within half a cell of
/// it, or beyond it where `c` is the first or the last cell.
pub open spec fn is_cell(p: int, size: int, c: int) -> bool {
    let n = if size > 0 { p } else { -p };
    let d = if size > 0 { size } else { -size };
    &&& 0 <= c <= 0xffff
    &&& c > 0 ==> (2 * c - 1) * d <= 2 * n
    &&& c < 0xffff ==> 2 * n < (2 * c + 1) * d
}

/// What the position bytes of `p` are made from, each said without a
/// division, so that the bytes of given coordinates can be worked out: the
/// cell, the remainder within it, and the remainder in 256ths.
pub open spec fn position_parts(p: int, size: int) -> bool {
    &&& is_cell(p, size, cell_spec(p, size))
    &&& is_signed_div(p, size, signed_quot(p, size), signed_rem(p, size))
    &&& is_round_div(signed_rem(p, size) * 256, size, round_div(signed_rem(p, size) * 256, size))
}

/// `cell_spec(p, size)` is the one integer that passes `is_cell`.
pub proof fn lemma_cell_is(p: int, size: int, c: int)
    requires
        size != 0,
    ensures
        is_cell(p, size, c) <==> c == cell_spec(p, size),
{
    let n = if size > 0 { p } else { -p };
    let d = if size > 0 { size } else { -size };
    let q = round_div(p, size);
    let m = magnitude(n);
    let q0 = (2 * m + d) / (2 * d);
    vstd::arithmetic::div_mod::lemma_fundamental_div_mod(2 * m + d, 2 * d);
    let r = (2 * m + d) % (2 * d);
    assert(q0 >= 0 && (2 * q0 - 1) * d <= 2 * m < (2 * q0 + 1) * d) by (nonlinear_arith)
        requires
            2 * m + d == (2 * d) * q0 + r,
            0 <= r < 2 * d,
            m >= 0,
            d > 0,
    ;
    let cell = cell_spec(p, size);
    if m == 0 {
        assert(q0 == 0) by (nonlinear_arith)
            requires
                (2 * q0 - 1) * d <= 0 < (2 * q0 + 1) * d,
                d > 0,
        ;
    }
    // the cell passes
    if cell > 0 {
        assert((2 * cell - 1) * d <= (2 * q0 - 1) * d) by (nonlinear_arith)
            requires
                cell <= q0,
                d > 0,
        ;
    }
    if cell < 0xffff {
        if n >= 0 {
            assert((2 * q0 + 1) * d <= (2 * cell + 1) * d) by (nonlinear_arith)
                requires
                    q0 <= cell,
                    d > 0,
            ;
        } else {
            assert((2 * cell + 1) * d > 0) by (nonlinear_arith)
                requires
                    cell >= 0,
                    d > 0,
            ;
        }
    }
    // and no other integer does
    if is_cell(p, size, c) && c != cell {
        let lo = if c < cell { c } else { cell };
        let hi = if c < cell { cell } else { c };
        assert((2 * lo + 1) * d <= (2 * hi - 1) * d) by (nonlinear_arith)
            requires
                lo + 1 <= hi,
                d > 0,
        ;
    }
}

/// The parts of the position bytes are what they are said to be.
pub proof fn lemma_position_parts(p: int, size: int)
    requires
        size != 0,
    ensures
        position_parts(p, size),
{
    lemma_cell_is(p, size, cell_spec(p, size));
    lemma_signed_div_is(p, size, signed_quot(p, size), signed_rem(p, size));
    lemma_round_div_is(
        signed_rem(p, size) * 256,
        size,
        round_div(signed_rem(p, size) * 256, size),
    );
}

/// The four bytes of a texel as integers.
pub open spec fn texel_view(t: Texel) -> Seq<int> {
    seq![t[0] as int, t[1] as int, t[2] as int, t[3] as int]
}

/// The texel of a source in the phase texture.
pub open spec fn phase_texel_spec(source: SoundSource) -> Seq<int> {
    seq![phase_byte_spec(source.phase as int), 0, 0, 0]
}

/// The texel of a source in the first position texture.
pub open spec fn low_texel_spec(source: SoundSource, size: int) -> Seq<int> {
    seq![
        position_low_spec(source.pos[0] as int, size),
        position_low_spec(source.pos[1] as int, size),
        position_low_spec(source.pos[2] as int, size),
        0,
    ]
}

/// The texel of a source in the second position texture.
pub open spec fn high_texel_spec(source: SoundSource, size: int) -> Seq<int> {
    seq![
        position_high_spec(source.pos[0] as int, size),
        position_high_spec(source.pos[1] as int, size),
        position_high_spec(source.pos[2] as int, size),
        0,
    ]
}

/// The texel of a source in the third position texture.
pub open spec fn sub_texel_spec(source: SoundSource, size: int) -> Seq<int> {
    seq![
        position_sub_spec(source.pos[0] as int, size),
        position_sub_spec(source.pos[1] as int, size),
        position_sub_spec(source.pos[2] as int, size),
        0,
    ]
}

/// Whether `texels` is the phase texture of `sources`.
pub open spec fn is_phase_texture(texels: Seq<Texel>, sources: Seq<SoundSource>) -> bool {
    &&& texels.len() == sources.len()
    &&& forall|i: int|
        0 <= i < sources.len() ==> texel_view(#[trigger] texels[i]) == phase_texel_spec(sources[i])
}

/// Whether `texels` is the first position texture of `sources`.
pub open spec fn is_low_texture(texels: Seq<Texel>, sources: Seq<SoundSource>, size: int) -> bool {
    &&& texels.len() == sources.len()
    &&& forall|i: int|
        0 <= i < sources.len() ==> texel_view(#[trigger] texels[i]) == low_texel_spec(
            sources[i],
            size,
        )
}

/// Whether `texels` is the second position texture of `sources`.
pub open spec fn is_high_texture(texels: Seq<Texel>, sources: Seq<SoundSource>, size: int) -> bool {
    &&& texels.len() == sources.len()
    &&& forall|i: int|
        0 <= i < sources.len() ==> texel_view(#[trigger] texels[i]) == high_texel_spec(
            sources[i],
            size,
        )
}

/// Whether `texels` is the third position texture of `sources`.
pub open spec fn is_sub_texture(texels: Seq<Texel>, sources: Seq<SoundSource>, size: int) -> bool {
    &&& texels.len() == sources.len()
    &&& forall|i: int|
        0 <= i < sources.len() ==> texel_view(#[trigger] texels[i]) == sub_texel_spec(
            sources[i],
            size,
        )
}

/// Whether `texels` holds `len` texels of four zero bytes.
pub open spec fn is_empty_texture(texels: Seq<Texel>, len: int) -> bool {
    &&& texels.len() == len
    &&& forall|i: int| 0 <= i < len ==> texel_view(#[trigger] texels[i]) == seq![0int, 0, 0, 0]
}

/// The cell that the coordinate `p` falls in, for sources of size `size`.
pub fn cell_index(p: Scalar, size: Scalar) -> (cell: u16)
    requires
        size != 0,
    ensures
        cell == cell_spec(p as int, size as int),
        position_parts(p as int, size as int),
{
    proof {
        lemma_position_parts(p as int, size as int);
    }
    let q: i128 = div_nearest(p as i128, size as i128);
    if q < 0 {
        0
    } else if q > 0xffff {
        0xffff
    } else {
        q as u16
    }
}

/// The byte of the coordinate `p` in the first position texture.
pub fn position_low(p: Scalar, size: Scalar) -> (byte: u8)
    requires
        size != 0,
    ensures
        byte == position_low_spec(p as int, size as int),
        position_parts(p as int, size as int),
{
    proof {
        lemma_position_parts(p as int, size as int);
    }
    (cell_index(p, size) % 256) as u8
}

/// The byte of the coordinate `p` in the second position texture.
pub fn position_high(p: Scalar, size: Scalar) -> (byte: u8)
    requires
        size != 0,
    ensures
        byte == position_high_spec(p as int, size as int),
        position_parts(p as int, size as int),
{
    proof {
        lemma_position_parts(p as int, size as int);
    }
    (cell_index(p, size) / 256) as u8
}

/// The byte of the coordinate `p` in the third position texture.
pub fn position_sub(p: Scalar, size: Scalar) -> (byte: u8)
    requires
        size != 0,
    ensures
        byte == position_sub_spec(p as int, size as int),
        position_parts(p as int, size as int),
{
    proof {
        lemma_position_parts(p as int, size as int);
    }
    let rem: i128 = remainder(p, size) as i128;
    let q: i128 = div_nearest(rem * 256, size as i128);
    let part: u16 = if q < 0 {
        0
    } else if q > 0xffff {
        0xffff
    } else {
        q as u16
    };
    (part % 256) as u8
}

/// The byte of a phase in the phase texture.
pub fn phase_byte(phase: Scalar) -> (byte: u8)
    ensures
        byte == phase_byte_spec(phase as int),
{
    let p: Scalar = normalized_phase(phase);
    let q: u64 = div_nearest_low((p as u64) * 255, ONE as u64);
    q as u8
}

/// A texture of `size` texels of four zero bytes: what each texture holds
/// until the first upload.
pub fn empty_texels(size: usize) -> (texels: Vec<Texel>)
    ensures
        is_empty_texture(texels@, size as int),
{
    let mut texels: Vec<Texel> = Vec::new();
    let mut i: usize = 0;
    while i < size
        invariant
            i <= size,
            is_empty_texture(texels@, i as int),
        decreases size - i,
    {
        let texel: Texel = [0, 0, 0, 0];
        assert(texel_view(texel) =~= seq![0int, 0, 0, 0]);
        texels.push(texel);
        i += 1;
    }
    texels
}

/// The phase texture of `sources`: one texel per source, in their order.
pub fn phase_texels(sources: &[SoundSource]) -> (texels: Vec<Texel>)
    ensures
        is_phase_texture(texels@, sources@),
{
    let mut texels: Vec<Texel> = Vec::with_capacity(sources.len());
    let mut i: usize = 0;
    while i < sources.len()
        invariant
            i <= sources.len(),
            is_phase_texture(texels@, sources@.take(i as int)),
        decreases sources.len() - i,
    {
        let texel: Texel = [phase_byte(sources[i].phase), 0x00, 0x00, 0x00];
        assert(texel_view(texel) =~= phase_texel_spec(sources[i as int]));
        texels.push(texel);
        i += 1;
    }
    assert(sources@.take(sources.len() as int) =~= sources@);
    texels
}

/// The three position textures of one upload.
pub struct PositionTexels {
    /// Each cell modulo 256.
    pub pos: Vec<Texel>,
    /// Each cell divided by 256.
    pub pos_256: Vec<Texel>,
    /// Each remainder within a cell, in 256ths.
    pub pos_sub: Vec<Texel>,
}

/// The three position textures of `sources`, for sources of size
/// `source_size`: one texel per source in each, in their order.
pub fn position_texels(sources: &[SoundSource], source_size: Scalar) -> (texels: PositionTexels)
    requires
        source_size != 0,
    ensures
        is_low_texture(texels.pos@, sources@, source_size as int),
        is_high_texture(texels.pos_256@, sources@, source_size as int),
        is_sub_texture(texels.pos_sub@, sources@, source_size as int),
{
    let size: usize = sources.len();
    let mut pos: Vec<Texel> = Vec::with_capacity(size);
    let mut pos_256: Vec<Texel> = Vec::with_capacity(size);
    let mut pos_sub: Vec<Texel> = Vec::with_capacity(size);
    proof {
        crate::scalar::lemma_round_div_exact(0, source_size as int);
    }
    let mut i: usize = 0;
    while i < size
        invariant
            size == sources.len(),
            source_size != 0,
            i <= size,
            round_div(0, source_size as int) == 0,
            is_low_texture(pos@, sources@.take(i as int), source_size as int),
            is_high_texture(pos_256@, sources@.take(i as int), source_size as int),
            is_sub_texture(pos_sub@, sources@.take(i as int), source_size as int),
        decreases size - i,
    {
        let at: Vector3 = sources[i].pos;
        let v = to_vec4(at);
        let low_of = |p: Scalar| -> (byte: u8)
            ensures byte == position_low_spec(p as int, source_size as int)
            { position_low(p, source_size) };
        let low: Texel = vec4_map(v, low_of);
        let high_of = |p: Scalar| -> (byte: u8)
            ensures byte == position_high_spec(p as int, source_size as int)
            { position_high(p, source_size) };
        let high: Texel = vec4_map(v, high_of);
        let sub_of = |p: Scalar| -> (byte: u8)
            ensures byte == position_sub_spec(p as int, source_size as int)
            { position_sub(p, source_size) };
        let sub: Texel = vec4_map(v, sub_of);
        proof {
            assert(texel_view(low) =~= low_texel_spec(sources[i as int], source_size as int));
            assert(texel_view(high) =~= high_texel_spec(sources[i as int], source_size as int));
            assert(texel_view(sub) =~= sub_texel_spec(sources[i as int], source_size as int));
        }
        pos.push(low);
        pos_256.push(high);
        pos_sub.push(sub);
        i += 1;
    }
    assert(sources@.take(size as int) =~= sources@);
    PositionTexels { pos, pos_256, pos_sub }
}

/// A corner of the quad that carries the slice.
#[derive(Clone, Copy, Debug)]
pub struct Vertex {
    /// The corner in homogeneous coordinates.
    pub a_pos: [i8; 4],
}

impl Vertex {
    /// The corner at `pos`.
    pub fn new(pos: [i8; 3]) -> (vertex: Vertex)
        ensures
            vertex.a_pos@ == seq![pos[0], pos[1], pos[2], 1i8],
    {
        let vertex = Vertex { a_pos: [pos[0], pos[1], pos[2], 1] };
        assert(vertex.a_pos@ =~= seq![pos[0], pos[1], pos[2], 1i8]);
        vertex
    }
}

/// The four corners of the slice before it is transformed: a square of side
/// two in the plane `y = 0`, centred on the origin.
pub open spec fn quad_corners() -> Seq<Seq<i8>> {
    seq![
        seq![-1i8, 0i8, -1i8, 1i8],
        seq![1i8, 0i8, -1i8, 1i8],
        seq![1i8, 0i8, 1i8, 1i8],
        seq![-1i8, 0i8, 1i8, 1i8],
    ]
}

/// The two triangles of the quad, as indices into its corners.
pub open spec fn quad_indices() -> Seq<u16> {
    seq![0u16, 1u16, 2u16, 2u16, 3u16, 0u16]
}

/// What has to be allocated before the first frame of the slice.
pub struct SliceSetup {
    /// The corners of the quad.
    pub vertex_data: [Vertex; 4],
    /// The triangles of the quad.
    pub index_data: [u16; 6],
    /// The size of a source, which the shader divides by.
    pub trans_size: Scalar,
    /// The number of sources, which is the width of each texture.
    pub trans_num: usize,
    /// What each of the four textures holds until its first upload.
    pub texels: Vec<Texel>,
}

/// What one frame of the slice has to do, in this order: bind the output
/// targets again, upload the textures that are given, and issue one indexed
/// draw call with the model transform.
pub struct SliceFrame {
    /// Whether the output targets have to be bound to the window's surface
    /// again before anything is drawn.
    pub rebind_targets: bool,
    /// The phase texture to upload, if the phases changed.
    pub phase: Option<Vec<Texel>>,
    /// The position textures to upload, if the positions changed.
    pub position: Option<PositionTexels>,
    /// The model transform of the draw call.
    pub model: Matrix4,
}

/// Whether `setup` is what the slice needs allocated for `sources`: the quad,
/// the two uniforms, and textures as wide as there are sources, still empty.
pub open spec fn is_slice_setup(
    setup: SliceSetup,
    sources: Seq<SoundSource>,
    source_size: Scalar,
) -> bool {
    &&& forall|i: int|
        0 <= i < 4 ==> (#[trigger] setup.vertex_data[i]).a_pos@ == quad_corners()[i]
    &&& setup.index_data@ == quad_indices()
    &&& setup.trans_size == source_size
    &&& setup.trans_num == sources.len()
    &&& is_empty_texture(setup.texels@, sources.len() as int)
}

/// Whether `frame` is the frame that a viewer in the state `before` owes for
/// `sources` of size `source_size`: it uploads exactly the textures that are
/// marked, each encoded from the sources as they are now, and draws with the
/// viewer's transform.
pub open spec fn is_slice_frame(
    frame: SliceFrame,
    before: AcousticFiledSliceViewer,
    sources: Seq<SoundSource>,
    source_size: int,
    resized: bool,
) -> bool {
    &&& frame.rebind_targets == resized
    &&& frame.model == before.spec_model()
    &&& frame.phase is Some <==> before.spec_phase_updated()
    &&& frame.phase is Some ==> is_phase_texture(frame.phase.unwrap()@, sources)
    &&& frame.position is Some <==> before.spec_position_updated()
    &&& frame.position is Some ==> {
        let texels = frame.position.unwrap();
        &&& is_low_texture(texels.pos@, sources, source_size)
        &&& is_high_texture(texels.pos_256@, sources, source_size)
        &&& is_sub_texture(texels.pos_sub@, sources, source_size)
    }
}

/// The state of the slice view.
pub struct AcousticFiledSliceViewer {
    model: Matrix4,
    initialized: bool,
    position_updated: bool,
    phase_updated: bool,
}

impl AcousticFiledSliceViewer {
    /// The model transform of the slice.
    pub closed spec fn spec_model(&self) -> Matrix4 {
        self.model
    }

    /// Whether the slice has been allocated for.
    pub closed spec fn spec_is_initialized(&self) -> bool {
        self.initialized
    }

    /// Whether the positions are marked as changed.
    pub closed spec fn spec_position_updated(&self) -> bool {
        self.position_updated
    }

    /// Whether the phases are marked as changed.
    pub closed spec fn spec_phase_updated(&self) -> bool {
        self.phase_updated
    }

    /// The viewer with its positions marked as changed.
    pub closed spec fn position_marked(self) -> Self {
        AcousticFiledSliceViewer { position_updated: true, ..self }
    }

    /// The viewer with its phases marked as changed.
    pub closed spec fn phase_marked(self) -> Self {
        AcousticFiledSliceViewer { phase_updated: true, ..self }
    }

    /// The viewer after a frame: one that is initialized has both marks
    /// cleared, one that is not is left as it is.
    pub closed spec fn frame_done(self) -> Self {
        if self.initialized {
            AcousticFiledSliceViewer { position_updated: false, phase_updated: false, ..self }
        } else {
            self
        }
    }

    /// Whether the next frame uploads the phase texture.
    pub open spec fn uploads_phase(self) -> bool {
        self.spec_is_initialized() && self.spec_phase_updated()
    }

    /// Whether the next frame uploads the position textures.
    pub open spec fn uploads_position(self) -> bool {
        self.spec_is_initialized() && self.spec_position_updated()
    }

    /// A viewer whose slice is centred on the origin, spans `SLICE_SCALE` to
    /// each side and is not turned. Nothing is marked and nothing is
    /// allocated yet.
    pub fn new() -> (viewer: Self)
        ensures
            mat4_view(viewer.spec_model()) == mat4_scale_spec(SLICE_SCALE as int),
            !viewer.spec_is_initialized(),
            !viewer.spec_position_updated(),
            !viewer.spec_phase_updated(),
    {
        AcousticFiledSliceViewer {
            model: mat4_scale(SLICE_SCALE),
            initialized: false,
            position_updated: false,
            phase_updated: false,
        }
    }

    /// The model transform of the slice.
    #[verifier::when_used_as_spec(spec_model)]
    pub fn model(&self) -> (m: Matrix4)
        ensures
            m == self.spec_model(),
    {
        self.model
    }

    /// Whether the slice has been allocated for.
    #[verifier::when_used_as_spec(spec_is_initialized)]
    pub fn is_initialized(&self) -> (b: bool)
        ensures
            b == self.spec_is_initialized(),
    {
        self.initialized
    }

    /// Whether the positions are marked as changed.
    #[verifier::when_used_as_spec(spec_position_updated)]
    pub fn position_updated(&self) -> (b: bool)
        ensures
            b == self.spec_position_updated(),
    {
        self.position_updated
    }

    /// Whether the phases are marked as changed.
    #[verifier::when_used_as_spec(spec_phase_updated)]
    pub fn phase_updated(&self) -> (b: bool)
        ensures
            b == self.spec_phase_updated(),
    {
        self.phase_updated
    }

    /// Says what has to be allocated for `sources`, and from then on counts
    /// as initialized. Both textures are marked, so the first frame uploads
    /// them.
    pub fn render_setting<C: Fn(Scalar) -> Color>(
        &mut self,
        sources: &[SoundSource],
        settings: &ViewerSettings<C>,
    ) -> (setup: SliceSetup)
        ensures
            is_slice_setup(setup, sources@, settings.spec_source_size()),
            final(self).spec_is_initialized(),
            final(self).spec_position_updated(),
            final(self).spec_phase_updated(),
            final(self).spec_model() == old(self).spec_model(),
    {
        let vertex_data: [Vertex; 4] = [
            Vertex::new([-1, 0, -1]),
            Vertex::new([1, 0, -1]),
            Vertex::new([1, 0, 1]),
            Vertex::new([-1, 0, 1]),
        ];
        let index_data: [u16; 6] = [0, 1, 2, 2, 3, 0];
        assert(index_data@ =~= quad_indices());
        let texels = empty_texels(sources.len());
        self.initialized = true;
        self.update_source_pos();
        self.update_source_phase();
        SliceSetup {
            vertex_data,
            index_data,
            trans_size: settings.source_size(),
            trans_num: sources.len(),
            texels,
        }
    }

    /// Marks the positions as changed: the next frame uploads the position
    /// textures.
    pub fn update_source_pos(&mut self)
        ensures
            *final(self) == old(self).position_marked(),
            final(self).spec_position_updated(),
            final(self).spec_phase_updated() == old(self).spec_phase_updated(),
            final(self).spec_is_initialized() == old(self).spec_is_initialized(),
            final(self).spec_model() == old(self).spec_model(),
    {
        self.position_updated = true;
    }

    /// Marks the phases as changed: the next frame uploads the phase texture.
    pub fn update_source_phase(&mut self)
        ensures
            *final(self) == old(self).phase_marked(),
            final(self).spec_phase_updated(),
            final(self).spec_position_updated() == old(self).spec_position_updated(),
            final(self).spec_is_initialized() == old(self).spec_is_initialized(),
            final(self).spec_model() == old(self).spec_model(),
    {
        self.phase_updated = true;
    }

    /// Tells whether the slice can be moved by `travel`: whether the moved
    /// transform is one that scalars can hold.
    pub fn can_translate(&self, travel: Vector3) -> (ok: bool)
        ensures
            ok == mat4_fits(mat4_translated(mat4_view(self.spec_model()), vec3_view(travel))),
    {
        let ghost moved = mat4_translated(mat4_view(self.model), vec3_view(travel));
        let x = self.model[3][0].checked_add(travel[0]);
        let y = self.model[3][1].checked_add(travel[1]);
        let z = self.model[3][2].checked_add(travel[2]);
        proof {
            assert(moved[3][0] == self.model[3][0] + travel[0]);
            assert(moved[3][1] == self.model[3][1] + travel[1]);
            assert(moved[3][2] == self.model[3][2] + travel[2]);
            assert(moved[3][3] == self.model[3][3]);
            assert(forall|c: int, r: int|
                0 <= c < 3 && 0 <= r < 4 ==> #[trigger] moved[c][r] == mat4_view(self.model)[c][r]);
        }
        x.is_some() && y.is_some() && z.is_some()
    }

    /// Tells whether the slice can be turned by `rot`: whether the turned
    /// transform is one that scalars can hold.
    pub fn can_rotate(&self, rot: Quaterion) -> (ok: bool)
        ensures
            ok == mat4_fits(
                mat4_rotated(
                    mat4_view(self.spec_model()),
                    rot.0 as int,
                    rot.1[0] as int,
                    rot.1[1] as int,
                    rot.1[2] as int,
                ),
            ),
    {
        mat4_rotate(self.model, rot).is_some()
    }

    /// Moves the slice by `travel`. The moves add up. The moved transform is
    /// one that scalars can hold, which [`Self::can_translate`] tells.
    pub fn translate(&mut self, travel: Vector3)
        requires
            mat4_fits(mat4_translated(mat4_view(old(self).spec_model()), vec3_view(travel))),
        ensures
            mat4_view(final(self).spec_model()) == mat4_translated(
                mat4_view(old(self).spec_model()),
                vec3_view(travel),
            ),
            final(self).spec_position_updated() == old(self).spec_position_updated(),
            final(self).spec_phase_updated() == old(self).spec_phase_updated(),
            final(self).spec_is_initialized() == old(self).spec_is_initialized(),
    {
        let ghost before = mat4_view(self.model);
        let ghost target = mat4_translated(before, vec3_view(travel));
        proof {
            assert(target[3][2] == self.model[3][2] + travel[2]);
        }
        self.model[3][0] += travel[0];
        self.model[3][1] += travel[1];
        self.model[3][2] += travel[2];
        assert(mat4_view(self.model) =~~= target);
    }

    /// Turns the slice by the rotation `rot`, a unit quaternion. The slice
    /// turns from where it stands: the rotation is applied before the
    /// transform that the slice already has. The turned transform is one
    /// that scalars can hold, which [`Self::can_rotate`] tells.
    pub fn rotate(&mut self, rot: Quaterion)
        requires
            mat4_fits(
                mat4_rotated(
                    mat4_view(old(self).spec_model()),
                    rot.0 as int,
                    rot.1[0] as int,
                    rot.1[1] as int,
                    rot.1[2] as int,
                ),
            ),
        ensures
            mat4_view(final(self).spec_model()) == mat4_rotated(
                mat4_view(old(self).spec_model()),
                rot.0 as int,
                rot.1[0] as int,
                rot.1[1] as int,
                rot.1[2] as int,
            ),
            final(self).spec_position_updated() == old(self).spec_position_updated(),
            final(self).spec_phase_updated() == old(self).spec_phase_updated(),
            final(self).spec_is_initialized() == old(self).spec_is_initialized(),
    {
        match mat4_rotate(self.model, rot) {
            Some(turned) => {
                self.model = turned;
            },
            None => {},
        }
    }

    /// Says what one frame has to do and clears the marks. `resized` tells
    /// that the window changed its size since the last frame. A viewer that
    /// is not initialized has nothing to draw with: it returns `None` and
    /// keeps its marks.
    pub fn renderer<C: Fn(Scalar) -> Color>(
        &mut self,
        sources: &[SoundSource],
        settings: &ViewerSettings<C>,
        resized: bool,
    ) -> (frame: Option<SliceFrame>)
        ensures
            *final(self) == old(self).frame_done(),
            final(self).spec_model() == old(self).spec_model(),
            final(self).spec_is_initialized() == old(self).spec_is_initialized(),
            old(self).spec_is_initialized() ==> !final(self).spec_position_updated()
                && !final(self).spec_phase_updated(),
            frame is Some <==> old(self).spec_is_initialized(),
            (frame is Some && frame.unwrap().phase is Some) <==> old(self).uploads_phase(),
            (frame is Some && frame.unwrap().position is Some) <==> old(self).uploads_position(),
            frame is Some ==> is_slice_frame(
                frame.unwrap(),
                *old(self),
                sources@,
                settings.spec_source_size() as int,
                resized,
            ),
    {
        if !self.initialized {
            return None;
        }
        let phase: Option<Vec<Texel>> = if self.phase_updated {
            self.phase_updated = false;
            Some(phase_texels(sources))
        } else {
            None
        };
        let position: Option<PositionTexels> = if self.position_updated {
            self.position_updated = false;
            Some(position_texels(sources, settings.source_size()))
        } else {
            None
        };
        Some(SliceFrame { rebind_targets: resized, phase, position, model: self.model })
    }
}

/// The two position bytes are bytes, and together they hold the cell:
/// `high * 256 + low` is the cell again, with nothing lost.
pub proof fn lemma_position_bytes_hold_cell(p: int, size: int)
    ensures
        0 <= position_low_spec(p, size) < 256,
        0 <= position_high_spec(p, size) < 256,
        position_high_spec(p, size) * 256 + position_low_spec(p, size) == cell_spec(p, size),
{
}

/// Where the rounded ratio `p / size` is a cell, the coordinate that the two
/// position bytes give back, `(high * 256 + low) * size`, is that rounded
/// ratio times `size`, and it lies within half a source size of `p`. What is
/// lost is only the part of `p` that the rounding dropped.
pub proof fn lemma_position_round_trip(p: int, size: int)
    requires
        size != 0,
        0 <= round_div(p, size) <= 0xffff,
    ensures
        (position_high_spec(p, size) * 256 + position_low_spec(p, size)) * size == round_div(
            p,
            size,
        ) * size,
        2 * crate::scalar::magnitude(
            p - (position_high_spec(p, size) * 256 + position_low_spec(p, size)) * size,
        ) <= crate::scalar::magnitude(size),
{
    lemma_position_bytes_hold_cell(p, size);
    crate::scalar::lemma_round_div_is_nearest(p, size);
}

/// The phase byte is a byte.
pub proof fn lemma_phase_byte_range(phase: int)
    ensures
        0 <= phase_byte_spec(phase) <= 255,
{
}

/// A phase and the same phase one full turn on have the same byte.
pub proof fn lemma_phase_byte_cyclic(phase: int)
    ensures
        phase_byte_spec(phase + ONE) == phase_byte_spec(phase),
{
    vstd::arithmetic::div_mod::lemma_mod_add_multiples_vanish(phase, ONE as int);
}

/// Within one turn a later phase never has a smaller byte.
pub proof fn lemma_phase_byte_monotonic(earlier: int, later: int)
    requires
        0 <= earlier <= later < ONE,
    ensures
        phase_byte_spec(earlier) <= phase_byte_spec(later),
{
    let one = ONE as int;
    vstd::arithmetic::div_mod::lemma_small_mod(earlier as nat, one as nat);
    vstd::arithmetic::div_mod::lemma_small_mod(later as nat, one as nat);
    vstd::arithmetic::div_mod::lemma_div_is_ordered(
        2 * (earlier * 255) + one - 1,
        2 * (later * 255) + one - 1,
        2 * one,
    );
}

impl AcousticFiledSliceViewer {
    /// What the viewer's marks and its frame leave of each part of its state.
    pub proof fn lemma_steps(self)
        ensures
            self.phase_marked().spec_phase_updated(),
            self.phase_marked().spec_position_updated() == self.spec_position_updated(),
            self.phase_marked().spec_is_initialized() == self.spec_is_initialized(),
            self.phase_marked().spec_model() == self.spec_model(),
            self.position_marked().spec_position_updated(),
            self.position_marked().spec_phase_updated() == self.spec_phase_updated(),
            self.position_marked().spec_is_initialized() == self.spec_is_initialized(),
            self.position_marked().spec_model() == self.spec_model(),
            self.frame_done().spec_phase_updated() == (self.spec_phase_updated()
                && !self.spec_is_initialized()),
            self.frame_done().spec_position_updated() == (self.spec_position_updated()
                && !self.spec_is_initialized()),
            self.frame_done().spec_is_initialized() == self.spec_is_initialized(),
            self.frame_done().spec_model() == self.spec_model(),
    {
    }

    /// Marking the phases twice is marking them once.
    pub proof fn lemma_phase_mark_idempotent(self)
        ensures
            self.phase_marked().phase_marked() == self.phase_marked(),
            self.phase_marked().spec_phase_updated(),
    {
    }

    /// Marking the positions twice is marking them once.
    pub proof fn lemma_position_mark_idempotent(self)
        ensures
            self.position_marked().position_marked() == self.position_marked(),
            self.position_marked().spec_position_updated(),
    {
    }

    /// However often the phases of an initialized viewer were marked, the
    /// next frame uploads the phase texture, the mark is gone right after
    /// it, and the frame after that uploads nothing.
    pub proof fn lemma_phase_uploaded_once(self)
        requires
            self.spec_is_initialized(),
        ensures
            self.phase_marked().uploads_phase(),
            self.phase_marked().phase_marked().uploads_phase(),
            !self.phase_marked().frame_done().spec_phase_updated(),
            !self.phase_marked().frame_done().uploads_phase(),
            self.phase_marked().frame_done().frame_done() == self.phase_marked().frame_done(),
    {
    }

    /// However often the positions of an initialized viewer were marked, the
    /// next frame uploads the position textures, the mark is gone right after
    /// it, and the frame after that uploads nothing.
    pub proof fn lemma_position_uploaded_once(self)
        requires
            self.spec_is_initialized(),
        ensures
            self.position_marked().uploads_position(),
            self.position_marked().position_marked().uploads_position(),
            !self.position_marked().frame_done().spec_position_updated(),
            !self.position_marked().frame_done().uploads_position(),
            self.position_marked().frame_done().frame_done() == self.position_marked().frame_done(),
    {
    }
}

} // verus!
