use acoustic_field_viewer::coloring_method::normalized_phase;
use acoustic_field_viewer::scalar::ONE;
use acoustic_field_viewer::sound_source::SoundSource;
use acoustic_field_viewer::view::sound_source_viewer::PointFrame;
use acoustic_field_viewer::view::sound_source_viewer::Vertex;
use acoustic_field_viewer::view::SoundSourceViewer;
use acoustic_field_viewer::view::ViewerSettings;
use scarlet::colormap::ListedColorMap;

const SIZE: i64 = 10_180_000;
const HALF: i64 = 5_090_000;

fn ramp(p: i64) -> [i64; 4] {
    [p, ONE - p, 0, ONE]
}

fn settings() -> ViewerSettings<fn(i64) -> [i64; 4]> {
    ViewerSettings::new(40_000 * ONE, SIZE, ramp as fn(i64) -> [i64; 4], ListedColorMap::viridis())
}

fn sources() -> Vec<SoundSource> {
    vec![
        SoundSource::new([0, 0, 0], [0, 0, ONE], 0),
        SoundSource::new([SIZE, 2 * SIZE, 0], [0, 0, ONE], ONE / 2),
        SoundSource::new([-SIZE, 0, 7], [0, 0, ONE], ONE + ONE / 4),
    ]
}

fn disc(pos: [i64; 3]) -> [[i64; 4]; 4] {
    [[HALF, 0, 0, 0], [0, HALF, 0, 0], [0, 0, HALF, 0], [pos[0], pos[1], pos[2], ONE]]
}

#[test]
fn normalized_phase_drops_whole_turns() {
    assert_eq!(normalized_phase(0), 0);
    assert_eq!(normalized_phase(ONE - 1), ONE - 1);
    assert_eq!(normalized_phase(ONE), 0);
    assert_eq!(normalized_phase(3 * ONE + 5), 5);
    assert_eq!(normalized_phase(-1), ONE - 1);
    assert_eq!(normalized_phase(-2 * ONE - ONE / 4), 3 * ONE / 4);
    assert_eq!(normalized_phase(i64::MIN), 224_192);
    assert_eq!(normalized_phase(i64::MAX), 775_807);
}

#[test]
fn point_vertex_gets_a_fourth_coordinate_of_one() {
    let vertex = Vertex::new([1, -1, 0], [1, 0]);
    assert_eq!(vertex.a_pos, [1, -1, 0, 1]);
    assert_eq!(vertex.a_tex_coord, [1, 0]);
}

#[test]
fn a_new_viewer_has_a_disc_of_half_the_source_size_at_each_source() {
    let viewer = SoundSourceViewer::new(&sources(), &settings());
    assert_eq!(
        viewer.models(),
        &vec![disc([0, 0, 0]), disc([SIZE, 2 * SIZE, 0]), disc([-SIZE, 0, 7])]
    );
    assert!(viewer.colors().is_empty());
    assert!(!viewer.is_initialized());
    assert!(viewer.position_updated());
}

#[test]
fn half_of_an_odd_size_is_rounded_away_from_zero() {
    let odd = ViewerSettings::new(ONE, 7, ramp, ListedColorMap::viridis());
    let viewer = SoundSourceViewer::new(&sources()[..1], &odd);
    assert_eq!(viewer.models()[0][0][0], 4);
    let negative = ViewerSettings::new(ONE, -7, ramp, ListedColorMap::viridis());
    let viewer = SoundSourceViewer::new(&sources()[..1], &negative);
    assert_eq!(viewer.models()[0][0][0], -4);
}

#[test]
fn render_setting_describes_the_quad_and_colours_the_discs() {
    let mut viewer = SoundSourceViewer::new(&sources(), &settings());
    let setup = viewer.render_setting(&sources(), &settings());
    let corners: Vec<[i8; 4]> = setup.vertex_data.iter().map(|v| v.a_pos).collect();
    let coords: Vec<[i8; 2]> = setup.vertex_data.iter().map(|v| v.a_tex_coord).collect();
    assert_eq!(corners, vec![[-1, -1, 0, 1], [1, -1, 0, 1], [1, 1, 0, 1], [-1, 1, 0, 1]]);
    assert_eq!(coords, vec![[0, 0], [1, 0], [1, 1], [0, 1]]);
    assert_eq!(setup.index_data, [0, 1, 2, 2, 3, 0]);
    assert_eq!(setup.instances, 3);
    assert!(viewer.is_initialized());
    assert_eq!(
        viewer.colors(),
        &vec![[0, ONE, 0, ONE], [ONE / 2, ONE / 2, 0, ONE], [ONE / 4, 3 * ONE / 4, 0, ONE]]
    );
    assert_eq!(viewer.models().len(), 3);
}

#[test]
fn update_phase_colours_by_the_new_phases() {
    let mut sources = sources();
    let mut viewer = SoundSourceViewer::new(&sources, &settings());
    viewer.render_setting(&sources, &settings());
    sources[0].phase = 100_000;
    sources[1].phase = -100_000;
    viewer.update_phase(&sources, &settings());
    assert_eq!(
        viewer.colors(),
        &vec![[100_000, 900_000, 0, ONE], [900_000, 100_000, 0, ONE], [ONE / 4, 3 * ONE / 4, 0, ONE]]
    );
    // with fewer sources the colours beyond them stay
    sources[0].phase = 0;
    sources[1].phase = 0;
    viewer.update_phase(&sources[..1], &settings());
    assert_eq!(
        viewer.colors(),
        &vec![[0, ONE, 0, ONE], [900_000, 100_000, 0, ONE], [ONE / 4, 3 * ONE / 4, 0, ONE]]
    );
}

#[test]
fn update_position_moves_the_discs_and_keeps_their_scale() {
    let mut sources = sources();
    let mut viewer = SoundSourceViewer::new(&sources, &settings());
    viewer.render_setting(&sources, &settings());
    viewer.renderer(false);
    assert!(!viewer.position_updated());
    sources[1].pos = [1, 2, 3];
    sources[2].pos = [-4, -5, -6];
    viewer.update_position(&sources);
    assert_eq!(viewer.models(), &vec![disc([0, 0, 0]), disc([1, 2, 3]), disc([-4, -5, -6])]);
    assert!(viewer.position_updated());
    // with fewer sources the discs beyond them stay
    sources[0].pos = [9, 9, 9];
    sources[1].pos = [8, 8, 8];
    viewer.update_position(&sources[..1]);
    assert_eq!(viewer.models(), &vec![disc([9, 9, 9]), disc([1, 2, 3]), disc([-4, -5, -6])]);
}

#[test]
fn init_model_makes_the_discs_anew() {
    let mut viewer = SoundSourceViewer::new(&sources(), &settings());
    viewer.renderer(false);
    let fewer = vec![SoundSource::new([5, 5, 5], [0, 0, ONE], 0)];
    viewer.init_model(&fewer, &settings());
    assert_eq!(viewer.models(), &vec![disc([5, 5, 5])]);
    assert!(viewer.position_updated());
}

#[test]
fn frames_draw_one_disc_per_colour_slot() {
    let mut viewer = SoundSourceViewer::new(&sources(), &settings());
    // nothing to draw with yet, but the move is forgotten all the same
    assert!(viewer.renderer(false).is_none());
    assert!(!viewer.position_updated());

    viewer.render_setting(&sources(), &settings());
    viewer.update_position(&sources());
    let frame: PointFrame = viewer.renderer(false).unwrap();
    assert!(!frame.rebind_targets);
    assert!(frame.refresh_transforms);
    assert_eq!(frame.draws, 3);
    let frame = viewer.renderer(true).unwrap();
    assert!(frame.rebind_targets);
    assert!(!frame.refresh_transforms);
    assert_eq!(frame.draws, 3);
}
