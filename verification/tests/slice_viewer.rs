use acoustic_field_viewer::scalar::ONE;
use acoustic_field_viewer::sound_source::SoundSource;
use acoustic_field_viewer::vec_utils::Matrix4;
use acoustic_field_viewer::view::acoustic_field_slice_viewer::empty_texels;
use acoustic_field_viewer::view::acoustic_field_slice_viewer::Vertex;
use acoustic_field_viewer::view::acoustic_field_slice_viewer::SLICE_SCALE;
use acoustic_field_viewer::view::AcousticFiledSliceViewer;
use acoustic_field_viewer::view::ViewerSettings;
use scarlet::colormap::ListedColorMap;

const SIZE: i64 = 10_180_000;

fn gray(p: i64) -> [i64; 4] {
    [p, p, p, ONE]
}

fn settings() -> ViewerSettings<fn(i64) -> [i64; 4]> {
    ViewerSettings::new(40_000 * ONE, SIZE, gray as fn(i64) -> [i64; 4], ListedColorMap::viridis())
}

fn sources() -> Vec<SoundSource> {
    vec![
        SoundSource::new([0, 0, 0], [0, 0, ONE], 0),
        SoundSource::new([SIZE, 0, 0], [0, 0, ONE], ONE / 2),
        SoundSource::new([300 * SIZE, -SIZE, SIZE / 4], [0, 0, ONE], ONE / 4),
    ]
}

/// A quaternion for a turn by `angle` radians about `axis`.
fn turn(axis: [f64; 3], angle: f64) -> (i32, [i32; 3]) {
    let q = quaternion::axis_angle(axis, angle);
    let fixed = |x: f64| (x * ONE as f64).round() as i32;
    (fixed(q.0), [fixed(q.1[0]), fixed(q.1[1]), fixed(q.1[2])])
}

fn close(a: Matrix4, b: Matrix4, tolerance: i64) -> bool {
    (0..4).all(|c| (0..4).all(|r| (a[c][r] - b[c][r]).abs() <= tolerance))
}

#[test]
fn a_new_viewer_is_a_scaled_slice_at_the_origin() {
    let viewer = AcousticFiledSliceViewer::new();
    assert_eq!(SLICE_SCALE, 150 * ONE);
    assert_eq!(
        viewer.model(),
        [[150 * ONE, 0, 0, 0], [0, 150 * ONE, 0, 0], [0, 0, 150 * ONE, 0], [0, 0, 0, ONE]]
    );
    assert!(!viewer.is_initialized());
    assert!(!viewer.position_updated());
    assert!(!viewer.phase_updated());
}

#[test]
fn vertex_gets_a_fourth_coordinate_of_one() {
    assert_eq!(Vertex::new([-1, 0, 1]).a_pos, [-1, 0, 1, 1]);
}

#[test]
fn empty_texels_are_zero() {
    assert_eq!(empty_texels(0), Vec::<[u8; 4]>::new());
    assert_eq!(empty_texels(3), vec![[0, 0, 0, 0]; 3]);
}

#[test]
fn translations_add_up() {
    let mut viewer = AcousticFiledSliceViewer::new();
    viewer.translate([86_530_000, 66_170_000, 150 * ONE]);
    viewer.translate([0, 0, 2 * ONE]);
    viewer.translate([-2 * ONE, 0, 0]);
    viewer.translate([0, 0, 2 * ONE]);
    assert_eq!(
        viewer.model(),
        [
            [150 * ONE, 0, 0, 0],
            [0, 150 * ONE, 0, 0],
            [0, 0, 150 * ONE, 0],
            [84_530_000, 66_170_000, 154 * ONE, ONE],
        ]
    );
}

#[test]
fn translations_do_not_depend_on_their_order() {
    let deltas = [[1, 2, 3], [-40, 50, 60], [700, -800, 900], [i64::MAX / 4, 0, i64::MIN / 4]];
    let mut forward = AcousticFiledSliceViewer::new();
    for d in deltas.iter() {
        forward.translate(*d);
    }
    let mut backward = AcousticFiledSliceViewer::new();
    for d in deltas.iter().rev() {
        backward.translate(*d);
    }
    let mut shuffled = AcousticFiledSliceViewer::new();
    for i in [2, 0, 3, 1] {
        shuffled.translate(deltas[i]);
    }
    assert_eq!(forward.model(), backward.model());
    assert_eq!(forward.model(), shuffled.model());
    assert_eq!(forward.model()[3], [661 + i64::MAX / 4, -748, 963 + i64::MIN / 4, ONE]);
}

#[test]
fn rotation_is_relative_to_the_current_orientation() {
    let mut viewer = AcousticFiledSliceViewer::new();
    viewer.translate([ONE, 2 * ONE, 3 * ONE]);
    viewer.rotate((707_107, [0, 0, 707_107]));
    assert_eq!(
        viewer.model(),
        [
            [-150, 150_000_150, 0, 0],
            [-150_000_150, -150, 0, 0],
            [0, 0, 150 * ONE, 0],
            [ONE, 2 * ONE, 3 * ONE, ONE],
        ]
    );
    // a second quarter turn makes a half turn, not a quarter turn again
    viewer.rotate((707_107, [0, 0, 707_107]));
    let half: Matrix4 =
        [[-150 * ONE, 0, 0, 0], [0, -150 * ONE, 0, 0], [0, 0, 150 * ONE, 0], [ONE, 2 * ONE, 3 * ONE, ONE]];
    assert!(close(viewer.model(), half, 1_000));
}

#[test]
fn rotation_by_no_turn_changes_nothing() {
    let mut viewer = AcousticFiledSliceViewer::new();
    viewer.translate([5, 6, 7]);
    viewer.rotate(turn([0.0, 1.0, 0.0], 1.0));
    let before = viewer.model();
    viewer.rotate((ONE as i32, [0, 0, 0]));
    assert_eq!(viewer.model(), before);
    viewer.rotate(turn([0.0, 0.0, 1.0], 0.0));
    assert_eq!(viewer.model(), before);
}

#[test]
fn two_turns_about_one_axis_add_their_angles() {
    let axis = [0.0, 0.0, 1.0];
    let mut twice = AcousticFiledSliceViewer::new();
    twice.rotate(turn(axis, 0.3));
    twice.rotate(turn(axis, 0.5));
    let mut once = AcousticFiledSliceViewer::new();
    once.rotate(turn(axis, 0.8));
    // entries are up to 150; each rounding is off by at most a few millionths of that
    assert!(close(twice.model(), once.model(), 1_000));
    assert!(!close(twice.model(), AcousticFiledSliceViewer::new().model(), 1_000_000));

    let axis = [0.6, 0.0, 0.8];
    let mut twice = AcousticFiledSliceViewer::new();
    twice.rotate(turn(axis, -1.1));
    twice.rotate(turn(axis, 0.4));
    let mut once = AcousticFiledSliceViewer::new();
    once.rotate(turn(axis, -0.7));
    assert!(close(twice.model(), once.model(), 1_000));
}

#[test]
fn moving_and_turning_commute() {
    let q = turn([0.0, 1.0, 0.0], 0.7);
    let mut a = AcousticFiledSliceViewer::new();
    a.translate([10 * ONE, -20 * ONE, 30 * ONE]);
    a.rotate(q);
    let mut b = AcousticFiledSliceViewer::new();
    b.rotate(q);
    b.translate([10 * ONE, -20 * ONE, 30 * ONE]);
    assert_eq!(a.model(), b.model());
    assert_eq!(a.model()[3], [10 * ONE, -20 * ONE, 30 * ONE, ONE]);
}

#[test]
fn render_setting_describes_the_quad_and_the_empty_textures() {
    let mut viewer = AcousticFiledSliceViewer::new();
    let setup = viewer.render_setting(&sources(), &settings());
    let corners: Vec<[i8; 4]> = setup.vertex_data.iter().map(|v| v.a_pos).collect();
    assert_eq!(corners, vec![[-1, 0, -1, 1], [1, 0, -1, 1], [1, 0, 1, 1], [-1, 0, 1, 1]]);
    assert_eq!(setup.index_data, [0, 1, 2, 2, 3, 0]);
    assert_eq!(setup.trans_size, SIZE);
    assert_eq!(setup.trans_num, 3);
    assert_eq!(setup.texels, vec![[0, 0, 0, 0]; 3]);
    assert!(viewer.is_initialized());
    assert!(viewer.position_updated());
    assert!(viewer.phase_updated());
}

#[test]
fn a_viewer_that_is_not_initialized_draws_nothing_and_keeps_its_marks() {
    let mut viewer = AcousticFiledSliceViewer::new();
    viewer.update_source_phase();
    assert!(viewer.renderer(&sources(), &settings(), false).is_none());
    assert!(viewer.phase_updated());
    assert!(!viewer.position_updated());
}

#[test]
fn the_first_frame_uploads_everything() {
    let mut viewer = AcousticFiledSliceViewer::new();
    viewer.translate([1, 2, 3]);
    viewer.render_setting(&sources(), &settings());
    let frame = viewer.renderer(&sources(), &settings(), false).unwrap();
    assert!(!frame.rebind_targets);
    assert_eq!(frame.model, viewer.model());
    assert_eq!(frame.phase, Some(vec![[0, 0, 0, 0], [127, 0, 0, 0], [64, 0, 0, 0]]));
    let position = frame.position.unwrap();
    assert_eq!(position.pos, vec![[0, 0, 0, 0], [1, 0, 0, 0], [44, 0, 0, 0]]);
    assert_eq!(position.pos_256, vec![[0, 0, 0, 0], [0, 0, 0, 0], [1, 0, 0, 0]]);
    assert_eq!(position.pos_sub, vec![[0, 0, 0, 0], [0, 0, 0, 0], [0, 0, 64, 0]]);
    assert!(!viewer.position_updated());
    assert!(!viewer.phase_updated());
}

#[test]
fn a_mark_gives_one_upload_however_often_it_is_set() {
    let mut viewer = AcousticFiledSliceViewer::new();
    viewer.render_setting(&sources(), &settings());
    viewer.renderer(&sources(), &settings(), false);

    viewer.update_source_phase();
    viewer.update_source_phase();
    viewer.update_source_phase();
    assert!(viewer.phase_updated());
    let frame = viewer.renderer(&sources(), &settings(), false).unwrap();
    assert!(frame.phase.is_some());
    assert!(frame.position.is_none());
    assert!(!viewer.phase_updated());
    let frame = viewer.renderer(&sources(), &settings(), false).unwrap();
    assert!(frame.phase.is_none());
    assert!(frame.position.is_none());

    viewer.update_source_pos();
    viewer.update_source_pos();
    let frame = viewer.renderer(&sources(), &settings(), false).unwrap();
    assert!(frame.phase.is_none());
    assert!(frame.position.is_some());
    assert!(!viewer.position_updated());
    let frame = viewer.renderer(&sources(), &settings(), false).unwrap();
    assert!(frame.position.is_none());
}

#[test]
fn an_upload_encodes_the_sources_as_they_are_at_the_frame() {
    let mut viewer = AcousticFiledSliceViewer::new();
    let mut sources = sources();
    viewer.render_setting(&sources, &settings());
    viewer.renderer(&sources, &settings(), false);
    sources[0].phase = 3 * ONE / 4;
    sources[2].pos = [2 * SIZE, 0, 0];
    viewer.update_source_phase();
    let frame = viewer.renderer(&sources, &settings(), false).unwrap();
    assert_eq!(frame.phase, Some(vec![[191, 0, 0, 0], [127, 0, 0, 0], [64, 0, 0, 0]]));
    // the positions changed too, but nobody said so
    assert!(frame.position.is_none());
}

#[test]
fn a_resize_asks_for_the_targets_to_be_bound_again() {
    let mut viewer = AcousticFiledSliceViewer::new();
    viewer.render_setting(&sources(), &settings());
    let frame = viewer.renderer(&sources(), &settings(), true).unwrap();
    assert!(frame.rebind_targets);
    let frame = viewer.renderer(&sources(), &settings(), false).unwrap();
    assert!(!frame.rebind_targets);
}

#[test]
fn the_viewer_tells_which_moves_and_turns_fit() {
    let mut viewer = AcousticFiledSliceViewer::new();
    assert!(viewer.can_translate([i64::MAX, i64::MIN, 0]));
    viewer.translate([i64::MAX, i64::MIN, 0]);
    assert!(viewer.can_translate([0, 0, 5]));
    assert!(viewer.can_translate([-1, 1, 0]));
    assert!(!viewer.can_translate([1, 0, 0]));
    assert!(!viewer.can_translate([0, -1, 0]));
    // turning leaves the translation alone, and the rest is small
    assert!(viewer.can_rotate((707_107, [0, 0, 707_107])));
    // a quaternion far from unit length blows the slice up beyond all scalars
    let huge = (0, [i32::MAX, i32::MAX, 0]);
    assert!(viewer.can_rotate(huge));
    viewer.rotate(huge);
    assert_eq!(viewer.model()[2][2], -2_767_011_458_479_500);
    assert!(!viewer.can_rotate(huge));
}
