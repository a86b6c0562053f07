use acoustic_field_viewer::scalar::ONE;
use acoustic_field_viewer::sound_source::SoundSource;
use acoustic_field_viewer::view::window::WindowEvent;
use acoustic_field_viewer::view::window::WindowState;
use acoustic_field_viewer::view::AcousticFiledSliceViewer;
use acoustic_field_viewer::view::SoundSourceViewer;
use acoustic_field_viewer::view::UpdateHandler;
use acoustic_field_viewer::view::ViewWindow;
use acoustic_field_viewer::view::ViewerSettings;
use scarlet::colormap::ListedColorMap;

const SIZE: i64 = 10_180_000;
const HALF: i64 = 5_090_000;

type Coloring = fn(i64) -> [i64; 4];

fn ramp(p: i64) -> [i64; 4] {
    [p, ONE - p, 0, ONE]
}

fn settings() -> ViewerSettings<Coloring> {
    ViewerSettings::new(40_000 * ONE, SIZE, ramp as Coloring, ListedColorMap::viridis())
}

fn sources() -> Vec<SoundSource> {
    vec![
        SoundSource::new([0, 0, 0], [0, 0, ONE], 0),
        SoundSource::new([SIZE, 0, 0], [0, 0, ONE], ONE / 2),
    ]
}

fn disc(pos: [i64; 3]) -> [[i64; 4]; 4] {
    [[HALF, 0, 0, 0], [0, HALF, 0, 0], [0, 0, HALF, 0], [pos[0], pos[1], pos[2], ONE]]
}

fn created() -> ViewWindow<Coloring> {
    let settings = settings();
    // the point view is sized for another list: the window sizes it anew
    let points = SoundSourceViewer::new(&sources()[..1], &settings);
    let mut slice = AcousticFiledSliceViewer::new();
    slice.translate([86_530_000, 66_170_000, 150 * ONE]);
    ViewWindow::new(sources(), points, slice, settings)
}

fn running() -> ViewWindow<Coloring> {
    let mut window = created();
    assert!(window.render_setting().is_some());
    assert!(window.start());
    window
}

#[test]
fn a_new_window_is_created_and_sized_for_its_sources() {
    let window = created();
    assert_eq!(window.state(), WindowState::Created);
    let handler = window.update_handler();
    assert_eq!(handler.sources.len(), 2);
    assert_eq!(handler.sound_source_viewer.models(), &vec![disc([0, 0, 0]), disc([SIZE, 0, 0])]);
    assert_eq!(handler.field_slice_viewer.model()[3], [86_530_000, 66_170_000, 150 * ONE, ONE]);
    assert!(!handler.update_source_pos);
    assert!(!handler.update_source_phase);
    assert!(!handler.field_slice_viewer.is_initialized());
    assert!(!handler.sound_source_viewer.is_initialized());
}

#[test]
fn the_states_follow_one_another() {
    let mut window = created();
    // nothing runs before the views are initialized
    assert!(!window.start());
    assert_eq!(window.state(), WindowState::Created);
    assert!(window.draw().is_none());
    let plan = window.on_event(WindowEvent::Render);
    assert!(!plan.draw && !plan.invoke_update && !plan.recompute_projection);
    assert_eq!(window.on_event(WindowEvent::Closed).draw, false);
    assert_eq!(window.state(), WindowState::Created);

    let setup = window.render_setting().unwrap();
    assert_eq!(window.state(), WindowState::Initialized);
    assert_eq!(setup.slice.trans_num, 2);
    assert_eq!(setup.slice.trans_size, SIZE);
    assert_eq!(setup.slice.texels, vec![[0, 0, 0, 0]; 2]);
    assert_eq!(setup.points.instances, 2);
    assert!(window.update_handler().field_slice_viewer.is_initialized());
    assert!(window.update_handler().sound_source_viewer.is_initialized());
    // initializing happens once
    assert!(window.render_setting().is_none());
    assert_eq!(window.state(), WindowState::Initialized);
    assert!(window.draw().is_none());

    assert!(window.start());
    assert_eq!(window.state(), WindowState::Running);
    assert!(!window.start());
    assert!(window.render_setting().is_none());
    assert_eq!(window.state(), WindowState::Running);

    window.on_event(WindowEvent::Closed);
    assert_eq!(window.state(), WindowState::Terminated);
    let plan = window.on_event(WindowEvent::Render);
    assert!(!plan.draw && !plan.invoke_update && !plan.recompute_projection);
    assert!(window.draw().is_none());
    assert!(!window.start());
    assert_eq!(window.state(), WindowState::Terminated);
}

#[test]
fn each_event_has_its_plan() {
    let mut window = running();
    let plan = window.on_event(WindowEvent::Render);
    assert!(plan.draw && !plan.invoke_update && !plan.recompute_projection);
    let plan = window.on_event(WindowEvent::Press);
    assert!(!plan.draw && plan.invoke_update && !plan.recompute_projection);
    let plan = window.on_event(WindowEvent::Resize);
    assert!(!plan.draw && !plan.invoke_update && plan.recompute_projection);
    let plan = window.on_event(WindowEvent::Other);
    assert!(!plan.draw && !plan.invoke_update && !plan.recompute_projection);
    let plan = window.on_event(WindowEvent::Closed);
    assert!(!plan.draw && !plan.invoke_update && !plan.recompute_projection);
}

#[test]
fn the_first_frame_uploads_all_textures_and_refreshes_the_discs() {
    let mut window = running();
    let frame = window.draw().unwrap();
    let slice = frame.slice.unwrap();
    assert!(!slice.rebind_targets);
    assert_eq!(slice.phase, Some(vec![[0, 0, 0, 0], [127, 0, 0, 0]]));
    let position = slice.position.unwrap();
    assert_eq!(position.pos, vec![[0, 0, 0, 0], [1, 0, 0, 0]]);
    assert_eq!(position.pos_256, vec![[0, 0, 0, 0], [0, 0, 0, 0]]);
    assert_eq!(position.pos_sub, vec![[0, 0, 0, 0], [0, 0, 0, 0]]);
    assert_eq!(slice.model[3], [86_530_000, 66_170_000, 150 * ONE, ONE]);
    let points = frame.points.unwrap();
    assert!(!points.rebind_targets);
    assert!(points.refresh_transforms);
    assert_eq!(points.draws, 2);

    let frame = window.draw().unwrap();
    let slice = frame.slice.unwrap();
    assert!(slice.phase.is_none() && slice.position.is_none());
    assert!(!frame.points.unwrap().refresh_transforms);
}

#[test]
fn a_resize_is_remembered_until_the_next_frame() {
    let mut window = running();
    window.draw();
    window.on_event(WindowEvent::Resize);
    window.on_event(WindowEvent::Other);
    window.on_event(WindowEvent::Press);
    let frame = window.draw().unwrap();
    assert!(frame.slice.unwrap().rebind_targets);
    assert!(frame.points.unwrap().rebind_targets);
    let frame = window.draw().unwrap();
    assert!(!frame.slice.unwrap().rebind_targets);
    assert!(!frame.points.unwrap().rebind_targets);
}

#[test]
fn a_changed_phase_reaches_both_views_once() {
    let mut window = running();
    window.draw();
    {
        let handler = window.update_handler_mut();
        handler.sources[0].phase = ONE / 4;
        handler.update_source_phase();
        handler.update_source_phase();
        assert!(handler.update_source_phase);
        assert!(!handler.update_source_pos);
        assert!(handler.check_can_update());
        handler.update_sources();
        assert!(!handler.update_source_phase);
        assert_eq!(
            handler.sound_source_viewer.colors(),
            &vec![[ONE / 4, 3 * ONE / 4, 0, ONE], [ONE / 2, ONE / 2, 0, ONE]]
        );
        assert!(handler.field_slice_viewer.phase_updated());
        assert!(!handler.field_slice_viewer.position_updated());
        assert!(handler.check_can_draw());
    }
    let frame = window.draw().unwrap();
    let slice = frame.slice.unwrap();
    assert_eq!(slice.phase, Some(vec![[64, 0, 0, 0], [127, 0, 0, 0]]));
    assert!(slice.position.is_none());
    assert!(!frame.points.unwrap().refresh_transforms);
    let frame = window.draw().unwrap();
    assert!(frame.slice.unwrap().phase.is_none());
}

#[test]
fn a_changed_position_reaches_both_views_once() {
    let mut window = running();
    window.draw();
    {
        let handler = window.update_handler_mut();
        handler.sources[1].pos = [3 * SIZE, SIZE / 2, -SIZE];
        handler.update_source_pos();
        handler.update_sources();
        assert!(!handler.update_source_pos);
        assert_eq!(
            handler.sound_source_viewer.models(),
            &vec![disc([0, 0, 0]), disc([3 * SIZE, SIZE / 2, -SIZE])]
        );
        assert!(handler.field_slice_viewer.position_updated());
        assert!(!handler.field_slice_viewer.phase_updated());
    }
    let frame = window.draw().unwrap();
    let slice = frame.slice.unwrap();
    assert!(slice.phase.is_none());
    let position = slice.position.unwrap();
    assert_eq!(position.pos, vec![[0, 0, 0, 0], [3, 1, 0, 0]]);
    assert_eq!(position.pos_256, vec![[0, 0, 0, 0], [0, 0, 0, 0]]);
    assert_eq!(position.pos_sub, vec![[0, 0, 0, 0], [0, 128, 0, 0]]);
    assert!(frame.points.unwrap().refresh_transforms);
    let frame = window.draw().unwrap();
    assert!(frame.slice.unwrap().position.is_none());
    assert!(!frame.points.unwrap().refresh_transforms);
}

#[test]
fn without_a_note_nothing_is_passed_on() {
    let mut window = running();
    window.draw();
    let handler = window.update_handler_mut();
    handler.sources[0].phase = ONE / 4;
    handler.sources[0].pos = [1, 1, 1];
    handler.update_sources();
    assert_eq!(
        handler.sound_source_viewer.colors(),
        &vec![[0, ONE, 0, ONE], [ONE / 2, ONE / 2, 0, ONE]]
    );
    assert_eq!(handler.sound_source_viewer.models(), &vec![disc([0, 0, 0]), disc([SIZE, 0, 0])]);
    assert!(!handler.field_slice_viewer.phase_updated());
    assert!(!handler.field_slice_viewer.position_updated());
}

#[test]
fn the_handler_tells_when_the_views_have_no_room() {
    let settings = settings();
    let points = SoundSourceViewer::new(&sources(), &settings);
    let slice = AcousticFiledSliceViewer::new();
    let mut handler = UpdateHandler::new(sources(), points, slice, settings);
    assert!(handler.check_can_update());
    assert!(handler.check_can_draw());
    // the point view has no colour slots before it is initialized
    handler.update_source_phase();
    assert!(!handler.check_can_update());
    handler.update_source_phase = false;
    // a third source has no disc
    handler.sources.push(SoundSource::new([0, 0, 0], [0, 0, ONE], 0));
    handler.update_source_pos();
    assert!(!handler.check_can_update());
    handler.sources.pop();
    assert!(handler.check_can_update());
    handler.update_sources();
    assert!(!handler.update_source_pos);
    assert!(handler.sound_source_viewer.position_updated());
    assert!(handler.field_slice_viewer.position_updated());
}

#[test]
fn the_slice_can_be_moved_through_the_handler() {
    let mut window = running();
    window.update_handler_mut().field_slice_viewer.translate([0, 0, 2 * ONE]);
    window.update_handler_mut().settings.set_slice_alpha(ONE / 2);
    let frame = window.draw().unwrap();
    assert_eq!(frame.slice.unwrap().model[3], [86_530_000, 66_170_000, 152 * ONE, ONE]);
    assert_eq!(window.update_handler().settings.slice_alpha(), ONE / 2);
}
