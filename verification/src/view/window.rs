//! The state that the two views share, and the decisions of the window loop.
//!
//! Whoever owns the real window polls it for events and performs what this
//! module answers. For every event [`ViewWindow::on_event`] says whether the
//! update callback is to be called, whether a frame is to be drawn and
//! whether the projection has to be worked out again. The callback gets the
//! [`UpdateHandler`], changes sources and settings through it and says what
//! it changed; [`UpdateHandler::update_sources`] then passes that on to the
//! two views. [`ViewWindow::draw`] finally says what the frame consists of.

use crate::coloring_method::Color;
use crate::scalar::Scalar;
use crate::sound_source::SoundSource;
use crate::view::acoustic_field_slice_viewer::is_slice_frame;
use crate::view::acoustic_field_slice_viewer::is_slice_setup;
use crate::view::acoustic_field_slice_viewer::SliceFrame;
use crate::view::acoustic_field_slice_viewer::SliceSetup;
use crate::view::sound_source_viewer::colors_follow;
use crate::view::sound_source_viewer::half_spec;
use crate::view::sound_source_viewer::is_colors;
use crate::view::sound_source_viewer::is_models;
use crate::view::sound_source_viewer::is_point_setup;
use crate::view::sound_source_viewer::models_follow;
use crate::view::sound_source_viewer::PointFrame;
use crate::view::sound_source_viewer::PointSetup;
use crate::view::AcousticFiledSliceViewer;
use crate::view::SoundSourceViewer;
use crate::view::ViewerSettings;
use vstd::prelude::*;

verus! {

/// The sources, the settings and the two views, together with a note of what
/// the update callback changed.
pub struct UpdateHandler<C: Fn(Scalar) -> Color> {
    /// Whether the position of a source changed since the views last heard
    /// of it.
    pub update_source_pos: bool,
    /// Whether the phase of a source changed since the views last heard of
    /// it.
    pub update_source_phase: bool,
    /// The point view.
    pub sound_source_viewer: SoundSourceViewer,
    /// The slice view.
    pub field_slice_viewer: AcousticFiledSliceViewer,
    /// The sources, which both views read and only the update callback
    /// changes.
    pub sources: Vec<SoundSource>,
    /// The settings, likewise.
    pub settings: ViewerSettings<C>,
}

impl<C: Fn(Scalar) -> Color> UpdateHandler<C> {
    /// Whether the point view has room for what [`Self::update_sources`]
    /// would write: a colour slot for every source if the phases changed, a
    /// transform for every source if the positions changed.
    pub open spec fn can_update(&self) -> bool {
        &&& self.update_source_phase ==> self.sources@.len()
            <= self.sound_source_viewer.spec_colors()@.len()
        &&& self.update_source_pos ==> self.sources@.len()
            <= self.sound_source_viewer.spec_models()@.len()
    }

    /// Whether the point view can draw: while its discs count as moved it
    /// has a transform for every colour slot.
    pub open spec fn can_draw(&self) -> bool {
        self.sound_source_viewer.spec_position_updated()
            ==> self.sound_source_viewer.spec_colors()@.len()
            <= self.sound_source_viewer.spec_models()@.len()
    }

    /// Puts the shared state together. Nothing counts as changed.
    pub fn new(
        sources: Vec<SoundSource>,
        sound_source_viewer: SoundSourceViewer,
        field_slice_viewer: AcousticFiledSliceViewer,
        settings: ViewerSettings<C>,
    ) -> (handler: Self)
        ensures
            !handler.update_source_pos,
            !handler.update_source_phase,
            handler.sound_source_viewer == sound_source_viewer,
            handler.field_slice_viewer == field_slice_viewer,
            handler.sources == sources,
            handler.settings == settings,
    {
        UpdateHandler {
            update_source_phase: false,
            update_source_pos: false,
            sound_source_viewer,
            field_slice_viewer,
            sources,
            settings,
        }
    }

    /// Tells whether [`Self::update_sources`] may be called.
    pub fn check_can_update(&self) -> (ok: bool)
        ensures
            ok == self.can_update(),
    {
        (!self.update_source_phase || self.sources.len() <= self.sound_source_viewer.colors().len())
            && (!self.update_source_pos || self.sources.len()
            <= self.sound_source_viewer.models().len())
    }

    /// Tells whether a frame may be drawn.
    pub fn check_can_draw(&self) -> (ok: bool)
        ensures
            ok == self.can_draw(),
    {
        !self.sound_source_viewer.position_updated() || self.sound_source_viewer.colors().len()
            <= self.sound_source_viewer.models().len()
    }

    /// Passes on to the two views what was noted as changed, and clears the
    /// notes. Changed phases give the discs new colours and mark the phase
    /// texture of the slice; changed positions move the discs and mark the
    /// position textures of the slice.
    pub fn update_sources(&mut self)
        requires
            old(self).can_update(),
        ensures
            !final(self).update_source_phase,
            !final(self).update_source_pos,
            final(self).sources == old(self).sources,
            final(self).settings == old(self).settings,
            final(self).field_slice_viewer.spec_model() == old(self).field_slice_viewer.spec_model(),
            final(self).field_slice_viewer.spec_is_initialized() == old(self).field_slice_viewer.spec_is_initialized(),
            final(self).field_slice_viewer.spec_phase_updated() == (old(self).field_slice_viewer.spec_phase_updated() || old(self).update_source_phase),
            final(self).field_slice_viewer.spec_position_updated() == (old(self).field_slice_viewer.spec_position_updated() || old(self).update_source_pos),
            final(self).sound_source_viewer.spec_is_initialized() == old(self).sound_source_viewer.spec_is_initialized(),
            final(self).sound_source_viewer.spec_position_updated() == (old(self).sound_source_viewer.spec_position_updated() || old(self).update_source_pos),
            if old(self).update_source_phase {
                colors_follow(
                    old(self).sound_source_viewer.spec_colors()@,
                    final(self).sound_source_viewer.spec_colors()@,
                    old(self).sources@,
                    *old(self).settings.spec_trans_coloring(),
                )
            } else {
                final(self).sound_source_viewer.spec_colors() == old(self).sound_source_viewer.spec_colors()
            },
            if old(self).update_source_pos {
                models_follow(
                    old(self).sound_source_viewer.spec_models()@,
                    final(self).sound_source_viewer.spec_models()@,
                    old(self).sources@,
                )
            } else {
                final(self).sound_source_viewer.spec_models() == old(self).sound_source_viewer.spec_models()
            },
    {
        if self.update_source_phase {
            self.sound_source_viewer.update_phase(self.sources.as_slice(), &self.settings);
            self.field_slice_viewer.update_source_phase();
            self.update_source_phase = false;
        }
        if self.update_source_pos {
            self.sound_source_viewer.update_position(self.sources.as_slice());
            self.field_slice_viewer.update_source_pos();
            self.update_source_pos = false;
        }
    }

    /// Notes that the phase of a source changed.
    pub fn update_source_phase(&mut self)
        ensures
            final(self).update_source_phase,
            final(self).update_source_pos == old(self).update_source_pos,
            final(self).sound_source_viewer == old(self).sound_source_viewer,
            final(self).field_slice_viewer == old(self).field_slice_viewer,
            final(self).sources == old(self).sources,
            final(self).settings == old(self).settings,
    {
        self.update_source_phase = true;
    }

    /// Notes that the position of a source changed.
    pub fn update_source_pos(&mut self)
        ensures
            final(self).update_source_pos,
            final(self).update_source_phase == old(self).update_source_phase,
            final(self).sound_source_viewer == old(self).sound_source_viewer,
            final(self).field_slice_viewer == old(self).field_slice_viewer,
            final(self).sources == old(self).sources,
            final(self).settings == old(self).settings,
    {
        self.update_source_pos = true;
    }
}

/// Where the window stands in its life.
#[derive(Clone, Copy, Debug, PartialEq, Eq, Structural)]
pub enum WindowState {
    /// The shared state is put together; nothing is allocated.
    Created,
    /// Textures and shaders are bound; the loop has not begun.
    Initialized,
    /// The loop runs: one step per event.
    Running,
    /// The window was closed.
    Terminated,
}

/// What the loop needs to know of an event of the window.
#[derive(Clone, Copy, Debug, PartialEq, Eq, Structural)]
pub enum WindowEvent {
    /// A frame is due.
    Render,
    /// The window changed its size.
    Resize,
    /// A button went down.
    Press,
    /// The window was closed.
    Closed,
    /// Anything else.
    Other,
}

/// What has to be allocated before the loop begins.
pub struct WindowSetup {
    /// What the slice view needs.
    pub slice: SliceSetup,
    /// What the point view needs.
    pub points: PointSetup,
}

/// What the loop has to do for one event, in this order.
#[derive(Clone, Copy, Debug)]
pub struct EventPlan {
    /// Call the update callback with the handler and the button, then
    /// [`UpdateHandler::update_sources`].
    pub invoke_update: bool,
    /// Open a render pass, clear colour and depth, and perform what
    /// [`ViewWindow::draw`] returns.
    pub draw: bool,
    /// Work out the projection again from the window's new aspect ratio.
    pub recompute_projection: bool,
}

/// One frame: the slice is drawn first, the discs after it.
pub struct Frame {
    /// What the slice view has to do.
    pub slice: Option<SliceFrame>,
    /// What the point view has to do.
    pub points: Option<PointFrame>,
}

/// The plan for an event that arrives in the state `state`. Only a running
/// window reacts: a pressed button calls for the update callback, a due
/// frame for a draw and a resize for a new projection.
pub open spec fn plan_for(state: WindowState, event: WindowEvent) -> EventPlan {
    EventPlan {
        invoke_update: state is Running && event is Press,
        draw: state is Running && event is Render,
        recompute_projection: state is Running && event is Resize,
    }
}

/// The state after an event: closing ends a running window, and nothing else
/// changes the state.
pub open spec fn state_after(state: WindowState, event: WindowEvent) -> WindowState {
    if state is Running && event is Closed {
        WindowState::Terminated
    } else {
        state
    }
}

/// The decisions of the window loop, around the state that the views share.
pub struct ViewWindow<C: Fn(Scalar) -> Color> {
    state: WindowState,
    resized: bool,
    update_handler: UpdateHandler<C>,
}

impl<C: Fn(Scalar) -> Color> ViewWindow<C> {
    /// Where the window stands in its life.
    pub closed spec fn spec_state(&self) -> WindowState {
        self.state
    }

    /// Whether the window changed its size since the last frame.
    pub closed spec fn spec_resized(&self) -> bool {
        self.resized
    }

    /// The state that the views share.
    pub closed spec fn spec_update_handler(&self) -> &UpdateHandler<C> {
        &self.update_handler
    }

    /// Puts the shared state together around the sources. The point view
    /// gets its transforms anew from the sources; the slice view is taken
    /// as it comes, so a slice that was moved beforehand stays where it is.
    pub fn new(
        sources: Vec<SoundSource>,
        sound_source_viewer: SoundSourceViewer,
        field_slice_viewer: AcousticFiledSliceViewer,
        settings: ViewerSettings<C>,
    ) -> (window: Self)
        ensures
            window.spec_state() is Created,
            !window.spec_resized(),
            window.spec_update_handler().sources == sources,
            window.spec_update_handler().settings == settings,
            window.spec_update_handler().field_slice_viewer == field_slice_viewer,
            !window.spec_update_handler().update_source_pos,
            !window.spec_update_handler().update_source_phase,
            is_models(
                window.spec_update_handler().sound_source_viewer.spec_models()@,
                sources@,
                half_spec(settings.spec_source_size() as int),
            ),
            window.spec_update_handler().sound_source_viewer.spec_position_updated(),
            window.spec_update_handler().sound_source_viewer.spec_colors()
                == sound_source_viewer.spec_colors(),
            window.spec_update_handler().sound_source_viewer.spec_is_initialized()
                == sound_source_viewer.spec_is_initialized(),
    {
        let mut sound_source_viewer = sound_source_viewer;
        sound_source_viewer.init_model(sources.as_slice(), &settings);
        ViewWindow {
            state: WindowState::Created,
            resized: false,
            update_handler: UpdateHandler::new(
                sources,
                sound_source_viewer,
                field_slice_viewer,
                settings,
            ),
        }
    }

    /// Where the window stands in its life.
    #[verifier::when_used_as_spec(spec_state)]
    pub fn state(&self) -> (state: WindowState)
        ensures
            state == self.spec_state(),
    {
        self.state
    }

    /// The state that the views share.
    #[verifier::when_used_as_spec(spec_update_handler)]
    pub fn update_handler(&self) -> (handler: &UpdateHandler<C>)
        ensures
            handler == self.spec_update_handler(),
    {
        &self.update_handler
    }

    /// The shared state, for the update callback to change.
    pub fn update_handler_mut(&mut self) -> (handler: &mut UpdateHandler<C>)
        ensures
            *handler == *old(self).spec_update_handler(),
            *final(self).spec_update_handler() == *final(handler),
            final(self).spec_state() == old(self).spec_state(),
            final(self).spec_resized() == old(self).spec_resized(),
    {
        &mut self.update_handler
    }

    /// Takes a created window to `Initialized` and says what has to be
    /// allocated for the two views. In any other state nothing happens and
    /// the result is `None`.
    pub fn render_setting(&mut self) -> (setup: Option<WindowSetup>)
        ensures
            setup is Some <==> old(self).spec_state() is Created,
            setup is None ==> *final(self) == *old(self),
            setup is Some ==> {
                let before = old(self).spec_update_handler();
                let after = final(self).spec_update_handler();
                let setup = setup.unwrap();
                &&& final(self).spec_state() is Initialized
                &&& final(self).spec_resized() == old(self).spec_resized()
                &&& is_slice_setup(setup.slice, before.sources@, before.settings.spec_source_size())
                &&& is_point_setup(setup.points, before.sources@.len() as int)
                &&& after.sources == before.sources
                &&& after.settings == before.settings
                &&& after.update_source_pos == before.update_source_pos
                &&& after.update_source_phase == before.update_source_phase
                &&& after.field_slice_viewer.spec_is_initialized()
                &&& after.field_slice_viewer.spec_position_updated()
                &&& after.field_slice_viewer.spec_phase_updated()
                &&& after.field_slice_viewer.spec_model() == before.field_slice_viewer.spec_model()
                &&& after.sound_source_viewer.spec_is_initialized()
                &&& is_colors(
                    after.sound_source_viewer.spec_colors()@,
                    before.sources@,
                    *before.settings.spec_trans_coloring(),
                )
                &&& after.sound_source_viewer.spec_models()
                    == before.sound_source_viewer.spec_models()
                &&& after.sound_source_viewer.spec_position_updated()
                    == before.sound_source_viewer.spec_position_updated()
            },
    {
        match self.state {
            WindowState::Created => {
                let slice = self.update_handler.field_slice_viewer.render_setting(
                    self.update_handler.sources.as_slice(),
                    &self.update_handler.settings,
                );
                let points = self.update_handler.sound_source_viewer.render_setting(
                    self.update_handler.sources.as_slice(),
                    &self.update_handler.settings,
                );
                self.state = WindowState::Initialized;
                Some(WindowSetup { slice, points })
            },
            _ => None,
        }
    }

    /// Takes an initialized window to `Running` and tells whether it did. In
    /// any other state nothing happens.
    pub fn start(&mut self) -> (started: bool)
        ensures
            started == old(self).spec_state() is Initialized,
            started ==> final(self).spec_state() is Running,
            !started ==> final(self).spec_state() == old(self).spec_state(),
            final(self).spec_resized() == old(self).spec_resized(),
            final(self).spec_update_handler() == old(self).spec_update_handler(),
    {
        match self.state {
            WindowState::Initialized => {
                self.state = WindowState::Running;
                true
            },
            _ => false,
        }
    }

    /// Says what the loop has to do for `event`, and takes note of a resize
    /// and of the end of the window.
    pub fn on_event(&mut self, event: WindowEvent) -> (plan: EventPlan)
        ensures
            plan == plan_for(old(self).spec_state(), event),
            final(self).spec_state() == state_after(old(self).spec_state(), event),
            final(self).spec_resized() == (old(self).spec_resized() || plan.recompute_projection),
            final(self).spec_update_handler() == old(self).spec_update_handler(),
    {
        let running: bool = match self.state {
            WindowState::Running => true,
            _ => false,
        };
        let mut plan = EventPlan { invoke_update: false, draw: false, recompute_projection: false };
        if running {
            match event {
                WindowEvent::Render => {
                    plan.draw = true;
                },
                WindowEvent::Resize => {
                    plan.recompute_projection = true;
                    self.resized = true;
                },
                WindowEvent::Press => {
                    plan.invoke_update = true;
                },
                WindowEvent::Closed => {
                    self.state = WindowState::Terminated;
                },
                WindowEvent::Other => {},
            }
        }
        plan
    }

    /// Says what the frame of a running window consists of: the slice first,
    /// then the discs. If the window changed its size since the last frame,
    /// both views bind their targets again before they draw. A window that
    /// does not run draws nothing and returns `None`.
    pub fn draw(&mut self) -> (frame: Option<Frame>)
        requires
            old(self).spec_update_handler().can_draw(),
        ensures
            frame is Some <==> old(self).spec_state() is Running,
            frame is None ==> *final(self) == *old(self),
            final(self).spec_state() == old(self).spec_state(),
            frame is Some ==> {
                let before = old(self).spec_update_handler();
                let after = final(self).spec_update_handler();
                let frame = frame.unwrap();
                &&& !final(self).spec_resized()
                &&& frame.slice is Some <==> before.field_slice_viewer.spec_is_initialized()
                &&& frame.slice is Some ==> is_slice_frame(
                    frame.slice.unwrap(),
                    before.field_slice_viewer,
                    before.sources@,
                    before.settings.spec_source_size() as int,
                    old(self).spec_resized(),
                )
                &&& frame.points is Some <==> before.sound_source_viewer.spec_is_initialized()
                &&& frame.points is Some ==> frame.points.unwrap() == (PointFrame {
                    rebind_targets: old(self).spec_resized(),
                    refresh_transforms: before.sound_source_viewer.spec_position_updated(),
                    draws: before.sound_source_viewer.spec_colors()@.len() as usize,
                })
                &&& after.field_slice_viewer == before.field_slice_viewer.frame_done()
                &&& after.field_slice_viewer.spec_model() == before.field_slice_viewer.spec_model()
                &&& after.field_slice_viewer.spec_is_initialized()
                    == before.field_slice_viewer.spec_is_initialized()
                &&& before.field_slice_viewer.spec_is_initialized()
                    ==> !after.field_slice_viewer.spec_phase_updated()
                    && !after.field_slice_viewer.spec_position_updated()
                &&& !after.sound_source_viewer.spec_position_updated()
                &&& after.sound_source_viewer.spec_models()
                    == before.sound_source_viewer.spec_models()
                &&& after.sound_source_viewer.spec_colors()
                    == before.sound_source_viewer.spec_colors()
                &&& after.sound_source_viewer.spec_is_initialized()
                    == before.sound_source_viewer.spec_is_initialized()
                &&& after.sources == before.sources
                &&& after.settings == before.settings
                &&& after.update_source_pos == before.update_source_pos
                &&& after.update_source_phase == before.update_source_phase
            },
    {
        match self.state {
            WindowState::Running => {
                let resized: bool = self.resized;
                let slice = self.update_handler.field_slice_viewer.renderer(
                    self.update_handler.sources.as_slice(),
                    &self.update_handler.settings,
                    resized,
                );
                let points = self.update_handler.sound_source_viewer.renderer(resized);
                self.resized = false;
                Some(Frame { slice, points })
            },
            _ => None,
        }
    }
}

} // verus!
