//! The driver of the interactive mode: what to do on each event of the
//! window's event loop.
//!
//! The driver decides and its caller acts. The caller owns the window, the
//! surface and the renderer; it hands each event in, carries out the action
//! that comes back, and reports how the frame went.
use vstd::prelude::*;
use std::time::Duration;
use crate::ctx::{DrawingContext, Size};
use crate::gif::MSAA_SAMPLE_COUNT;
use crate::platform::Event;
use crate::surface_cfg::SurfaceConfigBuilder;

verus! {

/// What the caller is to do about an event for the window.
#[derive(Debug, Clone, Copy, PartialEq, Eq, Structural)]
pub enum EventAction {
    /// Nothing.
    Ignore,
    /// Hand the new size to the renderer's resize.
    Resize(Size),
    /// Update the renderer, let it draw a frame, and report the outcome.
    Redraw,
    /// Leave the event loop.
    Exit,
}

/// What the caller is to do with a frame once the renderer has drawn it.
#[derive(Debug, Clone, Copy, PartialEq, Eq, Structural)]
pub enum FrameAction {
    /// Submit the commands and present the frame.
    Submit,
    /// The surface is gone or out of date: hand this size, the current one,
    /// to the renderer's resize so that the surface is configured anew, and
    /// present nothing.
    Recreate(Size),
    /// The device is out of memory: leave the event loop.
    Exit,
    /// Drop the frame and go on.
    Skip,
}

/// What the caller is to do before the event loop goes to sleep.
#[derive(Debug, Clone, Copy)]
pub struct WaitAction {
    /// Ask the window for a redraw.
    pub request_redraw: bool,
    /// Wake the loop after this long; `None` leaves the loop as it is.
    pub wake_after: Option<Duration>,
}

/// The driver's settings and state.
pub struct App<'a> {
    pub window_title: &'a str,
    /// The largest logical size the window may take, if it is capped.
    pub window_size: Option<Size>,
    pub surface_cfg_builder: Option<&'a SurfaceConfigBuilder<'a>>,
    pub sample_count: u32,
    /// The time between two frames; `None` draws as often as the loop runs.
    pub update_interval: Option<Duration>,
    /// Whether a redraw is owed. Requests are not queued: any number of them
    /// since the last redraw make one.
    pub need_redraw: bool,
    /// Whether the window, the context and the renderer exist.
    pub ready: bool,
}

/// Whether an event is the driver's to handle: the driver is ready and the
/// event is for its own window.
pub open spec fn takes(ready: bool, for_own_window: bool) -> bool {
    ready && for_own_window
}

/// The action for an event that is or is not for the driver's own window and
/// that the renderer has or has not claimed, for a driver that is or is not
/// ready, whose context is or is not backed by a surface.
pub open spec fn event_action(
    ready: bool,
    for_own_window: bool,
    surface_backed: bool,
    event: Event,
    claimed: bool,
) -> EventAction {
    if !takes(ready, for_own_window) || claimed {
        EventAction::Ignore
    } else if event.is_quit_key() {
        EventAction::Exit
    } else {
        match event {
            Event::Resized(size) => EventAction::Resize(size),
            Event::RedrawRequested => if surface_backed {
                EventAction::Redraw
            } else {
                EventAction::Ignore
            },
            Event::CloseRequested => EventAction::Exit,
            _ => EventAction::Ignore,
        }
    }
}

/// The action for a frame whose drawing ended in `outcome`, on a target of
/// `size` pixels.
pub open spec fn frame_action(size: Size, outcome: Result<(), wgpu::SurfaceError>) -> FrameAction {
    match outcome {
        Ok(_) => FrameAction::Submit,
        Err(wgpu::SurfaceError::Lost) => FrameAction::Recreate(size),
        Err(wgpu::SurfaceError::Outdated) => FrameAction::Recreate(size),
        Err(wgpu::SurfaceError::OutOfMemory) => FrameAction::Exit,
        Err(wgpu::SurfaceError::Timeout) => FrameAction::Skip,
    }
}

impl<'a> App<'a> {
    /// A driver for a window with this title: uncapped in size, without
    /// multisampling, redrawing as often as the loop runs, with a redraw
    /// owed, and not ready yet.
    pub fn new(window_title: &'a str) -> (app: Self)
        ensures
            app.window_title == window_title,
            app.window_size is None,
            app.surface_cfg_builder is None,
            app.sample_count == 1,
            app.update_interval is None,
            app.need_redraw,
            !app.ready,
    {
        Self {
            window_title,
            window_size: None,
            surface_cfg_builder: None,
            sample_count: 1,
            update_interval: None,
            need_redraw: true,
            ready: false,
        }
    }

    /// Caps the window at `width` by `height` logical units.
    pub fn with_window_size(self, width: u32, height: u32) -> (app: Self)
        ensures
            app == (App { window_size: Some(Size { width, height }), ..self }),
    {
        let mut app = self;
        app.window_size = Some(Size::new(width, height));
        app
    }

    /// Draws a frame every `interval` instead of as often as the loop runs.
    pub fn with_update_interval(self, interval: Duration) -> (app: Self)
        ensures
            app == (App { update_interval: Some(interval), ..self }),
    {
        let mut app = self;
        app.update_interval = Some(interval);
        app
    }

    /// Multisamples four times.
    pub fn with_msaa(self) -> (app: Self)
        ensures
            app == (App { sample_count: MSAA_SAMPLE_COUNT, ..self }),
    {
        let mut app = self;
        app.sample_count = MSAA_SAMPLE_COUNT;
        app
    }

    /// Configures the surface as `builder` says instead of by the defaults.
    pub fn with_surface_cfg_builder(self, builder: &'a SurfaceConfigBuilder<'a>) -> (app: Self)
        ensures
            app == (App { surface_cfg_builder: Some(builder), ..self }),
    {
        let mut app = self;
        app.surface_cfg_builder = Some(builder);
        app
    }

    /// The window, the context and the renderer have been made: the driver
    /// is ready and owes a redraw.
    pub fn resumed(&mut self)
        ensures
            *final(self) == (App { ready: true, need_redraw: true, ..*old(self) }),
    {
        self.ready = true;
        self.need_redraw = true;
    }

    /// Whether an event is the driver's to handle, and so the renderer's to
    /// be offered first. An event for another window, or one that comes
    /// before the window, the context and the renderer exist, is nobody's:
    /// the renderer is not asked and nothing is done.
    pub fn takes_event(&self, for_own_window: bool) -> (taken: bool)
        ensures
            taken == takes(self.ready, for_own_window),
    {
        self.ready && for_own_window
    }

    /// Decides what to do about an event that `winit` delivered.
    /// `for_own_window` says whether it is for the driver's own window, and
    /// `claimed` whether the renderer, which is asked first, took the event
    /// for itself. The event is read and then decided on as `on_event` says:
    /// an unclaimed resize goes to the renderer with the new size, an
    /// unclaimed redraw request starts a frame if the context has a surface,
    /// and a close request or a press of Escape ends the loop. Nothing
    /// happens before the driver is ready or for another window.
    pub fn window_event(
        &self,
        ctx: &DrawingContext,
        event: &winit::event::WindowEvent,
        for_own_window: bool,
        claimed: bool,
    ) -> (action: EventAction)
        ensures
            action == event_action(
                self.ready,
                for_own_window,
                ctx.is_surface(),
                Event::of(*event),
                claimed,
            ),
    {
        let event = Event::read(event);
        self.on_event(ctx, &event, for_own_window, claimed)
    }

    /// Decides what to do about an event. `for_own_window` says whether it
    /// is for the driver's own window, and `claimed` whether the renderer,
    /// which is asked first, took the event for itself. An unclaimed resize
    /// goes to the renderer, an unclaimed redraw request starts a frame if
    /// the context has a surface, and a close request or a press of Escape
    /// ends the loop. Nothing happens before the driver is ready or for
    /// another window.
    pub fn on_event(
        &self,
        ctx: &DrawingContext,
        event: &Event,
        for_own_window: bool,
        claimed: bool,
    ) -> (action: EventAction)
        ensures
            action == event_action(self.ready, for_own_window, ctx.is_surface(), *event, claimed),
    {
        if !self.takes_event(for_own_window) || claimed {
            return EventAction::Ignore;
        }
        match event {
            Event::Resized(size) => EventAction::Resize(*size),
            Event::RedrawRequested => {
                if ctx.surface().is_some() {
                    EventAction::Redraw
                } else {
                    EventAction::Ignore
                }
            },
            Event::CloseRequested => EventAction::Exit,
            Event::KeyboardInput {
                physical_key: winit::keyboard::PhysicalKey::Code(winit::keyboard::KeyCode::Escape),
                state: winit::event::ElementState::Pressed,
            } => EventAction::Exit,
            _ => EventAction::Ignore,
        }
    }

    /// Decides what to do with a frame whose drawing ended in `outcome`. A
    /// drawn frame is submitted. A surface that is lost or out of date is
    /// made anew by a resize to the size it has, and nothing is presented.
    /// Without memory the loop ends. A timeout drops the frame.
    pub fn after_draw(&self, ctx: &DrawingContext, outcome: Result<(), wgpu::SurfaceError>) -> (action:
        FrameAction)
        ensures
            action == frame_action(ctx.spec_size(), outcome),
    {
        match outcome {
            Ok(_) => FrameAction::Submit,
            Err(wgpu::SurfaceError::Lost) => FrameAction::Recreate(*ctx.size()),
            Err(wgpu::SurfaceError::Outdated) => FrameAction::Recreate(*ctx.size()),
            Err(wgpu::SurfaceError::OutOfMemory) => FrameAction::Exit,
            Err(wgpu::SurfaceError::Timeout) => FrameAction::Skip,
        }
    }

    /// The event loop woke up. When it did so because the time it was asked
    /// to wait for has come, a redraw is owed.
    pub fn new_events(&mut self, resume_time_reached: bool)
        ensures
            *final(self) == (App {
                need_redraw: old(self).need_redraw || resume_time_reached,
                ..*old(self)
            }),
    {
        if resume_time_reached {
            self.need_redraw = true;
        }
    }

    /// Decides what to do before the loop goes to sleep. When a redraw is
    /// owed and the driver is ready, the window is asked for one. With an
    /// update interval the debt is then settled and the loop is to wake
    /// after the interval; without one the debt stays, so that every turn of
    /// the loop asks again.
    pub fn about_to_wait(&mut self) -> (action: WaitAction)
        ensures
            action.request_redraw == (old(self).need_redraw && old(self).ready),
            action.wake_after == if action.request_redraw {
                old(self).update_interval
            } else {
                None
            },
            *final(self) == (App {
                need_redraw: old(self).need_redraw && !(action.request_redraw
                    && old(self).update_interval is Some),
                ..*old(self)
            }),
    {
        if !self.need_redraw || !self.ready {
            return WaitAction { request_redraw: false, wake_after: None };
        }
        if self.update_interval.is_some() {
            self.need_redraw = false;
        }
        WaitAction { request_redraw: true, wake_after: self.update_interval }
    }
}

/// A frame that could not be drawn because the surface is lost or out of
/// date is answered by one thing only: a resize to the size that the target
/// has. The frame is neither submitted nor presented.
pub proof fn lemma_unavailable_surface_is_recreated(
    size: Size,
    outcome: Result<(), wgpu::SurfaceError>,
)
    requires
        outcome == Err::<(), wgpu::SurfaceError>(wgpu::SurfaceError::Lost) || outcome == Err::<
            (),
            wgpu::SurfaceError,
        >(wgpu::SurfaceError::Outdated),
    ensures
        frame_action(size, outcome) == FrameAction::Recreate(size),
        frame_action(size, outcome) != FrameAction::Submit,
{
}

/// A frame is submitted exactly when it was drawn, and the loop ends on a
/// frame exactly when the device ran out of memory.
pub proof fn lemma_frame_outcomes(size: Size, outcome: Result<(), wgpu::SurfaceError>)
    ensures
        frame_action(size, outcome) == FrameAction::Submit <==> outcome is Ok,
        frame_action(size, outcome) == FrameAction::Exit <==> outcome == Err::<
            (),
            wgpu::SurfaceError,
        >(wgpu::SurfaceError::OutOfMemory),
{
}

/// The renderer has first refusal: an event that it claims is never acted
/// on by the driver.
pub proof fn lemma_claimed_event_is_ignored(
    ready: bool,
    for_own_window: bool,
    surface_backed: bool,
    event: Event,
)
    ensures
        event_action(ready, for_own_window, surface_backed, event, true) == EventAction::Ignore,
{
}

/// An event for another window, or one that comes before the driver is
/// ready, is not the driver's to handle, and nothing is done about it
/// whatever it is: no resize, no frame, and the loop goes on.
pub proof fn lemma_untaken_event_is_ignored(
    ready: bool,
    for_own_window: bool,
    surface_backed: bool,
    event: Event,
    claimed: bool,
)
    requires
        !ready || !for_own_window,
    ensures
        !takes(ready, for_own_window),
        event_action(ready, for_own_window, surface_backed, event, claimed) == EventAction::Ignore,
{
}

} // verus!
