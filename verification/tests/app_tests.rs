use std::time::Duration;
use wgsim::app::{App, EventAction, FrameAction};
use wgsim::ctx::{DrawingContext, Size};
use wgsim::platform::Event;
use wgsim::surface_cfg::SurfaceConfigBuilder;
use winit::event::ElementState;
use winit::keyboard::{KeyCode, NativeKeyCode, PhysicalKey};

fn surface_context(width: u32, height: u32) -> DrawingContext {
    let caps = wgpu::SurfaceCapabilities {
        formats: vec![wgpu::TextureFormat::Bgra8UnormSrgb],
        present_modes: vec![wgpu::PresentMode::Fifo],
        alpha_modes: vec![wgpu::CompositeAlphaMode::Opaque],
        usages: wgpu::TextureUsages::RENDER_ATTACHMENT,
    };
    DrawingContext::new_for_surface(Size::new(width, height), 1, &SurfaceConfigBuilder::new(), &caps)
        .expect("usable")
}

fn texture_context() -> DrawingContext {
    DrawingContext::new_for_texture(Size::new(16, 16), wgpu::TextureFormat::Rgba8UnormSrgb)
}

fn ready_app() -> App<'static> {
    let mut app = App::new("test");
    app.resumed();
    app
}

fn key(code: KeyCode, state: ElementState) -> Event {
    Event::KeyboardInput { physical_key: PhysicalKey::Code(code), state }
}

#[test]
fn a_new_driver_is_not_ready_and_owes_a_redraw() {
    let app = App::new("title");
    assert_eq!(app.window_title, "title");
    assert_eq!(app.window_size, None);
    assert!(app.surface_cfg_builder.is_none());
    assert_eq!(app.sample_count, 1);
    assert_eq!(app.update_interval, None);
    assert!(app.need_redraw);
    assert!(!app.ready);
}

#[test]
fn settings_change_one_field_each() {
    let builder = SurfaceConfigBuilder::new().format(wgpu::TextureFormat::Rgba8Unorm);
    let app = App::new("title")
        .with_window_size(800, 600)
        .with_update_interval(Duration::from_millis(16))
        .with_msaa()
        .with_surface_cfg_builder(&builder);
    assert_eq!(app.window_title, "title");
    assert_eq!(app.window_size, Some(Size::new(800, 600)));
    assert_eq!(app.update_interval, Some(Duration::from_millis(16)));
    assert_eq!(app.sample_count, 4);
    let held = app.surface_cfg_builder.expect("set");
    assert_eq!(held.format, Some(wgpu::TextureFormat::Rgba8Unorm));
    assert!(app.need_redraw);
    assert!(!app.ready);
}

#[test]
fn resuming_makes_the_driver_ready_and_owes_a_redraw() {
    let mut app = App::new("title").with_msaa();
    app.need_redraw = false;
    app.resumed();
    assert!(app.ready);
    assert!(app.need_redraw);
    assert_eq!(app.sample_count, 4);
}

#[test]
fn nothing_is_done_before_the_driver_is_ready() {
    let app = App::new("title");
    let ctx = surface_context(800, 600);
    for event in [
        Event::Resized(Size::new(1, 1)),
        Event::RedrawRequested,
        Event::CloseRequested,
        key(KeyCode::Escape, ElementState::Pressed),
        Event::Other,
    ] {
        assert_eq!(app.on_event(&ctx, &event, true, false), EventAction::Ignore);
    }
}

#[test]
fn a_claimed_event_is_left_to_the_renderer() {
    let app = ready_app();
    let ctx = surface_context(800, 600);
    for event in [
        Event::Resized(Size::new(1, 1)),
        Event::RedrawRequested,
        Event::CloseRequested,
        key(KeyCode::Escape, ElementState::Pressed),
        Event::Other,
    ] {
        assert_eq!(app.on_event(&ctx, &event, true, true), EventAction::Ignore);
    }
}

#[test]
fn an_unclaimed_resize_goes_to_the_renderer() {
    let app = ready_app();
    let ctx = surface_context(800, 600);
    assert_eq!(
        app.on_event(&ctx, &Event::Resized(Size::new(640, 480)), true, false),
        EventAction::Resize(Size::new(640, 480))
    );
    assert_eq!(
        app.on_event(&ctx, &Event::Resized(Size::new(0, 0)), true, false),
        EventAction::Resize(Size::new(0, 0))
    );
}

#[test]
fn a_redraw_request_starts_a_frame_on_a_surface_only() {
    let app = ready_app();
    assert_eq!(
        app.on_event(&surface_context(800, 600), &Event::RedrawRequested, true, false),
        EventAction::Redraw
    );
    assert_eq!(
        app.on_event(&texture_context(), &Event::RedrawRequested, true, false),
        EventAction::Ignore
    );
}

#[test]
fn a_close_request_ends_the_loop() {
    let app = ready_app();
    let ctx = surface_context(800, 600);
    assert_eq!(app.on_event(&ctx, &Event::CloseRequested, true, false), EventAction::Exit);
}

#[test]
fn pressing_escape_ends_the_loop() {
    let app = ready_app();
    let ctx = surface_context(800, 600);
    assert_eq!(
        app.on_event(&ctx, &key(KeyCode::Escape, ElementState::Pressed), true, false),
        EventAction::Exit
    );
}

#[test]
fn other_keys_and_releases_do_nothing() {
    let app = ready_app();
    let ctx = surface_context(800, 600);
    assert_eq!(
        app.on_event(&ctx, &key(KeyCode::Escape, ElementState::Released), true, false),
        EventAction::Ignore
    );
    assert_eq!(
        app.on_event(&ctx, &key(KeyCode::KeyQ, ElementState::Pressed), true, false),
        EventAction::Ignore
    );
    let unknown = Event::KeyboardInput {
        physical_key: PhysicalKey::Unidentified(NativeKeyCode::Unidentified),
        state: ElementState::Pressed,
    };
    assert_eq!(app.on_event(&ctx, &unknown, true, false), EventAction::Ignore);
    assert_eq!(app.on_event(&ctx, &Event::Other, true, false), EventAction::Ignore);
}

#[test]
fn events_of_the_window_system_are_read_as_they_are() {
    let app = ready_app();
    let ctx = surface_context(800, 600);
    let resized = winit::event::WindowEvent::Resized(winit::dpi::PhysicalSize::new(1024, 768));
    assert_eq!(
        app.window_event(&ctx, &resized, true, false),
        EventAction::Resize(Size::new(1024, 768))
    );
    assert_eq!(
        app.window_event(&ctx, &winit::event::WindowEvent::RedrawRequested, true, false),
        EventAction::Redraw
    );
    assert_eq!(
        app.window_event(&ctx, &winit::event::WindowEvent::CloseRequested, true, false),
        EventAction::Exit
    );
    assert_eq!(
        app.window_event(&ctx, &winit::event::WindowEvent::Focused(true), true, false),
        EventAction::Ignore
    );
    assert_eq!(
        app.window_event(&ctx, &winit::event::WindowEvent::CloseRequested, true, true),
        EventAction::Ignore
    );
    assert_eq!(
        App::new("idle").window_event(&ctx, &winit::event::WindowEvent::CloseRequested, true, false),
        EventAction::Ignore
    );
}

#[test]
fn a_physical_size_converts_field_by_field() {
    let size: Size = winit::dpi::PhysicalSize::new(1920u32, 1080u32).into();
    assert_eq!(size, Size::new(1920, 1080));
    assert_eq!(Size::from(winit::dpi::PhysicalSize::new(0u32, 7u32)), Size::new(0, 7));
}

#[test]
fn a_drawn_frame_is_submitted() {
    let app = ready_app();
    assert_eq!(app.after_draw(&surface_context(800, 600), Ok(())), FrameAction::Submit);
}

#[test]
fn a_lost_or_outdated_surface_is_made_anew_at_its_size() {
    let app = ready_app();
    let ctx = surface_context(800, 600);
    assert_eq!(
        app.after_draw(&ctx, Err(wgpu::SurfaceError::Lost)),
        FrameAction::Recreate(Size::new(800, 600))
    );
    assert_eq!(
        app.after_draw(&ctx, Err(wgpu::SurfaceError::Outdated)),
        FrameAction::Recreate(Size::new(800, 600))
    );
}

#[test]
fn running_out_of_memory_ends_the_loop() {
    let app = ready_app();
    assert_eq!(
        app.after_draw(&surface_context(800, 600), Err(wgpu::SurfaceError::OutOfMemory)),
        FrameAction::Exit
    );
}

#[test]
fn a_timeout_drops_the_frame() {
    let app = ready_app();
    assert_eq!(
        app.after_draw(&surface_context(800, 600), Err(wgpu::SurfaceError::Timeout)),
        FrameAction::Skip
    );
}

/// What a caller does with the driver's answers, with counters in place of
/// the renderer, the surface and the queue.
struct Harness {
    app: App<'static>,
    ctx: DrawingContext,
    offered: u32,
    resizes: Vec<Size>,
    reconfigurations: u32,
    submitted: u32,
    presented: u32,
    exited: bool,
}

impl Harness {
    fn new(ctx: DrawingContext) -> Self {
        Harness {
            app: ready_app(),
            ctx,
            offered: 0,
            resizes: Vec::new(),
            reconfigurations: 0,
            submitted: 0,
            presented: 0,
            exited: false,
        }
    }

    fn resize(&mut self, size: Size) {
        self.resizes.push(size);
        if self.ctx.resize(size) {
            self.reconfigurations += 1;
        }
    }

    fn deliver(&mut self, event: Event, draw: Result<(), wgpu::SurfaceError>) {
        self.deliver_to(event, true, draw);
    }

    fn deliver_to(
        &mut self,
        event: Event,
        for_own_window: bool,
        draw: Result<(), wgpu::SurfaceError>,
    ) {
        if !self.app.takes_event(for_own_window) {
            return;
        }
        self.offered += 1;
        match self.app.on_event(&self.ctx, &event, for_own_window, false) {
            EventAction::Ignore => {}
            EventAction::Resize(size) => self.resize(size),
            EventAction::Exit => self.exited = true,
            EventAction::Redraw => match self.app.after_draw(&self.ctx, draw) {
                FrameAction::Submit => {
                    self.submitted += 1;
                    self.presented += 1;
                }
                FrameAction::Recreate(size) => self.resize(size),
                FrameAction::Exit => self.exited = true,
                FrameAction::Skip => {}
            },
        }
    }
}

#[test]
fn resize_events_in_sequence_skip_the_one_without_area() {
    let mut harness = Harness::new(surface_context(320, 200));
    harness.deliver(Event::Resized(Size::new(800, 600)), Ok(()));
    assert_eq!(*harness.ctx.size(), Size::new(800, 600));
    harness.deliver(Event::Resized(Size::new(0, 0)), Ok(()));
    assert_eq!(*harness.ctx.size(), Size::new(800, 600));
    assert_eq!(harness.reconfigurations, 1);
    harness.deliver(Event::Resized(Size::new(640, 480)), Ok(()));
    assert_eq!(*harness.ctx.size(), Size::new(640, 480));
    assert_eq!(harness.reconfigurations, 2);
    let config = &harness.ctx.surface().expect("a surface context").config;
    assert_eq!((config.width, config.height), (640, 480));
    assert!(!harness.exited);
}

#[test]
fn an_unavailable_surface_is_resized_once_and_nothing_is_presented() {
    for failure in [wgpu::SurfaceError::Lost, wgpu::SurfaceError::Outdated] {
        let mut harness = Harness::new(surface_context(800, 600));
        harness.deliver(Event::RedrawRequested, Err(failure));
        assert_eq!(harness.resizes, vec![Size::new(800, 600)]);
        assert_eq!(harness.reconfigurations, 1);
        assert_eq!(harness.submitted, 0);
        assert_eq!(harness.presented, 0);
        assert!(!harness.exited);
        assert_eq!(*harness.ctx.size(), Size::new(800, 600));
    }
}

#[test]
fn a_good_frame_is_presented_and_nothing_is_resized() {
    let mut harness = Harness::new(surface_context(800, 600));
    harness.deliver(Event::RedrawRequested, Ok(()));
    assert_eq!(harness.submitted, 1);
    assert_eq!(harness.presented, 1);
    assert!(harness.resizes.is_empty());
    assert!(!harness.exited);
}

#[test]
fn out_of_memory_ends_the_loop_without_a_frame() {
    let mut harness = Harness::new(surface_context(800, 600));
    harness.deliver(Event::RedrawRequested, Err(wgpu::SurfaceError::OutOfMemory));
    assert!(harness.exited);
    assert_eq!(harness.presented, 0);
    assert!(harness.resizes.is_empty());
}

#[test]
fn a_timeout_goes_on_without_a_frame() {
    let mut harness = Harness::new(surface_context(800, 600));
    harness.deliver(Event::RedrawRequested, Err(wgpu::SurfaceError::Timeout));
    assert!(!harness.exited);
    assert_eq!(harness.presented, 0);
    assert!(harness.resizes.is_empty());
}

#[test]
fn without_an_interval_every_turn_asks_for_a_redraw() {
    let mut app = ready_app();
    for _ in 0..3 {
        let action = app.about_to_wait();
        assert!(action.request_redraw);
        assert_eq!(action.wake_after, None);
        assert!(app.need_redraw);
    }
}

#[test]
fn with_an_interval_the_loop_sleeps_until_the_next_frame() {
    let interval = Duration::from_millis(33);
    let mut app = App::new("title").with_update_interval(interval);
    app.resumed();
    let action = app.about_to_wait();
    assert!(action.request_redraw);
    assert_eq!(action.wake_after, Some(interval));
    assert!(!app.need_redraw);
    let action = app.about_to_wait();
    assert!(!action.request_redraw);
    assert_eq!(action.wake_after, None);
    assert!(!app.need_redraw);
    app.new_events(false);
    assert!(!app.need_redraw);
    assert!(!app.about_to_wait().request_redraw);
    app.new_events(true);
    assert!(app.need_redraw);
    let action = app.about_to_wait();
    assert!(action.request_redraw);
    assert_eq!(action.wake_after, Some(interval));
}

#[test]
fn no_redraw_is_asked_for_before_the_window_exists() {
    let mut app = App::new("title").with_update_interval(Duration::from_millis(33));
    let action = app.about_to_wait();
    assert!(!action.request_redraw);
    assert_eq!(action.wake_after, None);
    assert!(app.need_redraw);
}

#[test]
fn waking_for_another_reason_owes_nothing_new() {
    let mut app = ready_app();
    app.need_redraw = false;
    app.new_events(false);
    assert!(!app.need_redraw);
    app.need_redraw = true;
    app.new_events(false);
    assert!(app.need_redraw);
}

#[test]
fn reading_an_event_keeps_what_the_driver_tells_apart() {
    let resized = winit::event::WindowEvent::Resized(winit::dpi::PhysicalSize::new(3, 4));
    match Event::read(&resized) {
        Event::Resized(size) => assert_eq!(size, Size::new(3, 4)),
        other => panic!("read as {:?}", other),
    }
    assert!(matches!(
        Event::read(&winit::event::WindowEvent::RedrawRequested),
        Event::RedrawRequested
    ));
    assert!(matches!(
        Event::read(&winit::event::WindowEvent::CloseRequested),
        Event::CloseRequested
    ));
    assert!(matches!(Event::read(&winit::event::WindowEvent::Destroyed), Event::Other));
    assert!(matches!(Event::read(&winit::event::WindowEvent::Occluded(true)), Event::Other));
}

#[test]
fn an_event_is_taken_by_a_ready_driver_for_its_own_window_only() {
    let idle = App::new("title");
    assert!(!idle.takes_event(true));
    assert!(!idle.takes_event(false));
    let app = ready_app();
    assert!(app.takes_event(true));
    assert!(!app.takes_event(false));
}

#[test]
fn an_event_for_another_window_is_ignored() {
    let app = ready_app();
    let ctx = surface_context(800, 600);
    for event in [
        Event::Resized(Size::new(1, 1)),
        Event::RedrawRequested,
        Event::CloseRequested,
        key(KeyCode::Escape, ElementState::Pressed),
        Event::Other,
    ] {
        assert_eq!(app.on_event(&ctx, &event, false, false), EventAction::Ignore);
        assert_eq!(app.on_event(&ctx, &event, false, true), EventAction::Ignore);
    }
    assert_eq!(
        app.window_event(&ctx, &winit::event::WindowEvent::CloseRequested, false, false),
        EventAction::Ignore
    );
    let resized = winit::event::WindowEvent::Resized(winit::dpi::PhysicalSize::new(10, 10));
    assert_eq!(app.window_event(&ctx, &resized, false, false), EventAction::Ignore);
}

#[test]
fn an_event_for_another_window_reaches_neither_renderer_nor_context() {
    let mut harness = Harness::new(surface_context(800, 600));
    harness.deliver_to(Event::Resized(Size::new(640, 480)), false, Ok(()));
    harness.deliver_to(Event::RedrawRequested, false, Ok(()));
    harness.deliver_to(Event::CloseRequested, false, Ok(()));
    assert_eq!(harness.offered, 0);
    assert!(harness.resizes.is_empty());
    assert_eq!(harness.submitted, 0);
    assert!(!harness.exited);
    assert_eq!(*harness.ctx.size(), Size::new(800, 600));
    harness.deliver_to(Event::Resized(Size::new(640, 480)), true, Ok(()));
    assert_eq!(harness.offered, 1);
    assert_eq!(*harness.ctx.size(), Size::new(640, 480));
}

#[test]
fn an_event_before_the_driver_is_ready_reaches_neither_renderer_nor_context() {
    let mut harness = Harness::new(surface_context(800, 600));
    harness.app = App::new("idle");
    harness.deliver(Event::Resized(Size::new(640, 480)), Ok(()));
    harness.deliver(Event::RedrawRequested, Ok(()));
    harness.deliver(Event::CloseRequested, Ok(()));
    assert_eq!(harness.offered, 0);
    assert!(harness.resizes.is_empty());
    assert_eq!(harness.presented, 0);
    assert!(!harness.exited);
    assert_eq!(*harness.ctx.size(), Size::new(800, 600));
}
