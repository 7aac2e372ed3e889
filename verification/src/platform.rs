//! The windowing layer's types as the library uses them.
use vstd::prelude::*;
use crate::primitive::Size;

verus! {

#[verifier::external_type_specification]
#[verifier::reject_recursive_types(P)]
pub struct ExPhysicalSize<P>(winit::dpi::PhysicalSize<P>);

#[verifier::external_type_specification]
pub struct ExElementState(winit::event::ElementState);

#[verifier::external_type_specification]
pub struct ExKeyCode(winit::keyboard::KeyCode);

#[verifier::external_type_specification]
pub struct ExNativeKeyCode(winit::keyboard::NativeKeyCode);

#[verifier::external_type_specification]
pub struct ExPhysicalKey(winit::keyboard::PhysicalKey);

#[verifier::external_type_specification]
#[verifier::external_body]
#[verifier::reject_recursive_types(P)]
pub struct ExPhysicalPosition<P>(winit::dpi::PhysicalPosition<P>);

#[verifier::external_type_specification]
#[verifier::external_body]
pub struct ExPathBuf(std::path::PathBuf);

#[verifier::external_type_specification]
#[verifier::external_body]
pub struct ExAsyncRequestSerial(winit::event_loop::AsyncRequestSerial);

#[verifier::external_type_specification]
#[verifier::external_body]
pub struct ExActivationToken(winit::window::ActivationToken);

#[verifier::external_type_specification]
#[verifier::external_body]
pub struct ExTheme(winit::window::Theme);

#[verifier::external_type_specification]
#[verifier::external_body]
pub struct ExDeviceId(winit::event::DeviceId);

#[verifier::external_type_specification]
#[verifier::external_body]
pub struct ExKeyEvent(winit::event::KeyEvent);

#[verifier::external_type_specification]
#[verifier::external_body]
pub struct ExModifiers(winit::event::Modifiers);

#[verifier::external_type_specification]
#[verifier::external_body]
pub struct ExIme(winit::event::Ime);

#[verifier::external_type_specification]
#[verifier::external_body]
pub struct ExMouseScrollDelta(winit::event::MouseScrollDelta);

#[verifier::external_type_specification]
#[verifier::external_body]
pub struct ExTouchPhase(winit::event::TouchPhase);

#[verifier::external_type_specification]
#[verifier::external_body]
pub struct ExMouseButton(winit::event::MouseButton);

#[verifier::external_type_specification]
#[verifier::external_body]
pub struct ExTouch(winit::event::Touch);

#[verifier::external_type_specification]
#[verifier::external_body]
pub struct ExInnerSizeWriter(winit::event::InnerSizeWriter);

#[verifier::external_type_specification]
pub struct ExWindowEvent(winit::event::WindowEvent);

/// The physical key of a key event: its field `physical_key`.
pub uninterp spec fn key_of(event: winit::event::KeyEvent) -> winit::keyboard::PhysicalKey;

/// Whether the key of a key event went down or up: its field `state`.
pub uninterp spec fn state_of(event: winit::event::KeyEvent) -> winit::event::ElementState;

/// The field `physical_key` of a key event of `winit`.
#[verifier::external_body]
fn physical_key(event: &winit::event::KeyEvent) -> (key: winit::keyboard::PhysicalKey)
    ensures
        key == key_of(*event),
{
    event.physical_key
}

/// The field `state` of a key event of `winit`.
#[verifier::external_body]
fn element_state(event: &winit::event::KeyEvent) -> (state: winit::event::ElementState)
    ensures
        state == state_of(*event),
{
    event.state
}

/// What the driver tells apart in an event for its window.
#[derive(Debug, Clone, Copy)]
pub enum Event {
    /// The window's surface has a new size in pixels.
    Resized(Size),
    /// The window asks to be drawn.
    RedrawRequested,
    /// The user asked to close the window.
    CloseRequested,
    /// A key went down or up.
    KeyboardInput { physical_key: winit::keyboard::PhysicalKey, state: winit::event::ElementState },
    /// Anything else.
    Other,
}

impl Event {
    /// What the driver tells apart in a window event of `winit`: a resize
    /// with its size, a key event with its physical key and state, a redraw
    /// or close request as such, and every other event as `Other`.
    pub open spec fn of(event: winit::event::WindowEvent) -> Event {
        match event {
            winit::event::WindowEvent::Resized(size) => Event::Resized(
                Size { width: size.width, height: size.height },
            ),
            winit::event::WindowEvent::RedrawRequested => Event::RedrawRequested,
            winit::event::WindowEvent::CloseRequested => Event::CloseRequested,
            winit::event::WindowEvent::KeyboardInput { event, .. } => Event::KeyboardInput {
                physical_key: key_of(event),
                state: state_of(event),
            },
            _ => Event::Other,
        }
    }

    /// Reads a window event of `winit`.
    pub fn read(event: &winit::event::WindowEvent) -> (read: Event)
        ensures
            read == Event::of(*event),
    {
        match event {
            winit::event::WindowEvent::Resized(size) => Event::Resized(
                Size { width: size.width, height: size.height },
            ),
            winit::event::WindowEvent::RedrawRequested => Event::RedrawRequested,
            winit::event::WindowEvent::CloseRequested => Event::CloseRequested,
            winit::event::WindowEvent::KeyboardInput { event, .. } => Event::KeyboardInput {
                physical_key: physical_key(event),
                state: element_state(event),
            },
            _ => Event::Other,
        }
    }

    /// Whether the event is the press of the key that quits: Escape.
    pub open spec fn is_quit_key(self) -> bool {
        self matches Event::KeyboardInput { physical_key, state }
            && physical_key == winit::keyboard::PhysicalKey::Code(winit::keyboard::KeyCode::Escape)
            && state == winit::event::ElementState::Pressed
    }
}

impl From<winit::dpi::PhysicalSize<u32>> for Size {
    /// The size of a window's surface as the library holds it.
    fn from(physical: winit::dpi::PhysicalSize<u32>) -> (size: Size) {
        Size { width: physical.width, height: physical.height }
    }
}

impl vstd::std_specs::convert::FromSpecImpl<winit::dpi::PhysicalSize<u32>> for Size {
    open spec fn obeys_from_spec() -> bool {
        true
    }

    open spec fn from_spec(physical: winit::dpi::PhysicalSize<u32>) -> Size {
        Size { width: physical.width, height: physical.height }
    }
}

} // verus!
