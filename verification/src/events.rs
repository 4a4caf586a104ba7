//! The decisions of the render loop: what a window event, a resize request
//! or a render result leads to. The caller performs the actions.
use vstd::prelude::*;

verus! {

/// A surface size in physical pixels.
#[derive(Clone, Copy, PartialEq, Eq, Structural)]
pub struct SurfaceSize {
    pub width: u32,
    pub height: u32,
}

/// Whether a surface of this size can be configured: both sides positive.
pub open spec fn drawable(size: SurfaceSize) -> bool {
    size.width > 0 && size.height > 0
}

/// Any size with both sides positive can be configured, however large, and
/// no size with a zero side can.
pub proof fn lemma_drawable_exactly_positive(size: SurfaceSize)
    ensures
        drawable(size) <==> (size.width >= 1 && size.height >= 1),
        size.width == 0 || size.height == 0 ==> !drawable(size),
{
}

/// The size the surface is configured with.
pub struct Viewport {
    pub size: SurfaceSize,
}

impl Viewport {
    /// Handles a resize request: the viewport takes `new_size` when both of
    /// its sides are positive, and otherwise keeps its size. Returns whether
    /// it took the new size, in which case the surface is to be configured
    /// again.
    pub fn resize(&mut self, new_size: SurfaceSize) -> (adopted: bool)
        ensures
            adopted == drawable(new_size),
            adopted == (new_size.width > 0 && new_size.height > 0),
            final(self).size == (if new_size.width > 0 && new_size.height > 0 {
                new_size
            } else {
                old(self).size
            }),
            final(self).size == (if adopted {
                new_size
            } else {
                old(self).size
            }),
    {
        if new_size.width > 0 && new_size.height > 0 {
            self.size = new_size;
            true
        } else {
            false
        }
    }
}

/// The window events that input handling looks at.
#[derive(Clone, Copy, PartialEq, Eq, Structural)]
pub enum WindowInput {
    /// A key with a known physical code was pressed or released.
    Key,
    /// The mouse wheel turned.
    Wheel,
    /// The left mouse button was pressed or released.
    LeftButton { pressed: bool },
    /// Any other window event.
    Other,
}

/// What input handling asks of the caller.
#[derive(Clone, Copy, PartialEq, Eq, Structural)]
pub enum InputAction {
    /// Hand the key to the camera controller; the event counts as consumed
    /// when the controller takes it.
    KeyToCamera,
    /// Hand the scroll to the camera controller; the event is consumed.
    ScrollCamera,
    /// The event was consumed here.
    Consumed,
    /// The event is left to the render loop.
    NotConsumed,
}

/// Input state kept across events.
pub struct InputState {
    pub mouse_pressed: bool,
}

impl InputState {
    /// Handles one window event: keys go to the camera, the wheel scrolls
    /// the camera, the left button sets `mouse_pressed`, and every other
    /// event is left to the render loop.
    pub fn input(&mut self, event: WindowInput) -> (action: InputAction)
        ensures
            action == (match event {
                WindowInput::Key => InputAction::KeyToCamera,
                WindowInput::Wheel => InputAction::ScrollCamera,
                WindowInput::LeftButton { .. } => InputAction::Consumed,
                WindowInput::Other => InputAction::NotConsumed,
            }),
            final(self).mouse_pressed == (match event {
                WindowInput::LeftButton { pressed } => pressed,
                _ => old(self).mouse_pressed,
            }),
    {
        match event {
            WindowInput::Key => InputAction::KeyToCamera,
            WindowInput::Wheel => InputAction::ScrollCamera,
            WindowInput::LeftButton { pressed } => {
                self.mouse_pressed = pressed;
                InputAction::Consumed
            },
            WindowInput::Other => InputAction::NotConsumed,
        }
    }
}

/// The events of the render loop.
#[derive(Clone, Copy, PartialEq, Eq, Structural)]
pub enum LoopEvent {
    /// The mouse moved (a device event, for any window).
    MouseMotion,
    /// An event of another window, or any other event.
    Unrelated,
    /// The window asks to be closed.
    CloseRequested,
    /// The window was resized.
    Resized(SurfaceSize),
    /// The window asks to be drawn.
    RedrawRequested,
    /// Any other event of the window.
    OtherWindowEvent,
}

/// What the render loop does for an event.
#[derive(Clone, Copy, PartialEq, Eq, Structural)]
pub enum LoopAction {
    /// Turn the camera by the mouse motion.
    RotateCamera,
    /// Leave the event loop.
    Exit,
    /// Resize the surface to this size.
    Resize(SurfaceSize),
    /// Ask for the next frame, update the scene and render it.
    Redraw,
    /// Nothing.
    Nothing,
}

/// The render loop's response to `event`, given whether input handling
/// already consumed it (only window events go through input handling).
pub fn loop_action(event: LoopEvent, consumed: bool) -> (action: LoopAction)
    ensures
        action == (match event {
            LoopEvent::MouseMotion => LoopAction::RotateCamera,
            LoopEvent::Unrelated => LoopAction::Nothing,
            LoopEvent::CloseRequested => if consumed {
                LoopAction::Nothing
            } else {
                LoopAction::Exit
            },
            LoopEvent::Resized(size) => if consumed {
                LoopAction::Nothing
            } else {
                LoopAction::Resize(size)
            },
            LoopEvent::RedrawRequested => if consumed {
                LoopAction::Nothing
            } else {
                LoopAction::Redraw
            },
            LoopEvent::OtherWindowEvent => LoopAction::Nothing,
        }),
{
    match event {
        LoopEvent::MouseMotion => LoopAction::RotateCamera,
        LoopEvent::Unrelated => LoopAction::Nothing,
        LoopEvent::CloseRequested => {
            if consumed {
                LoopAction::Nothing
            } else {
                LoopAction::Exit
            }
        },
        LoopEvent::Resized(size) => {
            if consumed {
                LoopAction::Nothing
            } else {
                LoopAction::Resize(size)
            }
        },
        LoopEvent::RedrawRequested => {
            if consumed {
                LoopAction::Nothing
            } else {
                LoopAction::Redraw
            }
        },
        LoopEvent::OtherWindowEvent => LoopAction::Nothing,
    }
}

/// How rendering a frame ended.
#[derive(Clone, Copy, PartialEq, Eq, Structural)]
pub enum RenderOutcome {
    Presented,
    SurfaceLost,
    OutOfMemory,
    /// Any other surface error (outdated, timeout).
    OtherError,
}

/// What follows a rendered frame.
#[derive(Clone, Copy, PartialEq, Eq, Structural)]
pub enum RenderFollowUp {
    /// Go on with the next frame.
    Continue,
    /// Configure the surface again at its current size.
    Reconfigure,
    /// Leave the event loop.
    Exit,
    /// Report the error and go on; the next frame is expected to succeed.
    Report,
}

/// A lost surface is configured again, running out of memory ends the loop,
/// and any other error is reported.
pub fn after_render(outcome: RenderOutcome) -> (follow_up: RenderFollowUp)
    ensures
        follow_up == (match outcome {
            RenderOutcome::Presented => RenderFollowUp::Continue,
            RenderOutcome::SurfaceLost => RenderFollowUp::Reconfigure,
            RenderOutcome::OutOfMemory => RenderFollowUp::Exit,
            RenderOutcome::OtherError => RenderFollowUp::Report,
        }),
{
    match outcome {
        RenderOutcome::Presented => RenderFollowUp::Continue,
        RenderOutcome::SurfaceLost => RenderFollowUp::Reconfigure,
        RenderOutcome::OutOfMemory => RenderFollowUp::Exit,
        RenderOutcome::OtherError => RenderFollowUp::Report,
    }
}

/// Frame times are printed when more than 500 ms passed since the last print.
pub fn should_report_frame_time(elapsed_millis: u128) -> (report: bool)
    ensures
        report == (elapsed_millis > 500),
{
    elapsed_millis > 500
}

} // verus!
