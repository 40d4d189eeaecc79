use vstd::prelude::*;
use crate::events::Key;
use crate::graphic_device::GraphicDevice;
use crate::uniforms::ViewUniforms;

verus! {

/// The size of a window in pixels.
#[derive(Clone, Copy, Debug, PartialEq, Eq, Structural)]
pub struct PhysicalSize {
    pub width: u32,
    pub height: u32,
}

/// A button of the mouse.
#[derive(Clone, Copy, Debug, PartialEq, Eq, Structural)]
pub enum MouseButton {
    Left,
    Right,
    Middle,
    Other,
}

/// What a window reports, in plain values.
#[derive(Clone, Copy, Debug, PartialEq, Eq, Structural)]
pub enum WindowInput {
    /// The window is asked to close.
    CloseRequested,
    /// The window took a new size.
    Resized { size: PhysicalSize },
    /// The scale factor of the window changed, and with it its size.
    ScaleFactorChanged { size: PhysicalSize },
    /// A key went down (`pressed`) or up. `escape` says whether it is the
    /// escape key, and `key` is the key where the engine reports it.
    KeyboardInput { escape: bool, key: Option<Key>, pressed: bool },
    /// The cursor moved, to a place on the screen or off it.
    CursorMoved { on_screen: bool },
    /// A button of the mouse went down (`pressed`) or up.
    MouseInput { button: MouseButton, pressed: bool },
    /// Anything else.
    Other,
}

/// What the event loop hands to the screen.
#[derive(Clone, Copy, Debug, PartialEq, Eq, Structural)]
pub enum LoopInput {
    /// An event of a window: of the window of the screen (`own`) or of
    /// another one.
    Window { own: bool, input: WindowInput },
    /// All events of this turn of the loop were handed out.
    MainEventsCleared,
    /// A window is to be drawn again: the window of the screen (`own`) or
    /// another one.
    RedrawRequested { own: bool },
    /// Anything else.
    Other,
}

/// What the screen tells its consumer. Where the cursor is, for the events
/// that say so, is for the caller to add.
#[derive(Clone, Copy, Debug, PartialEq, Eq, Structural)]
pub enum ScreenEvent {
    /// Exit has been requested.
    Exit,
    /// The screen was resized.
    Resize,
    /// A key was pressed or released.
    KeyPress { key: Key, down: bool },
    /// The mouse has moved over the screen.
    MouseMove,
    /// Left mouse button.
    MouseLMB { down: bool },
    /// Right mouse button.
    MouseRMB { down: bool },
    /// Middle mouse button.
    MouseMMB { down: bool },
}

/// How the event loop is to go on.
#[derive(Clone, Copy, Debug, PartialEq, Eq, Structural)]
pub enum ControlFlow {
    /// Stop the loop.
    Exit,
    /// Wait until the next frame is due.
    WaitUntilNextFrame,
}

/// The work of a frame that an event sets off.
#[derive(Clone, Copy, Debug, PartialEq, Eq, Structural)]
pub enum FrameWork {
    /// None.
    Nothing,
    /// Render a frame.
    Render,
    /// Schedule the next frame, update the consumer, then render a frame.
    UpdateAndRender,
}

/// What the screen answers to an input of the event loop: how the loop is to
/// go on, or `None` where that stays as it is; what to tell the consumer, if
/// anything; and the work of a frame to do after that.
#[derive(Clone, Copy, Debug, PartialEq, Eq, Structural)]
pub struct Reaction {
    pub control_flow: Option<ControlFlow>,
    pub event: Option<ScreenEvent>,
    pub work: FrameWork,
}

/// What the screen remembers between two events: a size that the window
/// took and that the device has not been told yet, and whether the cursor is
/// on the screen.
#[derive(Clone, Copy, Debug, PartialEq, Eq, Structural)]
pub struct ScreenState {
    pub pending_resize: Option<PhysicalSize>,
    pub cursor_on_screen: bool,
}

impl ScreenState {
    /// The state of a fresh screen: no size is pending, and the cursor is
    /// not on the screen.
    pub open spec fn fresh() -> ScreenState {
        ScreenState { pending_resize: None, cursor_on_screen: false }
    }

    /// The state after an event of the window of the screen: a new size
    /// becomes the pending one, in place of an earlier one, a move of the
    /// cursor says whether it is on the screen, and no other event changes
    /// the state.
    pub open spec fn after_window_event(self, input: WindowInput) -> ScreenState {
        match input {
            WindowInput::Resized { size } => ScreenState { pending_resize: Some(size), ..self },
            WindowInput::ScaleFactorChanged { size } => ScreenState {
                pending_resize: Some(size),
                ..self
            },
            WindowInput::CursorMoved { on_screen } => ScreenState {
                cursor_on_screen: on_screen,
                ..self
            },
            _ => self,
        }
    }

    /// What the consumer is told of an event of the window of the screen:
    /// the exit when the window is asked to close or the escape key goes
    /// down; a key that the engine reports, going down or up; a move of the
    /// cursor to a place on the screen; and the left, right or middle mouse
    /// button going down or up while the cursor is on the screen.
    pub open spec fn told_of(self, input: WindowInput) -> Option<ScreenEvent> {
        match input {
            WindowInput::CloseRequested => Some(ScreenEvent::Exit),
            WindowInput::KeyboardInput { escape, key, pressed } => if escape && pressed {
                Some(ScreenEvent::Exit)
            } else {
                match key {
                    Some(key) => Some(ScreenEvent::KeyPress { key, down: pressed }),
                    None => None,
                }
            },
            WindowInput::CursorMoved { on_screen } => if on_screen {
                Some(ScreenEvent::MouseMove)
            } else {
                None
            },
            WindowInput::MouseInput { button, pressed } => if self.cursor_on_screen {
                match button {
                    MouseButton::Left => Some(ScreenEvent::MouseLMB { down: pressed }),
                    MouseButton::Right => Some(ScreenEvent::MouseRMB { down: pressed }),
                    MouseButton::Middle => Some(ScreenEvent::MouseMMB { down: pressed }),
                    MouseButton::Other => None,
                }
            } else {
                None
            },
            _ => None,
        }
    }

    /// How the loop goes on after an event of the window of the screen: it
    /// stops when the consumer is told to exit, and waits for the next frame
    /// otherwise.
    pub open spec fn flow_after(self, input: WindowInput) -> ControlFlow {
        if self.told_of(input) == Some(ScreenEvent::Exit) {
            ControlFlow::Exit
        } else {
            ControlFlow::WaitUntilNextFrame
        }
    }

    /// The answer to an input of the event loop. An event of the window of
    /// the screen is answered as above, and one of another window not at
    /// all. When the events of a turn are handed out, a frame is updated and
    /// rendered and the loop waits for the next. A redraw of the window of
    /// the screen renders a frame and leaves the loop as it is. Anything else
    /// lets the loop wait for the next frame.
    pub open spec fn reaction_to(self, input: LoopInput) -> Reaction {
        match input {
            LoopInput::Window { own, input } => if own {
                Reaction {
                    control_flow: Some(self.flow_after(input)),
                    event: self.told_of(input),
                    work: FrameWork::Nothing,
                }
            } else {
                Reaction { control_flow: None, event: None, work: FrameWork::Nothing }
            },
            LoopInput::MainEventsCleared => Reaction {
                control_flow: Some(ControlFlow::WaitUntilNextFrame),
                event: None,
                work: FrameWork::UpdateAndRender,
            },
            LoopInput::RedrawRequested { own } => Reaction {
                control_flow: None,
                event: None,
                work: if own {
                    FrameWork::Render
                } else {
                    FrameWork::Nothing
                },
            },
            LoopInput::Other => Reaction {
                control_flow: Some(ControlFlow::WaitUntilNextFrame),
                event: None,
                work: FrameWork::Nothing,
            },
        }
    }

    /// The state after an input of the event loop: only an event of the
    /// window of the screen changes it.
    pub open spec fn after_event(self, input: LoopInput) -> ScreenState {
        match input {
            LoopInput::Window { own, input } => if own {
                self.after_window_event(input)
            } else {
                self
            },
            _ => self,
        }
    }

    /// The state of a fresh screen.
    pub fn new() -> (state: ScreenState)
        ensures
            state == ScreenState::fresh(),
    {
        ScreenState { pending_resize: None, cursor_on_screen: false }
    }

    /// Takes an event of the window of the screen. Says how the loop is to
    /// go on and what the consumer is to be told.
    pub fn handle_window_event(&mut self, input: WindowInput) -> (answer: (
        ControlFlow,
        Option<ScreenEvent>,
    ))
        ensures
            *final(self) == old(self).after_window_event(input),
            answer.0 == old(self).flow_after(input),
            answer.1 == old(self).told_of(input),
    {
        let wait = ControlFlow::WaitUntilNextFrame;
        match input {
            WindowInput::CloseRequested => (ControlFlow::Exit, Some(ScreenEvent::Exit)),
            WindowInput::KeyboardInput { escape, key, pressed } => {
                if escape && pressed {
                    (ControlFlow::Exit, Some(ScreenEvent::Exit))
                } else {
                    match key {
                        Some(key) => (wait, Some(ScreenEvent::KeyPress { key, down: pressed })),
                        None => (wait, None),
                    }
                }
            },
            WindowInput::Resized { size } => {
                self.pending_resize = Some(size);
                (wait, None)
            },
            WindowInput::ScaleFactorChanged { size } => {
                self.pending_resize = Some(size);
                (wait, None)
            },
            WindowInput::CursorMoved { on_screen } => {
                self.cursor_on_screen = on_screen;
                if on_screen {
                    (wait, Some(ScreenEvent::MouseMove))
                } else {
                    (wait, None)
                }
            },
            WindowInput::MouseInput { button, pressed } => {
                if self.cursor_on_screen {
                    match button {
                        MouseButton::Left => (wait, Some(ScreenEvent::MouseLMB { down: pressed })),
                        MouseButton::Right => (wait, Some(ScreenEvent::MouseRMB { down: pressed })),
                        MouseButton::Middle => (
                            wait,
                            Some(ScreenEvent::MouseMMB { down: pressed }),
                        ),
                        MouseButton::Other => (wait, None),
                    }
                } else {
                    (wait, None)
                }
            },
            WindowInput::Other => (wait, None),
        }
    }

    /// Takes an input of the event loop and answers it.
    pub fn handle_event(&mut self, input: LoopInput) -> (reaction: Reaction)
        ensures
            *final(self) == old(self).after_event(input),
            reaction == old(self).reaction_to(input),
    {
        match input {
            LoopInput::Window { own, input } => {
                if own {
                    let (control_flow, event) = self.handle_window_event(input);
                    Reaction { control_flow: Some(control_flow), event, work: FrameWork::Nothing }
                } else {
                    Reaction { control_flow: None, event: None, work: FrameWork::Nothing }
                }
            },
            LoopInput::MainEventsCleared => Reaction {
                control_flow: Some(ControlFlow::WaitUntilNextFrame),
                event: None,
                work: FrameWork::UpdateAndRender,
            },
            LoopInput::RedrawRequested { own } => Reaction {
                control_flow: None,
                event: None,
                work: if own {
                    FrameWork::Render
                } else {
                    FrameWork::Nothing
                },
            },
            LoopInput::Other => Reaction {
                control_flow: Some(ControlFlow::WaitUntilNextFrame),
                event: None,
                work: FrameWork::Nothing,
            },
        }
    }

    /// Tells the device the pending size, if there is one, and returns it
    /// with the projection that goes with it: a size is applied once, at the
    /// start of the frame after the window took it, and after that none is
    /// pending. Without a pending size nothing changes.
    pub fn trigger_possible_resize(&mut self, device: &mut GraphicDevice) -> (applied: Option<
        (PhysicalSize, ViewUniforms),
    >)
        ensures
            *final(self) == (ScreenState { pending_resize: None, ..*old(self) }),
            final(device).wf(),
            match old(self).pending_resize {
                Some(size) => {
                    &&& final(device)@ == old(device)@.resized(size.width, size.height)
                    &&& applied == Some((size, final(device)@.view_uniforms()))
                },
                None => {
                    &&& final(device)@ == old(device)@
                    &&& applied is None
                },
            },
    {
        proof {
            use_type_invariant(&*device);
        }
        match self.pending_resize {
            Some(size) => {
                self.pending_resize = None;
                let view = device.set_window_size(size.width, size.height);
                Some((size, view))
            },
            None => None,
        }
    }
}

} // verus!
