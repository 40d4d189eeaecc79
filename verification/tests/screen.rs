use graphics::events::Key;
use graphics::graphic_device::GraphicDevice;
use graphics::screen::{
    ControlFlow, FrameWork, LoopInput, MouseButton, PhysicalSize, Reaction, ScreenEvent,
    ScreenState, WindowInput,
};
use graphics::uniforms::ViewUniforms;

fn key(key: Option<Key>, escape: bool, pressed: bool) -> WindowInput {
    WindowInput::KeyboardInput { escape, key, pressed }
}

#[test]
fn fresh_screen_has_nothing_pending() {
    let state = ScreenState::new();
    assert_eq!(state.pending_resize, None);
    assert!(!state.cursor_on_screen);
}

#[test]
fn close_request_and_escape_exit() {
    let mut state = ScreenState::new();
    assert_eq!(
        state.handle_window_event(WindowInput::CloseRequested),
        (ControlFlow::Exit, Some(ScreenEvent::Exit))
    );
    assert_eq!(
        state.handle_window_event(key(None, true, true)),
        (ControlFlow::Exit, Some(ScreenEvent::Exit))
    );
    // Escape going up is no exit, and no key that is reported.
    assert_eq!(
        state.handle_window_event(key(None, true, false)),
        (ControlFlow::WaitUntilNextFrame, None)
    );
    assert_eq!(state, ScreenState::new());
}

#[test]
fn keys_are_reported_going_down_and_up() {
    let mut state = ScreenState::new();
    assert_eq!(
        state.handle_window_event(key(Some(Key::W), false, true)),
        (
            ControlFlow::WaitUntilNextFrame,
            Some(ScreenEvent::KeyPress { key: Key::W, down: true })
        )
    );
    assert_eq!(
        state.handle_window_event(key(Some(Key::Left), false, false)),
        (
            ControlFlow::WaitUntilNextFrame,
            Some(ScreenEvent::KeyPress { key: Key::Left, down: false })
        )
    );
    assert_eq!(
        state.handle_window_event(key(None, false, true)),
        (ControlFlow::WaitUntilNextFrame, None)
    );
}

#[test]
fn mouse_buttons_count_only_while_the_cursor_is_on_the_screen() {
    let mut state = ScreenState::new();
    let click = WindowInput::MouseInput { button: MouseButton::Left, pressed: true };
    assert_eq!(state.handle_window_event(click), (ControlFlow::WaitUntilNextFrame, None));

    assert_eq!(
        state.handle_window_event(WindowInput::CursorMoved { on_screen: true }),
        (ControlFlow::WaitUntilNextFrame, Some(ScreenEvent::MouseMove))
    );
    assert!(state.cursor_on_screen);
    assert_eq!(
        state.handle_window_event(click),
        (ControlFlow::WaitUntilNextFrame, Some(ScreenEvent::MouseLMB { down: true }))
    );
    assert_eq!(
        state.handle_window_event(WindowInput::MouseInput {
            button: MouseButton::Right,
            pressed: false
        }),
        (ControlFlow::WaitUntilNextFrame, Some(ScreenEvent::MouseRMB { down: false }))
    );
    assert_eq!(
        state.handle_window_event(WindowInput::MouseInput {
            button: MouseButton::Middle,
            pressed: true
        }),
        (ControlFlow::WaitUntilNextFrame, Some(ScreenEvent::MouseMMB { down: true }))
    );
    assert_eq!(
        state.handle_window_event(WindowInput::MouseInput {
            button: MouseButton::Other,
            pressed: true
        }),
        (ControlFlow::WaitUntilNextFrame, None)
    );

    assert_eq!(
        state.handle_window_event(WindowInput::CursorMoved { on_screen: false }),
        (ControlFlow::WaitUntilNextFrame, None)
    );
    assert!(!state.cursor_on_screen);
    assert_eq!(state.handle_window_event(click), (ControlFlow::WaitUntilNextFrame, None));
}

#[test]
fn resize_waits_for_the_next_frame_and_is_applied_once() {
    let mut device = GraphicDevice::new(800, 600);
    let mut state = ScreenState::new();
    assert_eq!(state.trigger_possible_resize(&mut device), None);

    let first = PhysicalSize { width: 1024, height: 768 };
    let second = PhysicalSize { width: 600, height: 800 };
    assert_eq!(
        state.handle_window_event(WindowInput::Resized { size: first }),
        (ControlFlow::WaitUntilNextFrame, None)
    );
    assert_eq!(state.pending_resize, Some(first));
    assert_eq!(device.size(), (800, 600));
    assert_eq!(
        state.handle_window_event(WindowInput::ScaleFactorChanged { size: second }),
        (ControlFlow::WaitUntilNextFrame, None)
    );
    assert_eq!(state.pending_resize, Some(second));

    assert_eq!(
        state.trigger_possible_resize(&mut device),
        Some((second, ViewUniforms::for_size(600, 800)))
    );
    assert_eq!(device.size(), (600, 800));
    assert_eq!(state.pending_resize, None);
    assert_eq!(state.trigger_possible_resize(&mut device), None);
    assert_eq!(device.size(), (600, 800));
}

#[test]
fn event_loop_inputs() {
    let mut state = ScreenState::new();
    assert_eq!(
        state.handle_event(LoopInput::MainEventsCleared),
        Reaction {
            control_flow: Some(ControlFlow::WaitUntilNextFrame),
            event: None,
            work: FrameWork::UpdateAndRender,
        }
    );
    assert_eq!(
        state.handle_event(LoopInput::RedrawRequested { own: true }),
        Reaction { control_flow: None, event: None, work: FrameWork::Render }
    );
    assert_eq!(
        state.handle_event(LoopInput::RedrawRequested { own: false }),
        Reaction { control_flow: None, event: None, work: FrameWork::Nothing }
    );
    assert_eq!(
        state.handle_event(LoopInput::Other),
        Reaction {
            control_flow: Some(ControlFlow::WaitUntilNextFrame),
            event: None,
            work: FrameWork::Nothing,
        }
    );
    assert_eq!(state, ScreenState::new());
}

#[test]
fn events_of_another_window_are_not_for_this_screen() {
    let mut state = ScreenState::new();
    let size = PhysicalSize { width: 10, height: 20 };
    for input in [
        WindowInput::CloseRequested,
        WindowInput::Resized { size },
        WindowInput::CursorMoved { on_screen: true },
        key(Some(Key::A), false, true),
    ] {
        assert_eq!(
            state.handle_event(LoopInput::Window { own: false, input }),
            Reaction { control_flow: None, event: None, work: FrameWork::Nothing }
        );
        assert_eq!(state, ScreenState::new());
    }
    assert_eq!(
        state.handle_event(LoopInput::Window { own: true, input: WindowInput::CloseRequested }),
        Reaction {
            control_flow: Some(ControlFlow::Exit),
            event: Some(ScreenEvent::Exit),
            work: FrameWork::Nothing,
        }
    );
    assert_eq!(
        state.handle_event(LoopInput::Window {
            own: true,
            input: WindowInput::Resized { size }
        }),
        Reaction {
            control_flow: Some(ControlFlow::WaitUntilNextFrame),
            event: None,
            work: FrameWork::Nothing,
        }
    );
    assert_eq!(state.pending_resize, Some(size));
    assert_eq!(
        state.handle_event(LoopInput::Window { own: true, input: WindowInput::Other }),
        Reaction {
            control_flow: Some(ControlFlow::WaitUntilNextFrame),
            event: None,
            work: FrameWork::Nothing,
        }
    );
}
