use custom_shader::custom_pass::Quad;
use custom_shader::state::{
    CustomShaderState, InputEvent, Key, MouseButton, Reaction, ScrollDirection, StateEvent, Trans,
    Update, WindowEvent,
};

fn idle() -> CustomShaderState {
    CustomShaderState { panning: false }
}

fn go_on(update: Update) -> Reaction {
    Reaction { trans: Trans::Continue, update }
}

#[test]
fn close_request_quits() {
    let mut state = idle();
    let reaction = state.handle_event(StateEvent::Window(WindowEvent::CloseRequested));
    assert_eq!(reaction, Reaction { trans: Trans::Quit, update: Update::Keep });
    assert!(!state.panning);
}

#[test]
fn escape_down_in_window_quits() {
    let mut state = idle();
    let reaction = state.handle_event(StateEvent::Window(WindowEvent::KeyDown(Key::Escape)));
    assert_eq!(reaction.trans, Trans::Quit);
    assert_eq!(reaction.update, Update::Keep);
}

#[test]
fn other_keys_down_in_window_do_nothing() {
    for key in [Key::Up, Key::Down, Key::Other] {
        let mut state = idle();
        let reaction = state.handle_event(StateEvent::Window(WindowEvent::KeyDown(key)));
        assert_eq!(reaction, go_on(Update::Keep));
    }
}

#[test]
fn escape_from_input_system_does_not_quit() {
    let mut state = idle();
    let reaction = state.handle_event(StateEvent::Input(InputEvent::KeyPressed(Key::Escape)));
    assert_eq!(reaction, go_on(Update::Keep));
}

#[test]
fn resize_asks_for_aspect_ratio() {
    let mut state = idle();
    let reaction = state.handle_event(StateEvent::Window(WindowEvent::Resized));
    assert_eq!(reaction, go_on(Update::AspectRatio));
}

#[test]
fn other_window_and_ui_events_do_nothing() {
    let mut state = CustomShaderState { panning: true };
    assert_eq!(state.handle_event(StateEvent::Window(WindowEvent::Other)), go_on(Update::Keep));
    assert_eq!(state.handle_event(StateEvent::Ui), go_on(Update::Keep));
    assert_eq!(state.handle_event(StateEvent::Input(InputEvent::Other)), go_on(Update::Keep));
    assert!(state.panning);
}

#[test]
fn wheel_scales_up_and_down() {
    let mut state = idle();
    let up = state.handle_event(StateEvent::Input(InputEvent::MouseWheelMoved(
        ScrollDirection::ScrollUp,
    )));
    assert_eq!(up, go_on(Update::ScaleUp));
    let down = state.handle_event(StateEvent::Input(InputEvent::MouseWheelMoved(
        ScrollDirection::ScrollDown,
    )));
    assert_eq!(down, go_on(Update::ScaleDown));
}

#[test]
fn sideways_wheel_does_nothing() {
    for direction in [ScrollDirection::ScrollLeft, ScrollDirection::ScrollRight] {
        let mut state = idle();
        let reaction = state.handle_event(StateEvent::Input(InputEvent::MouseWheelMoved(direction)));
        assert_eq!(reaction, go_on(Update::Keep));
    }
}

#[test]
fn left_button_starts_and_stops_panning() {
    let mut state = idle();
    let pressed =
        state.handle_event(StateEvent::Input(InputEvent::MouseButtonPressed(MouseButton::Left)));
    assert_eq!(pressed, go_on(Update::Keep));
    assert!(state.panning);
    let released =
        state.handle_event(StateEvent::Input(InputEvent::MouseButtonReleased(MouseButton::Left)));
    assert_eq!(released, go_on(Update::Keep));
    assert!(!state.panning);
}

#[test]
fn other_buttons_leave_panning_alone() {
    for button in [MouseButton::Right, MouseButton::Middle, MouseButton::Other(4)] {
        let mut state = idle();
        state.handle_event(StateEvent::Input(InputEvent::MouseButtonPressed(button)));
        assert!(!state.panning);
        let mut state = CustomShaderState { panning: true };
        state.handle_event(StateEvent::Input(InputEvent::MouseButtonReleased(button)));
        assert!(state.panning);
    }
}

#[test]
fn cursor_pans_only_while_left_button_is_held() {
    let mut state = idle();
    let moved = StateEvent::Input(InputEvent::CursorMoved);
    assert_eq!(state.handle_event(moved), go_on(Update::Keep));
    state.handle_event(StateEvent::Input(InputEvent::MouseButtonPressed(MouseButton::Left)));
    assert_eq!(state.handle_event(moved), go_on(Update::Pan));
    assert_eq!(state.handle_event(moved), go_on(Update::Pan));
    state.handle_event(StateEvent::Input(InputEvent::MouseButtonReleased(MouseButton::Left)));
    assert_eq!(state.handle_event(moved), go_on(Update::Keep));
}

#[test]
fn arrow_keys_change_iteration_limit() {
    let mut state = idle();
    let up = state.handle_event(StateEvent::Input(InputEvent::KeyPressed(Key::Up)));
    assert_eq!(up, go_on(Update::MoreIterations));
    let down = state.handle_event(StateEvent::Input(InputEvent::KeyPressed(Key::Down)));
    assert_eq!(down, go_on(Update::FewerIterations));
    let other = state.handle_event(StateEvent::Input(InputEvent::KeyPressed(Key::Other)));
    assert_eq!(other, go_on(Update::Keep));
}

#[test]
fn quitting_while_panning_keeps_the_flag() {
    let mut state = CustomShaderState { panning: true };
    let reaction = state.handle_event(StateEvent::Window(WindowEvent::CloseRequested));
    assert_eq!(reaction.trans, Trans::Quit);
    assert!(state.panning);
}

#[test]
fn start_yields_quad_over_whole_view() {
    let mut state = idle();
    let quad: Quad = state.on_start();
    let corners: Vec<[f32; 2]> =
        quad.points.iter().map(|p| [f32::from_bits(p[0]), f32::from_bits(p[1])]).collect();
    assert_eq!(corners, vec![[-1.0, -1.0], [-1.0, 1.0], [1.0, -1.0], [1.0, 1.0]]);
    assert!(!state.panning);
}
