use jandering_engine::camera::{D2CameraKeys, D2DragState, FreeCameraKeys};
use jandering_engine::engine::{frame_phases, EngineAction, EngineBuilder, Events, FramePhase};
use jandering_engine::window::{
    key_from_code, InputState, Key, KeyCode, MouseButton, WindowBuilder, WindowEvent,
};

fn press(key: Key) -> WindowEvent {
    WindowEvent::KeyInput { key, state: InputState::Pressed }
}

fn release(key: Key) -> WindowEvent {
    WindowEvent::KeyInput { key, state: InputState::Released }
}

#[test]
fn events_record_and_clear() {
    let mut events = Events::new();
    assert!(events.as_slice().is_empty());
    events.push(press(Key::Space));
    events.push(WindowEvent::MouseLeft);
    assert_eq!(events.as_slice(), &[press(Key::Space), WindowEvent::MouseLeft]);
    events.clear();
    assert!(events.as_slice().is_empty());
}

#[test]
fn is_pressed_sees_only_presses() {
    let mut events = Events::new();
    events.push(release(Key::A));
    events.push(press(Key::W));
    assert!(events.is_pressed(Key::W));
    assert!(!events.is_pressed(Key::A));
    assert!(!events.is_pressed(Key::Space));
}

#[test]
fn matches_asks_a_predicate() {
    let mut events = Events::new();
    assert!(!events.matches(|e| matches!(e, WindowEvent::MouseLeft)));
    events.push(WindowEvent::MouseEntered);
    events.push(WindowEvent::MouseLeft);
    assert!(events.matches(|e| matches!(e, WindowEvent::MouseLeft)));
    assert!(!events.matches(|e| matches!(e, WindowEvent::Resized(..))));
}

#[test]
fn window_events_before_ready_are_ignored() {
    let mut events = Events::new();
    let action = events.on_window_event(false, (800, 800), WindowEvent::Resized(10, 20));
    assert_eq!(action, EngineAction::Nothing);
    assert!(events.as_slice().is_empty());
}

#[test]
fn resize_is_recorded_and_acted_on_when_the_size_changes() {
    let mut events = Events::new();
    let action = events.on_window_event(true, (800, 800), WindowEvent::Resized(1024, 768));
    assert_eq!(action, EngineAction::Resize { width: 1024, height: 768 });
    let action = events.on_window_event(true, (1024, 768), WindowEvent::Resized(1024, 768));
    assert_eq!(action, EngineAction::Nothing);
    assert_eq!(
        events.as_slice(),
        &[WindowEvent::Resized(1024, 768), WindowEvent::Resized(1024, 768)]
    );
}

#[test]
fn redraw_close_and_batch_end_are_not_recorded() {
    let mut events = Events::new();
    assert_eq!(
        events.on_window_event(true, (1, 1), WindowEvent::RedrawRequested),
        EngineAction::Frame
    );
    assert_eq!(
        events.on_window_event(true, (1, 1), WindowEvent::CloseRequested),
        EngineAction::Close
    );
    assert_eq!(
        events.on_window_event(true, (1, 1), WindowEvent::EventsCleared),
        EngineAction::RequestRedraw
    );
    assert!(events.as_slice().is_empty());
    assert_eq!(events.on_window_event(true, (1, 1), press(Key::C)), EngineAction::Nothing);
    assert_eq!(events.as_slice(), &[press(Key::C)]);
}

#[test]
fn builders_keep_other_settings() {
    let b = WindowBuilder::default();
    assert_eq!((b.width, b.height, b.show_cursor, b.title), (800, 800, true, "Cool app"));
    let b = b.with_resolution(1280, 720).with_cursor(false).with_title("Game");
    assert_eq!((b.width, b.height, b.show_cursor, b.title), (1280, 720, false, "Game"));

    let e = EngineBuilder::default();
    assert_eq!(e.window_builder.title, "Cool app");
    let e = e.with_window(WindowBuilder::default().with_title("Editor"));
    assert_eq!(e.window_builder.title, "Editor");
    assert_eq!(e.window_builder.width, 800);
}

#[test]
fn physical_keys_map_to_engine_keys() {
    assert_eq!(key_from_code(KeyCode::KeyA), Key::A);
    assert_eq!(key_from_code(KeyCode::Digit0), Key::Key0);
    assert_eq!(key_from_code(KeyCode::Space), Key::Space);
    assert_eq!(key_from_code(KeyCode::Escape), Key::Escape);
    assert_eq!(key_from_code(KeyCode::F24), Key::F24);
    assert_eq!(key_from_code(KeyCode::Other), Key::Unknown);
}

#[test]
fn d2_camera_keys_follow_presses_and_releases() {
    let mut keys = D2CameraKeys::new();
    keys.event(&press(Key::A));
    keys.event(&press(Key::S));
    keys.event(&press(Key::Shift));
    assert!(keys.left_pressed && keys.up_pressed && keys.is_shift_pressed);
    assert!(!keys.right_pressed && !keys.down_pressed);
    keys.event(&release(Key::A));
    keys.event(&press(Key::Q));
    keys.event(&WindowEvent::MouseLeft);
    assert!(!keys.left_pressed && keys.up_pressed);
}

#[test]
fn d2_drag_needs_the_cursor_inside_and_the_button_down() {
    let mut drag = D2DragState::new();
    drag.event(&WindowEvent::MouseInput { button: MouseButton::Left, state: InputState::Pressed });
    assert!(drag.pressing && !drag.drags());
    drag.event(&WindowEvent::MouseEntered);
    assert!(drag.drags());
    drag.event(&WindowEvent::MouseInput { button: MouseButton::Right, state: InputState::Released });
    assert!(drag.drags());
    drag.event(&WindowEvent::MouseLeft);
    assert!(!drag.drags());

    let mut right = D2DragState { pressing: false, mouse_is_inside: true, right_click_move: true };
    right.event(&WindowEvent::MouseInput { button: MouseButton::Left, state: InputState::Pressed });
    assert!(!right.drags());
    right.event(&WindowEvent::MouseInput { button: MouseButton::Right, state: InputState::Pressed });
    assert!(right.drags());
}

#[test]
fn free_camera_keys_follow_presses_and_releases() {
    let mut keys = FreeCameraKeys::new();
    keys.event(&press(Key::W));
    keys.event(&press(Key::D));
    assert!(keys.backward_pressed && keys.right_pressed);
    assert!(!keys.forward_pressed && !keys.left_pressed && !keys.is_shift_pressed);
    keys.event(&release(Key::W));
    assert!(!keys.backward_pressed && keys.right_pressed);
}

#[test]
fn a_redraw_runs_a_frame_on_the_recorded_events() {
    let mut events = Events::new();
    events.on_window_event(true, (1, 1), press(Key::A));
    events.on_window_event(true, (1, 1), WindowEvent::MouseLeft);
    assert_eq!(events.on_window_event(true, (1, 1), WindowEvent::RedrawRequested), EngineAction::Frame);
    let frame = events.take_frame();
    assert_eq!(frame, vec![press(Key::A), WindowEvent::MouseLeft]);
    assert!(events.as_slice().is_empty());
    assert_eq!(
        frame_phases(),
        vec![FramePhase::Update, FramePhase::BeginFrame, FramePhase::Render, FramePhase::Present]
    );
}
