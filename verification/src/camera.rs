//! The key and mouse-button state of the camera controllers. Their motion
//! itself is computed in floating point by the application.
use vstd::prelude::*;
use crate::window::{InputState, Key, MouseButton, WindowEvent};

verus! {

/// The keys that move the 2D camera: A, D, S and W, and Shift to go faster.
#[derive(Clone, Copy, PartialEq, Eq, Structural, Debug)]
pub struct D2CameraKeys {
    pub right_pressed: bool,
    pub left_pressed: bool,
    pub up_pressed: bool,
    pub down_pressed: bool,
    pub is_shift_pressed: bool,
}

/// The key state after an event: A sets left, D right, S up, W down and
/// Shift the speed-up to whether the key is now down; nothing else changes
/// it.
pub open spec fn spec_d2_keys_after(k: D2CameraKeys, event: WindowEvent) -> D2CameraKeys {
    match event {
        WindowEvent::KeyInput { key, state } => {
            let down = state == InputState::Pressed;
            match key {
                Key::A => D2CameraKeys { left_pressed: down, ..k },
                Key::D => D2CameraKeys { right_pressed: down, ..k },
                Key::S => D2CameraKeys { up_pressed: down, ..k },
                Key::W => D2CameraKeys { down_pressed: down, ..k },
                Key::Shift => D2CameraKeys { is_shift_pressed: down, ..k },
                _ => k,
            }
        },
        _ => k,
    }
}

impl D2CameraKeys {
    /// No key down.
    pub fn new() -> (k: D2CameraKeys)
        ensures
            !k.right_pressed && !k.left_pressed && !k.up_pressed && !k.down_pressed
                && !k.is_shift_pressed,
    {
        D2CameraKeys {
            right_pressed: false,
            left_pressed: false,
            up_pressed: false,
            down_pressed: false,
            is_shift_pressed: false,
        }
    }

    /// Follows a key event.
    pub fn event(&mut self, event: &WindowEvent)
        ensures
            *final(self) == spec_d2_keys_after(*old(self), *event),
    {
        match event {
            WindowEvent::KeyInput { key, state } => {
                let is_pressed = match state {
                    InputState::Pressed => true,
                    InputState::Released => false,
                };
                match key {
                    Key::A => self.left_pressed = is_pressed,
                    Key::D => self.right_pressed = is_pressed,
                    Key::S => self.up_pressed = is_pressed,
                    Key::W => self.down_pressed = is_pressed,
                    Key::Shift => self.is_shift_pressed = is_pressed,
                    _ => {},
                }
            },
            _ => {},
        }
    }
}

/// Whether the 2D camera is being dragged with the mouse.
#[derive(Clone, Copy, PartialEq, Eq, Structural, Debug)]
pub struct D2DragState {
    /// Whether the dragging button is down.
    pub pressing: bool,
    /// Whether the cursor is inside the window.
    pub mouse_is_inside: bool,
    /// Whether the right button drags, rather than the left one.
    pub right_click_move: bool,
}

/// The drag state after an event: entering and leaving the window are
/// followed; the dragging button (the right one when `right_click_move`,
/// else the left one) going down or up starts or ends pressing.
pub open spec fn spec_drag_after(d: D2DragState, event: WindowEvent) -> D2DragState {
    match event {
        WindowEvent::MouseEntered => D2DragState { mouse_is_inside: true, ..d },
        WindowEvent::MouseLeft => D2DragState { mouse_is_inside: false, ..d },
        WindowEvent::MouseInput { button, state } => if (d.right_click_move && button
            == MouseButton::Right) || (!d.right_click_move && button == MouseButton::Left) {
            D2DragState { pressing: state == InputState::Pressed, ..d }
        } else {
            d
        },
        _ => d,
    }
}

impl D2DragState {
    /// Not pressing, the cursor outside, dragging with the left button.
    pub fn new() -> (d: D2DragState)
        ensures
            !d.pressing && !d.mouse_is_inside && !d.right_click_move,
    {
        D2DragState { pressing: false, mouse_is_inside: false, right_click_move: false }
    }

    /// Whether a cursor motion now drags the camera: the cursor is inside and
    /// the dragging button is down.
    pub fn drags(&self) -> (r: bool)
        ensures
            r == (self.mouse_is_inside && self.pressing),
    {
        self.mouse_is_inside && self.pressing
    }

    /// Follows a mouse event.
    pub fn event(&mut self, event: &WindowEvent)
        ensures
            *final(self) == spec_drag_after(*old(self), *event),
    {
        match event {
            WindowEvent::MouseEntered => self.mouse_is_inside = true,
            WindowEvent::MouseLeft => self.mouse_is_inside = false,
            WindowEvent::MouseInput { state, button } => {
                let right = match button {
                    MouseButton::Right => true,
                    _ => false,
                };
                let left = match button {
                    MouseButton::Left => true,
                    _ => false,
                };
                if (self.right_click_move && right) || (!self.right_click_move && left) {
                    self.pressing = match state {
                        InputState::Pressed => true,
                        InputState::Released => false,
                    };
                }
            },
            _ => {},
        }
    }
}

/// The keys that move the free 3D camera: A, D, S and W, and Shift to go
/// faster.
#[derive(Clone, Copy, PartialEq, Eq, Structural, Debug)]
pub struct FreeCameraKeys {
    pub right_pressed: bool,
    pub left_pressed: bool,
    pub forward_pressed: bool,
    pub backward_pressed: bool,
    pub is_shift_pressed: bool,
}

/// The key state after an event: A sets left, D right, S forward, W
/// backward and Shift the speed-up to whether the key is now down.
pub open spec fn spec_free_keys_after(k: FreeCameraKeys, event: WindowEvent) -> FreeCameraKeys {
    match event {
        WindowEvent::KeyInput { key, state } => {
            let down = state == InputState::Pressed;
            match key {
                Key::A => FreeCameraKeys { left_pressed: down, ..k },
                Key::D => FreeCameraKeys { right_pressed: down, ..k },
                Key::S => FreeCameraKeys { forward_pressed: down, ..k },
                Key::W => FreeCameraKeys { backward_pressed: down, ..k },
                Key::Shift => FreeCameraKeys { is_shift_pressed: down, ..k },
                _ => k,
            }
        },
        _ => k,
    }
}

impl FreeCameraKeys {
    /// No key down.
    pub fn new() -> (k: FreeCameraKeys)
        ensures
            !k.right_pressed && !k.left_pressed && !k.forward_pressed && !k.backward_pressed
                && !k.is_shift_pressed,
    {
        FreeCameraKeys {
            right_pressed: false,
            left_pressed: false,
            forward_pressed: false,
            backward_pressed: false,
            is_shift_pressed: false,
        }
    }

    /// Follows a key event.
    pub fn event(&mut self, event: &WindowEvent)
        ensures
            *final(self) == spec_free_keys_after(*old(self), *event),
    {
        match event {
            WindowEvent::KeyInput { key, state } => {
                let is_pressed = match state {
                    InputState::Pressed => true,
                    InputState::Released => false,
                };
                match key {
                    Key::A => self.left_pressed = is_pressed,
                    Key::D => self.right_pressed = is_pressed,
                    Key::S => self.forward_pressed = is_pressed,
                    Key::W => self.backward_pressed = is_pressed,
                    Key::Shift => self.is_shift_pressed = is_pressed,
                    _ => {},
                }
            },
            _ => {},
        }
    }
}

/// Pressing a key and then releasing it leaves the 2D camera's keys as the
/// release alone would: that key up, every other key as it was.
pub proof fn lemma_d2_press_release(k: D2CameraKeys, key: Key)
    ensures
        spec_d2_keys_after(
            spec_d2_keys_after(k, WindowEvent::KeyInput { key, state: InputState::Pressed }),
            WindowEvent::KeyInput { key, state: InputState::Released },
        ) == spec_d2_keys_after(k, WindowEvent::KeyInput { key, state: InputState::Released }),
{
}

/// Pressing a key and then releasing it leaves the free camera's keys as the
/// release alone would.
pub proof fn lemma_free_press_release(k: FreeCameraKeys, key: Key)
    ensures
        spec_free_keys_after(
            spec_free_keys_after(k, WindowEvent::KeyInput { key, state: InputState::Pressed }),
            WindowEvent::KeyInput { key, state: InputState::Released },
        ) == spec_free_keys_after(k, WindowEvent::KeyInput { key, state: InputState::Released }),
{
}

/// Each movement key of the 2D camera drives its own flag and no other: A
/// left, D right, S up, W down, Shift the speed-up; the flag follows whether
/// the key went down or up. Other keys and every other event change
/// nothing.
pub proof fn lemma_d2_keys_each_own_flag(k: D2CameraKeys, key: Key, state: InputState, event: WindowEvent)
    ensures
        ({
            let after = spec_d2_keys_after(k, WindowEvent::KeyInput { key, state });
            let down = state == InputState::Pressed;
            &&& after.left_pressed == (if key == Key::A { down } else { k.left_pressed })
            &&& after.right_pressed == (if key == Key::D { down } else { k.right_pressed })
            &&& after.up_pressed == (if key == Key::S { down } else { k.up_pressed })
            &&& after.down_pressed == (if key == Key::W { down } else { k.down_pressed })
            &&& after.is_shift_pressed == (if key == Key::Shift { down } else { k.is_shift_pressed })
        }),
        !(event is KeyInput) ==> spec_d2_keys_after(k, event) == k,
{
}

/// Each movement key of the free camera drives its own flag and no other: A
/// left, D right, S forward, W backward, Shift the speed-up. Other keys and
/// every other event change nothing.
pub proof fn lemma_free_keys_each_own_flag(k: FreeCameraKeys, key: Key, state: InputState, event: WindowEvent)
    ensures
        ({
            let after = spec_free_keys_after(k, WindowEvent::KeyInput { key, state });
            let down = state == InputState::Pressed;
            &&& after.left_pressed == (if key == Key::A { down } else { k.left_pressed })
            &&& after.right_pressed == (if key == Key::D { down } else { k.right_pressed })
            &&& after.forward_pressed == (if key == Key::S { down } else { k.forward_pressed })
            &&& after.backward_pressed == (if key == Key::W { down } else { k.backward_pressed })
            &&& after.is_shift_pressed == (if key == Key::Shift { down } else { k.is_shift_pressed })
        }),
        !(event is KeyInput) ==> spec_free_keys_after(k, event) == k,
{
}

/// The 2D camera is dragged by its dragging button only (the right one when
/// `right_click_move`, else the left one), which presses or releases the
/// drag; the cursor entering or leaving the window is followed; a cursor
/// motion, a key or a scroll changes nothing.
pub proof fn lemma_drag_follows_its_button(d: D2DragState, button: MouseButton, state: InputState, x: u32, y: u32)
    ensures
        ({
            let after = spec_drag_after(d, WindowEvent::MouseInput { button, state });
            let drags_with = if d.right_click_move { MouseButton::Right } else { MouseButton::Left };
            &&& after.pressing == (if button == drags_with { state == InputState::Pressed } else { d.pressing })
            &&& after.mouse_is_inside == d.mouse_is_inside
            &&& after.right_click_move == d.right_click_move
        }),
        spec_drag_after(d, WindowEvent::MouseEntered).mouse_is_inside,
        !spec_drag_after(d, WindowEvent::MouseLeft).mouse_is_inside,
        spec_drag_after(d, WindowEvent::MouseEntered).pressing == d.pressing,
        spec_drag_after(d, WindowEvent::MouseMotion(x, y)) == d,
{
}

} // verus!
