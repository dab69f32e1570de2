//! Window input: keys, buttons, the events the engine reacts to, and the
//! settings a window is opened with.
use vstd::prelude::*;

verus! {

/// A key of the keyboard, as the engine names it.
#[derive(Clone, Copy, PartialEq, Eq, Structural, Debug)]
pub enum Key {
    Key1,
    Key2,
    Key3,
    Key4,
    Key5,
    Key6,
    Key7,
    Key8,
    Key9,
    Key0,
    A,
    B,
    C,
    D,
    E,
    F,
    G,
    H,
    I,
    J,
    K,
    L,
    M,
    N,
    O,
    P,
    Q,
    R,
    S,
    T,
    U,
    V,
    W,
    X,
    Y,
    Z,
    Escape,
    F1,
    F2,
    F3,
    F4,
    F5,
    F6,
    F7,
    F8,
    F9,
    F10,
    F11,
    F12,
    F13,
    F14,
    F15,
    F16,
    F17,
    F18,
    F19,
    F20,
    F21,
    F22,
    F23,
    F24,
    Delete,
    Left,
    Up,
    Right,
    Down,
    Backspace,
    Return,
    Space,
    Numpad0,
    Numpad1,
    Numpad2,
    Numpad3,
    Numpad4,
    Numpad5,
    Numpad6,
    Numpad7,
    Numpad8,
    Numpad9,
    NumpadAdd,
    NumpadDivide,
    NumpadDecimal,
    NumpadComma,
    NumpadEnter,
    NumpadEquals,
    NumpadMultiply,
    NumpadSubtract,
    Alt,
    Control,
    Shift,
    Minus,
    Plus,
    Tab,
    Copy,
    Paste,
    Cut,
    Enter,
    Unknown,
}

/// A physical key as the windowing system reports it. Keys the engine has no
/// name for are reported as `Other`.
#[derive(Clone, Copy, PartialEq, Eq, Structural, Debug)]
pub enum KeyCode {
    Digit0,
    Digit1,
    Digit2,
    Digit3,
    Digit4,
    Digit5,
    Digit6,
    Digit7,
    Digit8,
    Digit9,
    KeyA,
    KeyB,
    KeyC,
    KeyD,
    KeyE,
    KeyF,
    KeyG,
    KeyH,
    KeyI,
    KeyJ,
    KeyK,
    KeyL,
    KeyM,
    KeyN,
    KeyO,
    KeyP,
    KeyQ,
    KeyR,
    KeyS,
    KeyT,
    KeyU,
    KeyV,
    KeyW,
    KeyX,
    KeyY,
    KeyZ,
    Minus,
    AltLeft,
    AltRight,
    Backspace,
    ControlLeft,
    ControlRight,
    Enter,
    ShiftLeft,
    ShiftRight,
    Space,
    Tab,
    Delete,
    ArrowDown,
    ArrowLeft,
    ArrowRight,
    ArrowUp,
    Numpad0,
    Numpad1,
    Numpad2,
    Numpad3,
    Numpad4,
    Numpad5,
    Numpad6,
    Numpad7,
    Numpad8,
    Numpad9,
    NumpadAdd,
    NumpadComma,
    NumpadDecimal,
    NumpadDivide,
    NumpadEnter,
    NumpadEqual,
    NumpadMultiply,
    NumpadSubtract,
    Escape,
    Copy,
    Cut,
    Paste,
    F1,
    F2,
    F3,
    F4,
    F5,
    F6,
    F7,
    F8,
    F9,
    F10,
    F11,
    F12,
    F13,
    F14,
    F15,
    F16,
    F17,
    F18,
    F19,
    F20,
    F21,
    F22,
    F23,
    F24,
    Other,
}

/// The engine's name for a physical key: digits, letters, arrows, function
/// keys and the numpad by their own names; left and right Alt, Control and
/// Shift as one key each; every other key as `Unknown`.
pub open spec fn spec_key_of(code: KeyCode) -> Key {
    match code {
        KeyCode::Digit0 => Key::Key0,
        KeyCode::Digit1 => Key::Key1,
        KeyCode::Digit2 => Key::Key2,
        KeyCode::Digit3 => Key::Key3,
        KeyCode::Digit4 => Key::Key4,
        KeyCode::Digit5 => Key::Key5,
        KeyCode::Digit6 => Key::Key6,
        KeyCode::Digit7 => Key::Key7,
        KeyCode::Digit8 => Key::Key8,
        KeyCode::Digit9 => Key::Key9,
        KeyCode::KeyA => Key::A,
        KeyCode::KeyB => Key::B,
        KeyCode::KeyC => Key::C,
        KeyCode::KeyD => Key::D,
        KeyCode::KeyE => Key::E,
        KeyCode::KeyF => Key::F,
        KeyCode::KeyG => Key::G,
        KeyCode::KeyH => Key::H,
        KeyCode::KeyI => Key::I,
        KeyCode::KeyJ => Key::J,
        KeyCode::KeyK => Key::K,
        KeyCode::KeyL => Key::L,
        KeyCode::KeyM => Key::M,
        KeyCode::KeyN => Key::N,
        KeyCode::KeyO => Key::O,
        KeyCode::KeyP => Key::P,
        KeyCode::KeyQ => Key::Q,
        KeyCode::KeyR => Key::R,
        KeyCode::KeyS => Key::S,
        KeyCode::KeyT => Key::T,
        KeyCode::KeyU => Key::U,
        KeyCode::KeyV => Key::V,
        KeyCode::KeyW => Key::W,
        KeyCode::KeyX => Key::X,
        KeyCode::KeyY => Key::Y,
        KeyCode::KeyZ => Key::Z,
        KeyCode::Minus => Key::Minus,
        KeyCode::AltLeft => Key::Alt,
        KeyCode::AltRight => Key::Alt,
        KeyCode::Backspace => Key::Backspace,
        KeyCode::ControlLeft => Key::Control,
        KeyCode::ControlRight => Key::Control,
        KeyCode::Enter => Key::Enter,
        KeyCode::ShiftLeft => Key::Shift,
        KeyCode::ShiftRight => Key::Shift,
        KeyCode::Space => Key::Space,
        KeyCode::Tab => Key::Tab,
        KeyCode::Delete => Key::Delete,
        KeyCode::ArrowDown => Key::Down,
        KeyCode::ArrowLeft => Key::Left,
        KeyCode::ArrowRight => Key::Right,
        KeyCode::ArrowUp => Key::Up,
        KeyCode::Numpad0 => Key::Numpad0,
        KeyCode::Numpad1 => Key::Numpad1,
        KeyCode::Numpad2 => Key::Numpad2,
        KeyCode::Numpad3 => Key::Numpad3,
        KeyCode::Numpad4 => Key::Numpad4,
        KeyCode::Numpad5 => Key::Numpad5,
        KeyCode::Numpad6 => Key::Numpad6,
        KeyCode::Numpad7 => Key::Numpad7,
        KeyCode::Numpad8 => Key::Numpad8,
        KeyCode::Numpad9 => Key::Numpad9,
        KeyCode::NumpadAdd => Key::NumpadAdd,
        KeyCode::NumpadComma => Key::NumpadComma,
        KeyCode::NumpadDecimal => Key::NumpadDecimal,
        KeyCode::NumpadDivide => Key::NumpadDivide,
        KeyCode::NumpadEnter => Key::NumpadEnter,
        KeyCode::NumpadEqual => Key::NumpadEquals,
        KeyCode::NumpadMultiply => Key::NumpadMultiply,
        KeyCode::NumpadSubtract => Key::NumpadSubtract,
        KeyCode::Escape => Key::Escape,
        KeyCode::Copy => Key::Copy,
        KeyCode::Cut => Key::Cut,
        KeyCode::Paste => Key::Paste,
        KeyCode::F1 => Key::F1,
        KeyCode::F2 => Key::F2,
        KeyCode::F3 => Key::F3,
        KeyCode::F4 => Key::F4,
        KeyCode::F5 => Key::F5,
        KeyCode::F6 => Key::F6,
        KeyCode::F7 => Key::F7,
        KeyCode::F8 => Key::F8,
        KeyCode::F9 => Key::F9,
        KeyCode::F10 => Key::F10,
        KeyCode::F11 => Key::F11,
        KeyCode::F12 => Key::F12,
        KeyCode::F13 => Key::F13,
        KeyCode::F14 => Key::F14,
        KeyCode::F15 => Key::F15,
        KeyCode::F16 => Key::F16,
        KeyCode::F17 => Key::F17,
        KeyCode::F18 => Key::F18,
        KeyCode::F19 => Key::F19,
        KeyCode::F20 => Key::F20,
        KeyCode::F21 => Key::F21,
        KeyCode::F22 => Key::F22,
        KeyCode::F23 => Key::F23,
        KeyCode::F24 => Key::F24,
        KeyCode::Other => Key::Unknown,
    }
}

/// Only the left and right Alt, Control and Shift keys share an engine key;
/// every other physical key has an engine key of its own, and only keys the
/// engine does not know are `Unknown`.
pub proof fn lemma_keys_distinct(a: KeyCode, b: KeyCode)
    ensures
        spec_key_of(a) == spec_key_of(b) && a != b ==> {
            ||| (a == KeyCode::AltLeft && b == KeyCode::AltRight) || (a == KeyCode::AltRight && b == KeyCode::AltLeft)
            ||| (a == KeyCode::ControlLeft && b == KeyCode::ControlRight) || (a == KeyCode::ControlRight && b == KeyCode::ControlLeft)
            ||| (a == KeyCode::ShiftLeft && b == KeyCode::ShiftRight) || (a == KeyCode::ShiftRight && b == KeyCode::ShiftLeft)
        },
        spec_key_of(a) == Key::Unknown <==> a == KeyCode::Other,
{
}

/// Letters and digits are named by their own names; both Shift keys are
/// Shift; Space, Escape, Enter and the arrows are themselves.
pub proof fn lemma_keys_by_name()
    ensures
        spec_key_of(KeyCode::KeyA) == Key::A,
        spec_key_of(KeyCode::KeyB) == Key::B,
        spec_key_of(KeyCode::KeyC) == Key::C,
        spec_key_of(KeyCode::KeyD) == Key::D,
        spec_key_of(KeyCode::KeyE) == Key::E,
        spec_key_of(KeyCode::KeyF) == Key::F,
        spec_key_of(KeyCode::KeyG) == Key::G,
        spec_key_of(KeyCode::KeyH) == Key::H,
        spec_key_of(KeyCode::KeyI) == Key::I,
        spec_key_of(KeyCode::KeyJ) == Key::J,
        spec_key_of(KeyCode::KeyK) == Key::K,
        spec_key_of(KeyCode::KeyL) == Key::L,
        spec_key_of(KeyCode::KeyM) == Key::M,
        spec_key_of(KeyCode::KeyN) == Key::N,
        spec_key_of(KeyCode::KeyO) == Key::O,
        spec_key_of(KeyCode::KeyP) == Key::P,
        spec_key_of(KeyCode::KeyQ) == Key::Q,
        spec_key_of(KeyCode::KeyR) == Key::R,
        spec_key_of(KeyCode::KeyS) == Key::S,
        spec_key_of(KeyCode::KeyT) == Key::T,
        spec_key_of(KeyCode::KeyU) == Key::U,
        spec_key_of(KeyCode::KeyV) == Key::V,
        spec_key_of(KeyCode::KeyW) == Key::W,
        spec_key_of(KeyCode::KeyX) == Key::X,
        spec_key_of(KeyCode::KeyY) == Key::Y,
        spec_key_of(KeyCode::KeyZ) == Key::Z,
        spec_key_of(KeyCode::Digit0) == Key::Key0,
        spec_key_of(KeyCode::Digit1) == Key::Key1,
        spec_key_of(KeyCode::Digit2) == Key::Key2,
        spec_key_of(KeyCode::Digit3) == Key::Key3,
        spec_key_of(KeyCode::Digit4) == Key::Key4,
        spec_key_of(KeyCode::Digit5) == Key::Key5,
        spec_key_of(KeyCode::Digit6) == Key::Key6,
        spec_key_of(KeyCode::Digit7) == Key::Key7,
        spec_key_of(KeyCode::Digit8) == Key::Key8,
        spec_key_of(KeyCode::Digit9) == Key::Key9,
        spec_key_of(KeyCode::ShiftLeft) == Key::Shift,
        spec_key_of(KeyCode::ShiftRight) == Key::Shift,
        spec_key_of(KeyCode::Space) == Key::Space,
        spec_key_of(KeyCode::Escape) == Key::Escape,
        spec_key_of(KeyCode::Enter) == Key::Enter,
        spec_key_of(KeyCode::ArrowLeft) == Key::Left,
        spec_key_of(KeyCode::ArrowRight) == Key::Right,
        spec_key_of(KeyCode::ArrowUp) == Key::Up,
        spec_key_of(KeyCode::ArrowDown) == Key::Down,
{
}

/// The engine's name for a physical key.
pub fn key_from_code(code: KeyCode) -> (key: Key)
    ensures
        key == spec_key_of(code),
{
    match code {
        KeyCode::Digit0 => Key::Key0,
        KeyCode::Digit1 => Key::Key1,
        KeyCode::Digit2 => Key::Key2,
        KeyCode::Digit3 => Key::Key3,
        KeyCode::Digit4 => Key::Key4,
        KeyCode::Digit5 => Key::Key5,
        KeyCode::Digit6 => Key::Key6,
        KeyCode::Digit7 => Key::Key7,
        KeyCode::Digit8 => Key::Key8,
        KeyCode::Digit9 => Key::Key9,
        KeyCode::KeyA => Key::A,
        KeyCode::KeyB => Key::B,
        KeyCode::KeyC => Key::C,
        KeyCode::KeyD => Key::D,
        KeyCode::KeyE => Key::E,
        KeyCode::KeyF => Key::F,
        KeyCode::KeyG => Key::G,
        KeyCode::KeyH => Key::H,
        KeyCode::KeyI => Key::I,
        KeyCode::KeyJ => Key::J,
        KeyCode::KeyK => Key::K,
        KeyCode::KeyL => Key::L,
        KeyCode::KeyM => Key::M,
        KeyCode::KeyN => Key::N,
        KeyCode::KeyO => Key::O,
        KeyCode::KeyP => Key::P,
        KeyCode::KeyQ => Key::Q,
        KeyCode::KeyR => Key::R,
        KeyCode::KeyS => Key::S,
        KeyCode::KeyT => Key::T,
        KeyCode::KeyU => Key::U,
        KeyCode::KeyV => Key::V,
        KeyCode::KeyW => Key::W,
        KeyCode::KeyX => Key::X,
        KeyCode::KeyY => Key::Y,
        KeyCode::KeyZ => Key::Z,
        KeyCode::Minus => Key::Minus,
        KeyCode::AltLeft => Key::Alt,
        KeyCode::AltRight => Key::Alt,
        KeyCode::Backspace => Key::Backspace,
        KeyCode::ControlLeft => Key::Control,
        KeyCode::ControlRight => Key::Control,
        KeyCode::Enter => Key::Enter,
        KeyCode::ShiftLeft => Key::Shift,
        KeyCode::ShiftRight => Key::Shift,
        KeyCode::Space => Key::Space,
        KeyCode::Tab => Key::Tab,
        KeyCode::Delete => Key::Delete,
        KeyCode::ArrowDown => Key::Down,
        KeyCode::ArrowLeft => Key::Left,
        KeyCode::ArrowRight => Key::Right,
        KeyCode::ArrowUp => Key::Up,
        KeyCode::Numpad0 => Key::Numpad0,
        KeyCode::Numpad1 => Key::Numpad1,
        KeyCode::Numpad2 => Key::Numpad2,
        KeyCode::Numpad3 => Key::Numpad3,
        KeyCode::Numpad4 => Key::Numpad4,
        KeyCode::Numpad5 => Key::Numpad5,
        KeyCode::Numpad6 => Key::Numpad6,
        KeyCode::Numpad7 => Key::Numpad7,
        KeyCode::Numpad8 => Key::Numpad8,
        KeyCode::Numpad9 => Key::Numpad9,
        KeyCode::NumpadAdd => Key::NumpadAdd,
        KeyCode::NumpadComma => Key::NumpadComma,
        KeyCode::NumpadDecimal => Key::NumpadDecimal,
        KeyCode::NumpadDivide => Key::NumpadDivide,
        KeyCode::NumpadEnter => Key::NumpadEnter,
        KeyCode::NumpadEqual => Key::NumpadEquals,
        KeyCode::NumpadMultiply => Key::NumpadMultiply,
        KeyCode::NumpadSubtract => Key::NumpadSubtract,
        KeyCode::Escape => Key::Escape,
        KeyCode::Copy => Key::Copy,
        KeyCode::Cut => Key::Cut,
        KeyCode::Paste => Key::Paste,
        KeyCode::F1 => Key::F1,
        KeyCode::F2 => Key::F2,
        KeyCode::F3 => Key::F3,
        KeyCode::F4 => Key::F4,
        KeyCode::F5 => Key::F5,
        KeyCode::F6 => Key::F6,
        KeyCode::F7 => Key::F7,
        KeyCode::F8 => Key::F8,
        KeyCode::F9 => Key::F9,
        KeyCode::F10 => Key::F10,
        KeyCode::F11 => Key::F11,
        KeyCode::F12 => Key::F12,
        KeyCode::F13 => Key::F13,
        KeyCode::F14 => Key::F14,
        KeyCode::F15 => Key::F15,
        KeyCode::F16 => Key::F16,
        KeyCode::F17 => Key::F17,
        KeyCode::F18 => Key::F18,
        KeyCode::F19 => Key::F19,
        KeyCode::F20 => Key::F20,
        KeyCode::F21 => Key::F21,
        KeyCode::F22 => Key::F22,
        KeyCode::F23 => Key::F23,
        KeyCode::F24 => Key::F24,
        KeyCode::Other => Key::Unknown,
    }
}

/// Whether a key or a button went down or up.
#[derive(Clone, Copy, PartialEq, Eq, Structural, Debug)]
pub enum InputState {
    Released,
    Pressed,
}

/// A mouse button.
#[derive(Clone, Copy, PartialEq, Eq, Structural, Debug)]
pub enum MouseButton {
    Left,
    Right,
    Middle,
    Unknown,
}

/// An event of a window. Cursor positions, scroll amounts and scale factors
/// are single-precision floats; they are carried here as their IEEE 754 bit
/// patterns (`f32::to_bits`), since the rules of the engine never look into
/// them.
#[derive(Clone, Copy, PartialEq, Eq, Structural, Debug)]
pub enum WindowEvent {
    /// The new inner size in pixels.
    Resized(u32, u32),
    /// The new scale factor, as bits.
    ScaleFactorChanged(u32),
    /// The cursor position, each coordinate as bits.
    MouseMotion(u32, u32),
    /// The scroll amounts, each as bits.
    Scroll(u32, u32),
    KeyInput { key: Key, state: InputState },
    MouseInput { button: MouseButton, state: InputState },
    MouseEntered,
    MouseLeft,
    RedrawRequested,
    CloseRequested,
    EventsCleared,
}

/// The settings a window is opened with.
pub struct WindowBuilder {
    pub title: &'static str,
    pub width: u32,
    pub height: u32,
    pub show_cursor: bool,
}

impl Default for WindowBuilder {
    fn default() -> (b: WindowBuilder)
        ensures
            b.width == 800,
            b.height == 800,
            b.show_cursor,
            b.title@ == "Cool app"@,
    {
        WindowBuilder { width: 800, height: 800, show_cursor: true, title: "Cool app" }
    }
}

impl WindowBuilder {
    /// The same settings with the inner size set to `w` by `h` pixels.
    pub fn with_resolution(self, w: u32, h: u32) -> (b: WindowBuilder)
        ensures
            b == (WindowBuilder { width: w, height: h, ..self }),
    {
        let mut this = self;
        this.width = w;
        this.height = h;
        this
    }

    /// The same settings with the cursor shown or hidden.
    pub fn with_cursor(self, val: bool) -> (b: WindowBuilder)
        ensures
            b == (WindowBuilder { show_cursor: val, ..self }),
    {
        let mut this = self;
        this.show_cursor = val;
        this
    }

    /// The same settings with another title.
    pub fn with_title(self, title: &'static str) -> (b: WindowBuilder)
        ensures
            b == (WindowBuilder { title, ..self }),
    {
        let mut this = self;
        this.title = title;
        this
    }
}

} // verus!
