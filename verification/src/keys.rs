//! Identifiers of the physical inputs a binding can refer to.

use vstd::prelude::*;

verus! {

/// A key of the keyboard, named by its position-independent meaning.
#[derive(PartialEq, Eq, Structural, Clone, Copy, Debug)]
pub enum KeyCode {
    Key1,
    Key2,
    Key3,
    Key4,
    Key5,
    Key6,
    Key7,
    Key8,
    Key9,
    Key0,
    A,
    B,
    C,
    D,
    E,
    F,
    G,
    H,
    I,
    J,
    K,
    L,
    M,
    N,
    O,
    P,
    Q,
    R,
    S,
    T,
    U,
    V,
    W,
    X,
    Y,
    Z,
    Escape,
    F1,
    F2,
    F3,
    F4,
    F5,
    F6,
    F7,
    F8,
    F9,
    F10,
    F11,
    F12,
    F13,
    F14,
    F15,
    F16,
    F17,
    F18,
    F19,
    F20,
    F21,
    F22,
    F23,
    F24,
    Snapshot,
    Scroll,
    Pause,
    Insert,
    Home,
    Delete,
    End,
    PageDown,
    PageUp,
    Left,
    Up,
    Right,
    Down,
    Back,
    Return,
    Space,
    Compose,
    Caret,
    Numlock,
    Numpad0,
    Numpad1,
    Numpad2,
    Numpad3,
    Numpad4,
    Numpad5,
    Numpad6,
    Numpad7,
    Numpad8,
    Numpad9,
    AbntC1,
    AbntC2,
    NumpadAdd,
    Apostrophe,
    Apps,
    Asterisk,
    Plus,
    At,
    Ax,
    Backslash,
    Calculator,
    Capital,
    Colon,
    Comma,
    Convert,
    NumpadDecimal,
    NumpadDivide,
    Equals,
    Grave,
    Kana,
    Kanji,
    LAlt,
    LBracket,
    LControl,
    LShift,
    LWin,
    Mail,
    MediaSelect,
    MediaStop,
    Minus,
    NumpadMultiply,
    Mute,
    MyComputer,
    NavigateForward,
    NavigateBackward,
    NextTrack,
    NoConvert,
    NumpadComma,
    NumpadEnter,
    NumpadEquals,
    Oem102,
    Period,
    PlayPause,
    Power,
    PrevTrack,
    RAlt,
    RBracket,
    RControl,
    RShift,
    RWin,
    Semicolon,
    Slash,
    Sleep,
    Stop,
    NumpadSubtract,
    Sysrq,
    Tab,
    Underline,
    Unlabeled,
    VolumeDown,
    VolumeUp,
    Wake,
    WebBack,
    WebFavorites,
    WebForward,
    WebHome,
    WebRefresh,
    WebSearch,
    WebStop,
    Yen,
    Copy,
    Paste,
    Cut,
}

/// A connected gamepad, identified by the slot it occupies.
#[derive(PartialEq, Eq, Structural, Clone, Copy, Debug)]
pub struct Gamepad {
    pub id: usize,
}

/// The kinds of digital button a gamepad carries.
#[derive(PartialEq, Eq, Structural, Clone, Copy, Debug)]
pub enum GamepadButtonType {
    South,
    East,
    North,
    West,
    C,
    Z,
    LeftTrigger,
    LeftTrigger2,
    RightTrigger,
    RightTrigger2,
    Select,
    Start,
    Mode,
    LeftThumb,
    RightThumb,
    DPadUp,
    DPadDown,
    DPadLeft,
    DPadRight,
}

/// One button of one gamepad.
#[derive(PartialEq, Eq, Structural, Clone, Copy, Debug)]
pub struct GamepadButton {
    pub gamepad: Gamepad,
    pub button_type: GamepadButtonType,
}

/// The kinds of analog axis a gamepad carries.
#[derive(PartialEq, Eq, Structural, Clone, Copy, Debug)]
pub enum GamepadAxisType {
    LeftStickX,
    LeftStickY,
    LeftZ,
    RightStickX,
    RightStickY,
    RightZ,
}

/// One axis of one gamepad.
#[derive(PartialEq, Eq, Structural, Clone, Copy, Debug)]
pub struct GamepadAxis {
    pub gamepad: Gamepad,
    pub axis_type: GamepadAxisType,
}

/// The side of its rest position towards which an axis is pushed.
#[derive(PartialEq, Eq, Structural, Clone, Copy, Debug)]
pub enum GamepadAxisDir {
    Pos,
    Neg,
}

impl Gamepad {
    pub fn new(id: usize) -> (pad: Gamepad)
        ensures
            pad.id == id,
    {
        Gamepad { id }
    }
}

impl GamepadButton {
    pub fn new(gamepad: Gamepad, button_type: GamepadButtonType) -> (button: GamepadButton)
        ensures
            button.gamepad == gamepad,
            button.button_type == button_type,
    {
        GamepadButton { gamepad, button_type }
    }
}

impl GamepadAxis {
    pub fn new(gamepad: Gamepad, axis_type: GamepadAxisType) -> (axis: GamepadAxis)
        ensures
            axis.gamepad == gamepad,
            axis.axis_type == axis_type,
    {
        GamepadAxis { gamepad, axis_type }
    }
}

} // verus!
