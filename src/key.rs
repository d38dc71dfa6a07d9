use vstd::prelude::*;

verus! {

/// Number of distinct keys.
pub const KEY_COUNT: usize = 108;

/// Symbolic identity of a key, shared by every platform.
#[derive(Clone, Copy, Debug, PartialEq, Eq, Structural, Hash)]
pub enum Key {
    Key0,
    Key1,
    Key2,
    Key3,
    Key4,
    Key5,
    Key6,
    Key7,
    Key8,
    Key9,
    A,
    B,
    C,
    D,
    E,
    F,
    G,
    H,
    I,
    J,
    K,
    L,
    M,
    N,
    O,
    P,
    Q,
    R,
    S,
    T,
    U,
    V,
    W,
    X,
    Y,
    Z,
    F1,
    F2,
    F3,
    F4,
    F5,
    F6,
    F7,
    F8,
    F9,
    F10,
    F11,
    F12,
    F13,
    F14,
    F15,
    Down,
    Left,
    Right,
    Up,
    Apostrophe,
    Backquote,
    Backslash,
    Comma,
    Equal,
    LeftBracket,
    Minus,
    Period,
    RightBracket,
    Semicolon,
    Slash,
    Backspace,
    Delete,
    End,
    Enter,
    Escape,
    Home,
    Insert,
    Menu,
    PageDown,
    PageUp,
    Pause,
    PrintScreen,
    Space,
    Tab,
    NumLock,
    CapsLock,
    ScrollLock,
    LeftShift,
    RightShift,
    LeftCtrl,
    RightCtrl,
    NumPad0,
    NumPad1,
    NumPad2,
    NumPad3,
    NumPad4,
    NumPad5,
    NumPad6,
    NumPad7,
    NumPad8,
    NumPad9,
    NumPadDot,
    NumPadSlash,
    NumPadAsterisk,
    NumPadMinus,
    NumPadPlus,
    NumPadEnter,
    LeftAlt,
    RightAlt,
    LeftSuper,
    RightSuper,
    Unknown,
}

impl Key {
    /// Position of the key in the table of key states.
    pub open spec fn index(self) -> nat {
        match self {
            Key::Key0 => 0,
            Key::Key1 => 1,
            Key::Key2 => 2,
            Key::Key3 => 3,
            Key::Key4 => 4,
            Key::Key5 => 5,
            Key::Key6 => 6,
            Key::Key7 => 7,
            Key::Key8 => 8,
            Key::Key9 => 9,
            Key::A => 10,
            Key::B => 11,
            Key::C => 12,
            Key::D => 13,
            Key::E => 14,
            Key::F => 15,
            Key::G => 16,
            Key::H => 17,
            Key::I => 18,
            Key::J => 19,
            Key::K => 20,
            Key::L => 21,
            Key::M => 22,
            Key::N => 23,
            Key::O => 24,
            Key::P => 25,
            Key::Q => 26,
            Key::R => 27,
            Key::S => 28,
            Key::T => 29,
            Key::U => 30,
            Key::V => 31,
            Key::W => 32,
            Key::X => 33,
            Key::Y => 34,
            Key::Z => 35,
            Key::F1 => 36,
            Key::F2 => 37,
            Key::F3 => 38,
            Key::F4 => 39,
            Key::F5 => 40,
            Key::F6 => 41,
            Key::F7 => 42,
            Key::F8 => 43,
            Key::F9 => 44,
            Key::F10 => 45,
            Key::F11 => 46,
            Key::F12 => 47,
            Key::F13 => 48,
            Key::F14 => 49,
            Key::F15 => 50,
            Key::Down => 51,
            Key::Left => 52,
            Key::Right => 53,
            Key::Up => 54,
            Key::Apostrophe => 55,
            Key::Backquote => 56,
            Key::Backslash => 57,
            Key::Comma => 58,
            Key::Equal => 59,
            Key::LeftBracket => 60,
            Key::Minus => 61,
            Key::Period => 62,
            Key::RightBracket => 63,
            Key::Semicolon => 64,
            Key::Slash => 65,
            Key::Backspace => 66,
            Key::Delete => 67,
            Key::End => 68,
            Key::Enter => 69,
            Key::Escape => 70,
            Key::Home => 71,
            Key::Insert => 72,
            Key::Menu => 73,
            Key::PageDown => 74,
            Key::PageUp => 75,
            Key::Pause => 76,
            Key::PrintScreen => 77,
            Key::Space => 78,
            Key::Tab => 79,
            Key::NumLock => 80,
            Key::CapsLock => 81,
            Key::ScrollLock => 82,
            Key::LeftShift => 83,
            Key::RightShift => 84,
            Key::LeftCtrl => 85,
            Key::RightCtrl => 86,
            Key::NumPad0 => 87,
            Key::NumPad1 => 88,
            Key::NumPad2 => 89,
            Key::NumPad3 => 90,
            Key::NumPad4 => 91,
            Key::NumPad5 => 92,
            Key::NumPad6 => 93,
            Key::NumPad7 => 94,
            Key::NumPad8 => 95,
            Key::NumPad9 => 96,
            Key::NumPadDot => 97,
            Key::NumPadSlash => 98,
            Key::NumPadAsterisk => 99,
            Key::NumPadMinus => 100,
            Key::NumPadPlus => 101,
            Key::NumPadEnter => 102,
            Key::LeftAlt => 103,
            Key::RightAlt => 104,
            Key::LeftSuper => 105,
            Key::RightSuper => 106,
            Key::Unknown => 107,
        }
    }

    /// Position of the key in the table of key states.
    pub fn to_index(self) -> (r: usize)
        ensures
            r as nat == self.index(),
            r < KEY_COUNT,
    {
        match self {
            Key::Key0 => 0,
            Key::Key1 => 1,
            Key::Key2 => 2,
            Key::Key3 => 3,
            Key::Key4 => 4,
            Key::Key5 => 5,
            Key::Key6 => 6,
            Key::Key7 => 7,
            Key::Key8 => 8,
            Key::Key9 => 9,
            Key::A => 10,
            Key::B => 11,
            Key::C => 12,
            Key::D => 13,
            Key::E => 14,
            Key::F => 15,
            Key::G => 16,
            Key::H => 17,
            Key::I => 18,
            Key::J => 19,
            Key::K => 20,
            Key::L => 21,
            Key::M => 22,
            Key::N => 23,
            Key::O => 24,
            Key::P => 25,
            Key::Q => 26,
            Key::R => 27,
            Key::S => 28,
            Key::T => 29,
            Key::U => 30,
            Key::V => 31,
            Key::W => 32,
            Key::X => 33,
            Key::Y => 34,
            Key::Z => 35,
            Key::F1 => 36,
            Key::F2 => 37,
            Key::F3 => 38,
            Key::F4 => 39,
            Key::F5 => 40,
            Key::F6 => 41,
            Key::F7 => 42,
            Key::F8 => 43,
            Key::F9 => 44,
            Key::F10 => 45,
            Key::F11 => 46,
            Key::F12 => 47,
            Key::F13 => 48,
            Key::F14 => 49,
            Key::F15 => 50,
            Key::Down => 51,
            Key::Left => 52,
            Key::Right => 53,
            Key::Up => 54,
            Key::Apostrophe => 55,
            Key::Backquote => 56,
            Key::Backslash => 57,
            Key::Comma => 58,
            Key::Equal => 59,
            Key::LeftBracket => 60,
            Key::Minus => 61,
            Key::Period => 62,
            Key::RightBracket => 63,
            Key::Semicolon => 64,
            Key::Slash => 65,
            Key::Backspace => 66,
            Key::Delete => 67,
            Key::End => 68,
            Key::Enter => 69,
            Key::Escape => 70,
            Key::Home => 71,
            Key::Insert => 72,
            Key::Menu => 73,
            Key::PageDown => 74,
            Key::PageUp => 75,
            Key::Pause => 76,
            Key::PrintScreen => 77,
            Key::Space => 78,
            Key::Tab => 79,
            Key::NumLock => 80,
            Key::CapsLock => 81,
            Key::ScrollLock => 82,
            Key::LeftShift => 83,
            Key::RightShift => 84,
            Key::LeftCtrl => 85,
            Key::RightCtrl => 86,
            Key::NumPad0 => 87,
            Key::NumPad1 => 88,
            Key::NumPad2 => 89,
            Key::NumPad3 => 90,
            Key::NumPad4 => 91,
            Key::NumPad5 => 92,
            Key::NumPad6 => 93,
            Key::NumPad7 => 94,
            Key::NumPad8 => 95,
            Key::NumPad9 => 96,
            Key::NumPadDot => 97,
            Key::NumPadSlash => 98,
            Key::NumPadAsterisk => 99,
            Key::NumPadMinus => 100,
            Key::NumPadPlus => 101,
            Key::NumPadEnter => 102,
            Key::LeftAlt => 103,
            Key::RightAlt => 104,
            Key::LeftSuper => 105,
            Key::RightSuper => 106,
            Key::Unknown => 107,
        }
    }

    /// The key at a position of the table of key states.
    pub fn from_index(i: usize) -> (r: Key)
        requires
            i < KEY_COUNT,
        ensures
            r.index() == i as nat,
    {
        if i == 0 {
            Key::Key0
        } else if i == 1 {
            Key::Key1
        } else if i == 2 {
            Key::Key2
        } else if i == 3 {
            Key::Key3
        } else if i == 4 {
            Key::Key4
        } else if i == 5 {
            Key::Key5
        } else if i == 6 {
            Key::Key6
        } else if i == 7 {
            Key::Key7
        } else if i == 8 {
            Key::Key8
        } else if i == 9 {
            Key::Key9
        } else if i == 10 {
            Key::A
        } else if i == 11 {
            Key::B
        } else if i == 12 {
            Key::C
        } else if i == 13 {
            Key::D
        } else if i == 14 {
            Key::E
        } else if i == 15 {
            Key::F
        } else if i == 16 {
            Key::G
        } else if i == 17 {
            Key::H
        } else if i == 18 {
            Key::I
        } else if i == 19 {
            Key::J
        } else if i == 20 {
            Key::K
        } else if i == 21 {
            Key::L
        } else if i == 22 {
            Key::M
        } else if i == 23 {
            Key::N
        } else if i == 24 {
            Key::O
        } else if i == 25 {
            Key::P
        } else if i == 26 {
            Key::Q
        } else if i == 27 {
            Key::R
        } else if i == 28 {
            Key::S
        } else if i == 29 {
            Key::T
        } else if i == 30 {
            Key::U
        } else if i == 31 {
            Key::V
        } else if i == 32 {
            Key::W
        } else if i == 33 {
            Key::X
        } else if i == 34 {
            Key::Y
        } else if i == 35 {
            Key::Z
        } else if i == 36 {
            Key::F1
        } else if i == 37 {
            Key::F2
        } else if i == 38 {
            Key::F3
        } else if i == 39 {
            Key::F4
        } else if i == 40 {
            Key::F5
        } else if i == 41 {
            Key::F6
        } else if i == 42 {
            Key::F7
        } else if i == 43 {
            Key::F8
        } else if i == 44 {
            Key::F9
        } else if i == 45 {
            Key::F10
        } else if i == 46 {
            Key::F11
        } else if i == 47 {
            Key::F12
        } else if i == 48 {
            Key::F13
        } else if i == 49 {
            Key::F14
        } else if i == 50 {
            Key::F15
        } else if i == 51 {
            Key::Down
        } else if i == 52 {
            Key::Left
        } else if i == 53 {
            Key::Right
        } else if i == 54 {
            Key::Up
        } else if i == 55 {
            Key::Apostrophe
        } else if i == 56 {
            Key::Backquote
        } else if i == 57 {
            Key::Backslash
        } else if i == 58 {
            Key::Comma
        } else if i == 59 {
            Key::Equal
        } else if i == 60 {
            Key::LeftBracket
        } else if i == 61 {
            Key::Minus
        } else if i == 62 {
            Key::Period
        } else if i == 63 {
            Key::RightBracket
        } else if i == 64 {
            Key::Semicolon
        } else if i == 65 {
            Key::Slash
        } else if i == 66 {
            Key::Backspace
        } else if i == 67 {
            Key::Delete
        } else if i == 68 {
            Key::End
        } else if i == 69 {
            Key::Enter
        } else if i == 70 {
            Key::Escape
        } else if i == 71 {
            Key::Home
        } else if i == 72 {
            Key::Insert
        } else if i == 73 {
            Key::Menu
        } else if i == 74 {
            Key::PageDown
        } else if i == 75 {
            Key::PageUp
        } else if i == 76 {
            Key::Pause
        } else if i == 77 {
            Key::PrintScreen
        } else if i == 78 {
            Key::Space
        } else if i == 79 {
            Key::Tab
        } else if i == 80 {
            Key::NumLock
        } else if i == 81 {
            Key::CapsLock
        } else if i == 82 {
            Key::ScrollLock
        } else if i == 83 {
            Key::LeftShift
        } else if i == 84 {
            Key::RightShift
        } else if i == 85 {
            Key::LeftCtrl
        } else if i == 86 {
            Key::RightCtrl
        } else if i == 87 {
            Key::NumPad0
        } else if i == 88 {
            Key::NumPad1
        } else if i == 89 {
            Key::NumPad2
        } else if i == 90 {
            Key::NumPad3
        } else if i == 91 {
            Key::NumPad4
        } else if i == 92 {
            Key::NumPad5
        } else if i == 93 {
            Key::NumPad6
        } else if i == 94 {
            Key::NumPad7
        } else if i == 95 {
            Key::NumPad8
        } else if i == 96 {
            Key::NumPad9
        } else if i == 97 {
            Key::NumPadDot
        } else if i == 98 {
            Key::NumPadSlash
        } else if i == 99 {
            Key::NumPadAsterisk
        } else if i == 100 {
            Key::NumPadMinus
        } else if i == 101 {
            Key::NumPadPlus
        } else if i == 102 {
            Key::NumPadEnter
        } else if i == 103 {
            Key::LeftAlt
        } else if i == 104 {
            Key::RightAlt
        } else if i == 105 {
            Key::LeftSuper
        } else if i == 106 {
            Key::RightSuper
        } else {
            Key::Unknown
        }
    }
}

} // verus!
