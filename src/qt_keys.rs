use vstd::prelude::*;

use crate::key::Key;

verus! {

/// The Qt key code (`Qt::Key`) that stands for `k`, if Qt has one of its own.
/// Qt reports the left and right modifier keys alike, as the left one here,
/// and the keypad through a modifier flag, so those keys have none.
pub open spec fn qt_code(k: Key) -> Option<u32> {
    let i = k.index();
    if i < 10 {
        Some((0x30 + i) as u32)
    } else if i < 36 {
        Some((0x41 + i - 10) as u32)
    } else if i < 51 {
        Some((0x0100_0030 + i - 36) as u32)
    } else {
        match k {
            Key::Down => Some(0x1000015u32),
            Key::Left => Some(0x1000012u32),
            Key::Right => Some(0x1000014u32),
            Key::Up => Some(0x1000013u32),
            Key::Apostrophe => Some(0x27u32),
            Key::Backquote => Some(0x60u32),
            Key::Backslash => Some(0x5cu32),
            Key::Comma => Some(0x2cu32),
            Key::Equal => Some(0x3du32),
            Key::LeftBracket => Some(0x5bu32),
            Key::Minus => Some(0x2du32),
            Key::Period => Some(0x2eu32),
            Key::RightBracket => Some(0x5du32),
            Key::Semicolon => Some(0x3bu32),
            Key::Slash => Some(0x2fu32),
            Key::Backspace => Some(0x1000003u32),
            Key::Delete => Some(0x1000007u32),
            Key::End => Some(0x1000011u32),
            Key::Enter => Some(0x1000004u32),
            Key::Escape => Some(0x1000000u32),
            Key::Home => Some(0x1000010u32),
            Key::Insert => Some(0x1000006u32),
            Key::Menu => Some(0x1000055u32),
            Key::PageDown => Some(0x1000017u32),
            Key::PageUp => Some(0x1000016u32),
            Key::Pause => Some(0x1000008u32),
            Key::PrintScreen => Some(0x1000009u32),
            Key::Space => Some(0x20u32),
            Key::Tab => Some(0x1000001u32),
            Key::NumLock => Some(0x1000025u32),
            Key::CapsLock => Some(0x1000024u32),
            Key::ScrollLock => Some(0x1000026u32),
            Key::LeftShift => Some(0x1000020u32),
            Key::LeftCtrl => Some(0x1000021u32),
            Key::NumPadEnter => Some(0x1000005u32),
            Key::LeftAlt => Some(0x1000023u32),
            Key::LeftSuper => Some(0x1000022u32),
            _ => None,
        }
    }
}

/// The key that the Qt key code `code` stands for, if any.
pub fn map_key_to_minifb(code: u32) -> (r: Option<Key>)
    ensures
        r matches Some(k) ==> qt_code(k) == Some(code),
        r is None ==> forall|k: Key| #[trigger] qt_code(k) != Some(code),
{
    if 0x30 <= code && code <= 0x39 {
        Some(Key::from_index((code - 0x30) as usize))
    } else if 0x41 <= code && code <= 0x5a {
        Some(Key::from_index((code - 0x41 + 10) as usize))
    } else if 0x0100_0030 <= code && code <= 0x0100_003e {
        Some(Key::from_index((code - 0x0100_0030 + 36) as usize))
    } else {
        match code {
            0x1000015 => Some(Key::Down),
            0x1000012 => Some(Key::Left),
            0x1000014 => Some(Key::Right),
            0x1000013 => Some(Key::Up),
            0x27 => Some(Key::Apostrophe),
            0x60 => Some(Key::Backquote),
            0x5c => Some(Key::Backslash),
            0x2c => Some(Key::Comma),
            0x3d => Some(Key::Equal),
            0x5b => Some(Key::LeftBracket),
            0x2d => Some(Key::Minus),
            0x2e => Some(Key::Period),
            0x5d => Some(Key::RightBracket),
            0x3b => Some(Key::Semicolon),
            0x2f => Some(Key::Slash),
            0x1000003 => Some(Key::Backspace),
            0x1000007 => Some(Key::Delete),
            0x1000011 => Some(Key::End),
            0x1000004 => Some(Key::Enter),
            0x1000000 => Some(Key::Escape),
            0x1000010 => Some(Key::Home),
            0x1000006 => Some(Key::Insert),
            0x1000055 => Some(Key::Menu),
            0x1000017 => Some(Key::PageDown),
            0x1000016 => Some(Key::PageUp),
            0x1000008 => Some(Key::Pause),
            0x1000009 => Some(Key::PrintScreen),
            0x20 => Some(Key::Space),
            0x1000001 => Some(Key::Tab),
            0x1000025 => Some(Key::NumLock),
            0x1000024 => Some(Key::CapsLock),
            0x1000026 => Some(Key::ScrollLock),
            0x1000020 => Some(Key::LeftShift),
            0x1000021 => Some(Key::LeftCtrl),
            0x1000005 => Some(Key::NumPadEnter),
            0x1000023 => Some(Key::LeftAlt),
            0x1000022 => Some(Key::LeftSuper),
            _ => None,
        }
    }
}

} // verus!
