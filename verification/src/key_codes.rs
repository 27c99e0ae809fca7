//! HID keycodes understood by this keyboard, with their USB usage IDs and
//! their modifier classification.

use vstd::prelude::*;

verus! {

/// A key identity as it appears in a layer mapping.
///
/// Most variants stand for a USB HID keyboard usage; the modifier variants
/// (`LeftCtrl` through `RightCmd`) are reported through the modifier bitmask
/// instead of the keycode array, and `Fn` is the layer-shift key, which is
/// never reported to the host at all. `Empty` marks a matrix position with no
/// key; it is never emitted.
#[derive(Copy, Clone, PartialEq, Eq, Structural, Debug)]
pub enum KeyCode {
    Empty,
    A,
    B,
    C,
    D,
    E,
    F,
    G,
    H,
    I,
    J,
    K,
    L,
    M,
    N,
    O,
    P,
    Q,
    R,
    S,
    T,
    U,
    V,
    W,
    X,
    Y,
    Z,
    Num1,
    Num2,
    Num3,
    Num4,
    Num5,
    Num6,
    Num7,
    Num8,
    Num9,
    Num0,
    Enter,
    Escape,
    Backspace,
    Tab,
    Space,
    Minus,
    Equals,
    LeftSquareBracket,
    RightSquareBracket,
    BackSlash,
    Semicolon,
    SingleQuote,
    Tilde,
    Comma,
    Period,
    ForwardSlash,
    CapsLock,
    F1,
    F2,
    F3,
    F4,
    F5,
    F6,
    F7,
    F8,
    F9,
    F10,
    F11,
    F12,
    Right,
    Left,
    Down,
    Up,
    Home,
    PageUp,
    Delete,
    End,
    PageDown,
    VolumeMute,
    VolumeUp,
    VolumeDown,
    LeftParen,
    RightParen,
    Fn,
    LeftShift,
    LeftCtrl,
    LeftAlt,
    LeftCmd,
    RightCmd,
    RightAlt,
    RightCtrl,
    RightShift,
}

/// The USB HID usage ID of a keycode. The modifier variants and `Fn` carry
/// private sentinel values (`0xF0` and up) that never reach the host: they
/// are reported through the modifier bitmask, or not at all.
pub open spec fn spec_usage_id(k: KeyCode) -> u8 {
    match k {
        KeyCode::Empty => 0x00,
        KeyCode::A => 0x04,
        KeyCode::B => 0x05,
        KeyCode::C => 0x06,
        KeyCode::D => 0x07,
        KeyCode::E => 0x08,
        KeyCode::F => 0x09,
        KeyCode::G => 0x0A,
        KeyCode::H => 0x0B,
        KeyCode::I => 0x0C,
        KeyCode::J => 0x0D,
        KeyCode::K => 0x0E,
        KeyCode::L => 0x0F,
        KeyCode::M => 0x10,
        KeyCode::N => 0x11,
        KeyCode::O => 0x12,
        KeyCode::P => 0x13,
        KeyCode::Q => 0x14,
        KeyCode::R => 0x15,
        KeyCode::S => 0x16,
        KeyCode::T => 0x17,
        KeyCode::U => 0x18,
        KeyCode::V => 0x19,
        KeyCode::W => 0x1A,
        KeyCode::X => 0x1B,
        KeyCode::Y => 0x1C,
        KeyCode::Z => 0x1D,
        KeyCode::Num1 => 0x1E,
        KeyCode::Num2 => 0x1F,
        KeyCode::Num3 => 0x20,
        KeyCode::Num4 => 0x21,
        KeyCode::Num5 => 0x22,
        KeyCode::Num6 => 0x23,
        KeyCode::Num7 => 0x24,
        KeyCode::Num8 => 0x25,
        KeyCode::Num9 => 0x26,
        KeyCode::Num0 => 0x27,
        KeyCode::Enter => 0x28,
        KeyCode::Escape => 0x29,
        KeyCode::Backspace => 0x2A,
        KeyCode::Tab => 0x2B,
        KeyCode::Space => 0x2C,
        KeyCode::Minus => 0x2D,
        KeyCode::Equals => 0x2E,
        KeyCode::LeftSquareBracket => 0x2F,
        KeyCode::RightSquareBracket => 0x30,
        KeyCode::BackSlash => 0x31,
        KeyCode::Semicolon => 0x33,
        KeyCode::SingleQuote => 0x34,
        KeyCode::Tilde => 0x35,
        KeyCode::Comma => 0x36,
        KeyCode::Period => 0x37,
        KeyCode::ForwardSlash => 0x38,
        KeyCode::CapsLock => 0x39,
        KeyCode::F1 => 0x3A,
        KeyCode::F2 => 0x3B,
        KeyCode::F3 => 0x3C,
        KeyCode::F4 => 0x3D,
        KeyCode::F5 => 0x3E,
        KeyCode::F6 => 0x3F,
        KeyCode::F7 => 0x40,
        KeyCode::F8 => 0x41,
        KeyCode::F9 => 0x42,
        KeyCode::F10 => 0x43,
        KeyCode::F11 => 0x44,
        KeyCode::F12 => 0x45,
        KeyCode::Right => 0x4F,
        KeyCode::Left => 0x50,
        KeyCode::Down => 0x51,
        KeyCode::Up => 0x52,
        KeyCode::Home => 0x4A,
        KeyCode::PageUp => 0x4B,
        KeyCode::Delete => 0x4C,
        KeyCode::End => 0x4D,
        KeyCode::PageDown => 0x4E,
        KeyCode::VolumeMute => 0x7F,
        KeyCode::VolumeUp => 0x80,
        KeyCode::VolumeDown => 0x81,
        KeyCode::LeftParen => 0xB6,
        KeyCode::RightParen => 0xB7,
        KeyCode::Fn => 0xF0,
        KeyCode::LeftShift => 0xF1,
        KeyCode::LeftCtrl => 0xF2,
        KeyCode::LeftAlt => 0xF3,
        KeyCode::LeftCmd => 0xF4,
        KeyCode::RightCmd => 0xF5,
        KeyCode::RightAlt => 0xF6,
        KeyCode::RightCtrl => 0xF7,
        KeyCode::RightShift => 0xF8,
    }
}

/// The modifier bit a keycode contributes to the report's modifier byte, if
/// it is one of the eight standard modifiers. The layer-shift key `Fn` has no
/// modifier bit: it selects the Function layer but is never reported.
pub open spec fn spec_modifier_bitmask(k: KeyCode) -> Option<u8> {
    match k {
        KeyCode::LeftCtrl => Some(1u8 << 0),
        KeyCode::LeftShift => Some(1u8 << 1),
        KeyCode::LeftAlt => Some(1u8 << 2),
        KeyCode::LeftCmd => Some(1u8 << 3),
        KeyCode::RightCtrl => Some(1u8 << 4),
        KeyCode::RightShift => Some(1u8 << 5),
        KeyCode::RightAlt => Some(1u8 << 6),
        KeyCode::RightCmd => Some(1u8 << 7),
        _ => None,
    }
}

/// Whether a keycode is exempt from debouncing: the eight modifiers and the
/// layer-shift key. These must be reported (or acted on) eagerly on press and
/// on release, so the passthrough mask is built from this predicate.
pub open spec fn spec_is_modifier(k: KeyCode) -> bool {
    k == KeyCode::Fn || spec_modifier_bitmask(k) is Some
}

impl KeyCode {
    /// The raw byte this keycode contributes to the report's keycode array.
    pub fn usage_id(&self) -> (r: u8)
        ensures
            r == spec_usage_id(*self),
    {
        match *self {
            KeyCode::Empty => 0x00,
            KeyCode::A => 0x04,
            KeyCode::B => 0x05,
            KeyCode::C => 0x06,
            KeyCode::D => 0x07,
            KeyCode::E => 0x08,
            KeyCode::F => 0x09,
            KeyCode::G => 0x0A,
            KeyCode::H => 0x0B,
            KeyCode::I => 0x0C,
            KeyCode::J => 0x0D,
            KeyCode::K => 0x0E,
            KeyCode::L => 0x0F,
            KeyCode::M => 0x10,
            KeyCode::N => 0x11,
            KeyCode::O => 0x12,
            KeyCode::P => 0x13,
            KeyCode::Q => 0x14,
            KeyCode::R => 0x15,
            KeyCode::S => 0x16,
            KeyCode::T => 0x17,
            KeyCode::U => 0x18,
            KeyCode::V => 0x19,
            KeyCode::W => 0x1A,
            KeyCode::X => 0x1B,
            KeyCode::Y => 0x1C,
            KeyCode::Z => 0x1D,
            KeyCode::Num1 => 0x1E,
            KeyCode::Num2 => 0x1F,
            KeyCode::Num3 => 0x20,
            KeyCode::Num4 => 0x21,
            KeyCode::Num5 => 0x22,
            KeyCode::Num6 => 0x23,
            KeyCode::Num7 => 0x24,
            KeyCode::Num8 => 0x25,
            KeyCode::Num9 => 0x26,
            KeyCode::Num0 => 0x27,
            KeyCode::Enter => 0x28,
            KeyCode::Escape => 0x29,
            KeyCode::Backspace => 0x2A,
            KeyCode::Tab => 0x2B,
            KeyCode::Space => 0x2C,
            KeyCode::Minus => 0x2D,
            KeyCode::Equals => 0x2E,
            KeyCode::LeftSquareBracket => 0x2F,
            KeyCode::RightSquareBracket => 0x30,
            KeyCode::BackSlash => 0x31,
            KeyCode::Semicolon => 0x33,
            KeyCode::SingleQuote => 0x34,
            KeyCode::Tilde => 0x35,
            KeyCode::Comma => 0x36,
            KeyCode::Period => 0x37,
            KeyCode::ForwardSlash => 0x38,
            KeyCode::CapsLock => 0x39,
            KeyCode::F1 => 0x3A,
            KeyCode::F2 => 0x3B,
            KeyCode::F3 => 0x3C,
            KeyCode::F4 => 0x3D,
            KeyCode::F5 => 0x3E,
            KeyCode::F6 => 0x3F,
            KeyCode::F7 => 0x40,
            KeyCode::F8 => 0x41,
            KeyCode::F9 => 0x42,
            KeyCode::F10 => 0x43,
            KeyCode::F11 => 0x44,
            KeyCode::F12 => 0x45,
            KeyCode::Right => 0x4F,
            KeyCode::Left => 0x50,
            KeyCode::Down => 0x51,
            KeyCode::Up => 0x52,
            KeyCode::Home => 0x4A,
            KeyCode::PageUp => 0x4B,
            KeyCode::Delete => 0x4C,
            KeyCode::End => 0x4D,
            KeyCode::PageDown => 0x4E,
            KeyCode::VolumeMute => 0x7F,
            KeyCode::VolumeUp => 0x80,
            KeyCode::VolumeDown => 0x81,
            KeyCode::LeftParen => 0xB6,
            KeyCode::RightParen => 0xB7,
            KeyCode::Fn => 0xF0,
            KeyCode::LeftShift => 0xF1,
            KeyCode::LeftCtrl => 0xF2,
            KeyCode::LeftAlt => 0xF3,
            KeyCode::LeftCmd => 0xF4,
            KeyCode::RightCmd => 0xF5,
            KeyCode::RightAlt => 0xF6,
            KeyCode::RightCtrl => 0xF7,
            KeyCode::RightShift => 0xF8,
        }
    }

    /// The modifier bit of this keycode, or `None` for a regular key.
    pub fn modifier_bitmask(&self) -> (r: Option<u8>)
        ensures
            r == spec_modifier_bitmask(*self),
    {
        match *self {
            KeyCode::LeftCtrl => Some(1u8 << 0),
            KeyCode::LeftShift => Some(1u8 << 1),
            KeyCode::LeftAlt => Some(1u8 << 2),
            KeyCode::LeftCmd => Some(1u8 << 3),
            KeyCode::RightCtrl => Some(1u8 << 4),
            KeyCode::RightShift => Some(1u8 << 5),
            KeyCode::RightAlt => Some(1u8 << 6),
            KeyCode::RightCmd => Some(1u8 << 7),
            _ => None,
        }
    }

    /// Whether this key bypasses debouncing (a modifier or the layer-shift
    /// key).
    pub fn is_modifier(&self) -> (r: bool)
        ensures
            r == spec_is_modifier(*self),
    {
        *self == KeyCode::Fn || self.modifier_bitmask().is_some()
    }
}

} // verus!
