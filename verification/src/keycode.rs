//! macOS virtual key codes, modifier flags and key events.
//!
//! Each key has a raw virtual key code, a snake_case name used in settings,
//! a display name, and for printable keys the character it types.

use vstd::prelude::*;

use crate::text::{str_eq, to_lowercase, unicode_lower};

verus! {

/// A macOS virtual key, as the event tap reports it.
#[derive(Debug, Clone, Copy, PartialEq, Eq, Hash, Structural)]
pub enum KeyCode {
    A,
    S,
    D,
    F,
    H,
    G,
    Z,
    X,
    C,
    V,
    B,
    Q,
    W,
    E,
    R,
    Y,
    T,
    O,
    U,
    I,
    P,
    L,
    J,
    K,
    N,
    M,
    Num1,
    Num2,
    Num3,
    Num4,
    Num5,
    Num6,
    Num7,
    Num8,
    Num9,
    Num0,
    Return,
    Tab,
    Space,
    Delete,
    Escape,
    Command,
    Shift,
    CapsLock,
    Option,
    Control,
    RightShift,
    RightOption,
    RightControl,
    Function,
    Left,
    Right,
    Down,
    Up,
    F1,
    F2,
    F3,
    F4,
    F5,
    F6,
    F7,
    F8,
    F9,
    F10,
    F11,
    F12,
    Home,
    End,
    PageUp,
    PageDown,
    ForwardDelete,
    Equal,
    Minus,
    LeftBracket,
    RightBracket,
    Quote,
    Semicolon,
    Backslash,
    Comma,
    Slash,
    Period,
    Grave,
}

/// The virtual key code that the system assigns to a key.
pub open spec fn raw_code(k: KeyCode) -> u16 {
    match k {
        KeyCode::A => 0u16,
        KeyCode::S => 1u16,
        KeyCode::D => 2u16,
        KeyCode::F => 3u16,
        KeyCode::H => 4u16,
        KeyCode::G => 5u16,
        KeyCode::Z => 6u16,
        KeyCode::X => 7u16,
        KeyCode::C => 8u16,
        KeyCode::V => 9u16,
        KeyCode::B => 11u16,
        KeyCode::Q => 12u16,
        KeyCode::W => 13u16,
        KeyCode::E => 14u16,
        KeyCode::R => 15u16,
        KeyCode::Y => 16u16,
        KeyCode::T => 17u16,
        KeyCode::O => 31u16,
        KeyCode::U => 32u16,
        KeyCode::I => 34u16,
        KeyCode::P => 35u16,
        KeyCode::L => 37u16,
        KeyCode::J => 38u16,
        KeyCode::K => 40u16,
        KeyCode::N => 45u16,
        KeyCode::M => 46u16,
        KeyCode::Num1 => 18u16,
        KeyCode::Num2 => 19u16,
        KeyCode::Num3 => 20u16,
        KeyCode::Num4 => 21u16,
        KeyCode::Num5 => 23u16,
        KeyCode::Num6 => 22u16,
        KeyCode::Num7 => 26u16,
        KeyCode::Num8 => 28u16,
        KeyCode::Num9 => 25u16,
        KeyCode::Num0 => 29u16,
        KeyCode::Return => 36u16,
        KeyCode::Tab => 48u16,
        KeyCode::Space => 49u16,
        KeyCode::Delete => 51u16,
        KeyCode::Escape => 53u16,
        KeyCode::Command => 55u16,
        KeyCode::Shift => 56u16,
        KeyCode::CapsLock => 57u16,
        KeyCode::Option => 58u16,
        KeyCode::Control => 59u16,
        KeyCode::RightShift => 60u16,
        KeyCode::RightOption => 61u16,
        KeyCode::RightControl => 62u16,
        KeyCode::Function => 63u16,
        KeyCode::Left => 123u16,
        KeyCode::Right => 124u16,
        KeyCode::Down => 125u16,
        KeyCode::Up => 126u16,
        KeyCode::F1 => 122u16,
        KeyCode::F2 => 120u16,
        KeyCode::F3 => 99u16,
        KeyCode::F4 => 118u16,
        KeyCode::F5 => 96u16,
        KeyCode::F6 => 97u16,
        KeyCode::F7 => 98u16,
        KeyCode::F8 => 100u16,
        KeyCode::F9 => 101u16,
        KeyCode::F10 => 109u16,
        KeyCode::F11 => 103u16,
        KeyCode::F12 => 111u16,
        KeyCode::Home => 115u16,
        KeyCode::End => 119u16,
        KeyCode::PageUp => 116u16,
        KeyCode::PageDown => 121u16,
        KeyCode::ForwardDelete => 117u16,
        KeyCode::Equal => 24u16,
        KeyCode::Minus => 27u16,
        KeyCode::LeftBracket => 33u16,
        KeyCode::RightBracket => 30u16,
        KeyCode::Quote => 39u16,
        KeyCode::Semicolon => 41u16,
        KeyCode::Backslash => 42u16,
        KeyCode::Comma => 43u16,
        KeyCode::Slash => 44u16,
        KeyCode::Period => 47u16,
        KeyCode::Grave => 50u16,
    }
}

/// The snake_case name under which settings store a key.
pub open spec fn key_name(k: KeyCode) -> Seq<char> {
    match k {
        KeyCode::A => "a"@,
        KeyCode::S => "s"@,
        KeyCode::D => "d"@,
        KeyCode::F => "f"@,
        KeyCode::H => "h"@,
        KeyCode::G => "g"@,
        KeyCode::Z => "z"@,
        KeyCode::X => "x"@,
        KeyCode::C => "c"@,
        KeyCode::V => "v"@,
        KeyCode::B => "b"@,
        KeyCode::Q => "q"@,
        KeyCode::W => "w"@,
        KeyCode::E => "e"@,
        KeyCode::R => "r"@,
        KeyCode::Y => "y"@,
        KeyCode::T => "t"@,
        KeyCode::O => "o"@,
        KeyCode::U => "u"@,
        KeyCode::I => "i"@,
        KeyCode::P => "p"@,
        KeyCode::L => "l"@,
        KeyCode::J => "j"@,
        KeyCode::K => "k"@,
        KeyCode::N => "n"@,
        KeyCode::M => "m"@,
        KeyCode::Num1 => "1"@,
        KeyCode::Num2 => "2"@,
        KeyCode::Num3 => "3"@,
        KeyCode::Num4 => "4"@,
        KeyCode::Num5 => "5"@,
        KeyCode::Num6 => "6"@,
        KeyCode::Num7 => "7"@,
        KeyCode::Num8 => "8"@,
        KeyCode::Num9 => "9"@,
        KeyCode::Num0 => "0"@,
        KeyCode::Return => "return"@,
        KeyCode::Tab => "tab"@,
        KeyCode::Space => "space"@,
        KeyCode::Delete => "delete"@,
        KeyCode::Escape => "escape"@,
        KeyCode::Command => "command"@,
        KeyCode::Shift => "shift"@,
        KeyCode::CapsLock => "caps_lock"@,
        KeyCode::Option => "option"@,
        KeyCode::Control => "control"@,
        KeyCode::RightShift => "right_shift"@,
        KeyCode::RightOption => "right_option"@,
        KeyCode::RightControl => "right_control"@,
        KeyCode::Function => "function"@,
        KeyCode::Left => "left"@,
        KeyCode::Right => "right"@,
        KeyCode::Down => "down"@,
        KeyCode::Up => "up"@,
        KeyCode::F1 => "f1"@,
        KeyCode::F2 => "f2"@,
        KeyCode::F3 => "f3"@,
        KeyCode::F4 => "f4"@,
        KeyCode::F5 => "f5"@,
        KeyCode::F6 => "f6"@,
        KeyCode::F7 => "f7"@,
        KeyCode::F8 => "f8"@,
        KeyCode::F9 => "f9"@,
        KeyCode::F10 => "f10"@,
        KeyCode::F11 => "f11"@,
        KeyCode::F12 => "f12"@,
        KeyCode::Home => "home"@,
        KeyCode::End => "end"@,
        KeyCode::PageUp => "page_up"@,
        KeyCode::PageDown => "page_down"@,
        KeyCode::ForwardDelete => "forward_delete"@,
        KeyCode::Equal => "equal"@,
        KeyCode::Minus => "minus"@,
        KeyCode::LeftBracket => "left_bracket"@,
        KeyCode::RightBracket => "right_bracket"@,
        KeyCode::Quote => "quote"@,
        KeyCode::Semicolon => "semicolon"@,
        KeyCode::Backslash => "backslash"@,
        KeyCode::Comma => "comma"@,
        KeyCode::Slash => "slash"@,
        KeyCode::Period => "period"@,
        KeyCode::Grave => "grave"@,
    }
}

/// The human-readable name of a key.
pub open spec fn display_name(k: KeyCode) -> Seq<char> {
    match k {
        KeyCode::A => "A"@,
        KeyCode::S => "S"@,
        KeyCode::D => "D"@,
        KeyCode::F => "F"@,
        KeyCode::H => "H"@,
        KeyCode::G => "G"@,
        KeyCode::Z => "Z"@,
        KeyCode::X => "X"@,
        KeyCode::C => "C"@,
        KeyCode::V => "V"@,
        KeyCode::B => "B"@,
        KeyCode::Q => "Q"@,
        KeyCode::W => "W"@,
        KeyCode::E => "E"@,
        KeyCode::R => "R"@,
        KeyCode::Y => "Y"@,
        KeyCode::T => "T"@,
        KeyCode::O => "O"@,
        KeyCode::U => "U"@,
        KeyCode::I => "I"@,
        KeyCode::P => "P"@,
        KeyCode::L => "L"@,
        KeyCode::J => "J"@,
        KeyCode::K => "K"@,
        KeyCode::N => "N"@,
        KeyCode::M => "M"@,
        KeyCode::Num1 => "1"@,
        KeyCode::Num2 => "2"@,
        KeyCode::Num3 => "3"@,
        KeyCode::Num4 => "4"@,
        KeyCode::Num5 => "5"@,
        KeyCode::Num6 => "6"@,
        KeyCode::Num7 => "7"@,
        KeyCode::Num8 => "8"@,
        KeyCode::Num9 => "9"@,
        KeyCode::Num0 => "0"@,
        KeyCode::Return => "Return"@,
        KeyCode::Tab => "Tab"@,
        KeyCode::Space => "Space"@,
        KeyCode::Delete => "Delete"@,
        KeyCode::Escape => "Escape"@,
        KeyCode::Command => "Command"@,
        KeyCode::Shift => "Shift"@,
        KeyCode::CapsLock => "Caps Lock"@,
        KeyCode::Option => "Option"@,
        KeyCode::Control => "Control"@,
        KeyCode::RightShift => "Right Shift"@,
        KeyCode::RightOption => "Right Option"@,
        KeyCode::RightControl => "Right Control"@,
        KeyCode::Function => "Function"@,
        KeyCode::Left => "Left Arrow"@,
        KeyCode::Right => "Right Arrow"@,
        KeyCode::Down => "Down Arrow"@,
        KeyCode::Up => "Up Arrow"@,
        KeyCode::F1 => "F1"@,
        KeyCode::F2 => "F2"@,
        KeyCode::F3 => "F3"@,
        KeyCode::F4 => "F4"@,
        KeyCode::F5 => "F5"@,
        KeyCode::F6 => "F6"@,
        KeyCode::F7 => "F7"@,
        KeyCode::F8 => "F8"@,
        KeyCode::F9 => "F9"@,
        KeyCode::F10 => "F10"@,
        KeyCode::F11 => "F11"@,
        KeyCode::F12 => "F12"@,
        KeyCode::Home => "Home"@,
        KeyCode::End => "End"@,
        KeyCode::PageUp => "Page Up"@,
        KeyCode::PageDown => "Page Down"@,
        KeyCode::ForwardDelete => "Forward Delete"@,
        KeyCode::Equal => "="@,
        KeyCode::Minus => "-"@,
        KeyCode::LeftBracket => "["@,
        KeyCode::RightBracket => "]"@,
        KeyCode::Quote => "'"@,
        KeyCode::Semicolon => ";"@,
        KeyCode::Backslash => "\\"@,
        KeyCode::Comma => ","@,
        KeyCode::Slash => "/"@,
        KeyCode::Period => "."@,
        KeyCode::Grave => "`"@,
    }
}

/// The character a key types, for the keys that type one.
pub open spec fn key_char(k: KeyCode) -> Option<char> {
    match k {
        KeyCode::A => Some('a'),
        KeyCode::S => Some('s'),
        KeyCode::D => Some('d'),
        KeyCode::F => Some('f'),
        KeyCode::H => Some('h'),
        KeyCode::G => Some('g'),
        KeyCode::Z => Some('z'),
        KeyCode::X => Some('x'),
        KeyCode::C => Some('c'),
        KeyCode::V => Some('v'),
        KeyCode::B => Some('b'),
        KeyCode::Q => Some('q'),
        KeyCode::W => Some('w'),
        KeyCode::E => Some('e'),
        KeyCode::R => Some('r'),
        KeyCode::Y => Some('y'),
        KeyCode::T => Some('t'),
        KeyCode::O => Some('o'),
        KeyCode::U => Some('u'),
        KeyCode::I => Some('i'),
        KeyCode::P => Some('p'),
        KeyCode::L => Some('l'),
        KeyCode::J => Some('j'),
        KeyCode::K => Some('k'),
        KeyCode::N => Some('n'),
        KeyCode::M => Some('m'),
        KeyCode::Num1 => Some('1'),
        KeyCode::Num2 => Some('2'),
        KeyCode::Num3 => Some('3'),
        KeyCode::Num4 => Some('4'),
        KeyCode::Num5 => Some('5'),
        KeyCode::Num6 => Some('6'),
        KeyCode::Num7 => Some('7'),
        KeyCode::Num8 => Some('8'),
        KeyCode::Num9 => Some('9'),
        KeyCode::Num0 => Some('0'),
        KeyCode::Return => None,
        KeyCode::Tab => None,
        KeyCode::Space => Some(' '),
        KeyCode::Delete => None,
        KeyCode::Escape => None,
        KeyCode::Command => None,
        KeyCode::Shift => None,
        KeyCode::CapsLock => None,
        KeyCode::Option => None,
        KeyCode::Control => None,
        KeyCode::RightShift => None,
        KeyCode::RightOption => None,
        KeyCode::RightControl => None,
        KeyCode::Function => None,
        KeyCode::Left => None,
        KeyCode::Right => None,
        KeyCode::Down => None,
        KeyCode::Up => None,
        KeyCode::F1 => None,
        KeyCode::F2 => None,
        KeyCode::F3 => None,
        KeyCode::F4 => None,
        KeyCode::F5 => None,
        KeyCode::F6 => None,
        KeyCode::F7 => None,
        KeyCode::F8 => None,
        KeyCode::F9 => None,
        KeyCode::F10 => None,
        KeyCode::F11 => None,
        KeyCode::F12 => None,
        KeyCode::Home => None,
        KeyCode::End => None,
        KeyCode::PageUp => None,
        KeyCode::PageDown => None,
        KeyCode::ForwardDelete => None,
        KeyCode::Equal => None,
        KeyCode::Minus => None,
        KeyCode::LeftBracket => None,
        KeyCode::RightBracket => None,
        KeyCode::Quote => None,
        KeyCode::Semicolon => None,
        KeyCode::Backslash => None,
        KeyCode::Comma => None,
        KeyCode::Slash => None,
        KeyCode::Period => None,
        KeyCode::Grave => None,
    }
}

/// The digit value of a number key.
pub open spec fn key_digit(k: KeyCode) -> Option<u32> {
    match k {
        KeyCode::A => None,
        KeyCode::S => None,
        KeyCode::D => None,
        KeyCode::F => None,
        KeyCode::H => None,
        KeyCode::G => None,
        KeyCode::Z => None,
        KeyCode::X => None,
        KeyCode::C => None,
        KeyCode::V => None,
        KeyCode::B => None,
        KeyCode::Q => None,
        KeyCode::W => None,
        KeyCode::E => None,
        KeyCode::R => None,
        KeyCode::Y => None,
        KeyCode::T => None,
        KeyCode::O => None,
        KeyCode::U => None,
        KeyCode::I => None,
        KeyCode::P => None,
        KeyCode::L => None,
        KeyCode::J => None,
        KeyCode::K => None,
        KeyCode::N => None,
        KeyCode::M => None,
        KeyCode::Num1 => Some(1u32),
        KeyCode::Num2 => Some(2u32),
        KeyCode::Num3 => Some(3u32),
        KeyCode::Num4 => Some(4u32),
        KeyCode::Num5 => Some(5u32),
        KeyCode::Num6 => Some(6u32),
        KeyCode::Num7 => Some(7u32),
        KeyCode::Num8 => Some(8u32),
        KeyCode::Num9 => Some(9u32),
        KeyCode::Num0 => Some(0u32),
        KeyCode::Return => None,
        KeyCode::Tab => None,
        KeyCode::Space => None,
        KeyCode::Delete => None,
        KeyCode::Escape => None,
        KeyCode::Command => None,
        KeyCode::Shift => None,
        KeyCode::CapsLock => None,
        KeyCode::Option => None,
        KeyCode::Control => None,
        KeyCode::RightShift => None,
        KeyCode::RightOption => None,
        KeyCode::RightControl => None,
        KeyCode::Function => None,
        KeyCode::Left => None,
        KeyCode::Right => None,
        KeyCode::Down => None,
        KeyCode::Up => None,
        KeyCode::F1 => None,
        KeyCode::F2 => None,
        KeyCode::F3 => None,
        KeyCode::F4 => None,
        KeyCode::F5 => None,
        KeyCode::F6 => None,
        KeyCode::F7 => None,
        KeyCode::F8 => None,
        KeyCode::F9 => None,
        KeyCode::F10 => None,
        KeyCode::F11 => None,
        KeyCode::F12 => None,
        KeyCode::Home => None,
        KeyCode::End => None,
        KeyCode::PageUp => None,
        KeyCode::PageDown => None,
        KeyCode::ForwardDelete => None,
        KeyCode::Equal => None,
        KeyCode::Minus => None,
        KeyCode::LeftBracket => None,
        KeyCode::RightBracket => None,
        KeyCode::Quote => None,
        KeyCode::Semicolon => None,
        KeyCode::Backslash => None,
        KeyCode::Comma => None,
        KeyCode::Slash => None,
        KeyCode::Period => None,
        KeyCode::Grave => None,
    }
}

/// The key whose settings name is `s`, looked up in table order.
pub open spec fn name_to_key(s: Seq<char>) -> Option<KeyCode> {
    if s == "a"@ {
        Some(KeyCode::A)
    } else if s == "s"@ {
        Some(KeyCode::S)
    } else if s == "d"@ {
        Some(KeyCode::D)
    } else if s == "f"@ {
        Some(KeyCode::F)
    } else if s == "h"@ {
        Some(KeyCode::H)
    } else if s == "g"@ {
        Some(KeyCode::G)
    } else if s == "z"@ {
        Some(KeyCode::Z)
    } else if s == "x"@ {
        Some(KeyCode::X)
    } else if s == "c"@ {
        Some(KeyCode::C)
    } else if s == "v"@ {
        Some(KeyCode::V)
    } else if s == "b"@ {
        Some(KeyCode::B)
    } else if s == "q"@ {
        Some(KeyCode::Q)
    } else if s == "w"@ {
        Some(KeyCode::W)
    } else if s == "e"@ {
        Some(KeyCode::E)
    } else if s == "r"@ {
        Some(KeyCode::R)
    } else if s == "y"@ {
        Some(KeyCode::Y)
    } else if s == "t"@ {
        Some(KeyCode::T)
    } else if s == "o"@ {
        Some(KeyCode::O)
    } else if s == "u"@ {
        Some(KeyCode::U)
    } else if s == "i"@ {
        Some(KeyCode::I)
    } else if s == "p"@ {
        Some(KeyCode::P)
    } else if s == "l"@ {
        Some(KeyCode::L)
    } else if s == "j"@ {
        Some(KeyCode::J)
    } else if s == "k"@ {
        Some(KeyCode::K)
    } else if s == "n"@ {
        Some(KeyCode::N)
    } else if s == "m"@ {
        Some(KeyCode::M)
    } else if s == "1"@ {
        Some(KeyCode::Num1)
    } else if s == "2"@ {
        Some(KeyCode::Num2)
    } else if s == "3"@ {
        Some(KeyCode::Num3)
    } else if s == "4"@ {
        Some(KeyCode::Num4)
    } else if s == "5"@ {
        Some(KeyCode::Num5)
    } else if s == "6"@ {
        Some(KeyCode::Num6)
    } else if s == "7"@ {
        Some(KeyCode::Num7)
    } else if s == "8"@ {
        Some(KeyCode::Num8)
    } else if s == "9"@ {
        Some(KeyCode::Num9)
    } else if s == "0"@ {
        Some(KeyCode::Num0)
    } else if s == "return"@ {
        Some(KeyCode::Return)
    } else if s == "tab"@ {
        Some(KeyCode::Tab)
    } else if s == "space"@ {
        Some(KeyCode::Space)
    } else if s == "delete"@ {
        Some(KeyCode::Delete)
    } else if s == "escape"@ {
        Some(KeyCode::Escape)
    } else if s == "command"@ {
        Some(KeyCode::Command)
    } else if s == "shift"@ {
        Some(KeyCode::Shift)
    } else if s == "caps_lock"@ {
        Some(KeyCode::CapsLock)
    } else if s == "option"@ {
        Some(KeyCode::Option)
    } else if s == "control"@ {
        Some(KeyCode::Control)
    } else if s == "right_shift"@ {
        Some(KeyCode::RightShift)
    } else if s == "right_option"@ {
        Some(KeyCode::RightOption)
    } else if s == "right_control"@ {
        Some(KeyCode::RightControl)
    } else if s == "function"@ {
        Some(KeyCode::Function)
    } else if s == "left"@ {
        Some(KeyCode::Left)
    } else if s == "right"@ {
        Some(KeyCode::Right)
    } else if s == "down"@ {
        Some(KeyCode::Down)
    } else if s == "up"@ {
        Some(KeyCode::Up)
    } else if s == "f1"@ {
        Some(KeyCode::F1)
    } else if s == "f2"@ {
        Some(KeyCode::F2)
    } else if s == "f3"@ {
        Some(KeyCode::F3)
    } else if s == "f4"@ {
        Some(KeyCode::F4)
    } else if s == "f5"@ {
        Some(KeyCode::F5)
    } else if s == "f6"@ {
        Some(KeyCode::F6)
    } else if s == "f7"@ {
        Some(KeyCode::F7)
    } else if s == "f8"@ {
        Some(KeyCode::F8)
    } else if s == "f9"@ {
        Some(KeyCode::F9)
    } else if s == "f10"@ {
        Some(KeyCode::F10)
    } else if s == "f11"@ {
        Some(KeyCode::F11)
    } else if s == "f12"@ {
        Some(KeyCode::F12)
    } else if s == "home"@ {
        Some(KeyCode::Home)
    } else if s == "end"@ {
        Some(KeyCode::End)
    } else if s == "page_up"@ {
        Some(KeyCode::PageUp)
    } else if s == "page_down"@ {
        Some(KeyCode::PageDown)
    } else if s == "forward_delete"@ {
        Some(KeyCode::ForwardDelete)
    } else if s == "equal"@ {
        Some(KeyCode::Equal)
    } else if s == "minus"@ {
        Some(KeyCode::Minus)
    } else if s == "left_bracket"@ {
        Some(KeyCode::LeftBracket)
    } else if s == "right_bracket"@ {
        Some(KeyCode::RightBracket)
    } else if s == "quote"@ {
        Some(KeyCode::Quote)
    } else if s == "semicolon"@ {
        Some(KeyCode::Semicolon)
    } else if s == "backslash"@ {
        Some(KeyCode::Backslash)
    } else if s == "comma"@ {
        Some(KeyCode::Comma)
    } else if s == "slash"@ {
        Some(KeyCode::Slash)
    } else if s == "period"@ {
        Some(KeyCode::Period)
    } else if s == "grave"@ {
        Some(KeyCode::Grave)
    } else {
        None
    }
}

impl KeyCode {
    /// The key with virtual key code `code`, if the table has one.
    pub fn from_raw(code: u16) -> (r: Option<KeyCode>)
        ensures
            r matches Some(k) ==> raw_code(k) == code,
            r is None ==> forall|k: KeyCode| raw_code(k) != code,
    {
        match code {
            0x00 => Some(KeyCode::A),
            0x01 => Some(KeyCode::S),
            0x02 => Some(KeyCode::D),
            0x03 => Some(KeyCode::F),
            0x04 => Some(KeyCode::H),
            0x05 => Some(KeyCode::G),
            0x06 => Some(KeyCode::Z),
            0x07 => Some(KeyCode::X),
            0x08 => Some(KeyCode::C),
            0x09 => Some(KeyCode::V),
            0x0B => Some(KeyCode::B),
            0x0C => Some(KeyCode::Q),
            0x0D => Some(KeyCode::W),
            0x0E => Some(KeyCode::E),
            0x0F => Some(KeyCode::R),
            0x10 => Some(KeyCode::Y),
            0x11 => Some(KeyCode::T),
            0x1F => Some(KeyCode::O),
            0x20 => Some(KeyCode::U),
            0x22 => Some(KeyCode::I),
            0x23 => Some(KeyCode::P),
            0x25 => Some(KeyCode::L),
            0x26 => Some(KeyCode::J),
            0x28 => Some(KeyCode::K),
            0x2D => Some(KeyCode::N),
            0x2E => Some(KeyCode::M),
            0x12 => Some(KeyCode::Num1),
            0x13 => Some(KeyCode::Num2),
            0x14 => Some(KeyCode::Num3),
            0x15 => Some(KeyCode::Num4),
            0x17 => Some(KeyCode::Num5),
            0x16 => Some(KeyCode::Num6),
            0x1A => Some(KeyCode::Num7),
            0x1C => Some(KeyCode::Num8),
            0x19 => Some(KeyCode::Num9),
            0x1D => Some(KeyCode::Num0),
            0x24 => Some(KeyCode::Return),
            0x30 => Some(KeyCode::Tab),
            0x31 => Some(KeyCode::Space),
            0x33 => Some(KeyCode::Delete),
            0x35 => Some(KeyCode::Escape),
            0x37 => Some(KeyCode::Command),
            0x38 => Some(KeyCode::Shift),
            0x39 => Some(KeyCode::CapsLock),
            0x3A => Some(KeyCode::Option),
            0x3B => Some(KeyCode::Control),
            0x3C => Some(KeyCode::RightShift),
            0x3D => Some(KeyCode::RightOption),
            0x3E => Some(KeyCode::RightControl),
            0x3F => Some(KeyCode::Function),
            0x7B => Some(KeyCode::Left),
            0x7C => Some(KeyCode::Right),
            0x7D => Some(KeyCode::Down),
            0x7E => Some(KeyCode::Up),
            0x7A => Some(KeyCode::F1),
            0x78 => Some(KeyCode::F2),
            0x63 => Some(KeyCode::F3),
            0x76 => Some(KeyCode::F4),
            0x60 => Some(KeyCode::F5),
            0x61 => Some(KeyCode::F6),
            0x62 => Some(KeyCode::F7),
            0x64 => Some(KeyCode::F8),
            0x65 => Some(KeyCode::F9),
            0x6D => Some(KeyCode::F10),
            0x67 => Some(KeyCode::F11),
            0x6F => Some(KeyCode::F12),
            0x73 => Some(KeyCode::Home),
            0x77 => Some(KeyCode::End),
            0x74 => Some(KeyCode::PageUp),
            0x79 => Some(KeyCode::PageDown),
            0x75 => Some(KeyCode::ForwardDelete),
            0x18 => Some(KeyCode::Equal),
            0x1B => Some(KeyCode::Minus),
            0x21 => Some(KeyCode::LeftBracket),
            0x1E => Some(KeyCode::RightBracket),
            0x27 => Some(KeyCode::Quote),
            0x29 => Some(KeyCode::Semicolon),
            0x2A => Some(KeyCode::Backslash),
            0x2B => Some(KeyCode::Comma),
            0x2C => Some(KeyCode::Slash),
            0x2F => Some(KeyCode::Period),
            0x32 => Some(KeyCode::Grave),
            _ => None,
        }
    }

    /// The virtual key code of this key.
    pub fn as_raw(&self) -> (r: u16)
        ensures
            r == raw_code(*self),
    {
        match self {
            KeyCode::A => 0x00u16,
            KeyCode::S => 0x01u16,
            KeyCode::D => 0x02u16,
            KeyCode::F => 0x03u16,
            KeyCode::H => 0x04u16,
            KeyCode::G => 0x05u16,
            KeyCode::Z => 0x06u16,
            KeyCode::X => 0x07u16,
            KeyCode::C => 0x08u16,
            KeyCode::V => 0x09u16,
            KeyCode::B => 0x0Bu16,
            KeyCode::Q => 0x0Cu16,
            KeyCode::W => 0x0Du16,
            KeyCode::E => 0x0Eu16,
            KeyCode::R => 0x0Fu16,
            KeyCode::Y => 0x10u16,
            KeyCode::T => 0x11u16,
            KeyCode::O => 0x1Fu16,
            KeyCode::U => 0x20u16,
            KeyCode::I => 0x22u16,
            KeyCode::P => 0x23u16,
            KeyCode::L => 0x25u16,
            KeyCode::J => 0x26u16,
            KeyCode::K => 0x28u16,
            KeyCode::N => 0x2Du16,
            KeyCode::M => 0x2Eu16,
            KeyCode::Num1 => 0x12u16,
            KeyCode::Num2 => 0x13u16,
            KeyCode::Num3 => 0x14u16,
            KeyCode::Num4 => 0x15u16,
            KeyCode::Num5 => 0x17u16,
            KeyCode::Num6 => 0x16u16,
            KeyCode::Num7 => 0x1Au16,
            KeyCode::Num8 => 0x1Cu16,
            KeyCode::Num9 => 0x19u16,
            KeyCode::Num0 => 0x1Du16,
            KeyCode::Return => 0x24u16,
            KeyCode::Tab => 0x30u16,
            KeyCode::Space => 0x31u16,
            KeyCode::Delete => 0x33u16,
            KeyCode::Escape => 0x35u16,
            KeyCode::Command => 0x37u16,
            KeyCode::Shift => 0x38u16,
            KeyCode::CapsLock => 0x39u16,
            KeyCode::Option => 0x3Au16,
            KeyCode::Control => 0x3Bu16,
            KeyCode::RightShift => 0x3Cu16,
            KeyCode::RightOption => 0x3Du16,
            KeyCode::RightControl => 0x3Eu16,
            KeyCode::Function => 0x3Fu16,
            KeyCode::Left => 0x7Bu16,
            KeyCode::Right => 0x7Cu16,
            KeyCode::Down => 0x7Du16,
            KeyCode::Up => 0x7Eu16,
            KeyCode::F1 => 0x7Au16,
            KeyCode::F2 => 0x78u16,
            KeyCode::F3 => 0x63u16,
            KeyCode::F4 => 0x76u16,
            KeyCode::F5 => 0x60u16,
            KeyCode::F6 => 0x61u16,
            KeyCode::F7 => 0x62u16,
            KeyCode::F8 => 0x64u16,
            KeyCode::F9 => 0x65u16,
            KeyCode::F10 => 0x6Du16,
            KeyCode::F11 => 0x67u16,
            KeyCode::F12 => 0x6Fu16,
            KeyCode::Home => 0x73u16,
            KeyCode::End => 0x77u16,
            KeyCode::PageUp => 0x74u16,
            KeyCode::PageDown => 0x79u16,
            KeyCode::ForwardDelete => 0x75u16,
            KeyCode::Equal => 0x18u16,
            KeyCode::Minus => 0x1Bu16,
            KeyCode::LeftBracket => 0x21u16,
            KeyCode::RightBracket => 0x1Eu16,
            KeyCode::Quote => 0x27u16,
            KeyCode::Semicolon => 0x29u16,
            KeyCode::Backslash => 0x2Au16,
            KeyCode::Comma => 0x2Bu16,
            KeyCode::Slash => 0x2Cu16,
            KeyCode::Period => 0x2Fu16,
            KeyCode::Grave => 0x32u16,
        }
    }

    /// The snake_case name of this key, as settings store it.
    pub fn to_name(&self) -> (r: &'static str)
        ensures
            r@ == key_name(*self),
    {
        match self {
            KeyCode::A => "a",
            KeyCode::S => "s",
            KeyCode::D => "d",
            KeyCode::F => "f",
            KeyCode::H => "h",
            KeyCode::G => "g",
            KeyCode::Z => "z",
            KeyCode::X => "x",
            KeyCode::C => "c",
            KeyCode::V => "v",
            KeyCode::B => "b",
            KeyCode::Q => "q",
            KeyCode::W => "w",
            KeyCode::E => "e",
            KeyCode::R => "r",
            KeyCode::Y => "y",
            KeyCode::T => "t",
            KeyCode::O => "o",
            KeyCode::U => "u",
            KeyCode::I => "i",
            KeyCode::P => "p",
            KeyCode::L => "l",
            KeyCode::J => "j",
            KeyCode::K => "k",
            KeyCode::N => "n",
            KeyCode::M => "m",
            KeyCode::Num1 => "1",
            KeyCode::Num2 => "2",
            KeyCode::Num3 => "3",
            KeyCode::Num4 => "4",
            KeyCode::Num5 => "5",
            KeyCode::Num6 => "6",
            KeyCode::Num7 => "7",
            KeyCode::Num8 => "8",
            KeyCode::Num9 => "9",
            KeyCode::Num0 => "0",
            KeyCode::Return => "return",
            KeyCode::Tab => "tab",
            KeyCode::Space => "space",
            KeyCode::Delete => "delete",
            KeyCode::Escape => "escape",
            KeyCode::Command => "command",
            KeyCode::Shift => "shift",
            KeyCode::CapsLock => "caps_lock",
            KeyCode::Option => "option",
            KeyCode::Control => "control",
            KeyCode::RightShift => "right_shift",
            KeyCode::RightOption => "right_option",
            KeyCode::RightControl => "right_control",
            KeyCode::Function => "function",
            KeyCode::Left => "left",
            KeyCode::Right => "right",
            KeyCode::Down => "down",
            KeyCode::Up => "up",
            KeyCode::F1 => "f1",
            KeyCode::F2 => "f2",
            KeyCode::F3 => "f3",
            KeyCode::F4 => "f4",
            KeyCode::F5 => "f5",
            KeyCode::F6 => "f6",
            KeyCode::F7 => "f7",
            KeyCode::F8 => "f8",
            KeyCode::F9 => "f9",
            KeyCode::F10 => "f10",
            KeyCode::F11 => "f11",
            KeyCode::F12 => "f12",
            KeyCode::Home => "home",
            KeyCode::End => "end",
            KeyCode::PageUp => "page_up",
            KeyCode::PageDown => "page_down",
            KeyCode::ForwardDelete => "forward_delete",
            KeyCode::Equal => "equal",
            KeyCode::Minus => "minus",
            KeyCode::LeftBracket => "left_bracket",
            KeyCode::RightBracket => "right_bracket",
            KeyCode::Quote => "quote",
            KeyCode::Semicolon => "semicolon",
            KeyCode::Backslash => "backslash",
            KeyCode::Comma => "comma",
            KeyCode::Slash => "slash",
            KeyCode::Period => "period",
            KeyCode::Grave => "grave",
        }
    }

    /// The human-readable name of this key.
    pub fn to_display_name(&self) -> (r: &'static str)
        ensures
            r@ == display_name(*self),
    {
        match self {
            KeyCode::A => "A",
            KeyCode::S => "S",
            KeyCode::D => "D",
            KeyCode::F => "F",
            KeyCode::H => "H",
            KeyCode::G => "G",
            KeyCode::Z => "Z",
            KeyCode::X => "X",
            KeyCode::C => "C",
            KeyCode::V => "V",
            KeyCode::B => "B",
            KeyCode::Q => "Q",
            KeyCode::W => "W",
            KeyCode::E => "E",
            KeyCode::R => "R",
            KeyCode::Y => "Y",
            KeyCode::T => "T",
            KeyCode::O => "O",
            KeyCode::U => "U",
            KeyCode::I => "I",
            KeyCode::P => "P",
            KeyCode::L => "L",
            KeyCode::J => "J",
            KeyCode::K => "K",
            KeyCode::N => "N",
            KeyCode::M => "M",
            KeyCode::Num1 => "1",
            KeyCode::Num2 => "2",
            KeyCode::Num3 => "3",
            KeyCode::Num4 => "4",
            KeyCode::Num5 => "5",
            KeyCode::Num6 => "6",
            KeyCode::Num7 => "7",
            KeyCode::Num8 => "8",
            KeyCode::Num9 => "9",
            KeyCode::Num0 => "0",
            KeyCode::Return => "Return",
            KeyCode::Tab => "Tab",
            KeyCode::Space => "Space",
            KeyCode::Delete => "Delete",
            KeyCode::Escape => "Escape",
            KeyCode::Command => "Command",
            KeyCode::Shift => "Shift",
            KeyCode::CapsLock => "Caps Lock",
            KeyCode::Option => "Option",
            KeyCode::Control => "Control",
            KeyCode::RightShift => "Right Shift",
            KeyCode::RightOption => "Right Option",
            KeyCode::RightControl => "Right Control",
            KeyCode::Function => "Function",
            KeyCode::Left => "Left Arrow",
            KeyCode::Right => "Right Arrow",
            KeyCode::Down => "Down Arrow",
            KeyCode::Up => "Up Arrow",
            KeyCode::F1 => "F1",
            KeyCode::F2 => "F2",
            KeyCode::F3 => "F3",
            KeyCode::F4 => "F4",
            KeyCode::F5 => "F5",
            KeyCode::F6 => "F6",
            KeyCode::F7 => "F7",
            KeyCode::F8 => "F8",
            KeyCode::F9 => "F9",
            KeyCode::F10 => "F10",
            KeyCode::F11 => "F11",
            KeyCode::F12 => "F12",
            KeyCode::Home => "Home",
            KeyCode::End => "End",
            KeyCode::PageUp => "Page Up",
            KeyCode::PageDown => "Page Down",
            KeyCode::ForwardDelete => "Forward Delete",
            KeyCode::Equal => "=",
            KeyCode::Minus => "-",
            KeyCode::LeftBracket => "[",
            KeyCode::RightBracket => "]",
            KeyCode::Quote => "'",
            KeyCode::Semicolon => ";",
            KeyCode::Backslash => "\\",
            KeyCode::Comma => ",",
            KeyCode::Slash => "/",
            KeyCode::Period => ".",
            KeyCode::Grave => "`",
        }
    }

    /// The character this key types, for printable keys.
    pub fn to_char(self) -> (r: Option<char>)
        ensures
            r == key_char(self),
    {
        match self {
            KeyCode::A => Some('a'),
            KeyCode::S => Some('s'),
            KeyCode::D => Some('d'),
            KeyCode::F => Some('f'),
            KeyCode::H => Some('h'),
            KeyCode::G => Some('g'),
            KeyCode::Z => Some('z'),
            KeyCode::X => Some('x'),
            KeyCode::C => Some('c'),
            KeyCode::V => Some('v'),
            KeyCode::B => Some('b'),
            KeyCode::Q => Some('q'),
            KeyCode::W => Some('w'),
            KeyCode::E => Some('e'),
            KeyCode::R => Some('r'),
            KeyCode::Y => Some('y'),
            KeyCode::T => Some('t'),
            KeyCode::O => Some('o'),
            KeyCode::U => Some('u'),
            KeyCode::I => Some('i'),
            KeyCode::P => Some('p'),
            KeyCode::L => Some('l'),
            KeyCode::J => Some('j'),
            KeyCode::K => Some('k'),
            KeyCode::N => Some('n'),
            KeyCode::M => Some('m'),
            KeyCode::Num1 => Some('1'),
            KeyCode::Num2 => Some('2'),
            KeyCode::Num3 => Some('3'),
            KeyCode::Num4 => Some('4'),
            KeyCode::Num5 => Some('5'),
            KeyCode::Num6 => Some('6'),
            KeyCode::Num7 => Some('7'),
            KeyCode::Num8 => Some('8'),
            KeyCode::Num9 => Some('9'),
            KeyCode::Num0 => Some('0'),
            KeyCode::Return => None,
            KeyCode::Tab => None,
            KeyCode::Space => Some(' '),
            KeyCode::Delete => None,
            KeyCode::Escape => None,
            KeyCode::Command => None,
            KeyCode::Shift => None,
            KeyCode::CapsLock => None,
            KeyCode::Option => None,
            KeyCode::Control => None,
            KeyCode::RightShift => None,
            KeyCode::RightOption => None,
            KeyCode::RightControl => None,
            KeyCode::Function => None,
            KeyCode::Left => None,
            KeyCode::Right => None,
            KeyCode::Down => None,
            KeyCode::Up => None,
            KeyCode::F1 => None,
            KeyCode::F2 => None,
            KeyCode::F3 => None,
            KeyCode::F4 => None,
            KeyCode::F5 => None,
            KeyCode::F6 => None,
            KeyCode::F7 => None,
            KeyCode::F8 => None,
            KeyCode::F9 => None,
            KeyCode::F10 => None,
            KeyCode::F11 => None,
            KeyCode::F12 => None,
            KeyCode::Home => None,
            KeyCode::End => None,
            KeyCode::PageUp => None,
            KeyCode::PageDown => None,
            KeyCode::ForwardDelete => None,
            KeyCode::Equal => None,
            KeyCode::Minus => None,
            KeyCode::LeftBracket => None,
            KeyCode::RightBracket => None,
            KeyCode::Quote => None,
            KeyCode::Semicolon => None,
            KeyCode::Backslash => None,
            KeyCode::Comma => None,
            KeyCode::Slash => None,
            KeyCode::Period => None,
            KeyCode::Grave => None,
        }
    }

    /// The digit value of a number key.
    pub fn to_digit(self) -> (r: Option<u32>)
        ensures
            r == key_digit(self),
    {
        match self {
            KeyCode::A => None,
            KeyCode::S => None,
            KeyCode::D => None,
            KeyCode::F => None,
            KeyCode::H => None,
            KeyCode::G => None,
            KeyCode::Z => None,
            KeyCode::X => None,
            KeyCode::C => None,
            KeyCode::V => None,
            KeyCode::B => None,
            KeyCode::Q => None,
            KeyCode::W => None,
            KeyCode::E => None,
            KeyCode::R => None,
            KeyCode::Y => None,
            KeyCode::T => None,
            KeyCode::O => None,
            KeyCode::U => None,
            KeyCode::I => None,
            KeyCode::P => None,
            KeyCode::L => None,
            KeyCode::J => None,
            KeyCode::K => None,
            KeyCode::N => None,
            KeyCode::M => None,
            KeyCode::Num1 => Some(1),
            KeyCode::Num2 => Some(2),
            KeyCode::Num3 => Some(3),
            KeyCode::Num4 => Some(4),
            KeyCode::Num5 => Some(5),
            KeyCode::Num6 => Some(6),
            KeyCode::Num7 => Some(7),
            KeyCode::Num8 => Some(8),
            KeyCode::Num9 => Some(9),
            KeyCode::Num0 => Some(0),
            KeyCode::Return => None,
            KeyCode::Tab => None,
            KeyCode::Space => None,
            KeyCode::Delete => None,
            KeyCode::Escape => None,
            KeyCode::Command => None,
            KeyCode::Shift => None,
            KeyCode::CapsLock => None,
            KeyCode::Option => None,
            KeyCode::Control => None,
            KeyCode::RightShift => None,
            KeyCode::RightOption => None,
            KeyCode::RightControl => None,
            KeyCode::Function => None,
            KeyCode::Left => None,
            KeyCode::Right => None,
            KeyCode::Down => None,
            KeyCode::Up => None,
            KeyCode::F1 => None,
            KeyCode::F2 => None,
            KeyCode::F3 => None,
            KeyCode::F4 => None,
            KeyCode::F5 => None,
            KeyCode::F6 => None,
            KeyCode::F7 => None,
            KeyCode::F8 => None,
            KeyCode::F9 => None,
            KeyCode::F10 => None,
            KeyCode::F11 => None,
            KeyCode::F12 => None,
            KeyCode::Home => None,
            KeyCode::End => None,
            KeyCode::PageUp => None,
            KeyCode::PageDown => None,
            KeyCode::ForwardDelete => None,
            KeyCode::Equal => None,
            KeyCode::Minus => None,
            KeyCode::LeftBracket => None,
            KeyCode::RightBracket => None,
            KeyCode::Quote => None,
            KeyCode::Semicolon => None,
            KeyCode::Backslash => None,
            KeyCode::Comma => None,
            KeyCode::Slash => None,
            KeyCode::Period => None,
            KeyCode::Grave => None,
        }
    }

    /// The key whose settings name is the Unicode lowercase of `name`.
    pub fn from_name(name: &str) -> (r: Option<KeyCode>)
        ensures
            r == name_to_key(unicode_lower(name@)),
            r matches Some(k) ==> key_name(k) == unicode_lower(name@),
            r is None ==> forall|k: KeyCode| key_name(k) != unicode_lower(name@),
    {
        let lower = to_lowercase(name);
        let s = lower.as_str();
        if str_eq(s, "a") {
            return Some(KeyCode::A);
        }
        if str_eq(s, "s") {
            return Some(KeyCode::S);
        }
        if str_eq(s, "d") {
            return Some(KeyCode::D);
        }
        if str_eq(s, "f") {
            return Some(KeyCode::F);
        }
        if str_eq(s, "h") {
            return Some(KeyCode::H);
        }
        if str_eq(s, "g") {
            return Some(KeyCode::G);
        }
        if str_eq(s, "z") {
            return Some(KeyCode::Z);
        }
        if str_eq(s, "x") {
            return Some(KeyCode::X);
        }
        if str_eq(s, "c") {
            return Some(KeyCode::C);
        }
        if str_eq(s, "v") {
            return Some(KeyCode::V);
        }
        if str_eq(s, "b") {
            return Some(KeyCode::B);
        }
        if str_eq(s, "q") {
            return Some(KeyCode::Q);
        }
        if str_eq(s, "w") {
            return Some(KeyCode::W);
        }
        if str_eq(s, "e") {
            return Some(KeyCode::E);
        }
        if str_eq(s, "r") {
            return Some(KeyCode::R);
        }
        if str_eq(s, "y") {
            return Some(KeyCode::Y);
        }
        if str_eq(s, "t") {
            return Some(KeyCode::T);
        }
        if str_eq(s, "o") {
            return Some(KeyCode::O);
        }
        if str_eq(s, "u") {
            return Some(KeyCode::U);
        }
        if str_eq(s, "i") {
            return Some(KeyCode::I);
        }
        if str_eq(s, "p") {
            return Some(KeyCode::P);
        }
        if str_eq(s, "l") {
            return Some(KeyCode::L);
        }
        if str_eq(s, "j") {
            return Some(KeyCode::J);
        }
        if str_eq(s, "k") {
            return Some(KeyCode::K);
        }
        if str_eq(s, "n") {
            return Some(KeyCode::N);
        }
        if str_eq(s, "m") {
            return Some(KeyCode::M);
        }
        if str_eq(s, "1") {
            return Some(KeyCode::Num1);
        }
        if str_eq(s, "2") {
            return Some(KeyCode::Num2);
        }
        if str_eq(s, "3") {
            return Some(KeyCode::Num3);
        }
        if str_eq(s, "4") {
            return Some(KeyCode::Num4);
        }
        if str_eq(s, "5") {
            return Some(KeyCode::Num5);
        }
        if str_eq(s, "6") {
            return Some(KeyCode::Num6);
        }
        if str_eq(s, "7") {
            return Some(KeyCode::Num7);
        }
        if str_eq(s, "8") {
            return Some(KeyCode::Num8);
        }
        if str_eq(s, "9") {
            return Some(KeyCode::Num9);
        }
        if str_eq(s, "0") {
            return Some(KeyCode::Num0);
        }
        if str_eq(s, "return") {
            return Some(KeyCode::Return);
        }
        if str_eq(s, "tab") {
            return Some(KeyCode::Tab);
        }
        if str_eq(s, "space") {
            return Some(KeyCode::Space);
        }
        if str_eq(s, "delete") {
            return Some(KeyCode::Delete);
        }
        if str_eq(s, "escape") {
            return Some(KeyCode::Escape);
        }
        if str_eq(s, "command") {
            return Some(KeyCode::Command);
        }
        if str_eq(s, "shift") {
            return Some(KeyCode::Shift);
        }
        if str_eq(s, "caps_lock") {
            return Some(KeyCode::CapsLock);
        }
        if str_eq(s, "option") {
            return Some(KeyCode::Option);
        }
        if str_eq(s, "control") {
            return Some(KeyCode::Control);
        }
        if str_eq(s, "right_shift") {
            return Some(KeyCode::RightShift);
        }
        if str_eq(s, "right_option") {
            return Some(KeyCode::RightOption);
        }
        if str_eq(s, "right_control") {
            return Some(KeyCode::RightControl);
        }
        if str_eq(s, "function") {
            return Some(KeyCode::Function);
        }
        if str_eq(s, "left") {
            return Some(KeyCode::Left);
        }
        if str_eq(s, "right") {
            return Some(KeyCode::Right);
        }
        if str_eq(s, "down") {
            return Some(KeyCode::Down);
        }
        if str_eq(s, "up") {
            return Some(KeyCode::Up);
        }
        if str_eq(s, "f1") {
            return Some(KeyCode::F1);
        }
        if str_eq(s, "f2") {
            return Some(KeyCode::F2);
        }
        if str_eq(s, "f3") {
            return Some(KeyCode::F3);
        }
        if str_eq(s, "f4") {
            return Some(KeyCode::F4);
        }
        if str_eq(s, "f5") {
            return Some(KeyCode::F5);
        }
        if str_eq(s, "f6") {
            return Some(KeyCode::F6);
        }
        if str_eq(s, "f7") {
            return Some(KeyCode::F7);
        }
        if str_eq(s, "f8") {
            return Some(KeyCode::F8);
        }
        if str_eq(s, "f9") {
            return Some(KeyCode::F9);
        }
        if str_eq(s, "f10") {
            return Some(KeyCode::F10);
        }
        if str_eq(s, "f11") {
            return Some(KeyCode::F11);
        }
        if str_eq(s, "f12") {
            return Some(KeyCode::F12);
        }
        if str_eq(s, "home") {
            return Some(KeyCode::Home);
        }
        if str_eq(s, "end") {
            return Some(KeyCode::End);
        }
        if str_eq(s, "page_up") {
            return Some(KeyCode::PageUp);
        }
        if str_eq(s, "page_down") {
            return Some(KeyCode::PageDown);
        }
        if str_eq(s, "forward_delete") {
            return Some(KeyCode::ForwardDelete);
        }
        if str_eq(s, "equal") {
            return Some(KeyCode::Equal);
        }
        if str_eq(s, "minus") {
            return Some(KeyCode::Minus);
        }
        if str_eq(s, "left_bracket") {
            return Some(KeyCode::LeftBracket);
        }
        if str_eq(s, "right_bracket") {
            return Some(KeyCode::RightBracket);
        }
        if str_eq(s, "quote") {
            return Some(KeyCode::Quote);
        }
        if str_eq(s, "semicolon") {
            return Some(KeyCode::Semicolon);
        }
        if str_eq(s, "backslash") {
            return Some(KeyCode::Backslash);
        }
        if str_eq(s, "comma") {
            return Some(KeyCode::Comma);
        }
        if str_eq(s, "slash") {
            return Some(KeyCode::Slash);
        }
        if str_eq(s, "period") {
            return Some(KeyCode::Period);
        }
        if str_eq(s, "grave") {
            return Some(KeyCode::Grave);
        }
        None
    }
}

/// A key that types a character (other than the space bar) is named by
/// that character in the settings, and a number key types the digit it
/// stands for.
#[verifier::rlimit(60)]
#[verifier::spinoff_prover]
pub proof fn lemma_typed_keys_named_by_their_char(k: KeyCode)
    ensures
        key_char(k) is Some && key_char(k)->0 != ' ' ==> key_name(k) == seq![key_char(k)->0],
        key_digit(k) matches Some(d) ==> key_char(k) == Some((('0' as u32) + d) as char),
{
    reveal_strlit("a");
    assert("a"@ =~= seq!['a']);
    reveal_strlit("s");
    assert("s"@ =~= seq!['s']);
    reveal_strlit("d");
    assert("d"@ =~= seq!['d']);
    reveal_strlit("f");
    assert("f"@ =~= seq!['f']);
    reveal_strlit("h");
    assert("h"@ =~= seq!['h']);
    reveal_strlit("g");
    assert("g"@ =~= seq!['g']);
    reveal_strlit("z");
    assert("z"@ =~= seq!['z']);
    reveal_strlit("x");
    assert("x"@ =~= seq!['x']);
    reveal_strlit("c");
    assert("c"@ =~= seq!['c']);
    reveal_strlit("v");
    assert("v"@ =~= seq!['v']);
    reveal_strlit("b");
    assert("b"@ =~= seq!['b']);
    reveal_strlit("q");
    assert("q"@ =~= seq!['q']);
    reveal_strlit("w");
    assert("w"@ =~= seq!['w']);
    reveal_strlit("e");
    assert("e"@ =~= seq!['e']);
    reveal_strlit("r");
    assert("r"@ =~= seq!['r']);
    reveal_strlit("y");
    assert("y"@ =~= seq!['y']);
    reveal_strlit("o");
    assert("o"@ =~= seq!['o']);
    reveal_strlit("t");
    assert("t"@ =~= seq!['t']);
    reveal_strlit("u");
    assert("u"@ =~= seq!['u']);
    reveal_strlit("i");
    assert("i"@ =~= seq!['i']);
    reveal_strlit("p");
    assert("p"@ =~= seq!['p']);
    reveal_strlit("l");
    assert("l"@ =~= seq!['l']);
    reveal_strlit("j");
    assert("j"@ =~= seq!['j']);
    reveal_strlit("k");
    assert("k"@ =~= seq!['k']);
    reveal_strlit("n");
    assert("n"@ =~= seq!['n']);
    reveal_strlit("m");
    assert("m"@ =~= seq!['m']);
    reveal_strlit("1");
    assert("1"@ =~= seq!['1']);
    reveal_strlit("2");
    assert("2"@ =~= seq!['2']);
    reveal_strlit("3");
    assert("3"@ =~= seq!['3']);
    reveal_strlit("4");
    assert("4"@ =~= seq!['4']);
    reveal_strlit("5");
    assert("5"@ =~= seq!['5']);
    reveal_strlit("6");
    assert("6"@ =~= seq!['6']);
    reveal_strlit("7");
    assert("7"@ =~= seq!['7']);
    reveal_strlit("8");
    assert("8"@ =~= seq!['8']);
    reveal_strlit("9");
    assert("9"@ =~= seq!['9']);
    reveal_strlit("0");
    assert("0"@ =~= seq!['0']);
}

/// Every key is found again under its settings name: the name table
/// gives distinct keys distinct names.
#[verifier::rlimit(100)]
#[verifier::spinoff_prover]
pub proof fn lemma_name_round_trip(k: KeyCode)
    ensures
        name_to_key(key_name(k)) == Some(k),
{
    reveal_strlit("a");
    assert("a"@.len() == 1 && "a"@[0] == 'a');
    reveal_strlit("s");
    assert("s"@.len() == 1 && "s"@[0] == 's');
    reveal_strlit("d");
    assert("d"@.len() == 1 && "d"@[0] == 'd');
    reveal_strlit("f");
    assert("f"@.len() == 1 && "f"@[0] == 'f');
    reveal_strlit("h");
    assert("h"@.len() == 1 && "h"@[0] == 'h');
    reveal_strlit("g");
    assert("g"@.len() == 1 && "g"@[0] == 'g');
    reveal_strlit("z");
    assert("z"@.len() == 1 && "z"@[0] == 'z');
    reveal_strlit("x");
    assert("x"@.len() == 1 && "x"@[0] == 'x');
    reveal_strlit("c");
    assert("c"@.len() == 1 && "c"@[0] == 'c');
    reveal_strlit("v");
    assert("v"@.len() == 1 && "v"@[0] == 'v');
    reveal_strlit("b");
    assert("b"@.len() == 1 && "b"@[0] == 'b');
    reveal_strlit("q");
    assert("q"@.len() == 1 && "q"@[0] == 'q');
    reveal_strlit("w");
    assert("w"@.len() == 1 && "w"@[0] == 'w');
    reveal_strlit("e");
    assert("e"@.len() == 1 && "e"@[0] == 'e');
    reveal_strlit("r");
    assert("r"@.len() == 1 && "r"@[0] == 'r');
    reveal_strlit("y");
    assert("y"@.len() == 1 && "y"@[0] == 'y');
    reveal_strlit("t");
    assert("t"@.len() == 1 && "t"@[0] == 't');
    reveal_strlit("o");
    assert("o"@.len() == 1 && "o"@[0] == 'o');
    reveal_strlit("u");
    assert("u"@.len() == 1 && "u"@[0] == 'u');
    reveal_strlit("i");
    assert("i"@.len() == 1 && "i"@[0] == 'i');
    reveal_strlit("p");
    assert("p"@.len() == 1 && "p"@[0] == 'p');
    reveal_strlit("l");
    assert("l"@.len() == 1 && "l"@[0] == 'l');
    reveal_strlit("j");
    assert("j"@.len() == 1 && "j"@[0] == 'j');
    reveal_strlit("k");
    assert("k"@.len() == 1 && "k"@[0] == 'k');
    reveal_strlit("n");
    assert("n"@.len() == 1 && "n"@[0] == 'n');
    reveal_strlit("m");
    assert("m"@.len() == 1 && "m"@[0] == 'm');
    reveal_strlit("1");
    assert("1"@.len() == 1 && "1"@[0] == '1');
    reveal_strlit("2");
    assert("2"@.len() == 1 && "2"@[0] == '2');
    reveal_strlit("3");
    assert("3"@.len() == 1 && "3"@[0] == '3');
    reveal_strlit("4");
    assert("4"@.len() == 1 && "4"@[0] == '4');
    reveal_strlit("5");
    assert("5"@.len() == 1 && "5"@[0] == '5');
    reveal_strlit("6");
    assert("6"@.len() == 1 && "6"@[0] == '6');
    reveal_strlit("7");
    assert("7"@.len() == 1 && "7"@[0] == '7');
    reveal_strlit("8");
    assert("8"@.len() == 1 && "8"@[0] == '8');
    reveal_strlit("9");
    assert("9"@.len() == 1 && "9"@[0] == '9');
    reveal_strlit("0");
    assert("0"@.len() == 1 && "0"@[0] == '0');
    reveal_strlit("return");
    assert("return"@.len() == 6 && "return"@[0] == 'r' && "return"@[1] == 'e' && "return"@[2] == 't' && "return"@[3] == 'u' && "return"@[4] == 'r' && "return"@[5] == 'n');
    reveal_strlit("tab");
    assert("tab"@.len() == 3 && "tab"@[0] == 't' && "tab"@[1] == 'a' && "tab"@[2] == 'b');
    reveal_strlit("space");
    assert("space"@.len() == 5 && "space"@[0] == 's' && "space"@[1] == 'p' && "space"@[2] == 'a' && "space"@[3] == 'c' && "space"@[4] == 'e');
    reveal_strlit("delete");
    assert("delete"@.len() == 6 && "delete"@[0] == 'd' && "delete"@[1] == 'e' && "delete"@[2] == 'l' && "delete"@[3] == 'e' && "delete"@[4] == 't' && "delete"@[5] == 'e');
    reveal_strlit("escape");
    assert("escape"@.len() == 6 && "escape"@[0] == 'e' && "escape"@[1] == 's' && "escape"@[2] == 'c' && "escape"@[3] == 'a' && "escape"@[4] == 'p' && "escape"@[5] == 'e');
    reveal_strlit("command");
    assert("command"@.len() == 7 && "command"@[0] == 'c' && "command"@[1] == 'o' && "command"@[2] == 'm' && "command"@[3] == 'm' && "command"@[4] == 'a' && "command"@[5] == 'n' && "command"@[6] == 'd');
    reveal_strlit("shift");
    assert("shift"@.len() == 5 && "shift"@[0] == 's' && "shift"@[1] == 'h' && "shift"@[2] == 'i' && "shift"@[3] == 'f' && "shift"@[4] == 't');
    reveal_strlit("caps_lock");
    assert("caps_lock"@.len() == 9 && "caps_lock"@[0] == 'c' && "caps_lock"@[1] == 'a' && "caps_lock"@[2] == 'p' && "caps_lock"@[3] == 's' && "caps_lock"@[4] == '_' && "caps_lock"@[5] == 'l' && "caps_lock"@[6] == 'o' && "caps_lock"@[7] == 'c' && "caps_lock"@[8] == 'k');
    reveal_strlit("option");
    assert("option"@.len() == 6 && "option"@[0] == 'o' && "option"@[1] == 'p' && "option"@[2] == 't' && "option"@[3] == 'i' && "option"@[4] == 'o' && "option"@[5] == 'n');
    reveal_strlit("control");
    assert("control"@.len() == 7 && "control"@[0] == 'c' && "control"@[1] == 'o' && "control"@[2] == 'n' && "control"@[3] == 't' && "control"@[4] == 'r' && "control"@[5] == 'o' && "control"@[6] == 'l');
    reveal_strlit("right_shift");
    assert("right_shift"@.len() == 11 && "right_shift"@[0] == 'r' && "right_shift"@[1] == 'i' && "right_shift"@[2] == 'g' && "right_shift"@[3] == 'h' && "right_shift"@[4] == 't' && "right_shift"@[5] == '_' && "right_shift"@[6] == 's' && "right_shift"@[7] == 'h' && "right_shift"@[8] == 'i' && "right_shift"@[9] == 'f' && "right_shift"@[10] == 't');
    reveal_strlit("right_option");
    assert("right_option"@.len() == 12 && "right_option"@[0] == 'r' && "right_option"@[1] == 'i' && "right_option"@[2] == 'g' && "right_option"@[3] == 'h' && "right_option"@[4] == 't' && "right_option"@[5] == '_' && "right_option"@[6] == 'o' && "right_option"@[7] == 'p' && "right_option"@[8] == 't' && "right_option"@[9] == 'i' && "right_option"@[10] == 'o' && "right_option"@[11] == 'n');
    reveal_strlit("right_control");
    assert("right_control"@.len() == 13 && "right_control"@[0] == 'r' && "right_control"@[1] == 'i' && "right_control"@[2] == 'g' && "right_control"@[3] == 'h' && "right_control"@[4] == 't' && "right_control"@[5] == '_' && "right_control"@[6] == 'c' && "right_control"@[7] == 'o' && "right_control"@[8] == 'n' && "right_control"@[9] == 't' && "right_control"@[10] == 'r' && "right_control"@[11] == 'o' && "right_control"@[12] == 'l');
    reveal_strlit("function");
    assert("function"@.len() == 8 && "function"@[0] == 'f' && "function"@[1] == 'u' && "function"@[2] == 'n' && "function"@[3] == 'c' && "function"@[4] == 't' && "function"@[5] == 'i' && "function"@[6] == 'o' && "function"@[7] == 'n');
    reveal_strlit("left");
    assert("left"@.len() == 4 && "left"@[0] == 'l' && "left"@[1] == 'e' && "left"@[2] == 'f' && "left"@[3] == 't');
    reveal_strlit("right");
    assert("right"@.len() == 5 && "right"@[0] == 'r' && "right"@[1] == 'i' && "right"@[2] == 'g' && "right"@[3] == 'h' && "right"@[4] == 't');
    reveal_strlit("down");
    assert("down"@.len() == 4 && "down"@[0] == 'd' && "down"@[1] == 'o' && "down"@[2] == 'w' && "down"@[3] == 'n');
    reveal_strlit("up");
    assert("up"@.len() == 2 && "up"@[0] == 'u' && "up"@[1] == 'p');
    reveal_strlit("f1");
    assert("f1"@.len() == 2 && "f1"@[0] == 'f' && "f1"@[1] == '1');
    reveal_strlit("f2");
    assert("f2"@.len() == 2 && "f2"@[0] == 'f' && "f2"@[1] == '2');
    reveal_strlit("f3");
    assert("f3"@.len() == 2 && "f3"@[0] == 'f' && "f3"@[1] == '3');
    reveal_strlit("f4");
    assert("f4"@.len() == 2 && "f4"@[0] == 'f' && "f4"@[1] == '4');
    reveal_strlit("f5");
    assert("f5"@.len() == 2 && "f5"@[0] == 'f' && "f5"@[1] == '5');
    reveal_strlit("f6");
    assert("f6"@.len() == 2 && "f6"@[0] == 'f' && "f6"@[1] == '6');
    reveal_strlit("f7");
    assert("f7"@.len() == 2 && "f7"@[0] == 'f' && "f7"@[1] == '7');
    reveal_strlit("f8");
    assert("f8"@.len() == 2 && "f8"@[0] == 'f' && "f8"@[1] == '8');
    reveal_strlit("f9");
    assert("f9"@.len() == 2 && "f9"@[0] == 'f' && "f9"@[1] == '9');
    reveal_strlit("f10");
    assert("f10"@.len() == 3 && "f10"@[0] == 'f' && "f10"@[1] == '1' && "f10"@[2] == '0');
    reveal_strlit("f11");
    assert("f11"@.len() == 3 && "f11"@[0] == 'f' && "f11"@[1] == '1' && "f11"@[2] == '1');
    reveal_strlit("f12");
    assert("f12"@.len() == 3 && "f12"@[0] == 'f' && "f12"@[1] == '1' && "f12"@[2] == '2');
    reveal_strlit("home");
    assert("home"@.len() == 4 && "home"@[0] == 'h' && "home"@[1] == 'o' && "home"@[2] == 'm' && "home"@[3] == 'e');
    reveal_strlit("end");
    assert("end"@.len() == 3 && "end"@[0] == 'e' && "end"@[1] == 'n' && "end"@[2] == 'd');
    reveal_strlit("page_up");
    assert("page_up"@.len() == 7 && "page_up"@[0] == 'p' && "page_up"@[1] == 'a' && "page_up"@[2] == 'g' && "page_up"@[3] == 'e' && "page_up"@[4] == '_' && "page_up"@[5] == 'u' && "page_up"@[6] == 'p');
    reveal_strlit("page_down");
    assert("page_down"@.len() == 9 && "page_down"@[0] == 'p' && "page_down"@[1] == 'a' && "page_down"@[2] == 'g' && "page_down"@[3] == 'e' && "page_down"@[4] == '_' && "page_down"@[5] == 'd' && "page_down"@[6] == 'o' && "page_down"@[7] == 'w' && "page_down"@[8] == 'n');
    reveal_strlit("forward_delete");
    assert("forward_delete"@.len() == 14 && "forward_delete"@[0] == 'f' && "forward_delete"@[1] == 'o' && "forward_delete"@[2] == 'r' && "forward_delete"@[3] == 'w' && "forward_delete"@[4] == 'a' && "forward_delete"@[5] == 'r' && "forward_delete"@[6] == 'd' && "forward_delete"@[7] == '_' && "forward_delete"@[8] == 'd' && "forward_delete"@[9] == 'e' && "forward_delete"@[10] == 'l' && "forward_delete"@[11] == 'e' && "forward_delete"@[12] == 't' && "forward_delete"@[13] == 'e');
    reveal_strlit("equal");
    assert("equal"@.len() == 5 && "equal"@[0] == 'e' && "equal"@[1] == 'q' && "equal"@[2] == 'u' && "equal"@[3] == 'a' && "equal"@[4] == 'l');
    reveal_strlit("minus");
    assert("minus"@.len() == 5 && "minus"@[0] == 'm' && "minus"@[1] == 'i' && "minus"@[2] == 'n' && "minus"@[3] == 'u' && "minus"@[4] == 's');
    reveal_strlit("left_bracket");
    assert("left_bracket"@.len() == 12 && "left_bracket"@[0] == 'l' && "left_bracket"@[1] == 'e' && "left_bracket"@[2] == 'f' && "left_bracket"@[3] == 't' && "left_bracket"@[4] == '_' && "left_bracket"@[5] == 'b' && "left_bracket"@[6] == 'r' && "left_bracket"@[7] == 'a' && "left_bracket"@[8] == 'c' && "left_bracket"@[9] == 'k' && "left_bracket"@[10] == 'e' && "left_bracket"@[11] == 't');
    reveal_strlit("right_bracket");
    assert("right_bracket"@.len() == 13 && "right_bracket"@[0] == 'r' && "right_bracket"@[1] == 'i' && "right_bracket"@[2] == 'g' && "right_bracket"@[3] == 'h' && "right_bracket"@[4] == 't' && "right_bracket"@[5] == '_' && "right_bracket"@[6] == 'b' && "right_bracket"@[7] == 'r' && "right_bracket"@[8] == 'a' && "right_bracket"@[9] == 'c' && "right_bracket"@[10] == 'k' && "right_bracket"@[11] == 'e' && "right_bracket"@[12] == 't');
    reveal_strlit("quote");
    assert("quote"@.len() == 5 && "quote"@[0] == 'q' && "quote"@[1] == 'u' && "quote"@[2] == 'o' && "quote"@[3] == 't' && "quote"@[4] == 'e');
    reveal_strlit("semicolon");
    assert("semicolon"@.len() == 9 && "semicolon"@[0] == 's' && "semicolon"@[1] == 'e' && "semicolon"@[2] == 'm' && "semicolon"@[3] == 'i' && "semicolon"@[4] == 'c' && "semicolon"@[5] == 'o' && "semicolon"@[6] == 'l' && "semicolon"@[7] == 'o' && "semicolon"@[8] == 'n');
    reveal_strlit("backslash");
    assert("backslash"@.len() == 9 && "backslash"@[0] == 'b' && "backslash"@[1] == 'a' && "backslash"@[2] == 'c' && "backslash"@[3] == 'k' && "backslash"@[4] == 's' && "backslash"@[5] == 'l' && "backslash"@[6] == 'a' && "backslash"@[7] == 's' && "backslash"@[8] == 'h');
    reveal_strlit("comma");
    assert("comma"@.len() == 5 && "comma"@[0] == 'c' && "comma"@[1] == 'o' && "comma"@[2] == 'm' && "comma"@[3] == 'm' && "comma"@[4] == 'a');
    reveal_strlit("slash");
    assert("slash"@.len() == 5 && "slash"@[0] == 's' && "slash"@[1] == 'l' && "slash"@[2] == 'a' && "slash"@[3] == 's' && "slash"@[4] == 'h');
    reveal_strlit("period");
    assert("period"@.len() == 6 && "period"@[0] == 'p' && "period"@[1] == 'e' && "period"@[2] == 'r' && "period"@[3] == 'i' && "period"@[4] == 'o' && "period"@[5] == 'd');
    reveal_strlit("grave");
    assert("grave"@.len() == 5 && "grave"@[0] == 'g' && "grave"@[1] == 'r' && "grave"@[2] == 'a' && "grave"@[3] == 'v' && "grave"@[4] == 'e');
}

/// Distinct keys have distinct virtual key codes, so `from_raw` finds the
/// one key that has a code, and `from_raw(k.as_raw())` is `Some(k)`.
pub proof fn lemma_raw_code_injective(a: KeyCode, b: KeyCode)
    ensures
        raw_code(a) == raw_code(b) ==> a == b,
{
}

/// Distinct keys have distinct virtual key codes, for every pair of keys.
pub proof fn lemma_raw_code_injective_all()
    ensures
        forall|a: KeyCode, b: KeyCode| raw_code(a) == raw_code(b) ==> a == b,
{
    assert forall|a: KeyCode, b: KeyCode| raw_code(a) == raw_code(b) implies a == b by {
        lemma_raw_code_injective(a, b);
    }
}

/// Modifier keys held during an event, as the CGEventFlags bits report them.
#[derive(Debug, Clone, Copy, PartialEq, Eq, Structural)]
pub struct Modifiers {
    pub shift: bool,
    pub control: bool,
    pub option: bool,
    pub command: bool,
    pub caps_lock: bool,
}

/// CGEventFlags bit of the Shift key.
pub const SHIFT_MASK: u64 = 0x00020000;
/// CGEventFlags bit of the Control key.
pub const CONTROL_MASK: u64 = 0x00040000;
/// CGEventFlags bit of the Option key.
pub const OPTION_MASK: u64 = 0x00080000;
/// CGEventFlags bit of the Command key.
pub const COMMAND_MASK: u64 = 0x00100000;
/// CGEventFlags bit of Caps Lock.
pub const CAPS_LOCK_MASK: u64 = 0x00010000;

/// The modifier set that a flags word reports.
pub open spec fn modifiers_of(flags: u64) -> Modifiers {
    Modifiers {
        shift: flags & SHIFT_MASK != 0,
        control: flags & CONTROL_MASK != 0,
        option: flags & OPTION_MASK != 0,
        command: flags & COMMAND_MASK != 0,
        caps_lock: flags & CAPS_LOCK_MASK != 0,
    }
}

/// The flags word with exactly the bits of the held modifiers.
pub open spec fn flags_of(m: Modifiers) -> u64 {
    (if m.shift { SHIFT_MASK } else { 0u64 }) | (if m.control { CONTROL_MASK } else { 0u64 })
        | (if m.option { OPTION_MASK } else { 0u64 }) | (if m.command { COMMAND_MASK } else { 0u64 })
        | (if m.caps_lock { CAPS_LOCK_MASK } else { 0u64 })
}

/// No modifier held.
pub open spec fn no_modifiers() -> Modifiers {
    Modifiers { shift: false, control: false, option: false, command: false, caps_lock: false }
}

impl Default for Modifiers {
    fn default() -> (r: Self)
        ensures
            r == no_modifiers(),
    {
        Modifiers { shift: false, control: false, option: false, command: false, caps_lock: false }
    }
}

impl Modifiers {
    /// Reads the modifier bits of a CGEventFlags word.
    pub fn from_cg_flags(flags: u64) -> (r: Self)
        ensures
            r == modifiers_of(flags),
    {
        Modifiers {
            shift: flags & SHIFT_MASK != 0,
            control: flags & CONTROL_MASK != 0,
            option: flags & OPTION_MASK != 0,
            command: flags & COMMAND_MASK != 0,
            caps_lock: flags & CAPS_LOCK_MASK != 0,
        }
    }

    /// The CGEventFlags word with the bits of the held modifiers.
    pub fn to_cg_flags(self) -> (r: u64)
        ensures
            r == flags_of(self),
    {
        let shift: u64 = if self.shift { SHIFT_MASK } else { 0u64 };
        let control: u64 = if self.control { CONTROL_MASK } else { 0u64 };
        let option: u64 = if self.option { OPTION_MASK } else { 0u64 };
        let command: u64 = if self.command { COMMAND_MASK } else { 0u64 };
        let caps_lock: u64 = if self.caps_lock { CAPS_LOCK_MASK } else { 0u64 };
        shift | control | option | command | caps_lock
    }
}

/// Writing the modifiers into a flags word and reading them back gives the
/// same modifiers.
pub proof fn lemma_flags_round_trip(m: Modifiers)
    ensures
        modifiers_of(flags_of(m)) == m,
{
    let a: u64 = if m.shift { SHIFT_MASK } else { 0u64 };
    let b: u64 = if m.control { CONTROL_MASK } else { 0u64 };
    let c: u64 = if m.option { OPTION_MASK } else { 0u64 };
    let d: u64 = if m.command { COMMAND_MASK } else { 0u64 };
    let e: u64 = if m.caps_lock { CAPS_LOCK_MASK } else { 0u64 };
    let f = a | b | c | d | e;
    assert(f & SHIFT_MASK != 0 <==> a != 0) by (bit_vector)
        requires
            f == a | b | c | d | e,
            a == 0 || a == 0x00020000u64,
            b == 0 || b == 0x00040000u64,
            c == 0 || c == 0x00080000u64,
            d == 0 || d == 0x00100000u64,
            e == 0 || e == 0x00010000u64,
    ;
    assert(f & CONTROL_MASK != 0 <==> b != 0) by (bit_vector)
        requires
            f == a | b | c | d | e,
            a == 0 || a == 0x00020000u64,
            b == 0 || b == 0x00040000u64,
            c == 0 || c == 0x00080000u64,
            d == 0 || d == 0x00100000u64,
            e == 0 || e == 0x00010000u64,
    ;
    assert(f & OPTION_MASK != 0 <==> c != 0) by (bit_vector)
        requires
            f == a | b | c | d | e,
            a == 0 || a == 0x00020000u64,
            b == 0 || b == 0x00040000u64,
            c == 0 || c == 0x00080000u64,
            d == 0 || d == 0x00100000u64,
            e == 0 || e == 0x00010000u64,
    ;
    assert(f & COMMAND_MASK != 0 <==> d != 0) by (bit_vector)
        requires
            f == a | b | c | d | e,
            a == 0 || a == 0x00020000u64,
            b == 0 || b == 0x00040000u64,
            c == 0 || c == 0x00080000u64,
            d == 0 || d == 0x00100000u64,
            e == 0 || e == 0x00010000u64,
    ;
    assert(f & CAPS_LOCK_MASK != 0 <==> e != 0) by (bit_vector)
        requires
            f == a | b | c | d | e,
            a == 0 || a == 0x00020000u64,
            b == 0 || b == 0x00040000u64,
            c == 0 || c == 0x00080000u64,
            d == 0 || d == 0x00100000u64,
            e == 0 || e == 0x00010000u64,
    ;
}

/// Reading a flags word and writing the modifiers back keeps exactly the
/// five modifier bits of the word.
pub proof fn lemma_flags_keep_modifier_bits(flags: u64)
    ensures
        flags_of(modifiers_of(flags)) == flags & (SHIFT_MASK | CONTROL_MASK | OPTION_MASK
            | COMMAND_MASK | CAPS_LOCK_MASK),
{
    let m = modifiers_of(flags);
    let a: u64 = if m.shift { SHIFT_MASK } else { 0u64 };
    let b: u64 = if m.control { CONTROL_MASK } else { 0u64 };
    let c: u64 = if m.option { OPTION_MASK } else { 0u64 };
    let d: u64 = if m.command { COMMAND_MASK } else { 0u64 };
    let e: u64 = if m.caps_lock { CAPS_LOCK_MASK } else { 0u64 };
    assert(a | b | c | d | e == flags & 0x001F0000u64) by (bit_vector)
        requires
            a == (if flags & 0x00020000u64 != 0 { 0x00020000u64 } else { 0u64 }),
            b == (if flags & 0x00040000u64 != 0 { 0x00040000u64 } else { 0u64 }),
            c == (if flags & 0x00080000u64 != 0 { 0x00080000u64 } else { 0u64 }),
            d == (if flags & 0x00100000u64 != 0 { 0x00100000u64 } else { 0u64 }),
            e == (if flags & 0x00010000u64 != 0 { 0x00010000u64 } else { 0u64 }),
    ;
    assert(SHIFT_MASK | CONTROL_MASK | OPTION_MASK | COMMAND_MASK | CAPS_LOCK_MASK == 0x001F0000u64)
        by (bit_vector);
}

/// A key event: the virtual key code, the held modifiers, and whether the
/// key went down or up.
#[derive(Debug, Clone, Copy, PartialEq, Eq, Structural)]
pub struct KeyEvent {
    pub code: u16,
    pub modifiers: Modifiers,
    pub is_key_down: bool,
}

impl KeyEvent {
    /// The key of this event, if its code is in the table.
    pub fn keycode(&self) -> (r: Option<KeyCode>)
        ensures
            r matches Some(k) ==> raw_code(k) == self.code,
            r is None ==> forall|k: KeyCode| raw_code(k) != self.code,
    {
        KeyCode::from_raw(self.code)
    }
}

} // verus!
