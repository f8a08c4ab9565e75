//! Keyboard keys by name, with their Win32 virtual-key codes.
use vstd::prelude::*;
use crate::constants::{VK_SPACE, VK_SHIFT, VK_CONTROL, VK_MENU};
use crate::message::{key_for_vk, is_digit_vk};
use crate::types;
use crate::queue_test;
use crate::queue_test::flat_key_event;

verus! {

/// A single modifier key.
#[derive(Debug, Clone, Copy, PartialEq, Eq, Structural)]
pub enum Modifier {
    NoModifier,
    LeftControl,
    LeftShift,
    LeftAlt,
    RightControl,
    RightShift,
    RightAlt,
}

/// A window event of the keyboard-only event model.
#[derive(Debug, Clone, Copy, PartialEq, Eq, Structural)]
pub enum Event {
    Quit,
    Char(char),
    ScrollUp,
    ScrollDown,
}

/// A keyboard key.
#[derive(Debug, Clone, Copy, PartialEq, Eq, Structural)]
pub enum Key {
    Char(char),
    Function(u8),
    Enter,
    Space,
    Backspace,
    Escape,
    Control,
    Shift,
    Alt,
    Tab,
    Up,
    Down,
    Left,
    Right,
    LeftWindows,
    RightWindows,
    Menu,
    ScrollLock,
    PauseBreak,
    Insert,
    Home,
    Delete,
    End,
    PageUp,
    PageDown,
    Unknown(u16),
}

/// Which modifier keys are held.
#[derive(Debug, Clone, Copy, PartialEq, Eq, Structural)]
pub struct Modifiers {
    pub control: bool,
    pub shift: bool,
    pub alt: bool,
    pub win: bool,
}

/// ASCII upper case: `a`..`z` become `A`..`Z`, every other character stays.
pub open spec fn ascii_upper(c: char) -> char {
    if 0x61 <= (c as u32) <= 0x7A {
        ((c as u32) - 0x20) as char
    } else {
        c
    }
}

/// The virtual-key code of the key that types `c` (US layout), or 0 when
/// no single key does.
pub open spec fn char_vk(c: char) -> usize {
    let u = ascii_upper(c) as u32;
    if (0x41 <= u <= 0x5A) || (0x30 <= u <= 0x39) {
        u as usize
    } else if u == '=' as u32 || u == '+' as u32 {
        0xBB
    } else if u == '-' as u32 || u == '_' as u32 {
        0xBD
    } else if u == ';' as u32 || u == ':' as u32 {
        0xBA
    } else if u == '/' as u32 || u == '?' as u32 {
        0xBF
    } else if u == '`' as u32 || u == '~' as u32 {
        0xC0
    } else if u == '[' as u32 || u == '{' as u32 {
        0xDB
    } else if u == '\\' as u32 || u == '|' as u32 {
        0xDC
    } else if u == ']' as u32 || u == '}' as u32 {
        0xDD
    } else if u == '\'' as u32 || u == '"' as u32 {
        0xDE
    } else if u == ',' as u32 || u == '<' as u32 {
        0xBC
    } else if u == '.' as u32 || u == '>' as u32 {
        0xBE
    } else {
        0
    }
}

/// The virtual-key code of a key; 0 for characters and function-key
/// numbers that no key produces.
pub open spec fn key_vk(key: Key) -> usize {
    match key {
        Key::Enter => 0x0D,
        Key::Space => 0x20,
        Key::Backspace => 0x08,
        Key::Escape => 0x1B,
        Key::Control => 0x11,
        Key::Shift => 0x10,
        Key::Alt => 0x12,
        Key::Tab => 0x09,
        Key::Up => 0x26,
        Key::Down => 0x28,
        Key::Left => 0x25,
        Key::Right => 0x27,
        Key::LeftWindows => 0x5B,
        Key::RightWindows => 0x5C,
        Key::Menu => 0x5D,
        Key::ScrollLock => 0x91,
        Key::PauseBreak => 0x13,
        Key::Insert => 0x2D,
        Key::Home => 0x24,
        Key::Delete => 0x2E,
        Key::End => 0x23,
        Key::PageUp => 0x21,
        Key::PageDown => 0x22,
        Key::Char(c) => char_vk(c),
        Key::Function(n) => if 1 <= n <= 24 {
            (0x6F + n) as usize
        } else {
            0
        },
        Key::Unknown(vk) => vk as usize,
    }
}

fn to_ascii_upper(c: char) -> (r: char)
    ensures
        r == ascii_upper(c),
{
    let code = c as u32;
    if 0x61 <= code && code <= 0x7A {
        ((code - 0x20) as u8) as char
    } else {
        c
    }
}

fn char_code(c: char) -> (r: usize)
    ensures
        r == char_vk(c),
{
    let upper = to_ascii_upper(c);
    let u = upper as u32;
    if (0x41 <= u && u <= 0x5A) || (0x30 <= u && u <= 0x39) {
        u as usize
    } else if upper == '=' || upper == '+' {
        0xBB
    } else if upper == '-' || upper == '_' {
        0xBD
    } else if upper == ';' || upper == ':' {
        0xBA
    } else if upper == '/' || upper == '?' {
        0xBF
    } else if upper == '`' || upper == '~' {
        0xC0
    } else if upper == '[' || upper == '{' {
        0xDB
    } else if upper == '\\' || upper == '|' {
        0xDC
    } else if upper == ']' || upper == '}' {
        0xDD
    } else if upper == '\'' || upper == '"' {
        0xDE
    } else if upper == ',' || upper == '<' {
        0xBC
    } else if upper == '.' || upper == '>' {
        0xBE
    } else {
        0
    }
}

impl Key {
    /// The Win32 virtual-key code of this key.
    pub fn vk_code(&self) -> (r: usize)
        ensures
            r == key_vk(*self),
    {
        match *self {
            Key::Enter => 0x0D,
            Key::Space => 0x20,
            Key::Backspace => 0x08,
            Key::Escape => 0x1B,
            Key::Control => 0x11,
            Key::Shift => 0x10,
            Key::Alt => 0x12,
            Key::Tab => 0x09,
            Key::Up => 0x26,
            Key::Down => 0x28,
            Key::Left => 0x25,
            Key::Right => 0x27,
            Key::LeftWindows => 0x5B,
            Key::RightWindows => 0x5C,
            Key::Menu => 0x5D,
            Key::ScrollLock => 0x91,
            Key::PauseBreak => 0x13,
            Key::Insert => 0x2D,
            Key::Home => 0x24,
            Key::Delete => 0x2E,
            Key::End => 0x23,
            Key::PageUp => 0x21,
            Key::PageDown => 0x22,
            Key::Char(c) => char_code(c),
            Key::Function(n) => if n >= 1 && n <= 24 {
                (0x6F + n) as usize
            } else {
                0
            },
            Key::Unknown(vk) => vk as usize,
        }
    }
}


/// Every character or function key that a key-down message decodes to maps
/// back to the virtual-key code of that message under [`Key::vk_code`] — the
/// space bar and Shift with a digit key excepted, whose characters have no
/// code of their own.
pub proof fn lemma_decoded_key_maps_back(vk: i32, shift: bool)
    requires
        vk != VK_SPACE,
        !(shift && is_digit_vk(vk)),
    ensures
        key_for_vk(vk, shift) matches types::Key::Char(c) ==> key_vk(Key::Char(c)) == vk,
        key_for_vk(vk, shift) matches types::Key::Function(n) ==> key_vk(Key::Function(n)) == vk,
{
}


/// The key of the message decoder that has the same name as a named key of
/// this module; the space bar is the character `' '` there, and Alt has no
/// key there.
pub open spec fn decoder_key_named(k: Key) -> Option<types::Key> {
    match k {
        Key::Enter => Some(types::Key::Enter),
        Key::Space => Some(types::Key::Char(' ')),
        Key::Backspace => Some(types::Key::Backspace),
        Key::Escape => Some(types::Key::Escape),
        Key::Control => Some(types::Key::Control),
        Key::Shift => Some(types::Key::Shift),
        Key::Tab => Some(types::Key::Tab),
        Key::Up => Some(types::Key::Up),
        Key::Down => Some(types::Key::Down),
        Key::Left => Some(types::Key::Left),
        Key::Right => Some(types::Key::Right),
        Key::LeftWindows => Some(types::Key::LeftWindows),
        Key::RightWindows => Some(types::Key::RightWindows),
        Key::Menu => Some(types::Key::Menu),
        Key::ScrollLock => Some(types::Key::ScrollLock),
        Key::PauseBreak => Some(types::Key::PauseBreak),
        Key::Insert => Some(types::Key::Insert),
        Key::Home => Some(types::Key::Home),
        Key::Delete => Some(types::Key::Delete),
        Key::End => Some(types::Key::End),
        Key::PageUp => Some(types::Key::PageUp),
        Key::PageDown => Some(types::Key::PageDown),
        _ => None,
    }
}

/// The code of every named key decodes back to that same key: a key-down
/// message with `vk_code(k)` is reported as `k` (Alt through the flat
/// model, where the menu key is Alt). So no two named keys share a code,
/// and the modifiers have the generic codes of Shift, Control and the menu key.
pub proof fn lemma_named_key_codes_decode_back(k: Key, shift: bool)
    ensures
        decoder_key_named(k) matches Some(t) ==> key_for_vk(key_vk(k) as i32, shift) == t,
        k == Key::Alt ==> flat_key_event(key_vk(k) as i32, shift) == queue_test::Event::Alt,
        key_vk(Key::Shift) == VK_SHIFT && key_vk(Key::Control) == VK_CONTROL && key_vk(Key::Alt)
            == VK_MENU,
{
}

} // verus!
