//! Turning raw window messages into [`Event`]s.
use vstd::prelude::*;
use crate::constants::{
    WM_MOVE, WM_MOUSEMOVE, WM_MOUSEWHEEL, WM_LBUTTONDOWN, WM_LBUTTONUP, WM_LBUTTONDBLCLK,
    WM_RBUTTONDOWN, WM_RBUTTONUP, WM_RBUTTONDBLCLK, WM_MBUTTONDOWN, WM_MBUTTONUP,
    WM_MBUTTONDBLCLK, WM_XBUTTONDOWN, WM_XBUTTONUP, WM_XBUTTONDBLCLK, WM_KEYDOWN, VK_UP,
    VK_DOWN, VK_LEFT, VK_RIGHT, VK_RETURN, VK_SPACE, VK_BACK, VK_ESCAPE, VK_TAB, VK_LWIN,
    VK_RWIN, VK_APPS, VK_SCROLL, VK_PAUSE, VK_INSERT, VK_HOME, VK_END, VK_PRIOR, VK_NEXT,
    VK_DELETE, VK_SHIFT, VK_LSHIFT, VK_RSHIFT, VK_CONTROL, VK_LCONTROL, VK_RCONTROL,
    VK_OEM_PLUS, VK_OEM_MINUS, VK_OEM_3, VK_OEM_4, VK_OEM_6, VK_OEM_5, VK_OEM_1, VK_OEM_7,
    VK_OEM_COMMA, VK_OEM_PERIOD, VK_OEM_2, VK_F1, VK_F24,
};
use crate::types::{Event, Key, Modifiers, MSG, low_word_of, high_word_of};

verus! {

/// Keys whose meaning does not depend on Shift, by virtual-key code.
pub open spec fn named_key(vk: i32) -> Option<Key> {
    if vk == VK_UP {
        Some(Key::Up)
    } else if vk == VK_DOWN {
        Some(Key::Down)
    } else if vk == VK_LEFT {
        Some(Key::Left)
    } else if vk == VK_RIGHT {
        Some(Key::Right)
    } else if vk == VK_RETURN {
        Some(Key::Enter)
    } else if vk == VK_SPACE {
        Some(Key::Char(' '))
    } else if vk == VK_BACK {
        Some(Key::Backspace)
    } else if vk == VK_ESCAPE {
        Some(Key::Escape)
    } else if vk == VK_TAB {
        Some(Key::Tab)
    } else if vk == VK_LWIN {
        Some(Key::LeftWindows)
    } else if vk == VK_RWIN {
        Some(Key::RightWindows)
    } else if vk == VK_APPS {
        Some(Key::Menu)
    } else if vk == VK_SCROLL {
        Some(Key::ScrollLock)
    } else if vk == VK_PAUSE {
        Some(Key::PauseBreak)
    } else if vk == VK_INSERT {
        Some(Key::Insert)
    } else if vk == VK_HOME {
        Some(Key::Home)
    } else if vk == VK_END {
        Some(Key::End)
    } else if vk == VK_PRIOR {
        Some(Key::PageUp)
    } else if vk == VK_NEXT {
        Some(Key::PageDown)
    } else if vk == VK_DELETE {
        Some(Key::Delete)
    } else if vk == VK_SHIFT || vk == VK_LSHIFT || vk == VK_RSHIFT {
        Some(Key::Shift)
    } else if vk == VK_CONTROL || vk == VK_LCONTROL || vk == VK_RCONTROL {
        Some(Key::Control)
    } else {
        None
    }
}

/// The character typed by an OEM punctuation key, with and without Shift.
pub open spec fn oem_char(vk: i32, shift: bool) -> Option<char> {
    if vk == VK_OEM_PLUS {
        Some(if shift { '+' } else { '=' })
    } else if vk == VK_OEM_MINUS {
        Some(if shift { '_' } else { '-' })
    } else if vk == VK_OEM_3 {
        Some(if shift { '~' } else { '`' })
    } else if vk == VK_OEM_4 {
        Some(if shift { '{' } else { '[' })
    } else if vk == VK_OEM_6 {
        Some(if shift { '}' } else { ']' })
    } else if vk == VK_OEM_5 {
        Some(if shift { '|' } else { '\\' })
    } else if vk == VK_OEM_1 {
        Some(if shift { ':' } else { ';' })
    } else if vk == VK_OEM_7 {
        Some(if shift { '"' } else { '\'' })
    } else if vk == VK_OEM_COMMA {
        Some(if shift { '<' } else { ',' })
    } else if vk == VK_OEM_PERIOD {
        Some(if shift { '>' } else { '.' })
    } else if vk == VK_OEM_2 {
        Some(if shift { '?' } else { '/' })
    } else {
        None
    }
}

/// Virtual-key codes of the digit keys `0`..`9`.
pub open spec fn is_digit_vk(vk: i32) -> bool {
    0x30 <= vk <= 0x39
}

/// Virtual-key codes of the letter keys `A`..`Z`.
pub open spec fn is_letter_vk(vk: i32) -> bool {
    0x41 <= vk <= 0x5A
}

/// The symbol on a digit key when Shift is held (US layout).
pub open spec fn shifted_digit(vk: i32) -> char {
    if vk == 0x31 {
        '!'
    } else if vk == 0x32 {
        '@'
    } else if vk == 0x33 {
        '#'
    } else if vk == 0x34 {
        '$'
    } else if vk == 0x35 {
        '%'
    } else if vk == 0x36 {
        '^'
    } else if vk == 0x37 {
        '&'
    } else if vk == 0x38 {
        '*'
    } else if vk == 0x39 {
        '('
    } else {
        ')'
    }
}

/// The character of a digit or letter key: letters are lower case unless
/// Shift is held, digits turn into their symbols under Shift.
pub open spec fn glyph(vk: i32, shift: bool) -> char {
    if is_digit_vk(vk) {
        if shift {
            shifted_digit(vk)
        } else {
            vk as char
        }
    } else if shift {
        vk as char
    } else {
        (vk + 0x20) as char
    }
}

/// The key reported for a key-down message with virtual-key code `vk`.
pub open spec fn key_for_vk(vk: i32, shift: bool) -> Key {
    match named_key(vk) {
        Some(k) => k,
        None => match oem_char(vk, shift) {
            Some(c) => Key::Char(c),
            None => if VK_F1 <= vk <= VK_F24 {
                Key::Function((vk - VK_F1 + 1) as u8)
            } else if is_digit_vk(vk) || is_letter_vk(vk) {
                Key::Char(glyph(vk, shift))
            } else {
                Key::Unknown(vk as u16)
            },
        },
    }
}

fn decode_named_key(vk: i32) -> (r: Option<Key>)
    ensures
        r == named_key(vk),
{
    if vk == VK_UP {
        Some(Key::Up)
    } else if vk == VK_DOWN {
        Some(Key::Down)
    } else if vk == VK_LEFT {
        Some(Key::Left)
    } else if vk == VK_RIGHT {
        Some(Key::Right)
    } else if vk == VK_RETURN {
        Some(Key::Enter)
    } else if vk == VK_SPACE {
        Some(Key::Char(' '))
    } else if vk == VK_BACK {
        Some(Key::Backspace)
    } else if vk == VK_ESCAPE {
        Some(Key::Escape)
    } else if vk == VK_TAB {
        Some(Key::Tab)
    } else if vk == VK_LWIN {
        Some(Key::LeftWindows)
    } else if vk == VK_RWIN {
        Some(Key::RightWindows)
    } else if vk == VK_APPS {
        Some(Key::Menu)
    } else if vk == VK_SCROLL {
        Some(Key::ScrollLock)
    } else if vk == VK_PAUSE {
        Some(Key::PauseBreak)
    } else if vk == VK_INSERT {
        Some(Key::Insert)
    } else if vk == VK_HOME {
        Some(Key::Home)
    } else if vk == VK_END {
        Some(Key::End)
    } else if vk == VK_PRIOR {
        Some(Key::PageUp)
    } else if vk == VK_NEXT {
        Some(Key::PageDown)
    } else if vk == VK_DELETE {
        Some(Key::Delete)
    } else if vk == VK_SHIFT || vk == VK_LSHIFT || vk == VK_RSHIFT {
        Some(Key::Shift)
    } else if vk == VK_CONTROL || vk == VK_LCONTROL || vk == VK_RCONTROL {
        Some(Key::Control)
    } else {
        None
    }
}

pub(crate) fn decode_oem(vk: i32, shift: bool) -> (r: Option<char>)
    ensures
        r == oem_char(vk, shift),
{
    if vk == VK_OEM_PLUS {
        Some(if shift { '+' } else { '=' })
    } else if vk == VK_OEM_MINUS {
        Some(if shift { '_' } else { '-' })
    } else if vk == VK_OEM_3 {
        Some(if shift { '~' } else { '`' })
    } else if vk == VK_OEM_4 {
        Some(if shift { '{' } else { '[' })
    } else if vk == VK_OEM_6 {
        Some(if shift { '}' } else { ']' })
    } else if vk == VK_OEM_5 {
        Some(if shift { '|' } else { '\\' })
    } else if vk == VK_OEM_1 {
        Some(if shift { ':' } else { ';' })
    } else if vk == VK_OEM_7 {
        Some(if shift { '"' } else { '\'' })
    } else if vk == VK_OEM_COMMA {
        Some(if shift { '<' } else { ',' })
    } else if vk == VK_OEM_PERIOD {
        Some(if shift { '>' } else { '.' })
    } else if vk == VK_OEM_2 {
        Some(if shift { '?' } else { '/' })
    } else {
        None
    }
}

pub(crate) fn decode_alnum(vk: i32, shift: bool) -> (c: char)
    requires
        is_digit_vk(vk) || is_letter_vk(vk),
    ensures
        c == glyph(vk, shift),
{
    let c = vk as u8 as char;
    if shift {
        match c {
            '1' => '!',
            '2' => '@',
            '3' => '#',
            '4' => '$',
            '5' => '%',
            '6' => '^',
            '7' => '&',
            '8' => '*',
            '9' => '(',
            '0' => ')',
            _ => c,
        }
    } else if vk >= 0x41 {
        (vk + 0x20) as u8 as char
    } else {
        c
    }
}

/// The key reported for a key-down message with virtual-key code `vk`,
/// given whether Shift is held.
pub fn decode_key(vk: i32, shift: bool) -> (k: Key)
    ensures
        k == key_for_vk(vk, shift),
{
    if let Some(k) = decode_named_key(vk) {
        return k;
    }
    if let Some(c) = decode_oem(vk, shift) {
        return Key::Char(c);
    }
    if VK_F1 <= vk && vk <= VK_F24 {
        return Key::Function((vk - VK_F1 + 1) as u8);
    }
    if (0x30 <= vk && vk <= 0x39) || (0x41 <= vk && vk <= 0x5A) {
        Key::Char(decode_alnum(vk, shift))
    } else {
        Key::Unknown(vk as u16)
    }
}


/// What a message read from the queue amounts to.
#[derive(Debug, Clone, Copy, PartialEq, Eq, Structural)]
pub enum Decoded {
    /// No message was read (the read call returned 0).
    Empty,
    /// The message becomes this event.
    Ready(Event),
    /// The message carries no event and belongs to the window procedure.
    Dispatch,
}

/// Mouse-button messages of the left, right and middle buttons.
pub open spec fn button_key(message: u32) -> Option<Key> {
    if message == WM_LBUTTONDOWN {
        Some(Key::LeftMouseDown)
    } else if message == WM_LBUTTONUP {
        Some(Key::LeftMouseUp)
    } else if message == WM_LBUTTONDBLCLK {
        Some(Key::LeftMouseDoubleClick)
    } else if message == WM_RBUTTONDOWN {
        Some(Key::RightMouseDown)
    } else if message == WM_RBUTTONUP {
        Some(Key::RightMouseUp)
    } else if message == WM_RBUTTONDBLCLK {
        Some(Key::RightMouseDoubleClick)
    } else if message == WM_MBUTTONDOWN {
        Some(Key::MiddleMouseDown)
    } else if message == WM_MBUTTONUP {
        Some(Key::MiddleMouseUp)
    } else if message == WM_MBUTTONDBLCLK {
        Some(Key::MiddleMouseDoubleClick)
    } else {
        None
    }
}

/// Messages of the fourth and fifth mouse buttons.
pub open spec fn is_xbutton_message(message: u32) -> bool {
    message == WM_XBUTTONDOWN || message == WM_XBUTTONUP || message == WM_XBUTTONDBLCLK
}

/// The key of an extra-button message; `button` 1 is the fourth mouse
/// button, 2 the fifth.
pub open spec fn xbutton_key(message: u32, button: int) -> Key {
    if button == 1 {
        if message == WM_XBUTTONDOWN {
            Key::Mouse4Down
        } else if message == WM_XBUTTONUP {
            Key::Mouse4Up
        } else {
            Key::Mouse4DoubleClick
        }
    } else {
        if message == WM_XBUTTONDOWN {
            Key::Mouse5Down
        } else if message == WM_XBUTTONUP {
            Key::Mouse5Up
        } else {
            Key::Mouse5DoubleClick
        }
    }
}

/// A wheel message scrolls up when the signed 16-bit wheel delta in the high
/// word of `w_param` is not negative.
pub open spec fn wheel_up(w_param: usize) -> bool {
    high_word_of(w_param as int) < 0x8000
}

/// The messages that can be decoded: a failed read (result -1) is an error,
/// and an extra-button message must name button 1 or 2.
pub open spec fn decodable(msg: MSG, result: i32) -> bool {
    &&& result != -1
    &&& (result != 0 && is_xbutton_message(msg.message)) ==> (msg.w_param / 0x10000 == 1
        || msg.w_param / 0x10000 == 2)
}

/// What a message read with return value `result` amounts to, when the
/// modifier keys were `mods`.
pub open spec fn decoded_message(msg: MSG, result: i32, mods: Modifiers) -> Decoded {
    let m = msg.message;
    if result == 0 {
        Decoded::Empty
    } else if m == WM_MOVE {
        Decoded::Ready(Event::Move)
    } else if m == WM_MOUSEMOVE {
        Decoded::Ready(
            Event::Mouse(low_word_of(msg.l_param as int) as i32, high_word_of(msg.l_param as int) as i32),
        )
    } else if m == WM_MOUSEWHEEL {
        Decoded::Ready(
            Event::Input(if wheel_up(msg.w_param) { Key::ScrollUp } else { Key::ScrollDown }, mods),
        )
    } else if button_key(m) is Some {
        Decoded::Ready(Event::Input(button_key(m)->0, mods))
    } else if is_xbutton_message(m) {
        Decoded::Ready(Event::Input(xbutton_key(m, msg.w_param as int / 0x10000), mods))
    } else if m == WM_KEYDOWN {
        Decoded::Ready(Event::Input(key_for_vk(msg.w_param as i32, mods.shift), mods))
    } else {
        Decoded::Dispatch
    }
}

pub(crate) fn button_event_key(message: u32) -> (r: Option<Key>)
    ensures
        r == button_key(message),
{
    if message == WM_LBUTTONDOWN {
        Some(Key::LeftMouseDown)
    } else if message == WM_LBUTTONUP {
        Some(Key::LeftMouseUp)
    } else if message == WM_LBUTTONDBLCLK {
        Some(Key::LeftMouseDoubleClick)
    } else if message == WM_RBUTTONDOWN {
        Some(Key::RightMouseDown)
    } else if message == WM_RBUTTONUP {
        Some(Key::RightMouseUp)
    } else if message == WM_RBUTTONDBLCLK {
        Some(Key::RightMouseDoubleClick)
    } else if message == WM_MBUTTONDOWN {
        Some(Key::MiddleMouseDown)
    } else if message == WM_MBUTTONUP {
        Some(Key::MiddleMouseUp)
    } else if message == WM_MBUTTONDBLCLK {
        Some(Key::MiddleMouseDoubleClick)
    } else {
        None
    }
}

/// Decodes a message read by `PeekMessageA` or `GetMessageA`, whose return
/// value was `result`, into an event. `modifiers` is the state of the
/// modifier keys at the time of the read.
pub fn handle_msg(msg: &MSG, result: i32, modifiers: Modifiers) -> (r: Decoded)
    requires
        decodable(*msg, result),
    ensures
        r == decoded_message(*msg, result, modifiers),
{
    if result == 0 {
        return Decoded::Empty;
    }
    let m = msg.message;
    if m == WM_MOVE {
        Decoded::Ready(Event::Move)
    } else if m == WM_MOUSEMOVE {
        let x = msg.high_order_l();
        let y = msg.low_order_l();
        Decoded::Ready(Event::Mouse(x as i32, y as i32))
    } else if m == WM_MOUSEWHEEL {
        let w = msg.w_param;
        let value = (w >> 16) as i16;
        proof {
            assert((((w >> 16) as i16) >= 0) == (((w >> 16) & 0xFFFF) < 0x8000)) by (bit_vector);
            assert(((w >> 16) & 0xFFFF) == (w / 0x10000) % 0x10000) by (bit_vector);
        }
        if value >= 0 {
            Decoded::Ready(Event::Input(Key::ScrollUp, modifiers))
        } else {
            Decoded::Ready(Event::Input(Key::ScrollDown, modifiers))
        }
    } else if let Some(k) = button_event_key(m) {
        Decoded::Ready(Event::Input(k, modifiers))
    } else if m == WM_XBUTTONDOWN || m == WM_XBUTTONUP || m == WM_XBUTTONDBLCLK {
        let w = msg.w_param;
        let button = w >> 16;
        proof {
            assert(w >> 16 == w / 0x10000) by (bit_vector);
        }
        let key = if button == 1 {
            if m == WM_XBUTTONDOWN {
                Key::Mouse4Down
            } else if m == WM_XBUTTONUP {
                Key::Mouse4Up
            } else {
                Key::Mouse4DoubleClick
            }
        } else {
            if m == WM_XBUTTONDOWN {
                Key::Mouse5Down
            } else if m == WM_XBUTTONUP {
                Key::Mouse5Up
            } else {
                Key::Mouse5DoubleClick
            }
        };
        Decoded::Ready(Event::Input(key, modifiers))
    } else if m == WM_KEYDOWN {
        let vk = msg.w_param as i32;
        Decoded::Ready(Event::Input(decode_key(vk, modifiers.shift), modifiers))
    } else {
        Decoded::Dispatch
    }
}


/// Shift changes only what digit, letter and punctuation keys type; every
/// other key decodes the same with and without it.
pub proof fn lemma_shift_only_changes_characters(vk: i32)
    requires
        !is_digit_vk(vk),
        !is_letter_vk(vk),
        oem_char(vk, false) is None,
    ensures
        key_for_vk(vk, true) == key_for_vk(vk, false),
{
}

/// Every input event decoded from a message carries the modifier state it
/// was decoded with, and mouse coordinates always lie in `0..65536`.
pub proof fn lemma_decoded_events_well_formed(msg: MSG, result: i32, mods: Modifiers)
    ensures
        decoded_message(msg, result, mods) matches Decoded::Ready(Event::Input(_, m)) ==> m == mods,
        decoded_message(msg, result, mods) matches Decoded::Ready(Event::Mouse(x, y)) ==> 0 <= x
            < 0x10000 && 0 <= y < 0x10000,
        result != 0 && msg.message == WM_KEYDOWN ==> decoded_message(msg, result, mods) is Ready,
{
}

/// Each punctuation key types its US-layout character without Shift and the
/// symbol above it with Shift.
pub proof fn lemma_punctuation_keys(shift: bool)
    ensures
        key_for_vk(0xBB, shift) == Key::Char(if shift { '+' } else { '=' }),
        key_for_vk(0xBD, shift) == Key::Char(if shift { '_' } else { '-' }),
        key_for_vk(0xC0, shift) == Key::Char(if shift { '~' } else { '`' }),
        key_for_vk(0xDB, shift) == Key::Char(if shift { '{' } else { '[' }),
        key_for_vk(0xDD, shift) == Key::Char(if shift { '}' } else { ']' }),
        key_for_vk(0xDC, shift) == Key::Char(if shift { '|' } else { '\\' }),
        key_for_vk(0xBA, shift) == Key::Char(if shift { ':' } else { ';' }),
        key_for_vk(0xDE, shift) == Key::Char(if shift { '"' } else { '\'' }),
        key_for_vk(0xBC, shift) == Key::Char(if shift { '<' } else { ',' }),
        key_for_vk(0xBE, shift) == Key::Char(if shift { '>' } else { '.' }),
        key_for_vk(0xBF, shift) == Key::Char(if shift { '?' } else { '/' }),
{
}

/// Each mouse-button message decodes to the key of the same button and the
/// same transition (down, up or double click), whatever else the message
/// holds.
pub proof fn lemma_mouse_button_messages(msg: MSG, result: i32, mods: Modifiers)
    requires
        decodable(msg, result),
        result != 0,
    ensures
        msg.message == 0x0201 ==> decoded_message(msg, result, mods) == Decoded::Ready(
            Event::Input(Key::LeftMouseDown, mods),
        ),
        msg.message == 0x0202 ==> decoded_message(msg, result, mods) == Decoded::Ready(
            Event::Input(Key::LeftMouseUp, mods),
        ),
        msg.message == 0x0203 ==> decoded_message(msg, result, mods) == Decoded::Ready(
            Event::Input(Key::LeftMouseDoubleClick, mods),
        ),
        msg.message == 0x0204 ==> decoded_message(msg, result, mods) == Decoded::Ready(
            Event::Input(Key::RightMouseDown, mods),
        ),
        msg.message == 0x0205 ==> decoded_message(msg, result, mods) == Decoded::Ready(
            Event::Input(Key::RightMouseUp, mods),
        ),
        msg.message == 0x0206 ==> decoded_message(msg, result, mods) == Decoded::Ready(
            Event::Input(Key::RightMouseDoubleClick, mods),
        ),
        msg.message == 0x0207 ==> decoded_message(msg, result, mods) == Decoded::Ready(
            Event::Input(Key::MiddleMouseDown, mods),
        ),
        msg.message == 0x0208 ==> decoded_message(msg, result, mods) == Decoded::Ready(
            Event::Input(Key::MiddleMouseUp, mods),
        ),
        msg.message == 0x0209 ==> decoded_message(msg, result, mods) == Decoded::Ready(
            Event::Input(Key::MiddleMouseDoubleClick, mods),
        ),
        msg.message == 0x020B && msg.w_param / 0x10000 == 1 ==> decoded_message(msg, result, mods)
            == Decoded::Ready(Event::Input(Key::Mouse4Down, mods)),
        msg.message == 0x020C && msg.w_param / 0x10000 == 1 ==> decoded_message(msg, result, mods)
            == Decoded::Ready(Event::Input(Key::Mouse4Up, mods)),
        msg.message == 0x020D && msg.w_param / 0x10000 == 1 ==> decoded_message(msg, result, mods)
            == Decoded::Ready(Event::Input(Key::Mouse4DoubleClick, mods)),
        msg.message == 0x020B && msg.w_param / 0x10000 == 2 ==> decoded_message(msg, result, mods)
            == Decoded::Ready(Event::Input(Key::Mouse5Down, mods)),
        msg.message == 0x020C && msg.w_param / 0x10000 == 2 ==> decoded_message(msg, result, mods)
            == Decoded::Ready(Event::Input(Key::Mouse5Up, mods)),
        msg.message == 0x020D && msg.w_param / 0x10000 == 2 ==> decoded_message(msg, result, mods)
            == Decoded::Ready(Event::Input(Key::Mouse5DoubleClick, mods)),
{
}

/// Each named key is reported for its Win32 virtual-key code, with or
/// without Shift: Enter 0x0D, the space bar (as the character `' '`) 0x20,
/// Backspace 0x08, Escape 0x1B, Tab 0x09, Shift 0x10, Control 0x11, the
/// arrows 0x25..0x28, the Windows keys 0x5B and 0x5C, the menu key 0x5D,
/// Scroll Lock 0x91, Pause 0x13, Insert 0x2D, Delete 0x2E, Home 0x24,
/// End 0x23, Page Up 0x21 and Page Down 0x22; F1..F24 are 0x70..0x87.
pub proof fn lemma_named_key_codes(shift: bool, n: int)
    requires
        1 <= n <= 24,
    ensures
        key_for_vk(0x0D, shift) == Key::Enter,
        key_for_vk(0x20, shift) == Key::Char(' '),
        key_for_vk(0x08, shift) == Key::Backspace,
        key_for_vk(0x1B, shift) == Key::Escape,
        key_for_vk(0x09, shift) == Key::Tab,
        key_for_vk(0x10, shift) == Key::Shift,
        key_for_vk(0x11, shift) == Key::Control,
        key_for_vk(0x25, shift) == Key::Left,
        key_for_vk(0x26, shift) == Key::Up,
        key_for_vk(0x27, shift) == Key::Right,
        key_for_vk(0x28, shift) == Key::Down,
        key_for_vk(0x5B, shift) == Key::LeftWindows,
        key_for_vk(0x5C, shift) == Key::RightWindows,
        key_for_vk(0x5D, shift) == Key::Menu,
        key_for_vk(0x91, shift) == Key::ScrollLock,
        key_for_vk(0x13, shift) == Key::PauseBreak,
        key_for_vk(0x2D, shift) == Key::Insert,
        key_for_vk(0x2E, shift) == Key::Delete,
        key_for_vk(0x24, shift) == Key::Home,
        key_for_vk(0x23, shift) == Key::End,
        key_for_vk(0x21, shift) == Key::PageUp,
        key_for_vk(0x22, shift) == Key::PageDown,
        key_for_vk((0x6F + n) as i32, shift) == Key::Function(n as u8),
{
}

/// The left and right Shift and Control keys decode as Shift and Control.
pub proof fn lemma_sided_modifier_keys(shift: bool)
    ensures
        key_for_vk(0xA0, shift) == Key::Shift,
        key_for_vk(0xA1, shift) == Key::Shift,
        key_for_vk(0xA2, shift) == Key::Control,
        key_for_vk(0xA3, shift) == Key::Control,
{
}

/// With Shift, the digit keys `1`..`9`, `0` type the US-layout symbols above
/// them; without Shift they type the digit itself.
pub proof fn lemma_digit_keys(shift: bool)
    ensures
        key_for_vk(0x31, shift) == Key::Char(if shift { '!' } else { '1' }),
        key_for_vk(0x32, shift) == Key::Char(if shift { '@' } else { '2' }),
        key_for_vk(0x33, shift) == Key::Char(if shift { '#' } else { '3' }),
        key_for_vk(0x34, shift) == Key::Char(if shift { '$' } else { '4' }),
        key_for_vk(0x35, shift) == Key::Char(if shift { '%' } else { '5' }),
        key_for_vk(0x36, shift) == Key::Char(if shift { '^' } else { '6' }),
        key_for_vk(0x37, shift) == Key::Char(if shift { '&' } else { '7' }),
        key_for_vk(0x38, shift) == Key::Char(if shift { '*' } else { '8' }),
        key_for_vk(0x39, shift) == Key::Char(if shift { '(' } else { '9' }),
        key_for_vk(0x30, shift) == Key::Char(if shift { ')' } else { '0' }),
{
}

/// A letter key types the upper-case letter whose code is the key's code
/// with Shift, and the lower-case form of that letter without it.
pub proof fn lemma_letter_keys(vk: i32)
    requires
        is_letter_vk(vk),
    ensures
        key_for_vk(vk, true) matches Key::Char(upper) && upper as u32 == vk,
        key_for_vk(vk, false) matches Key::Char(lower) && lower as u32 == vk + 32,
        key_for_vk(vk, false) matches Key::Char(lower) && 'a' as u32 <= lower as u32 <= 'z' as u32,
{
}

/// A mouse-move message reports the x coordinate from the low word of
/// `l_param` and the y coordinate from the high word, which together give
/// back the low 32 bits of `l_param`.
pub proof fn lemma_mouse_move_coordinates(msg: MSG, result: i32, mods: Modifiers)
    requires
        result != 0,
        msg.message == WM_MOUSEMOVE,
    ensures
        decoded_message(msg, result, mods) matches Decoded::Ready(Event::Mouse(x, y)) && y * 0x10000
            + x == (msg.l_param as int) % 0x1_0000_0000,
{
    let l = msg.l_param as int;
    assert(((l / 0x10000) % 0x10000) * 0x10000 + l % 0x10000 == l % 0x1_0000_0000) by (nonlinear_arith);
}

/// The signed wheel delta carried in bits 16..32 of `w_param`.
pub open spec fn wheel_delta(w_param: usize) -> int {
    let h = (w_param as int / 0x10000) % 0x10000;
    if h >= 0x8000 {
        h - 0x10000
    } else {
        h
    }
}

/// A wheel message scrolls up exactly when its signed delta is not negative
/// (positive deltas turn the wheel away from the user).
pub proof fn lemma_wheel_direction(msg: MSG, result: i32, mods: Modifiers)
    requires
        result != 0,
        msg.message == WM_MOUSEWHEEL,
    ensures
        decoded_message(msg, result, mods) == Decoded::Ready(
            Event::Input(if wheel_delta(msg.w_param) >= 0 { Key::ScrollUp } else { Key::ScrollDown }, mods),
        ),
        -0x8000 <= wheel_delta(msg.w_param) < 0x8000,
{
}

/// The flag `GetKeyState` sets in bit 7 of its result.
pub open spec fn key_state_flag(state: i16) -> bool {
    (state as int) % 0x100 >= 0x80
}

/// Builds the modifier state from `GetKeyState` results for Control, Shift,
/// Alt (the menu key) and the left and right Windows keys; the Windows
/// modifier counts as held when either Windows key is.
pub fn modifiers_from_key_states(control: i16, shift: i16, alt: i16, left_win: i16, right_win: i16) -> (r: Modifiers)
    ensures
        r == (Modifiers {
            control: key_state_flag(control),
            shift: key_state_flag(shift),
            alt: key_state_flag(alt),
            win: key_state_flag(left_win) || key_state_flag(right_win),
        }),
{
    proof {
        assert forall|s: i16| ((s & 0x80) > 0) == key_state_flag(s) by {
            assert(((s & 0x80) > 0) == ((s as int) % 0x100 >= 0x80)) by (bit_vector);
        }
    }
    Modifiers {
        control: control & 0x80 > 0,
        shift: shift & 0x80 > 0,
        alt: alt & 0x80 > 0,
        win: left_win & 0x80 > 0 || right_win & 0x80 > 0,
    }
}

} // verus!
