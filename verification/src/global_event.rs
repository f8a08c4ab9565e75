//! Events of the low-level mouse hook, which sees the mouse everywhere on
//! the screen.
use vstd::prelude::*;
use crate::constants::{WM_MOUSEMOVE, WM_MOUSEWHEEL, WM_XBUTTONDOWN, WM_XBUTTONUP, WM_XBUTTONDBLCLK, HIWORD};
use crate::message::{button_key, is_xbutton_message, wheel_up, xbutton_key, wheel_delta, decoded_message, Decoded};
use crate::types::{Event, Key, Modifiers, Point, MSG};

verus! {

pub const WH_MOUSE_LL: i32 = 14;

/// What the low-level mouse hook reports about a mouse event.
#[derive(Debug, Clone, Copy, PartialEq, Eq, Structural)]
pub struct MSLLHOOKSTRUCT {
    pub pt: Point,
    pub mouseData: u32,
    pub flags: u32,
    pub time: u32,
    pub dwExtraInfo: usize,
}

/// The event of a hooked mouse message: moves carry the screen position,
/// extra-button messages name button 1 or 2 in the high word of
/// `mouseData`, anything else has no event.
pub open spec fn hook_event(message: u32, w_param: usize, mouse: MSLLHOOKSTRUCT, mods: Modifiers) -> Option<Event> {
    if message == WM_MOUSEMOVE {
        Some(Event::MouseMoveGlobal(mouse.pt.x, mouse.pt.y))
    } else if message == WM_MOUSEWHEEL {
        Some(Event::Input(if wheel_up(w_param) { Key::ScrollUp } else { Key::ScrollDown }, mods))
    } else if button_key(message) is Some {
        Some(Event::Input(button_key(message)->0, mods))
    } else if is_xbutton_message(message) {
        let button = mouse.mouseData / 0x10000;
        if button == 1 || button == 2 {
            Some(Event::Input(xbutton_key(message, button as int), mods))
        } else {
            None
        }
    } else {
        None
    }
}

fn xbutton(message: u32, data: u32, modifiers: Modifiers) -> (r: Option<Event>)
    requires
        is_xbutton_message(message),
    ensures
        r == (if data / 0x10000 == 1 || data / 0x10000 == 2 {
            Some(Event::Input(xbutton_key(message, (data / 0x10000) as int), modifiers))
        } else {
            None
        }),
{
    let btn = HIWORD(data);
    if btn == 1 {
        if message == WM_XBUTTONDOWN {
            Some(Event::Input(Key::Mouse4Down, modifiers))
        } else if message == WM_XBUTTONUP {
            Some(Event::Input(Key::Mouse4Up, modifiers))
        } else {
            Some(Event::Input(Key::Mouse4DoubleClick, modifiers))
        }
    } else if btn == 2 {
        if message == WM_XBUTTONDOWN {
            Some(Event::Input(Key::Mouse5Down, modifiers))
        } else if message == WM_XBUTTONUP {
            Some(Event::Input(Key::Mouse5Up, modifiers))
        } else {
            Some(Event::Input(Key::Mouse5DoubleClick, modifiers))
        }
    } else {
        None
    }
}

/// Decodes a message posted by the low-level mouse hook; `mouse` is the hook
/// record the message's `l_param` points to and `modifiers` the state of the
/// modifier keys.
pub fn handle_mouse_msg(message: u32, w_param: usize, mouse: &MSLLHOOKSTRUCT, modifiers: Modifiers) -> (r: Option<Event>)
    ensures
        r == hook_event(message, w_param, *mouse, modifiers),
{
    if message == WM_MOUSEMOVE {
        Some(Event::MouseMoveGlobal(mouse.pt.x, mouse.pt.y))
    } else if message == WM_MOUSEWHEEL {
        let value = (w_param >> 16) as i16;
        proof {
            assert((((w_param >> 16) as i16) >= 0) == (((w_param >> 16) & 0xFFFF) < 0x8000)) by (bit_vector);
            assert(((w_param >> 16) & 0xFFFF) == (w_param / 0x10000) % 0x10000) by (bit_vector);
        }
        if value >= 0 {
            Some(Event::Input(Key::ScrollUp, modifiers))
        } else {
            Some(Event::Input(Key::ScrollDown, modifiers))
        }
    } else if let Some(k) = crate::message::button_event_key(message) {
        Some(Event::Input(k, modifiers))
    } else if message == WM_XBUTTONDOWN || message == WM_XBUTTONUP || message == WM_XBUTTONDBLCLK {
        xbutton(message, mouse.mouseData, modifiers)
    } else {
        None
    }
}

/// Whether a read of the hook's messages returned a message to decode: a
/// result of 0 means there is none (a result of -1, a failed read, is an
/// error the caller reports before asking).
pub fn hook_message_read(result: i32) -> (r: bool)
    requires
        result != -1,
    ensures
        r == (result != 0),
{
    result != 0
}

/// `GetAsyncKeyState` reports a key as down by setting the sign bit.
pub fn async_key_is_down(state: i16) -> (r: bool)
    ensures
        r == (state < 0),
{
    proof {
        assert(((state & (0x8000u16 as i16)) != 0) == (state < 0)) by (bit_vector);
    }
    (state & 0x8000u16 as i16) != 0
}


/// The hook reports the wheel and the left, right and middle buttons exactly
/// as the window's message decoder does for a message with the same number
/// and `w_param`; in particular the wheel scrolls up exactly when its signed
/// delta is not negative.
pub proof fn lemma_hook_agrees_with_window_decoder(msg: MSG, result: i32, mouse: MSLLHOOKSTRUCT, mods: Modifiers)
    requires
        result != 0,
        msg.message == WM_MOUSEWHEEL || button_key(msg.message) is Some,
    ensures
        decoded_message(msg, result, mods) == Decoded::Ready(
            hook_event(msg.message, msg.w_param, mouse, mods)->0,
        ),
        hook_event(msg.message, msg.w_param, mouse, mods) is Some,
        msg.message == WM_MOUSEWHEEL ==> hook_event(msg.message, msg.w_param, mouse, mods) == Some(
            Event::Input(if wheel_delta(msg.w_param) >= 0 { Key::ScrollUp } else { Key::ScrollDown }, mods),
        ),
{
}

/// Extra-button messages are reported as the window decoder reports a
/// message naming the same button, which the hook carries in the high word
/// of `mouseData`; a move reports the hook's screen position.
pub proof fn lemma_hook_buttons_and_moves(msg: MSG, result: i32, mouse: MSLLHOOKSTRUCT, mods: Modifiers)
    requires
        result != 0,
    ensures
        is_xbutton_message(msg.message) && (mouse.mouseData / 0x10000 == 1 || mouse.mouseData
            / 0x10000 == 2) && msg.w_param / 0x10000 == mouse.mouseData / 0x10000 ==> decoded_message(
            msg,
            result,
            mods,
        ) == Decoded::Ready(hook_event(msg.message, msg.w_param, mouse, mods)->0),
        is_xbutton_message(msg.message) && !(mouse.mouseData / 0x10000 == 1 || mouse.mouseData
            / 0x10000 == 2) ==> hook_event(msg.message, msg.w_param, mouse, mods) is None,
        msg.message == WM_MOUSEMOVE ==> hook_event(msg.message, msg.w_param, mouse, mods) == Some(
            Event::MouseMoveGlobal(mouse.pt.x, mouse.pt.y),
        ),
{
}

} // verus!
