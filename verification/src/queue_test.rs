//! A window whose events all pass through its queue, with a flat event
//! model in which every key and button is an event of its own.
use vstd::prelude::*;
use crossbeam_queue::SegQueue;
use crate::constants::{
    WM_GETDPISCALEDSIZE, WM_MOVE, WM_MOUSEMOVE, WM_MOUSEWHEEL, WM_LBUTTONDOWN, WM_LBUTTONUP,
    WM_LBUTTONDBLCLK, WM_RBUTTONDOWN, WM_RBUTTONUP, WM_RBUTTONDBLCLK, WM_MBUTTONDOWN,
    WM_MBUTTONUP, WM_MBUTTONDBLCLK, WM_XBUTTONDOWN, WM_XBUTTONUP, WM_XBUTTONDBLCLK, WM_KEYDOWN,
    WM_DESTROY, WM_CLOSE, WM_CREATE, WM_ERASEBKGND, WM_PAINT, WM_SIZE, VK_UP, VK_DOWN, VK_LEFT,
    VK_RIGHT, VK_RETURN, VK_SPACE, VK_BACK, VK_ESCAPE, VK_TAB, VK_SHIFT, VK_LSHIFT, VK_RSHIFT,
    VK_CONTROL, VK_LCONTROL, VK_RCONTROL, VK_MENU, VK_LMENU, VK_RMENU, VK_F1, VK_F24,
};
use crate::message::{key_for_vk, oem_char, glyph, is_digit_vk, is_letter_vk, is_xbutton_message, wheel_up, button_key, xbutton_key};
use crate::queue::{queued_flat_events, new_flat_queue, push_flat_event, pop_flat_event};
use crate::types::{Key, MSG, low_word_of, high_word_of};
use crate::types;
use crate::message::{decoded_message, decodable, Decoded};
use crate::types::Modifiers;

verus! {

/// An event of the flat model.
#[derive(Debug, Clone, Copy, PartialEq, Eq, Structural)]
pub enum Event {
    Quit,
    Resize,
    Dpi(usize),
    Move,
    Mouse(i32, i32),
    ScrollUp,
    ScrollDown,
    LeftMouseDown,
    LeftMouseUp,
    LeftMouseDoubleClick,
    RightMouseDown,
    RightMouseUp,
    RightMouseDoubleClick,
    MiddleMouseDown,
    MiddleMouseUp,
    MiddleMouseDoubleClick,
    Mouse4Down,
    Mouse4Up,
    Mouse4DoubleClick,
    Mouse5Down,
    Mouse5Up,
    Mouse5DoubleClick,
    Up,
    Down,
    Left,
    Right,
    Enter,
    Backspace,
    Escape,
    Tab,
    Shift,
    Control,
    Alt,
    Char(char),
    Function(u8),
    Unknown(u16),
}

/// What a message read from the queue amounts to in the flat model.
#[derive(Debug, Clone, Copy, PartialEq, Eq, Structural)]
pub enum FlatDecoded {
    /// No message was read.
    Empty,
    /// The message becomes this event, which joins the queue.
    Ready(Event),
    /// A key whose event is handed out at once, ahead of anything queued,
    /// without entering the queue: named keys, punctuation keys and
    /// function keys.
    Direct(Event),
    /// The message is translated and dispatched to the window procedure.
    Dispatch,
}

/// Keys of the flat model whose event does not depend on Shift.
pub open spec fn flat_named_key(vk: i32) -> Option<Event> {
    if vk == VK_UP {
        Some(Event::Up)
    } else if vk == VK_DOWN {
        Some(Event::Down)
    } else if vk == VK_LEFT {
        Some(Event::Left)
    } else if vk == VK_RIGHT {
        Some(Event::Right)
    } else if vk == VK_RETURN {
        Some(Event::Enter)
    } else if vk == VK_SPACE {
        Some(Event::Char(' '))
    } else if vk == VK_BACK {
        Some(Event::Backspace)
    } else if vk == VK_ESCAPE {
        Some(Event::Escape)
    } else if vk == VK_TAB {
        Some(Event::Tab)
    } else if vk == VK_SHIFT || vk == VK_LSHIFT || vk == VK_RSHIFT {
        Some(Event::Shift)
    } else if vk == VK_CONTROL || vk == VK_LCONTROL || vk == VK_RCONTROL {
        Some(Event::Control)
    } else if vk == VK_MENU || vk == VK_LMENU || vk == VK_RMENU {
        Some(Event::Alt)
    } else {
        None
    }
}

/// The flat event of a key-down message.
pub open spec fn flat_key_event(vk: i32, shift: bool) -> Event {
    match flat_named_key(vk) {
        Some(e) => e,
        None => match oem_char(vk, shift) {
            Some(c) => Event::Char(c),
            None => if VK_F1 <= vk <= VK_F24 {
                Event::Function((vk - VK_F1 + 1) as u8)
            } else if is_digit_vk(vk) || is_letter_vk(vk) {
                Event::Char(glyph(vk, shift))
            } else {
                Event::Unknown(vk as u16)
            },
        },
    }
}

/// Keys whose event is handed out at once rather than queued: the named
/// keys, the punctuation keys and the function keys.
pub open spec fn flat_key_is_direct(vk: i32, shift: bool) -> bool {
    ||| flat_named_key(vk) is Some
    ||| oem_char(vk, shift) is Some
    ||| VK_F1 <= vk <= VK_F24
}

/// Mouse-button events of the left, right and middle buttons.
pub open spec fn flat_button_event(message: u32) -> Option<Event> {
    if message == WM_LBUTTONDOWN {
        Some(Event::LeftMouseDown)
    } else if message == WM_LBUTTONUP {
        Some(Event::LeftMouseUp)
    } else if message == WM_LBUTTONDBLCLK {
        Some(Event::LeftMouseDoubleClick)
    } else if message == WM_RBUTTONDOWN {
        Some(Event::RightMouseDown)
    } else if message == WM_RBUTTONUP {
        Some(Event::RightMouseUp)
    } else if message == WM_RBUTTONDBLCLK {
        Some(Event::RightMouseDoubleClick)
    } else if message == WM_MBUTTONDOWN {
        Some(Event::MiddleMouseDown)
    } else if message == WM_MBUTTONUP {
        Some(Event::MiddleMouseUp)
    } else if message == WM_MBUTTONDBLCLK {
        Some(Event::MiddleMouseDoubleClick)
    } else {
        None
    }
}

/// Event of an extra-button message; `button` 1 is the fourth mouse button,
/// 2 the fifth.
pub open spec fn flat_xbutton_event(message: u32, button: int) -> Event {
    if button == 1 {
        if message == WM_XBUTTONDOWN {
            Event::Mouse4Down
        } else if message == WM_XBUTTONUP {
            Event::Mouse4Up
        } else {
            Event::Mouse4DoubleClick
        }
    } else {
        if message == WM_XBUTTONDOWN {
            Event::Mouse5Down
        } else if message == WM_XBUTTONUP {
            Event::Mouse5Up
        } else {
            Event::Mouse5DoubleClick
        }
    }
}

/// Extra-button messages must name button 1 or 2.
pub open spec fn flat_decodable(msg: MSG, result: i32) -> bool {
    (result != 0 && is_xbutton_message(msg.message)) ==> (msg.w_param / 0x10000 == 1
        || msg.w_param / 0x10000 == 2)
}

/// What a message read with return value `result` amounts to, given
/// whether Shift was held.
pub open spec fn flat_decoded(msg: MSG, result: i32, shift: bool) -> FlatDecoded {
    let m = msg.message;
    if result == 0 {
        FlatDecoded::Empty
    } else if m == WM_GETDPISCALEDSIZE {
        FlatDecoded::Ready(Event::Dpi(msg.w_param))
    } else if m == WM_MOVE {
        FlatDecoded::Ready(Event::Move)
    } else if m == WM_MOUSEMOVE {
        FlatDecoded::Ready(
            Event::Mouse(low_word_of(msg.l_param as int) as i32, high_word_of(msg.l_param as int) as i32),
        )
    } else if m == WM_MOUSEWHEEL {
        FlatDecoded::Ready(if wheel_up(msg.w_param) { Event::ScrollUp } else { Event::ScrollDown })
    } else if flat_button_event(m) is Some {
        FlatDecoded::Ready(flat_button_event(m)->0)
    } else if is_xbutton_message(m) {
        FlatDecoded::Ready(flat_xbutton_event(m, msg.w_param as int / 0x10000))
    } else if m == WM_KEYDOWN {
        if flat_key_is_direct(msg.w_param as i32, shift) {
            FlatDecoded::Direct(flat_key_event(msg.w_param as i32, shift))
        } else {
            FlatDecoded::Ready(flat_key_event(msg.w_param as i32, shift))
        }
    } else {
        FlatDecoded::Dispatch
    }
}

fn decode_flat_named_key(vk: i32) -> (r: Option<Event>)
    ensures
        r == flat_named_key(vk),
{
    if vk == VK_UP {
        Some(Event::Up)
    } else if vk == VK_DOWN {
        Some(Event::Down)
    } else if vk == VK_LEFT {
        Some(Event::Left)
    } else if vk == VK_RIGHT {
        Some(Event::Right)
    } else if vk == VK_RETURN {
        Some(Event::Enter)
    } else if vk == VK_SPACE {
        Some(Event::Char(' '))
    } else if vk == VK_BACK {
        Some(Event::Backspace)
    } else if vk == VK_ESCAPE {
        Some(Event::Escape)
    } else if vk == VK_TAB {
        Some(Event::Tab)
    } else if vk == VK_SHIFT || vk == VK_LSHIFT || vk == VK_RSHIFT {
        Some(Event::Shift)
    } else if vk == VK_CONTROL || vk == VK_LCONTROL || vk == VK_RCONTROL {
        Some(Event::Control)
    } else if vk == VK_MENU || vk == VK_LMENU || vk == VK_RMENU {
        Some(Event::Alt)
    } else {
        None
    }
}

/// The flat event of a key-down message with virtual-key code `vk`.
pub fn decode_flat_key(vk: i32, shift: bool) -> (e: Event)
    ensures
        e == flat_key_event(vk, shift),
{
    if let Some(e) = decode_flat_named_key(vk) {
        return e;
    }
    if let Some(c) = crate::message::decode_oem(vk, shift) {
        return Event::Char(c);
    }
    if VK_F1 <= vk && vk <= VK_F24 {
        return Event::Function((vk - VK_F1 + 1) as u8);
    }
    if (0x30 <= vk && vk <= 0x39) || (0x41 <= vk && vk <= 0x5A) {
        Event::Char(crate::message::decode_alnum(vk, shift))
    } else {
        Event::Unknown(vk as u16)
    }
}

fn decode_flat_button(message: u32) -> (r: Option<Event>)
    ensures
        r == flat_button_event(message),
{
    if message == WM_LBUTTONDOWN {
        Some(Event::LeftMouseDown)
    } else if message == WM_LBUTTONUP {
        Some(Event::LeftMouseUp)
    } else if message == WM_LBUTTONDBLCLK {
        Some(Event::LeftMouseDoubleClick)
    } else if message == WM_RBUTTONDOWN {
        Some(Event::RightMouseDown)
    } else if message == WM_RBUTTONUP {
        Some(Event::RightMouseUp)
    } else if message == WM_RBUTTONDBLCLK {
        Some(Event::RightMouseDoubleClick)
    } else if message == WM_MBUTTONDOWN {
        Some(Event::MiddleMouseDown)
    } else if message == WM_MBUTTONUP {
        Some(Event::MiddleMouseUp)
    } else if message == WM_MBUTTONDBLCLK {
        Some(Event::MiddleMouseDoubleClick)
    } else {
        None
    }
}

fn flat_key_direct(vk: i32, shift: bool) -> (r: bool)
    ensures
        r == flat_key_is_direct(vk, shift),
{
    if let Some(_) = decode_flat_named_key(vk) {
        return true;
    }
    if let Some(_) = crate::message::decode_oem(vk, shift) {
        return true;
    }
    VK_F1 <= vk && vk <= VK_F24
}

/// Decodes a message read by `PeekMessageA` into a flat event; `shift`
/// tells whether Shift was held.
pub fn decode_flat(msg: &MSG, result: i32, shift: bool) -> (r: FlatDecoded)
    requires
        flat_decodable(*msg, result),
    ensures
        r == flat_decoded(*msg, result, shift),
{
    if result == 0 {
        return FlatDecoded::Empty;
    }
    let m = msg.message;
    if m == WM_GETDPISCALEDSIZE {
        FlatDecoded::Ready(Event::Dpi(msg.w_param))
    } else if m == WM_MOVE {
        FlatDecoded::Ready(Event::Move)
    } else if m == WM_MOUSEMOVE {
        let x = msg.high_order_l();
        let y = msg.low_order_l();
        FlatDecoded::Ready(Event::Mouse(x as i32, y as i32))
    } else if m == WM_MOUSEWHEEL {
        let w = msg.w_param;
        let value = (w >> 16) as i16;
        proof {
            assert((((w >> 16) as i16) >= 0) == (((w >> 16) & 0xFFFF) < 0x8000)) by (bit_vector);
            assert(((w >> 16) & 0xFFFF) == (w / 0x10000) % 0x10000) by (bit_vector);
        }
        if value >= 0 {
            FlatDecoded::Ready(Event::ScrollUp)
        } else {
            FlatDecoded::Ready(Event::ScrollDown)
        }
    } else if let Some(e) = decode_flat_button(m) {
        FlatDecoded::Ready(e)
    } else if m == WM_XBUTTONDOWN || m == WM_XBUTTONUP || m == WM_XBUTTONDBLCLK {
        let w = msg.w_param;
        let button = w >> 16;
        proof {
            assert(w >> 16 == w / 0x10000) by (bit_vector);
        }
        let e = if button == 1 {
            if m == WM_XBUTTONDOWN {
                Event::Mouse4Down
            } else if m == WM_XBUTTONUP {
                Event::Mouse4Up
            } else {
                Event::Mouse4DoubleClick
            }
        } else {
            if m == WM_XBUTTONDOWN {
                Event::Mouse5Down
            } else if m == WM_XBUTTONUP {
                Event::Mouse5Up
            } else {
                Event::Mouse5DoubleClick
            }
        };
        FlatDecoded::Ready(e)
    } else if m == WM_KEYDOWN {
        let vk = msg.w_param as i32;
        let e = decode_flat_key(vk, shift);
        if flat_key_direct(vk, shift) {
            FlatDecoded::Direct(e)
        } else {
            FlatDecoded::Ready(e)
        }
    } else {
        FlatDecoded::Dispatch
    }
}

/// What the window procedure answers after [`Window::on_message`].
#[derive(Debug, Clone, Copy, PartialEq, Eq, Structural)]
pub enum QueueReply {
    /// Return this value to the system.
    Return(isize),
    /// The window was just created: switch it to dark mode, then return 0.
    Create,
    /// Leave the message to the default window procedure.
    Default,
}

/// A window known by its handle, whose window procedure and message loop
/// both feed one event queue.
pub struct Window {
    pub hwnd: isize,
    pub screen_mouse_pos: (i32, i32),
    pub queue: SegQueue<Event>,
    pub init: bool,
}

impl Window {
    /// Events waiting in the queue, oldest first.
    pub open spec fn events(&self) -> Seq<Event> {
        queued_flat_events(self.queue)
    }

    /// A window for the handle `hwnd`, not yet registered with its window
    /// procedure, with an empty queue.
    pub fn new(hwnd: isize) -> (r: Self)
        ensures
            r.hwnd == hwnd,
            r.screen_mouse_pos == (0i32, 0i32),
            !r.init,
            r.events() == Seq::<Event>::empty(),
    {
        Window { hwnd, screen_mouse_pos: (0, 0), queue: new_flat_queue(), init: false }
    }

    /// The event the message loop hands out for a decoded message. A key
    /// decoded as `Direct` is handed out at once and leaves the queue as it
    /// is; an event decoded as `Ready` joins the queue at the back, and then
    /// the oldest queued event is handed out, so events the window procedure
    /// queued earlier come first; with no event decoded, the oldest queued
    /// event, if any, is handed out.
    pub fn next_event(&mut self, decoded: FlatDecoded) -> (r: Option<Event>)
        ensures
            (r, final(self).events()) == next_in_queue(old(self).events(), decoded),
            final(self).hwnd == old(self).hwnd,
            final(self).init == old(self).init,
            final(self).screen_mouse_pos == old(self).screen_mouse_pos,
    {
        match decoded {
            FlatDecoded::Direct(event) => Some(event),
            FlatDecoded::Ready(event) => {
                push_flat_event(&mut self.queue, event);
                pop_flat_event(&mut self.queue)
            },
            FlatDecoded::Empty | FlatDecoded::Dispatch => pop_flat_event(&mut self.queue),
        }
    }

    /// The part of the window procedure that works on the window: closing
    /// queues `Quit`, a size change queues `Resize`, a DPI query queues
    /// `Dpi(w_param)` and answers 1; background erasing answers 1, painting
    /// and moving answer 0.
    pub fn on_message(&mut self, msg: u32, w_param: usize) -> (r: QueueReply)
        ensures
            final(self).hwnd == old(self).hwnd,
            final(self).init == old(self).init,
            final(self).screen_mouse_pos == old(self).screen_mouse_pos,
            final(self).events() == if msg == WM_DESTROY || msg == WM_CLOSE {
                old(self).events().push(Event::Quit)
            } else if msg == WM_CREATE {
                old(self).events()
            } else if msg == WM_SIZE {
                old(self).events().push(Event::Resize)
            } else if msg == WM_GETDPISCALEDSIZE {
                old(self).events().push(Event::Dpi(w_param))
            } else {
                old(self).events()
            },
            r == if msg == WM_DESTROY || msg == WM_CLOSE {
                QueueReply::Return(0)
            } else if msg == WM_CREATE {
                QueueReply::Create
            } else if msg == WM_ERASEBKGND {
                QueueReply::Return(1)
            } else if msg == WM_PAINT || msg == WM_MOVE || msg == WM_SIZE {
                QueueReply::Return(0)
            } else if msg == WM_GETDPISCALEDSIZE {
                QueueReply::Return(1)
            } else {
                QueueReply::Default
            },
    {
        if msg == WM_DESTROY || msg == WM_CLOSE {
            push_flat_event(&mut self.queue, Event::Quit);
            QueueReply::Return(0)
        } else if msg == WM_CREATE {
            QueueReply::Create
        } else if msg == WM_ERASEBKGND {
            QueueReply::Return(1)
        } else if msg == WM_PAINT || msg == WM_MOVE {
            QueueReply::Return(0)
        } else if msg == WM_SIZE {
            push_flat_event(&mut self.queue, Event::Resize);
            QueueReply::Return(0)
        } else if msg == WM_GETDPISCALEDSIZE {
            push_flat_event(&mut self.queue, Event::Dpi(w_param));
            QueueReply::Return(1)
        } else {
            QueueReply::Default
        }
    }
}

/// The event handed out, and what stays queued, for a decoded message when
/// `pending` events are queued: a `Direct` event bypasses the queue, a
/// `Ready` event joins it at the back before the oldest event is taken.
pub open spec fn next_in_queue(pending: Seq<Event>, decoded: FlatDecoded) -> (Option<Event>, Seq<Event>) {
    match decoded {
        FlatDecoded::Direct(e) => (Some(e), pending),
        _ => {
            let all = match decoded {
                FlatDecoded::Ready(e) => pending.push(e),
                _ => pending,
            };
            if all.len() == 0 {
                (None, all)
            } else {
                (Some(all[0]), all.drop_first())
            }
        },
    }
}

/// A directly handed-out key never disturbs the queue. A queued event comes
/// out at once when nothing is pending, and otherwise waits behind the
/// pending events, the oldest of which is handed out.
pub proof fn lemma_next_event_order(pending: Seq<Event>, decoded: FlatDecoded)
    ensures
        decoded matches FlatDecoded::Direct(e) ==> next_in_queue(pending, decoded) == (Some(e), pending),
        decoded matches FlatDecoded::Ready(e) ==> next_in_queue(pending, decoded) == if pending.len()
            == 0 {
            (Some(e), Seq::<Event>::empty())
        } else {
            (Some(pending[0]), pending.drop_first().push(e))
        },
        (decoded is Empty || decoded is Dispatch) ==> next_in_queue(pending, decoded) == if pending.len()
            == 0 {
            (None, pending)
        } else {
            (Some(pending[0]), pending.drop_first())
        },
{
    if let FlatDecoded::Ready(e) = decoded {
        assert(pending.len() == 0 ==> pending.push(e).drop_first() =~= Seq::<Event>::empty());
        assert(pending.len() > 0 ==> pending.push(e).drop_first() =~= pending.drop_first().push(e));
    }
}


/// The flat event with the same name as a key or button of the standard
/// model, for the keys and buttons both models have.
pub open spec fn flat_event_named(k: Key) -> Option<Event> {
    match k {
        Key::Up => Some(Event::Up),
        Key::Down => Some(Event::Down),
        Key::Left => Some(Event::Left),
        Key::Right => Some(Event::Right),
        Key::Enter => Some(Event::Enter),
        Key::Backspace => Some(Event::Backspace),
        Key::Escape => Some(Event::Escape),
        Key::Tab => Some(Event::Tab),
        Key::Shift => Some(Event::Shift),
        Key::Control => Some(Event::Control),
        Key::Char(c) => Some(Event::Char(c)),
        Key::Function(n) => Some(Event::Function(n)),
        Key::ScrollUp => Some(Event::ScrollUp),
        Key::ScrollDown => Some(Event::ScrollDown),
        Key::LeftMouseDown => Some(Event::LeftMouseDown),
        Key::LeftMouseUp => Some(Event::LeftMouseUp),
        Key::LeftMouseDoubleClick => Some(Event::LeftMouseDoubleClick),
        Key::RightMouseDown => Some(Event::RightMouseDown),
        Key::RightMouseUp => Some(Event::RightMouseUp),
        Key::RightMouseDoubleClick => Some(Event::RightMouseDoubleClick),
        Key::MiddleMouseDown => Some(Event::MiddleMouseDown),
        Key::MiddleMouseUp => Some(Event::MiddleMouseUp),
        Key::MiddleMouseDoubleClick => Some(Event::MiddleMouseDoubleClick),
        Key::Mouse4Down => Some(Event::Mouse4Down),
        Key::Mouse4Up => Some(Event::Mouse4Up),
        Key::Mouse4DoubleClick => Some(Event::Mouse4DoubleClick),
        Key::Mouse5Down => Some(Event::Mouse5Down),
        Key::Mouse5Up => Some(Event::Mouse5Up),
        Key::Mouse5DoubleClick => Some(Event::Mouse5DoubleClick),
        _ => None,
    }
}

/// The flat model decodes every key it shares with the standard model to
/// the event of the same name: the arrows, Enter, Backspace, Escape, Tab,
/// Shift, Control, every typed character and every function key.
pub proof fn lemma_flat_keys_match_standard(vk: i32, shift: bool)
    ensures
        flat_event_named(key_for_vk(vk, shift)) matches Some(e) ==> flat_key_event(vk, shift) == e,
{
}


/// The flat event with the same meaning as an event of the standard model.
pub open spec fn flat_event_of(e: types::Event) -> Option<Event> {
    match e {
        types::Event::Move => Some(Event::Move),
        types::Event::Mouse(x, y) => Some(Event::Mouse(x, y)),
        types::Event::Input(k, _) => flat_event_named(k),
        _ => None,
    }
}

/// Every message both models decode to events of the same name is decoded
/// to that event by the flat model too: moves, mouse coordinates, the wheel,
/// all buttons and the shared keys.
pub proof fn lemma_flat_messages_match_standard(msg: MSG, result: i32, mods: Modifiers)
    requires
        decodable(msg, result),
    ensures
        decoded_message(msg, result, mods) matches Decoded::Ready(ev) ==> (flat_event_of(ev) matches Some(
            fe,
        ) ==> (flat_decoded(msg, result, mods.shift) == FlatDecoded::Ready(fe) || flat_decoded(
            msg,
            result,
            mods.shift,
        ) == FlatDecoded::Direct(fe))),
{
    let m = msg.message;
    if result != 0 && m == WM_KEYDOWN {
        let vk = #[verifier::truncate] (msg.w_param as i32);
        lemma_flat_keys_match_standard(vk, mods.shift);
        assert(decoded_message(msg, result, mods) == Decoded::Ready(
            types::Event::Input(key_for_vk(vk, mods.shift), mods),
        ));
    } else if result != 0 && flat_button_event(m) is Some {
        assert(button_key(m) is Some);
    } else if result != 0 && is_xbutton_message(m) {
        let b = msg.w_param as int / 0x10000;
        assert(flat_event_named(xbutton_key(m, b)) == Some(flat_xbutton_event(m, b)));
    } else if result != 0 && m == WM_MOUSEWHEEL {
        assert(true);
    } else {
        assert(true);
    }
}

/// A key is handed out directly exactly when it is neither a letter or digit
/// key nor a key the model does not know; the menu keys are Alt.
pub proof fn lemma_direct_keys(vk: i32, shift: bool)
    ensures
        flat_key_is_direct(vk, shift) <==> !(is_digit_vk(vk) || is_letter_vk(vk)) && !(flat_key_event(
            vk,
            shift,
        ) is Unknown),
        flat_key_event(0x12, shift) == Event::Alt,
        flat_key_event(0xA4, shift) == Event::Alt,
        flat_key_event(0xA5, shift) == Event::Alt,
{
}

} // verus!
