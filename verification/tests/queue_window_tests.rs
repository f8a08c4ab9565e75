use window::constants::{
    VK_LWIN, VK_MENU, VK_RMENU, WM_CLOSE, WM_CREATE, WM_ERASEBKGND, WM_GETDPISCALEDSIZE, WM_KEYDOWN,
    WM_MOUSEMOVE, WM_MOUSEWHEEL, WM_MOVE, WM_PAINT, WM_SIZE, WM_XBUTTONDBLCLK,
};
use window::queue_test::{decode_flat, decode_flat_key, Event, FlatDecoded, QueueReply, Window};
use window::types::{Point, MSG};

fn msg(message: u32, w_param: usize, l_param: isize) -> MSG {
    MSG { hwnd: 7, message, w_param, l_param, time: 0, pt: Point { x: 0, y: 0 } }
}

#[test]
fn flat_keys() {
    assert_eq!(decode_flat_key(VK_MENU, false), Event::Alt);
    assert_eq!(decode_flat_key(VK_RMENU, true), Event::Alt);
    assert_eq!(decode_flat_key(VK_LWIN, false), Event::Unknown(VK_LWIN as u16));
    assert_eq!(decode_flat_key(0x20, false), Event::Char(' '));
    assert_eq!(decode_flat_key(0x51, false), Event::Char('q'));
    assert_eq!(decode_flat_key(0x32, true), Event::Char('@'));
    assert_eq!(decode_flat_key(0xBF, true), Event::Char('?'));
    assert_eq!(decode_flat_key(0x7A, false), Event::Function(11));
    assert_eq!(decode_flat_key(0x26, false), Event::Up);
}

#[test]
fn flat_messages() {
    assert_eq!(decode_flat(&msg(WM_MOVE, 0, 0), 0, false), FlatDecoded::Empty);
    assert_eq!(decode_flat(&msg(WM_GETDPISCALEDSIZE, 144, 0), 1, false), FlatDecoded::Ready(Event::Dpi(144)));
    assert_eq!(decode_flat(&msg(WM_MOVE, 0, 0), 1, false), FlatDecoded::Ready(Event::Move));
    assert_eq!(decode_flat(&msg(WM_MOUSEMOVE, 0, (3 << 16) | 4), 1, false), FlatDecoded::Ready(Event::Mouse(4, 3)));
    assert_eq!(decode_flat(&msg(WM_MOUSEWHEEL, 0xFF88 << 16, 0), 1, false), FlatDecoded::Ready(Event::ScrollDown));
    assert_eq!(decode_flat(&msg(WM_MOUSEWHEEL, 120 << 16, 0), 1, false), FlatDecoded::Ready(Event::ScrollUp));
    assert_eq!(decode_flat(&msg(WM_XBUTTONDBLCLK, 1 << 16, 0), 1, false), FlatDecoded::Ready(Event::Mouse4DoubleClick));
    assert_eq!(decode_flat(&msg(WM_KEYDOWN, 0x41, 0), 1, true), FlatDecoded::Ready(Event::Char('A')));
    assert_eq!(decode_flat(&msg(WM_KEYDOWN, 0x1234, 0), 1, false), FlatDecoded::Ready(Event::Unknown(0x1234)));
    assert_eq!(decode_flat(&msg(WM_KEYDOWN, 0x26, 0), 1, false), FlatDecoded::Direct(Event::Up));
    assert_eq!(decode_flat(&msg(WM_KEYDOWN, 0x20, 0), 1, false), FlatDecoded::Direct(Event::Char(' ')));
    assert_eq!(decode_flat(&msg(WM_KEYDOWN, 0xBB, 0), 1, true), FlatDecoded::Direct(Event::Char('+')));
    assert_eq!(decode_flat(&msg(WM_KEYDOWN, 0x70, 0), 1, false), FlatDecoded::Direct(Event::Function(1)));
    assert_eq!(decode_flat(&msg(WM_PAINT, 0, 0), 1, false), FlatDecoded::Dispatch);
}

#[test]
fn decoded_event_comes_straight_through_an_empty_queue() {
    let mut w = Window::new(7);
    assert_eq!(w.hwnd, 7);
    assert!(!w.init);
    assert_eq!(w.next_event(FlatDecoded::Empty), None);
    assert_eq!(w.next_event(FlatDecoded::Ready(Event::Move)), Some(Event::Move));
    assert_eq!(w.next_event(FlatDecoded::Empty), None);
}

#[test]
fn window_procedure_events_come_first() {
    let mut w = Window::new(7);
    assert_eq!(w.on_message(WM_SIZE, 0), QueueReply::Return(0));
    assert_eq!(w.on_message(WM_GETDPISCALEDSIZE, 120), QueueReply::Return(1));
    assert_eq!(w.next_event(FlatDecoded::Ready(Event::Char('x'))), Some(Event::Resize));
    assert_eq!(w.next_event(FlatDecoded::Empty), Some(Event::Dpi(120)));
    assert_eq!(w.next_event(FlatDecoded::Empty), Some(Event::Char('x')));
    assert_eq!(w.next_event(FlatDecoded::Empty), None);
}

#[test]
fn window_procedure_replies() {
    let mut w = Window::new(1);
    assert_eq!(w.on_message(WM_CREATE, 0), QueueReply::Create);
    assert_eq!(w.on_message(WM_ERASEBKGND, 0), QueueReply::Return(1));
    assert_eq!(w.on_message(WM_PAINT, 0), QueueReply::Return(0));
    assert_eq!(w.on_message(WM_MOVE, 0), QueueReply::Return(0));
    assert_eq!(w.on_message(0x0400, 0), QueueReply::Default);
    assert_eq!(w.next_event(FlatDecoded::Empty), None);
    assert_eq!(w.on_message(WM_CLOSE, 0), QueueReply::Return(0));
    assert_eq!(w.next_event(FlatDecoded::Empty), Some(Event::Quit));
}

#[test]
fn direct_keys_bypass_the_queue() {
    let mut w = Window::new(3);
    assert_eq!(w.on_message(WM_SIZE, 0), QueueReply::Return(0));
    assert_eq!(w.next_event(FlatDecoded::Direct(Event::Escape)), Some(Event::Escape));
    assert_eq!(w.next_event(FlatDecoded::Dispatch), Some(Event::Resize));
    assert_eq!(w.next_event(FlatDecoded::Direct(Event::Function(3))), Some(Event::Function(3)));
    assert_eq!(w.next_event(FlatDecoded::Empty), None);
}
