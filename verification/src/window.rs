//! Window styles and the state a window keeps between messages: its pixel
//! buffer, the bitmap that describes it, its client area and its event queue.
use vstd::prelude::*;
use crossbeam_queue::SegQueue;
use crate::constants::{
    WS_CAPTION, WS_SYSMENU, WS_THICKFRAME, WS_MINIMIZEBOX, WS_MAXIMIZEBOX, WS_VISIBLE, WS_POPUP,
    CW_USEDEFAULT, WM_DESTROY, WM_CLOSE, WM_SIZE, WM_DPICHANGED, LOWORD, HIWORD,
};
use crate::gdi::{BITMAPINFO, is_top_down_bitmap};
use crate::queue::{queued_events, new_event_queue, push_event, pop_event};
use crate::rect::Rect;
use crate::types::{Event, low_word_of, high_word_of};

verus! {

/// Style of an ordinary top-level window: caption, system menu, sizing
/// border, minimize and maximize boxes, visible.
pub const DEFAULT_STYLE: u32 = WS_CAPTION | WS_SYSMENU | WS_THICKFRAME | WS_MINIMIZEBOX
    | WS_MAXIMIZEBOX | WS_VISIBLE;

/// Style of a visible pop-up window without any border.
pub const BORDERLESS_STYLE: u32 = WS_POPUP | WS_VISIBLE;

/// The style and extended style a window is created with.
#[derive(Debug, Clone, Copy, PartialEq, Eq, Structural)]
pub struct WindowStyle {
    pub style: u32,
    pub exstyle: u32,
}

impl WindowStyle {
    /// The default style with no extended style bits.
    pub fn standard() -> (r: Self)
        ensures
            r == (WindowStyle { style: DEFAULT_STYLE, exstyle: 0 }),
    {
        WindowStyle { style: DEFAULT_STYLE, exstyle: 0 }
    }

    /// The borderless style with no extended style bits.
    pub fn borderless() -> (r: Self)
        ensures
            r == (WindowStyle { style: BORDERLESS_STYLE, exstyle: 0 }),
    {
        WindowStyle { style: BORDERLESS_STYLE, exstyle: 0 }
    }

    /// Adds extended style bits.
    pub fn ex_style(self, flags: u32) -> (r: Self)
        ensures
            r == (WindowStyle { exstyle: self.exstyle | flags, ..self }),
    {
        let mut s = self;
        s.exstyle = s.exstyle | flags;
        s
    }

    /// Adds style bits.
    pub fn style(self, flags: u32) -> (r: Self)
        ensures
            r == (WindowStyle { style: self.style | flags, ..self }),
    {
        let mut s = self;
        s.style = s.style | flags;
        s
    }
}

impl Default for WindowStyle {
    fn default() -> (r: Self)
        ensures
            r == (WindowStyle { style: DEFAULT_STYLE, exstyle: 0 }),
    {
        WindowStyle::standard()
    }
}

/// Adding style bits twice is the same as adding both at once, in either
/// order, and adding bits already present changes nothing.
pub proof fn lemma_style_bits_accumulate(s: u32, a: u32, b: u32)
    ensures
        (s | a) | b == s | (a | b),
        (s | a) | b == (s | b) | a,
        (s | a) | a == s | a,
        s | 0 == s,
{
    assert((s | a) | b == s | (a | b)) by (bit_vector);
    assert((s | a) | b == (s | b) | a) by (bit_vector);
    assert((s | a) | a == s | a) by (bit_vector);
    assert(s | 0 == s) by (bit_vector);
}

/// The coordinate a window is created at: 0 asks the system to choose.
pub fn window_coordinate(v: i32) -> (r: i32)
    ensures
        r == if v == 0 { CW_USEDEFAULT } else { v },
{
    if v == 0 {
        CW_USEDEFAULT
    } else {
        v
    }
}

/// The product of two 16-bit sizes is below 2^32 and so fits in `usize`.
proof fn lemma_u16_product_fits(width: u16, height: u16)
    ensures
        width * height <= 0xFFFF_FFFF,
        width * height <= usize::MAX,
{
    assert(width * height <= 0xFFFF * 0xFFFF) by (nonlinear_arith)
        requires
            width <= 0xFFFF,
            height <= 0xFFFF,
    ;
}

/// What the window procedure must still do after [`WindowState::on_message`].
#[derive(Debug, Clone, Copy, PartialEq, Eq, Structural)]
pub enum WndReply {
    /// The window is closing: `Event::Quit` was queued.
    Closed,
    /// The client area was resized and the buffer reallocated.
    Resized,
    /// The display scale changed; the window must be resized to match.
    DpiChanged,
    /// Not handled here; the default window procedure handles it.
    Default,
}

/// The pixel buffer of a window, the bitmap header that describes it, the
/// client area it covers and the events the window procedure queued.
pub struct WindowState {
    pub buffer: Vec<u32>,
    pub bitmap: BITMAPINFO,
    pub area: Rect,
    pub queue: SegQueue<Event>,
}

impl WindowState {
    /// The buffer holds one pixel for each point of the area, and the bitmap
    /// describes a top-down bitmap of the area's size.
    pub open spec fn wf(&self) -> bool {
        &&& self.area.width <= i32::MAX
        &&& self.area.height <= i32::MAX
        &&& self.buffer@.len() == self.area.width * self.area.height
        &&& is_top_down_bitmap(self.bitmap, self.area.width as i32, self.area.height as i32)
    }

    /// Events waiting in the queue, oldest first.
    pub open spec fn events(&self) -> Seq<Event> {
        queued_events(self.queue)
    }

    /// A black buffer covering `area`, with an empty event queue.
    pub fn new(area: Rect) -> (r: Self)
        requires
            area.width <= i32::MAX,
            area.height <= i32::MAX,
            area.width * area.height <= usize::MAX,
        ensures
            r.wf(),
            r.area == area,
            forall|i: int| 0 <= i < r.buffer@.len() ==> r.buffer@[i] == 0,
            r.events() == Seq::<Event>::empty(),
    {
        let n = area.width * area.height;
        let buffer = vec![0u32; n];
        WindowState {
            buffer,
            bitmap: BITMAPINFO::new(area.width as i32, area.height as i32),
            area,
            queue: new_event_queue(),
        }
    }

    /// Width of the client area in pixels.
    pub fn width(&self) -> (r: usize)
        ensures
            r == self.area.width,
    {
        self.area.width
    }

    /// Height of the client area in pixels.
    pub fn height(&self) -> (r: usize)
        ensures
            r == self.area.height,
    {
        self.area.height
    }

    /// Queues an event for [`WindowState::queued_event`].
    pub fn push(&mut self, event: Event)
        ensures
            final(self).events() == old(self).events().push(event),
            old(self).wf() ==> final(self).wf(),
            final(self).buffer@ == old(self).buffer@,
            final(self).area == old(self).area,
            final(self).bitmap == old(self).bitmap,
    {
        push_event(&mut self.queue, event);
    }

    /// The oldest queued event, removed from the queue, if there is one.
    pub fn queued_event(&mut self) -> (r: Option<Event>)
        ensures
            (r, final(self).events()) == dequeued(old(self).events()),
            old(self).wf() ==> final(self).wf(),
            final(self).buffer@ == old(self).buffer@,
            final(self).area == old(self).area,
            final(self).bitmap == old(self).bitmap,
    {
        pop_event(&mut self.queue)
    }

    /// Replaces the buffer with a black one of `width × height` pixels and
    /// updates the bitmap and the area to match.
    pub fn resize(&mut self, width: u16, height: u16)
        ensures
            final(self).wf(),
            final(self).area == (Rect { x: 0, y: 0, width: width as usize, height: height as usize }),
            final(self).buffer@.len() == width * height,
            forall|i: int| 0 <= i < final(self).buffer@.len() ==> final(self).buffer@[i] == 0,
            final(self).events() == old(self).events(),
    {
        let w = width as usize;
        let h = height as usize;
        proof {
            lemma_u16_product_fits(width, height);
        }
        self.buffer.clear();
        self.buffer.resize(w * h, 0);
        self.bitmap = BITMAPINFO::new(width as i32, height as i32);
        self.area = Rect::new(0, 0, w, h);
    }

    /// The part of the window procedure that works on the window's own state:
    /// a close or destroy message queues `Event::Quit`, a size message
    /// resizes the buffer to the new client size in `l_param` (width in the
    /// low word, height in the high word).
    pub fn on_message(&mut self, msg: u32, l_param: isize) -> (r: WndReply)
        ensures
            old(self).wf() ==> final(self).wf(),
            msg == WM_DESTROY || msg == WM_CLOSE ==> r == WndReply::Closed
                && final(self).events() == old(self).events().push(Event::Quit)
                && final(self).buffer@ == old(self).buffer@ && final(self).area == old(self).area
                && final(self).bitmap == old(self).bitmap,
            msg == WM_SIZE ==> r == WndReply::Resized && final(self).wf() && final(self).area == (
            Rect {
                x: 0,
                y: 0,
                width: low_word_of(l_param as int) as usize,
                height: high_word_of(l_param as int) as usize,
            }) && (forall|i: int|
                0 <= i < final(self).buffer@.len() ==> final(self).buffer@[i] == 0)
                && final(self).events() == old(self).events(),
            msg == WM_DPICHANGED ==> r == WndReply::DpiChanged && *final(self) == *old(self),
            !(msg == WM_DESTROY || msg == WM_CLOSE || msg == WM_SIZE || msg == WM_DPICHANGED) ==> r
                == WndReply::Default && *final(self) == *old(self),
    {
        if msg == WM_DESTROY || msg == WM_CLOSE {
            self.push(Event::Quit);
            WndReply::Closed
        } else if msg == WM_SIZE {
            let bits = l_param as u32;
            proof {
                assert((l_param as u32) % 0x10000 == (l_param as int) % 0x10000) by (bit_vector);
                assert((l_param as u32) / 0x10000 == ((l_param as int) / 0x10000) % 0x10000)
                    by (bit_vector);
            }
            let width = LOWORD(bits);
            let height = HIWORD(bits);
            self.resize(width, height);
            WndReply::Resized
        } else if msg == WM_DPICHANGED {
            WndReply::DpiChanged
        } else {
            WndReply::Default
        }
    }
}


/// Taking the oldest event from a queue holding `pending`: the event and
/// what stays queued, or nothing when the queue is empty.
pub open spec fn dequeued(pending: Seq<Event>) -> (Option<Event>, Seq<Event>) {
    if pending.len() == 0 {
        (None, pending)
    } else {
        (Some(pending[0]), pending.drop_first())
    }
}

/// The queue hands events out in the order they were queued: after `e` is
/// queued behind `pending`, the next event taken is the oldest pending one,
/// or `e` itself when nothing was pending, and `e` stays behind the rest.
pub proof fn lemma_queue_first_in_first_out(pending: Seq<Event>, e: Event)
    ensures
        pending.len() == 0 ==> dequeued(pending.push(e)) == (Some(e), Seq::<Event>::empty()),
        pending.len() > 0 ==> dequeued(pending.push(e)) == (Some(pending[0]), pending.drop_first().push(
            e,
        )),
{
    assert(pending.len() == 0 ==> pending.push(e).drop_first() =~= Seq::<Event>::empty());
    assert(pending.len() > 0 ==> pending.push(e).drop_first() =~= pending.drop_first().push(e));
}

} // verus!
