//! Plain data types shared by the message decoder and the window code.
use vstd::prelude::*;

verus! {

/// A point in screen or client coordinates.
#[derive(Debug, Clone, Copy, PartialEq, Eq, Structural)]
pub struct Point {
    pub x: i32,
    pub y: i32,
}

/// A Win32 rectangle given by its four edges.
#[derive(Debug, Clone, Copy, PartialEq, Eq, Structural)]
pub struct RECT {
    pub left: i32,
    pub top: i32,
    pub right: i32,
    pub bottom: i32,
}

impl RECT {
    /// Horizontal extent, `right - left`.
    pub fn width(&self) -> (r: i32)
        requires
            i32::MIN <= self.right - self.left <= i32::MAX,
        ensures
            r == self.right - self.left,
    {
        self.right - self.left
    }

    /// Vertical extent, `bottom - top`.
    pub fn height(&self) -> (r: i32)
        requires
            i32::MIN <= self.bottom - self.top <= i32::MAX,
        ensures
            r == self.bottom - self.top,
    {
        self.bottom - self.top
    }

    /// Builds a rectangle whose left/top edge is `(x, y)` and whose right
    /// and bottom edges are the given `width` and `height` values.
    pub fn new(x: i32, y: i32, width: i32, height: i32) -> (r: Self)
        ensures
            r == (RECT { left: x, top: y, right: width, bottom: height }),
    {
        RECT { left: x, top: y, right: width, bottom: height }
    }
}


/// Raw Win32 message as filled in by `PeekMessageA` / `GetMessageA`.
#[derive(Debug, Clone, Copy, PartialEq, Eq, Structural)]
pub struct MSG {
    pub hwnd: isize,
    pub message: u32,
    pub w_param: usize,
    pub l_param: isize,
    pub time: u32,
    pub pt: Point,
}

/// Bits 0..16 of a signed message parameter, as a value in `0..65536`.
pub open spec fn low_word_of(v: int) -> int {
    v % 0x10000
}

/// Bits 16..32 of a signed message parameter, as a value in `0..65536`.
pub open spec fn high_word_of(v: int) -> int {
    (v / 0x10000) % 0x10000
}

impl MSG {
    /// Bits 16..32 of `l_param` (the y coordinate of a mouse message).
    pub fn low_order_l(&self) -> (r: isize)
        ensures
            r == high_word_of(self.l_param as int),
    {
        let l = self.l_param;
        proof {
            lemma_isize_high_word(l);
        }
        l >> 16 & 0xFFFF
    }

    /// Bits 0..16 of `l_param` (the x coordinate of a mouse message).
    pub fn high_order_l(&self) -> (r: isize)
        ensures
            r == low_word_of(self.l_param as int),
    {
        let l = self.l_param;
        proof {
            lemma_isize_low_word(l);
        }
        l & 0xFFFF
    }

    /// Bits 16..32 of `w_param`.
    pub fn low_order_w(&self) -> (r: usize)
        ensures
            r == high_word_of(self.w_param as int),
    {
        let w = self.w_param;
        proof {
            assert(((w >> 16) & 0xFFFF) == (w / 0x10000) % 0x10000) by (bit_vector);
        }
        w >> 16 & 0xFFFF
    }

    /// Bits 0..16 of `w_param`.
    pub fn high_order_w(&self) -> (r: usize)
        ensures
            r == low_word_of(self.w_param as int),
    {
        let w = self.w_param;
        proof {
            assert((w & 0xFFFF) == w % 0x10000) by (bit_vector);
        }
        w & 0xFFFF
    }

    /// An all-zero message.
    pub fn new() -> (r: Self)
        ensures
            r == (MSG { hwnd: 0, message: 0, w_param: 0, l_param: 0, time: 0, pt: Point { x: 0, y: 0 } }),
    {
        MSG { hwnd: 0, message: 0, w_param: 0, l_param: 0, time: 0, pt: Point { x: 0, y: 0 } }
    }
}

proof fn lemma_isize_low_word(l: isize)
    ensures
        (l & 0xFFFF) as int == low_word_of(l as int),
{
    assert((l & 0xFFFF) as int == (l as int) % 0x10000) by (bit_vector);
}

proof fn lemma_isize_high_word(l: isize)
    ensures
        ((l >> 16) & 0xFFFF) as int == high_word_of(l as int),
{
    assert(((l >> 16) & 0xFFFF) as int == ((l as int) / 0x10000) % 0x10000) by (bit_vector);
}


/// Window geometry and style as reported by `GetWindowInfo`.
#[derive(Debug, Clone, Copy, PartialEq, Eq, Structural)]
pub struct WindowInfo {
    pub size: u32,
    pub window: RECT,
    pub client: RECT,
    pub style: u32,
    pub ex_style: u32,
    pub window_status: u32,
    pub window_borders_x: u32,
    pub window_borders_y: u32,
    pub window_type: u16,
    pub creator_version: u16,
}

/// A single modifier key.
#[derive(Debug, Clone, Copy, PartialEq, Eq, Structural)]
pub enum Modifier {
    NoModifier,
    LeftControl,
    LeftShift,
    LeftAlt,
    RightControl,
    RightShift,
    RightAlt,
}

/// Which modifier keys were held when a message was read.
#[derive(Debug, Clone, Copy, PartialEq, Eq, Structural)]
pub struct Modifiers {
    pub control: bool,
    pub shift: bool,
    pub alt: bool,
    pub win: bool,
}

/// A key or mouse button named by an input event.
#[derive(Debug, Clone, Copy, PartialEq, Eq, Structural)]
pub enum Key {
    Char(char),
    Function(u8),
    Enter,
    Backspace,
    Escape,
    Control,
    Shift,
    Alt,
    Tab,
    Up,
    Down,
    Left,
    Right,
    LeftMouseDown,
    LeftMouseUp,
    LeftMouseDoubleClick,
    MiddleMouseDown,
    MiddleMouseUp,
    MiddleMouseDoubleClick,
    RightMouseDown,
    RightMouseUp,
    RightMouseDoubleClick,
    Mouse4Down,
    Mouse4Up,
    Mouse4DoubleClick,
    Mouse5Down,
    Mouse5Up,
    Mouse5DoubleClick,
    ScrollUp,
    ScrollDown,
    Unknown(u16),
    LeftWindows,
    RightWindows,
    Menu,
    ScrollLock,
    PauseBreak,
    Insert,
    Home,
    Delete,
    End,
    PageUp,
    PageDown,
    PrintScreen,
}

/// An event read from the message queue of a window or thread.
#[derive(Debug, Clone, Copy, PartialEq, Eq, Structural)]
pub enum Event {
    Quit,
    /// Mouse movement inside the window; `(0, 0)` is its top left corner.
    Mouse(i32, i32),
    /// Mouse movement anywhere on the screen, from the low-level mouse hook.
    MouseMoveGlobal(i32, i32),
    Move,
    Dpi(usize),
    Input(Key, Modifiers),
}

} // verus!
