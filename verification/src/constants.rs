//! Win32 message, virtual-key and style constants used by the library.
use vstd::prelude::*;

verus! {

pub const WM_CREATE: u32 = 0x0001;
pub const WM_DESTROY: u32 = 0x0002;
pub const WM_MOVE: u32 = 0x0003;
pub const WM_SIZE: u32 = 0x0005;
pub const WM_PAINT: u32 = 0x000F;
pub const WM_CLOSE: u32 = 0x0010;
pub const WM_ERASEBKGND: u32 = 0x0014;
pub const WM_KEYDOWN: u32 = 0x0100;
pub const WM_MOUSEMOVE: u32 = 0x0200;
pub const WM_LBUTTONDOWN: u32 = 0x0201;
pub const WM_LBUTTONUP: u32 = 0x0202;
pub const WM_LBUTTONDBLCLK: u32 = 0x0203;
pub const WM_RBUTTONDOWN: u32 = 0x0204;
pub const WM_RBUTTONUP: u32 = 0x0205;
pub const WM_RBUTTONDBLCLK: u32 = 0x0206;
pub const WM_MBUTTONDOWN: u32 = 0x0207;
pub const WM_MBUTTONUP: u32 = 0x0208;
pub const WM_MBUTTONDBLCLK: u32 = 0x0209;
pub const WM_MOUSEWHEEL: u32 = 0x020A;
pub const WM_XBUTTONDOWN: u32 = 0x020B;
pub const WM_XBUTTONUP: u32 = 0x020C;
pub const WM_XBUTTONDBLCLK: u32 = 0x020D;
pub const WM_DPICHANGED: u32 = 0x02E0;
pub const WM_GETDPISCALEDSIZE: u32 = 0x02E4;
pub const WM_APP: u32 = 0x8000;

pub const PM_REMOVE: u32 = 0x0001;

pub const VK_BACK: i32 = 0x08;
pub const VK_TAB: i32 = 0x09;
pub const VK_RETURN: i32 = 0x0D;
pub const VK_SHIFT: i32 = 0x10;
pub const VK_CONTROL: i32 = 0x11;
pub const VK_MENU: i32 = 0x12;
pub const VK_PAUSE: i32 = 0x13;
pub const VK_ESCAPE: i32 = 0x1B;
pub const VK_SPACE: i32 = 0x20;
pub const VK_PRIOR: i32 = 0x21;
pub const VK_NEXT: i32 = 0x22;
pub const VK_END: i32 = 0x23;
pub const VK_HOME: i32 = 0x24;
pub const VK_LEFT: i32 = 0x25;
pub const VK_UP: i32 = 0x26;
pub const VK_RIGHT: i32 = 0x27;
pub const VK_DOWN: i32 = 0x28;
pub const VK_SNAPSHOT: i32 = 0x2C;
pub const VK_INSERT: i32 = 0x2D;
pub const VK_DELETE: i32 = 0x2E;
pub const VK_LWIN: i32 = 0x5B;
pub const VK_RWIN: i32 = 0x5C;
pub const VK_APPS: i32 = 0x5D;
pub const VK_F1: i32 = 0x70;
pub const VK_F24: i32 = 0x87;
pub const VK_SCROLL: i32 = 0x91;
pub const VK_LSHIFT: i32 = 0xA0;
pub const VK_RSHIFT: i32 = 0xA1;
pub const VK_LCONTROL: i32 = 0xA2;
pub const VK_RCONTROL: i32 = 0xA3;
pub const VK_LMENU: i32 = 0xA4;
pub const VK_RMENU: i32 = 0xA5;
pub const VK_OEM_1: i32 = 0xBA;
pub const VK_OEM_PLUS: i32 = 0xBB;
pub const VK_OEM_COMMA: i32 = 0xBC;
pub const VK_OEM_MINUS: i32 = 0xBD;
pub const VK_OEM_PERIOD: i32 = 0xBE;
pub const VK_OEM_2: i32 = 0xBF;
pub const VK_OEM_3: i32 = 0xC0;
pub const VK_OEM_4: i32 = 0xDB;
pub const VK_OEM_5: i32 = 0xDC;
pub const VK_OEM_6: i32 = 0xDD;
pub const VK_OEM_7: i32 = 0xDE;

pub const WS_OVERLAPPED: u32 = 0x0000_0000;
pub const WS_POPUP: u32 = 0x8000_0000;
pub const WS_VISIBLE: u32 = 0x1000_0000;
pub const WS_CAPTION: u32 = 0x00C0_0000;
pub const WS_SYSMENU: u32 = 0x0008_0000;
pub const WS_THICKFRAME: u32 = 0x0004_0000;
pub const WS_MINIMIZEBOX: u32 = 0x0002_0000;
pub const WS_MAXIMIZEBOX: u32 = 0x0001_0000;
pub const WS_OVERLAPPEDWINDOW: u32 = 0x00CF_0000;
pub const WS_EX_TOPMOST: u32 = 0x0000_0008;
pub const WS_EX_LAYERED: u32 = 0x0008_0000;

pub const CW_USEDEFAULT: i32 = -2147483648i32;

pub const SWP_NOSIZE: u32 = 0x0001;
pub const SWP_NOMOVE: u32 = 0x0002;
pub const SWP_NOZORDER: u32 = 0x0004;
pub const SWP_NOACTIVATE: u32 = 0x0010;
pub const SWP_FRAMECHANGED: u32 = 0x0020;

pub const GWL_STYLE: i32 = -16i32;
pub const GWLP_USERDATA: i32 = -21i32;

pub const SM_XVIRTUALSCREEN: i32 = 76;
pub const SM_YVIRTUALSCREEN: i32 = 77;
pub const SM_CXVIRTUALSCREEN: i32 = 78;
pub const SM_CYVIRTUALSCREEN: i32 = 79;

/// The low 16 bits of a message parameter.
pub fn LOWORD(l: u32) -> (r: u16)
    ensures
        r == l % 0x10000,
{
    proof {
        assert((l & 0xFFFF) == l % 0x10000) by (bit_vector);
    }
    (l & 0xFFFF) as u16
}

/// Bits 16 to 31 of a message parameter.
pub fn HIWORD(l: u32) -> (r: u16)
    ensures
        r == l / 0x10000,
{
    proof {
        assert(((l >> 16) & 0xFFFF) == l / 0x10000) by (bit_vector);
    }
    ((l >> 16) & 0xFFFF) as u16
}

/// The two words of a parameter put back together give the parameter.
pub proof fn lemma_words_recombine(l: u32)
    ensures
        (l / 0x10000) * 0x10000 + l % 0x10000 == l,
        l / 0x10000 < 0x10000,
{
}

} // verus!
