//! GDI bitmap descriptions for drawing a 32-bit pixel buffer.
use vstd::prelude::*;

verus! {

pub const SRCCOPY: u32 = 0x00CC0020;
pub const DEFAULT_CHARSET: u32 = 1;
pub const OUT_OUTLINE_PRECIS: u32 = 8;
pub const CLIP_DEFAULT_PRECIS: u32 = 0;
pub const CLEARTYPE_QUALITY: u32 = 5;
pub const TRANSPARENT: i32 = 1;
pub const RGN_AND: i32 = 1;
pub const AC_SRC_OVER: u8 = 0x00;
pub const AC_SRC_ALPHA: u8 = 0x01;
pub const DIB_RGB_COLORS: u32 = 0;
pub const DIB_PAL_COLORS: u32 = 1;

#[derive(Debug, Clone, Copy, PartialEq, Eq, Structural)]
pub struct BITMAPINFOHEADER {
    pub size: u32,
    pub width: i32,
    pub height: i32,
    pub planes: u16,
    pub bit_count: u16,
    pub compression: u32,
    pub size_image: u32,
    pub x_pels_per_meter: i32,
    pub y_pels_per_meter: i32,
    pub clr_used: u32,
    pub clr_important: u32,
}

/// Size in bytes of the C `BITMAPINFOHEADER` record that GDI reads.
pub const BITMAPINFOHEADER_SIZE: u32 = 40;

#[derive(Debug, Clone, Copy, PartialEq, Eq, Structural)]
pub struct RGBQUAD {
    pub blue: u8,
    pub green: u8,
    pub red: u8,
    pub reserved: u8,
}

#[derive(Debug, Clone, Copy)]
pub struct BITMAPINFO {
    pub header: BITMAPINFOHEADER,
    pub colors: [RGBQUAD; 1],
}

#[derive(Debug, Clone, Copy, PartialEq, Eq, Structural)]
pub struct BLENDFUNCTION {
    pub BlendOp: u8,
    pub BlendFlags: u8,
    pub SourceConstantAlpha: u8,
    pub AlphaFormat: u8,
}

/// Describes an uncompressed top-down bitmap of `width × height` pixels
/// with 32 bits per pixel: the header carries the negated height, which is
/// how GDI marks a bitmap whose first row is the top one.
pub open spec fn is_top_down_bitmap(info: BITMAPINFO, width: i32, height: i32) -> bool {
    &&& info.header == BITMAPINFOHEADER {
        size: BITMAPINFOHEADER_SIZE,
        width,
        height: -height as i32,
        planes: 1,
        bit_count: 32,
        compression: 0,
        size_image: 0,
        x_pels_per_meter: 0,
        y_pels_per_meter: 0,
        clr_used: 0,
        clr_important: 0,
    }
    &&& info.colors@ == seq![RGBQUAD { blue: 0, green: 0, red: 0, reserved: 0 }]
}

/// The description of a top-down bitmap is determined by its size: two
/// descriptions of the same size are identical.
pub proof fn lemma_bitmap_determined_by_size(a: BITMAPINFO, b: BITMAPINFO, width: i32, height: i32)
    requires
        is_top_down_bitmap(a, width, height),
        is_top_down_bitmap(b, width, height),
    ensures
        a.header == b.header,
        a.colors@ == b.colors@,
{
}

impl BITMAPINFO {
    /// The description of a top-down 32-bit bitmap of the given size.
    pub fn new(width: i32, height: i32) -> (r: BITMAPINFO)
        requires
            height > i32::MIN,
        ensures
            is_top_down_bitmap(r, width, height),
    {
        let r = BITMAPINFO {
            header: BITMAPINFOHEADER {
                size: BITMAPINFOHEADER_SIZE,
                width,
                height: -height,
                planes: 1,
                bit_count: 32,
                compression: 0,
                size_image: 0,
                x_pels_per_meter: 0,
                y_pels_per_meter: 0,
                clr_used: 0,
                clr_important: 0,
            },
            colors: [RGBQUAD { blue: 0, green: 0, red: 0, reserved: 0 }],
        };
        assert(r.colors@ =~= seq![RGBQUAD { blue: 0, green: 0, red: 0, reserved: 0 }]);
        r
    }
}

} // verus!
