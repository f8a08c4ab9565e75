//! Bitmap description for presenting a software frame buffer.
use vstd::prelude::*;
use crate::gdi::{BITMAPINFO, BITMAPINFOHEADER, RGBQUAD, BITMAPINFOHEADER_SIZE, is_top_down_bitmap};

verus! {

/// The description of a top-down 32-bit bitmap of `width × height` pixels.
pub fn create_bitmap(width: i32, height: i32) -> (r: BITMAPINFO)
    requires
        height > i32::MIN,
    ensures
        is_top_down_bitmap(r, width, height),
{
    let r = BITMAPINFO {
        header: BITMAPINFOHEADER {
            size: BITMAPINFOHEADER_SIZE,
            width,
            height: -height,
            planes: 1,
            bit_count: 32,
            compression: 0,
            size_image: 0,
            x_pels_per_meter: 0,
            y_pels_per_meter: 0,
            clr_used: 0,
            clr_important: 0,
        },
        colors: [RGBQUAD { blue: 0, green: 0, red: 0, reserved: 0 }],
    };
    assert(r.colors@ =~= seq![RGBQUAD { blue: 0, green: 0, red: 0, reserved: 0 }]);
    r
}

} // verus!
