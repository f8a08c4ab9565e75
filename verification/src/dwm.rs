//! Desktop Window Manager colours.
use vstd::prelude::*;

verus! {

/// The accent colour as `0x00BBGGRR`-ordered bytes, from the ARGB value
/// `DwmGetColorizationColor` reports: the red, green and blue bytes keep their
/// places and the alpha byte is dropped.
pub fn accent_rgb(color: u32) -> (r: u32)
    ensures
        r == color % 0x0100_0000,
        r / 0x10000 == (color / 0x10000) % 0x100,
        (r / 0x100) % 0x100 == (color / 0x100) % 0x100,
        r % 0x100 == color % 0x100,
{
    let r = (color & 0xFF) as u8;
    let g = ((color >> 8) & 0xFF) as u8;
    let b = ((color >> 16) & 0xFF) as u8;
    let out = (b as u32) << 16 | (g as u32) << 8 | (r as u32);
    proof {
        assert(((((color >> 16) & 0xFF) as u8) as u32) << 16 | ((((color >> 8) & 0xFF) as u8) as u32) << 8
            | (((color & 0xFF) as u8) as u32) == color % 0x0100_0000) by (bit_vector);
    }
    out
}

} // verus!
