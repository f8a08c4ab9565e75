//! Text for the clipboard.
use vstd::prelude::*;

verus! {

pub const GMEM_FIXED: u32 = 0x0000;
pub const GMEM_MOVEABLE: u32 = 0x0002;
pub const GMEM_ZEROINIT: u32 = 0x0040;
pub const GHND: u32 = GMEM_MOVEABLE | GMEM_ZEROINIT;
pub const GPTR: u32 = GMEM_FIXED | GMEM_ZEROINIT;

pub const CF_TEXT: u32 = 1;
pub const CF_UNICODETEXT: u32 = 13;

/// The `CF_TEXT` payload for `text`: its bytes followed by a terminating
/// zero, filling an allocation of `text.len() + 1` bytes.
pub fn clipboard_text(text: &[u8]) -> (r: Vec<u8>)
    requires
        text@.len() < usize::MAX,
    ensures
        r@ == text@.push(0u8),
        r@.len() == text@.len() + 1,
{
    let mut out: Vec<u8> = Vec::with_capacity(text.len() + 1);
    let mut i: usize = 0;
    while i < text.len()
        invariant
            i <= text@.len(),
            out@ == text@.subrange(0, i as int),
        decreases text@.len() - i,
    {
        out.push(text[i]);
        i = i + 1;
    }
    out.push(0);
    assert(text@.subrange(0, text@.len() as int) == text@);
    out
}

} // verus!
