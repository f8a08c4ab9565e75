//! Notification-area (tray) icons.
use vstd::prelude::*;
use crate::constants::WM_APP;

verus! {

pub const NIF_MESSAGE: u32 = 0x00000001;
pub const NIF_ICON: u32 = 0x00000002;
pub const NIF_TIP: u32 = 0x00000004;
pub const NIF_STATE: u32 = 0x00000008;
pub const NIF_INFO: u32 = 0x00000010;

pub const NIM_ADD: u32 = 0x00000000;
pub const NIM_MODIFY: u32 = 0x00000001;
pub const NIM_DELETE: u32 = 0x00000002;
pub const NIM_SETVERSION: u32 = 0x00000004;

pub const NIS_HIDDEN: u32 = 0x00000001;
pub const NIS_SHAREDICON: u32 = 0x00000002;

pub const NIIF_NONE: u32 = 0x00000000;
pub const NIIF_INFO: u32 = 0x00000001;
pub const NIIF_WARNING: u32 = 0x00000002;
pub const NIIF_ERROR: u32 = 0x00000003;
pub const NIIF_USER: u32 = 0x00000004;

/// Message the tray icon sends to its window.
pub const WM_TRAYICON: u32 = WM_APP + 1;

/// The flags a new tray icon is added with: it has a callback message, an
/// icon and a tooltip.
pub const TRAY_ICON_FLAGS: u32 = NIF_MESSAGE | NIF_ICON | NIF_TIP;

/// The 128-byte tooltip field of a tray icon: the first 127 bytes of
/// `tooltip` at most, followed by zeros, so that the field always ends in a
/// terminating zero.
pub fn tooltip_field(tooltip: &[u8]) -> (r: [u8; 128])
    ensures
        forall|i: int| 0 <= i < 128 ==> r@[i] == if i < tooltip@.len() && i < 127 {
            tooltip@[i]
        } else {
            0u8
        },
{
    let mut field = [0u8; 128];
    let tip_len = if tooltip.len() < 127 {
        tooltip.len()
    } else {
        127
    };
    let mut i: usize = 0;
    while i < tip_len
        invariant
            tip_len <= 127,
            tip_len <= tooltip@.len(),
            tip_len == tooltip@.len() || tip_len == 127,
            i <= tip_len,
            forall|j: int| 0 <= j < i ==> field@[j] == tooltip@[j],
            forall|j: int| i <= j < 128 ==> field@[j] == 0u8,
        decreases tip_len - i,
    {
        field[i] = tooltip[i];
        i = i + 1;
    }
    field[tip_len] = 0;
    field
}

} // verus!
