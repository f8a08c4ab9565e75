//! Monitor description records.
use vstd::prelude::*;
use crate::types::RECT;

verus! {

pub const MONITOR_DEFAULTTONULL: u32 = 0x00000000;
pub const MONITOR_DEFAULTTOPRIMARY: u32 = 0x00000001;
pub const MONITOR_DEFAULTTONEAREST: u32 = 0x00000002;

/// Size in bytes of the C `MONITORINFO` record; `GetMonitorInfoA` expects
/// it in `cbSize`.
pub const MONITORINFO_SIZE: u32 = 40;

#[derive(Debug, Clone, Copy, PartialEq, Eq, Structural)]
pub struct MONITORINFO {
    pub cbSize: u32,
    pub rcMonitor: RECT,
    pub rcWork: RECT,
    pub dwFlags: u32,
}

impl Default for MONITORINFO {
    /// An empty record whose size field is already set.
    fn default() -> (r: Self)
        ensures
            r == (MONITORINFO {
                cbSize: MONITORINFO_SIZE,
                rcMonitor: RECT { left: 0, top: 0, right: 0, bottom: 0 },
                rcWork: RECT { left: 0, top: 0, right: 0, bottom: 0 },
                dwFlags: 0,
            }),
    {
        MONITORINFO {
            cbSize: MONITORINFO_SIZE,
            rcMonitor: RECT { left: 0, top: 0, right: 0, bottom: 0 },
            rcWork: RECT { left: 0, top: 0, right: 0, bottom: 0 },
            dwFlags: 0,
        }
    }
}

} // verus!
