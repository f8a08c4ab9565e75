//! Opting a window into the dark title bar and translucent backgrounds
//! through `SetWindowCompositionAttribute`.
use vstd::prelude::*;

verus! {

/// Window composition attribute that selects dark-mode colours.
pub const WCA_USEDARKMODECOLORS: u32 = 26;
/// Window composition attribute that sets the accent (blur) policy.
pub const WCA_ACCENT_POLICY: u32 = 19;
/// Value of `WCA_USEDARKMODECOLORS` that turns dark mode on.
pub const DARK_MODE: i32 = 1;
/// First Windows build (version 1809) with `SetWindowCompositionAttribute`
/// dark-mode colours.
pub const MIN_DARK_MODE_BUILD: u32 = 17763;

pub const ACCENT_DISABLED: u32 = 0;
pub const ACCENT_ENABLE_TRANSPARENTGRADIENT: u32 = 2;
pub const ACCENT_ENABLE_BLURBEHIND: u32 = 3;
pub const ACCENT_ENABLE_ACRYLICBLURBEHIND: u32 = 4;
pub const ACCENT_ENABLE_HOSTBACKDROP: u32 = 5;

/// Checks what `RtlGetVersion` reported: the call must have succeeded
/// (non-negative status) and the build must be at least 1809.
pub fn check_windows_version(build_number: u32, status: i32) -> (r: Result<(), &'static str>)
    ensures
        r is Ok <==> build_number >= MIN_DARK_MODE_BUILD && status >= 0,
        r is Err ==> r == Err::<(), &'static str>("Window version must be 1809 or above."),
{
    if build_number < MIN_DARK_MODE_BUILD || status < 0 {
        return Err("Window version must be 1809 or above.");
    }
    Ok(())
}

/// Interprets the return value of `SetWindowCompositionAttribute`: non-zero
/// means success.
pub fn composition_result(ret: i32) -> (r: Result<(), &'static str>)
    ensures
        r is Ok <==> ret != 0,
        r is Err ==> r == Err::<(), &'static str>("Call to SetWindowCompositionAttribute failed."),
{
    if ret != 0 {
        Ok(())
    } else {
        Err("Call to SetWindowCompositionAttribute failed.")
    }
}

} // verus!
