//! Making the orb non-activating: read the window's extended style, add the
//! no-activate, tool-window and topmost bits, and write it back. A zero style
//! read back is a failure of the read; the write fails when it returns zero
//! with a non-zero last error.
use vstd::prelude::*;

use crate::error::AppError;

verus! {

/// `WS_EX_NOACTIVATE`: clicking the window does not activate it.
pub const WS_EX_NOACTIVATE: isize = 0x0800_0000;

/// `WS_EX_TOOLWINDOW`: the window stays out of the taskbar and Alt+Tab.
pub const WS_EX_TOOLWINDOW: isize = 0x0000_0080;

/// `WS_EX_TOPMOST`: the window stays above non-topmost windows.
pub const WS_EX_TOPMOST: isize = 0x0000_0008;

/// A failed Win32 call: `Platform { api, code }`, the error code read as `i32`.
pub fn platform_error(api: &str, code: u32) -> (error: AppError)
    ensures
        error matches AppError::Platform { api: name, code: reported } && name@ == api@ && reported == code as i32,
{
    AppError::Platform { api: api.to_owned(), code: code as i32 }
}

/// The extended style to write, from the style `GetWindowLongPtrW` returned
/// (`current`) and the last error after it: a zero style is a failed read,
/// reported as a `GetWindowLongPtrW` platform error, and nothing is to be
/// written; otherwise the style with the no-activate, tool-window and topmost
/// bits added.
pub fn no_activate_style(current: isize, last_error: u32) -> (style: Result<isize, AppError>)
    ensures
        style is Err <==> current == 0,
        style matches Ok(updated) ==> updated == current | WS_EX_NOACTIVATE | WS_EX_TOOLWINDOW | WS_EX_TOPMOST,
        style matches Err(error) ==> (error matches AppError::Platform { api, code }
            && api@ == "GetWindowLongPtrW"@ && code == last_error as i32),
{
    if current == 0 {
        return Err(platform_error("GetWindowLongPtrW", last_error));
    }
    Ok(current | WS_EX_NOACTIVATE | WS_EX_TOOLWINDOW | WS_EX_TOPMOST)
}

/// The outcome of the `SetWindowLongPtrW` call named `api`, which returned
/// `returned` (the previous style) with `last_error` set: a failure exactly
/// when it returned zero and the last error is not zero.
pub fn check_window_long_call(api: &str, returned: isize, last_error: u32) -> (checked: Result<(), AppError>)
    ensures
        checked is Err <==> returned == 0 && last_error != 0,
        checked matches Err(error) ==> (error matches AppError::Platform { api: name, code }
            && name@ == api@ && code == last_error as i32),
{
    if returned == 0 && last_error != 0 {
        return Err(platform_error(api, last_error));
    }
    Ok(())
}

} // verus!
