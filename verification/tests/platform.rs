use trident::error::AppError;
use trident::platform::win32::{
    check_window_long_call, no_activate_style, platform_error, WS_EX_NOACTIVATE, WS_EX_TOOLWINDOW,
    WS_EX_TOPMOST,
};

#[test]
fn reports_a_failed_style_call_with_its_error_code() {
    assert!(matches!(
        check_window_long_call("SetWindowLongPtrW", 0, 1_400),
        Err(AppError::Platform { ref api, code: 1_400 }) if api == "SetWindowLongPtrW"
    ));
}

#[test]
fn accepts_a_style_write_that_reports_no_error() {
    assert!(check_window_long_call("SetWindowLongPtrW", 0, 0).is_ok());
    assert!(check_window_long_call("SetWindowLongPtrW", 0x100, 5).is_ok());
    assert!(check_window_long_call("SetWindowLongPtrW", -1, 0).is_ok());
}

#[test]
fn refuses_a_zero_extended_style_before_writing() {
    assert!(matches!(
        no_activate_style(0, 0),
        Err(AppError::Platform { ref api, code: 0 }) if api == "GetWindowLongPtrW"
    ));
    assert!(matches!(
        no_activate_style(0, 1_400),
        Err(AppError::Platform { ref api, code: 1_400 }) if api == "GetWindowLongPtrW"
    ));
}

#[test]
fn adds_the_no_activate_tool_window_and_topmost_bits() {
    assert_eq!(WS_EX_NOACTIVATE, 0x0800_0000);
    assert_eq!(WS_EX_TOOLWINDOW, 0x80);
    assert_eq!(WS_EX_TOPMOST, 0x8);
    assert!(matches!(no_activate_style(0x100, 0), Ok(0x0800_0188)));
    assert!(matches!(no_activate_style(0x0800_0188, 7), Ok(0x0800_0188)));
    assert!(matches!(no_activate_style(-1, 0), Ok(-1)));
}

#[test]
fn reads_the_error_code_as_a_signed_number() {
    assert!(matches!(
        platform_error("SetWindowLongPtrW", 0x8000_0005),
        AppError::Platform { ref api, code } if api == "SetWindowLongPtrW" && code == 0x8000_0005u32 as i32
    ));
}
