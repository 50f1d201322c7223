use lumactl::backend::{backlight_brightness, ddc_brightness, parse_value, BacklightError};
use lumactl::format::{describe_error, format_brightness, reply_lines};
use lumactl::ipc::{frame_message, DisplayBrightness, Frame, IpcError, ProtocolError};

#[test]
fn backlight_files_are_read() {
    assert_eq!(backlight_brightness("120\n", "255\n"), Ok((120, 255)));
    assert_eq!(parse_value(" 7 "), Some(7));
    assert_eq!(parse_value("300"), None);
}

#[test]
fn backlight_file_errors() {
    assert_eq!(backlight_brightness("", "255"), Err(BacklightError::Brightness));
    assert_eq!(backlight_brightness("12", "x"), Err(BacklightError::MaxBrightness));
    assert_eq!(backlight_brightness("1000", "x"), Err(BacklightError::Brightness));
    assert_eq!(backlight_brightness("+5", "10"), Err(BacklightError::Brightness));
    assert_eq!(backlight_brightness("200\n", "100\n"), Err(BacklightError::AboveMaximum));
    assert_eq!(backlight_brightness("100", "100"), Ok((100, 100)));
}

#[test]
fn ddc_values_out_of_range() {
    assert_eq!(ddc_brightness(40, 100), Some((40, 100)));
    assert_eq!(ddc_brightness(100, 100), Some((100, 100)));
    assert_eq!(ddc_brightness(300, 100), None);
    assert_eq!(ddc_brightness(200, 100), None);
    assert_eq!(ddc_brightness(40, 1000), None);
    assert_eq!(ddc_brightness(300, 300), None);
}

#[test]
fn brightness_formats() {
    assert_eq!(format_brightness(120, 255, false), "120/255");
    assert_eq!(format_brightness(0, 7, false), "0/7");
    assert_eq!(format_brightness(120, 255, true), "47%");
    assert_eq!(format_brightness(40, 100, true), "40%");
    assert_eq!(format_brightness(2, 3, true), "67%");
    // 12.5 and 37.5 go to the even neighbour
    assert_eq!(format_brightness(1, 8, true), "12%");
    assert_eq!(format_brightness(3, 8, true), "38%");
    assert_eq!(format_brightness(0, 0, true), "NaN%");
    assert_eq!(format_brightness(5, 0, true), "inf%");
}

#[test]
fn reply_lines_name_displays_when_several() {
    let one = vec![DisplayBrightness { name: "eDP-1".to_string(), brightness: 120, max_brightness: 255 }];
    assert_eq!(reply_lines(&one, false), vec!["120/255".to_string()]);
    let two = vec![
        DisplayBrightness { name: "eDP-1".to_string(), brightness: 120, max_brightness: 255 },
        DisplayBrightness { name: "HDMI-1".to_string(), brightness: 40, max_brightness: 100 },
    ];
    assert_eq!(
        reply_lines(&two, true),
        vec!["eDP-1: 47%".to_string(), "HDMI-1: 40%".to_string()]
    );
    assert!(reply_lines(&Vec::new(), false).is_empty());
}

#[test]
fn error_sentences() {
    let e = IpcError::DisplayNotFound { display: "DP-3".to_string() };
    assert_eq!(describe_error(&e), "Display DP-3 not found");
    let e = IpcError::GetBrightnessError { error: "bus".to_string() };
    assert_eq!(describe_error(&e), "Error getting brightness: bus");
    let e = IpcError::SetBrightnessError { error: "bus".to_string() };
    assert_eq!(describe_error(&e), "Error setting brightness: bus");
}

#[test]
fn message_framing() {
    assert_eq!(frame_message(0), Ok(Frame::Empty));
    assert_eq!(frame_message(12), Ok(Frame::Request(12)));
    assert_eq!(frame_message(4095), Ok(Frame::Request(4095)));
    assert_eq!(frame_message(4096), Err(ProtocolError::TooLarge));
}
