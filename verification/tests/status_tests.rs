use shadesofrust::brightness::DeviceSnapshot;
use shadesofrust::brightness::FileReading;
use shadesofrust::brightness::Status;
use shadesofrust::error::Error;

fn snapshot(actual: &str, brightness: &str, max: &str) -> DeviceSnapshot {
    DeviceSnapshot {
        is_dir: true,
        actual_brightness: FileReading::Content(actual.to_string()),
        brightness: FileReading::Content(brightness.to_string()),
        max_brightness: FileReading::Content(max.to_string()),
    }
}

#[test]
fn load_reads_all_three_fields() {
    let snap = snapshot("120\n", "100\n", "255\n");
    let status = Status::get("/sys/class/backlight/dev0", &snap).unwrap();
    assert_eq!(status.actual_brightness(), 120);
    assert_eq!(status.brightness(), 100);
    assert_eq!(status.max_brightness(), 255);
    assert_eq!(status.device_path(), "/sys/class/backlight/dev0");
}

#[test]
fn load_rejects_non_directory() {
    let mut snap = snapshot("120\n", "100\n", "255\n");
    snap.is_dir = false;
    let err = Status::get("/nope", &snap).unwrap_err();
    assert_eq!(err, Error::InvalidDevicePath("/nope".to_string()));
}

#[test]
fn load_reports_missing_actual_brightness() {
    let mut snap = snapshot("120\n", "100\n", "255\n");
    snap.actual_brightness = FileReading::Missing;
    let err = Status::get("/dev", &snap).unwrap_err();
    assert_eq!(
        err,
        Error::MissingReadingFile("/dev/actual_brightness".to_string())
    );
}

#[test]
fn load_reports_missing_brightness() {
    let mut snap = snapshot("120\n", "100\n", "255\n");
    snap.brightness = FileReading::Missing;
    let err = Status::get("/dev", &snap).unwrap_err();
    assert_eq!(err, Error::MissingReadingFile("/dev/brightness".to_string()));
}

#[test]
fn load_reports_missing_max_brightness() {
    let mut snap = snapshot("120\n", "100\n", "255\n");
    snap.max_brightness = FileReading::Missing;
    let err = Status::get("/dev", &snap).unwrap_err();
    assert_eq!(
        err,
        Error::MissingReadingFile("/dev/max_brightness".to_string())
    );
}

#[test]
fn load_rejects_malformed_reading() {
    let snap = snapshot("120\n", "abc", "255\n");
    let err = Status::get("/dev", &snap).unwrap_err();
    assert_eq!(err, Error::MalformedReading("abc".to_string()));
}

#[test]
fn load_rejects_value_above_u16() {
    let snap = snapshot("120\n", "65536\n", "255\n");
    let err = Status::get("/dev", &snap).unwrap_err();
    assert_eq!(err, Error::MalformedReading("65536\n".to_string()));
}

#[test]
fn load_accepts_the_largest_reading() {
    let snap = snapshot("65535", "65535", "65535");
    let status = Status::get("/dev", &snap).unwrap();
    assert_eq!(status.actual_brightness(), 65535);
    assert_eq!(status.brightness(), 65535);
    assert_eq!(status.max_brightness(), 65535);
}

#[test]
fn load_reports_unreadable_file() {
    let mut snap = snapshot("120\n", "100\n", "255\n");
    snap.brightness = FileReading::Unreadable("permission denied".to_string());
    let err = Status::get("/dev", &snap).unwrap_err();
    assert_eq!(err, Error::IOFailure("permission denied".to_string()));
}

#[test]
fn set_brightness_accepts_value_in_range() {
    let snap = snapshot("120\n", "100\n", "255\n");
    let mut status = Status::get("/dev", &snap).unwrap();
    assert!(status.set_brightness("200").is_ok());
    assert_eq!(status.brightness(), 200);
    assert_eq!(status.actual_brightness(), 120);
    assert_eq!(status.max_brightness(), 255);
}

#[test]
fn set_brightness_trims_and_accepts_plus_sign() {
    let snap = snapshot("120\n", "100\n", "255\n");
    let mut status = Status::get("/dev", &snap).unwrap();
    assert!(status.set_brightness(" +42\n").is_ok());
    assert_eq!(status.brightness(), 42);
}

#[test]
fn set_brightness_accepts_zero() {
    let snap = snapshot("120\n", "100\n", "255\n");
    let mut status = Status::get("/dev", &snap).unwrap();
    assert!(status.set_brightness("0").is_ok());
    assert_eq!(status.brightness(), 0);
}

#[test]
fn set_brightness_accepts_the_maximum() {
    let snap = snapshot("120\n", "100\n", "255\n");
    let mut status = Status::get("/dev", &snap).unwrap();
    assert!(status.set_brightness("255").is_ok());
    assert_eq!(status.brightness(), 255);
}

#[test]
fn set_brightness_rejects_value_above_max() {
    let snap = snapshot("120\n", "100\n", "255\n");
    let mut status = Status::get("/dev", &snap).unwrap();
    let err = status.set_brightness("300").unwrap_err();
    assert_eq!(err, Error::OutOfRange(300, 255));
    assert_eq!(status.brightness(), 100);
}

#[test]
fn set_brightness_rejects_malformed_text() {
    let snap = snapshot("120\n", "100\n", "255\n");
    let mut status = Status::get("/dev", &snap).unwrap();
    let err = status.set_brightness("abc").unwrap_err();
    assert_eq!(err, Error::MalformedInput("abc".to_string()));
    assert_eq!(status.brightness(), 100);
}

#[test]
fn set_brightness_rejects_empty_input() {
    let snap = snapshot("120\n", "100\n", "255\n");
    let mut status = Status::get("/dev", &snap).unwrap();
    let err = status.set_brightness("  ").unwrap_err();
    assert_eq!(err, Error::MalformedInput("  ".to_string()));
    assert_eq!(status.brightness(), 100);
}

#[test]
fn set_brightness_trims_unicode_whitespace() {
    let snap = snapshot("120\n", "100\n", "255\n");
    let mut status = Status::get("/dev", &snap).unwrap();
    assert!(status.set_brightness("\u{a0}77\u{2000}").is_ok());
    assert_eq!(status.brightness(), 77);
}

#[test]
fn set_brightness_rejects_signs_and_decimals() {
    let snap = snapshot("120\n", "100\n", "255\n");
    let mut status = Status::get("/dev", &snap).unwrap();
    for input in ["-1", "3.5", "+", "1 2", "65536"] {
        let err = status.set_brightness(input).unwrap_err();
        assert_eq!(err, Error::MalformedInput(input.to_string()));
        assert_eq!(status.brightness(), 100);
    }
}

#[test]
fn save_content_is_decimal_brightness() {
    let snap = snapshot("120\n", "100\n", "255\n");
    let mut status = Status::get("/dev", &snap).unwrap();
    assert_eq!(status.brightness_file_content(), "100");
    status.set_brightness("200").unwrap();
    assert_eq!(status.brightness_file_content(), "200");
}

#[test]
fn save_path_joins_brightness_file() {
    let snap = snapshot("120\n", "100\n", "255\n");
    let status = Status::get("/dev", &snap).unwrap();
    assert_eq!(status.brightness_file_path(), "/dev/brightness");
    let status = Status::get("/dev/", &snap).unwrap();
    assert_eq!(status.brightness_file_path(), "/dev/brightness");
}

#[test]
fn save_twice_writes_the_same_content() {
    let snap = snapshot("120\n", "100\n", "255\n");
    let mut status = Status::get("/dev", &snap).unwrap();
    status.set_brightness("37").unwrap();
    let first = status.brightness_file_content();
    let second = status.brightness_file_content();
    assert_eq!(first, second);
    assert_eq!(first, "37");
}

#[test]
fn set_save_reload_round_trip() {
    let snap = snapshot("120\n", "100\n", "255\n");
    let mut status = Status::get("/dev", &snap).unwrap();
    status.set_brightness("200").unwrap();
    let saved = status.brightness_file_content();
    let reload_snap = DeviceSnapshot {
        is_dir: true,
        actual_brightness: FileReading::Content("120\n".to_string()),
        brightness: FileReading::Content(saved),
        max_brightness: FileReading::Content("255\n".to_string()),
    };
    let reloaded = Status::get("/dev", &reload_snap).unwrap();
    assert_eq!(reloaded.brightness(), 200);
}

#[test]
fn report_lists_readings_in_fixed_order() {
    let snap = snapshot("120\n", "100\n", "255\n");
    let status = Status::get("/dev", &snap).unwrap();
    assert_eq!(
        status.report(),
        "Sysfs path: /dev\nActual brightness: 120\nBrightness: 100\nMax brightness: 255"
    );
}

#[test]
fn error_messages_render_each_variant() {
    assert_eq!(
        Error::InvalidDevicePath("/nope".to_string()).message(),
        "Sysfs path: '/nope' is not a directory or has invalid permissions"
    );
    assert_eq!(
        Error::MissingReadingFile("/dev/brightness".to_string()).message(),
        "Sysfs path: '/dev/brightness' is not a file or has invalid permissions"
    );
    assert_eq!(
        Error::MalformedReading("abc".to_string()).message(),
        "While parsing: 'abc' as a u16 value, an error occurred"
    );
    assert_eq!(
        Error::MalformedInput("3.5".to_string()).message(),
        "While parsing: '3.5' as a u16 value, an error occurred"
    );
    assert_eq!(
        Error::OutOfRange(300, 255).message(),
        "The requested brightness: '300' is greater than the maximum value: '255'"
    );
    assert_eq!(
        Error::IOFailure("disk error".to_string()).message(),
        "While reading or writing, an IO Error occurred: 'disk error'"
    );
}
