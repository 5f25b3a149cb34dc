use shadesofrust::brightness::DeviceSnapshot;
use shadesofrust::brightness::FileReading;
use shadesofrust::error::Error;
use shadesofrust::operation::Effect;
use shadesofrust::operation::Operation;
use shadesofrust::operation::run;

fn device() -> DeviceSnapshot {
    DeviceSnapshot {
        is_dir: true,
        actual_brightness: FileReading::Content("120".to_string()),
        brightness: FileReading::Content("100".to_string()),
        max_brightness: FileReading::Content("255".to_string()),
    }
}

#[test]
fn query_reports_current_readings() {
    let op = Operation::Query("/dev".to_string());
    let effect = run(&op, &device()).unwrap();
    assert_eq!(
        effect,
        Effect::Report(
            "Sysfs path: /dev\nActual brightness: 120\nBrightness: 100\nMax brightness: 255"
                .to_string()
        )
    );
}

#[test]
fn apply_persists_valid_value() {
    let op = Operation::Apply("/dev".to_string(), "200".to_string());
    let effect = run(&op, &device()).unwrap();
    assert_eq!(
        effect,
        Effect::Persist("/dev/brightness".to_string(), "200".to_string())
    );
}

#[test]
fn apply_rejects_value_above_maximum() {
    let op = Operation::Apply("/dev".to_string(), "300".to_string());
    let err = run(&op, &device()).unwrap_err();
    assert_eq!(err, Error::OutOfRange(300, 255));
}

#[test]
fn apply_rejects_malformed_value() {
    let op = Operation::Apply("/dev".to_string(), "abc".to_string());
    let err = run(&op, &device()).unwrap_err();
    assert_eq!(err, Error::MalformedInput("abc".to_string()));
}

#[test]
fn query_propagates_load_failure() {
    let mut snap = device();
    snap.max_brightness = FileReading::Missing;
    let op = Operation::Query("/dev".to_string());
    let err = run(&op, &snap).unwrap_err();
    assert_eq!(
        err,
        Error::MissingReadingFile("/dev/max_brightness".to_string())
    );
}

#[test]
fn apply_on_non_directory_fails_before_validation() {
    let mut snap = device();
    snap.is_dir = false;
    let op = Operation::Apply("/not-a-dir".to_string(), "200".to_string());
    let err = run(&op, &snap).unwrap_err();
    assert_eq!(err, Error::InvalidDevicePath("/not-a-dir".to_string()));
}
