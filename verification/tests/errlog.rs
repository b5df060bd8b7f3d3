use service_poller::errlog::LogRecord;

#[test]
fn test_log_error_to_file() {
    let error_message = "Test error message";
    let datetime_str = "2023-01-01 00:00:00";
    let record = LogRecord {
        datetime: datetime_str.to_string(),
        timestamp: 1672531200,
        message: error_message.to_string(),
    };

    let contents = record.line();

    assert!(!contents.is_empty(), "Log file was not created");
    assert!(contents.contains(error_message), "Log file does not contain the error message");
    assert!(contents.contains(datetime_str), "Log file does not contain the datetime string");
}

#[test]
fn line_has_the_documented_form() {
    let record = LogRecord {
        datetime: "2023-01-01 00:00:00".to_string(),
        timestamp: 1672531205,
        message: "Failed to check status of fake_service".to_string(),
    };
    assert_eq!(
        record.line(),
        "[2023-01-01 00:00:00 | 1672531205] Failed to check status of fake_service\n"
    );
}

#[test]
fn line_of_empty_fields() {
    let record = LogRecord { datetime: String::new(), timestamp: 0, message: String::new() };
    assert_eq!(record.line(), "[ | 0] \n");
}

#[test]
fn two_appends_leave_two_lines() {
    let record = LogRecord {
        datetime: "2023-01-01 00:00:00".to_string(),
        timestamp: 1672531200,
        message: "Test error message".to_string(),
    };
    let mut log = String::from("[2022-12-31 23:59:58 | 1672531198] earlier\n");
    let before = log.clone();
    log.push_str(&record.line());
    log.push_str(&record.line());
    assert!(log.starts_with(&before));
    assert_eq!(log.lines().count(), 3);
    assert_eq!(log.lines().filter(|l| l.contains("Test error message")).count(), 2);
}
