use service_poller::config::ServiceSpec;
use service_poller::status::{
    check_service_status, classify_output, CheckError, Invocation, StatusResult,
};

fn fake_service() -> ServiceSpec {
    ServiceSpec {
        name: "fake_service".to_string(),
        active_text: "online".to_string(),
        inactive_text: "down".to_string(),
    }
}

fn finished(success: bool, stdout: &[u8]) -> Invocation {
    Invocation::Finished { success, stdout: stdout.to_vec(), stderr: Vec::new() }
}

#[test]
fn test_check_service_status() {
    let service = fake_service();
    let output = finished(true, b"fake_service is online\n");

    let status = check_service_status(&service, &output).map(|s| s.as_str().to_string());

    assert_eq!(status.unwrap(), "active");
}

#[test]
fn status_words() {
    assert_eq!(StatusResult::Active.as_str(), "active");
    assert_eq!(StatusResult::Inactive.as_str(), "inactive");
    assert_eq!(StatusResult::Unknown.as_str(), "unknown");
    assert_eq!(StatusResult::Error.as_str(), "error");
}

#[test]
fn active_marker_takes_priority() {
    let service = fake_service();
    assert_eq!(classify_output("down, then online", &service), StatusResult::Active);
    assert_eq!(classify_output("online, then down", &service), StatusResult::Active);
    assert_eq!(
        check_service_status(&service, &finished(true, b"down online")),
        Ok(StatusResult::Active)
    );
}

#[test]
fn inactive_marker_alone_is_inactive() {
    let service = fake_service();
    assert_eq!(classify_output("fake_service is down", &service), StatusResult::Inactive);
    assert_eq!(
        check_service_status(&service, &finished(true, b"fake_service is down")),
        Ok(StatusResult::Inactive)
    );
}

#[test]
fn neither_marker_is_unknown() {
    let service = fake_service();
    assert_eq!(classify_output("fake_service is starting", &service), StatusResult::Unknown);
    assert_eq!(classify_output("", &service), StatusResult::Unknown);
    assert_eq!(classify_output("Online DOWN", &service), StatusResult::Unknown);
    assert_eq!(check_service_status(&service, &finished(true, b"")), Ok(StatusResult::Unknown));
}

#[test]
fn an_empty_marker_occurs_everywhere() {
    let service = ServiceSpec {
        name: "s".to_string(),
        active_text: String::new(),
        inactive_text: "down".to_string(),
    };
    assert_eq!(classify_output("down", &service), StatusResult::Active);
    assert_eq!(classify_output("", &service), StatusResult::Active);
}

#[test]
fn failed_exit_is_command_failed() {
    let service = fake_service();
    let outcome = Invocation::Finished {
        success: false,
        stdout: b"fake_service is online".to_vec(),
        stderr: b"unit not found".to_vec(),
    };
    let error = check_service_status(&service, &outcome).unwrap_err();
    assert_eq!(error, CheckError::CommandFailed("fake_service".to_string()));
    assert_eq!(error.message(), "Failed to check status of fake_service");
}

#[test]
fn unlaunchable_command_is_execution_failed() {
    let service = fake_service();
    let error = check_service_status(&service, &Invocation::NotStarted).unwrap_err();
    assert_eq!(error, CheckError::ExecutionFailed("fake_service".to_string()));
    assert_eq!(error.message(), "Failed to execute service command for fake_service");
}

#[test]
fn output_is_read_leniently() {
    let service = ServiceSpec {
        name: "s".to_string(),
        active_text: "\u{fffd}up".to_string(),
        inactive_text: "\u{e9}teint".to_string(),
    };
    assert_eq!(
        check_service_status(&service, &finished(true, &[b'i', b's', b' ', 0xff, b'u', b'p'])),
        Ok(StatusResult::Active)
    );
    assert_eq!(
        check_service_status(&service, &finished(true, "service \u{e9}teint".as_bytes())),
        Ok(StatusResult::Inactive)
    );
    assert_eq!(
        check_service_status(&service, &finished(true, &[0xc3, b'u', b'p'])),
        Ok(StatusResult::Active)
    );
}
