use service_poller::report::{render_report, report_to_value, ReportEntry};
use service_poller::stamp::RoundStamp;
use service_poller::status::StatusResult;

fn stamp() -> RoundStamp {
    RoundStamp { timestamp: 1672531200, datetime: "2023-01-01 00:00:00".to_string() }
}

#[test]
fn entry_carries_the_round_stamp() {
    let entry = ReportEntry::new("fake_service", StatusResult::Inactive, &stamp());
    assert_eq!(
        entry,
        ReportEntry {
            service: "fake_service".to_string(),
            status: StatusResult::Inactive,
            timestamp: 1672531200,
            datetime: "2023-01-01 00:00:00".to_string(),
        }
    );
}

#[test]
fn report_is_an_indented_array() {
    let entries = vec![
        ReportEntry::new("fake_service", StatusResult::Active, &stamp()),
        ReportEntry::new("other", StatusResult::Error, &stamp()),
    ];
    let expected = r#"[
  {
    "datetime": "2023-01-01 00:00:00",
    "service": "fake_service",
    "status": "active",
    "timestamp": 1672531200
  },
  {
    "datetime": "2023-01-01 00:00:00",
    "service": "other",
    "status": "error",
    "timestamp": 1672531200
  }
]"#;
    assert_eq!(render_report(&entries), expected);
}

#[test]
fn empty_report() {
    assert_eq!(render_report(&Vec::new()), "[]");
}

#[test]
fn report_document_keeps_order_and_fields() {
    let entries = vec![
        ReportEntry::new("B", StatusResult::Unknown, &stamp()),
        ReportEntry::new("A", StatusResult::Inactive, &stamp()),
    ];
    let value = report_to_value(&entries);
    let items = value.as_array().unwrap();
    assert_eq!(items.len(), 2);
    assert_eq!(items[0].get("service").unwrap().as_str(), Some("B"));
    assert_eq!(items[0].get("status").unwrap().as_str(), Some("unknown"));
    assert_eq!(items[1].get("service").unwrap().as_str(), Some("A"));
    assert_eq!(items[1].get("status").unwrap().as_str(), Some("inactive"));
    assert_eq!(items[1].get("timestamp").unwrap().as_u64(), Some(1672531200));
    assert_eq!(items[1].get("datetime").unwrap().as_str(), Some("2023-01-01 00:00:00"));
}
