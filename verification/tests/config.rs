use service_poller::config::{
    config_from_value, config_to_value, parse_config, read_config, render_config, Config,
    ConfigField, ConfigParseError, ServiceField, ServiceSpec,
};
use service_poller::json::SyntaxFault;

fn sample_service() -> ServiceSpec {
    ServiceSpec {
        name: "fake_service".to_string(),
        active_text: "online".to_string(),
        inactive_text: "down".to_string(),
    }
}

fn default_config() -> Config {
    Config {
        debug: true,
        sleep: 2,
        services: vec![sample_service()],
        log_file: "error.log".to_string(),
    }
}

#[test]
fn test_read_config_reads_existing() {
    let custom_config = r#"
    {
        "debug": true,
        "sleep": 2,
        "services": [
            {
                "name": "fake_service",
                "active_text": "online",
                "inactive_text": "down"
            }
        ],
        "log_file": "error.log"
    }"#;

    let load = read_config(Some(custom_config));
    assert_eq!(load.written, None);
    let config = load.config.expect("Failed to read config");

    assert_eq!(config.debug, true);
    assert_eq!(config.sleep, 2);
    assert_eq!(config.services.len(), 1);
    assert_eq!(config.services[0].name, "fake_service");
    assert_eq!(config.services[0].active_text, "online");
    assert_eq!(config.services[0].inactive_text, "down");
    assert_eq!(config.log_file, "error.log");
}

#[test]
fn initial_config_is_the_documented_default() {
    assert_eq!(Config::default(), default_config());
}

#[test]
fn bootstrap_writes_the_default_and_reads_it_back() {
    let first = read_config(None);
    let written = first.written.clone().expect("no file: the default text is written");
    assert_eq!(first.config, Ok(default_config()));

    let second = read_config(Some(&written));
    assert_eq!(second.written, None);
    assert_eq!(second.config, first.config);

    let config = parse_config(&written).unwrap();
    assert_eq!(config.log_file, "error.log");
}

#[test]
fn default_text_is_indented_json() {
    let expected = r#"{
  "debug": true,
  "log_file": "error.log",
  "services": [
    {
      "active_text": "online",
      "inactive_text": "down",
      "name": "fake_service"
    }
  ],
  "sleep": 2
}"#;
    assert_eq!(render_config(&Config::default()), expected);
    assert_eq!(read_config(None).written.as_deref(), Some(expected));
}

#[test]
fn render_then_parse_gives_the_normal_form() {
    let config = Config {
        debug: false,
        sleep: 0,
        services: vec![
            ServiceSpec {
                name: "a \"quoted\" name".to_string(),
                active_text: "up\n".to_string(),
                inactive_text: "\u{e9}teint".to_string(),
            },
            sample_service(),
        ],
        log_file: String::new(),
    };
    let parsed = parse_config(&render_config(&config)).unwrap();
    assert_eq!(parsed, config.clone().normalize());
    assert_eq!(parsed.log_file, "error.log");
    assert_eq!(parsed.services, config.services);
}

#[test]
fn value_round_trip_without_text() {
    let config = Config {
        debug: true,
        sleep: u64::MAX,
        services: vec![],
        log_file: "custom.log".to_string(),
    };
    assert_eq!(config_from_value(&config_to_value(&config)), Ok(config));
}

#[test]
fn normalize_replaces_only_an_empty_log_file() {
    let mut config = default_config();
    config.log_file = String::new();
    assert_eq!(config.normalize(), default_config());

    let mut custom = default_config();
    custom.log_file = "custom.log".to_string();
    assert_eq!(custom.clone().normalize(), custom);
}

#[test]
fn missing_log_file_defaults() {
    let config = parse_config(r#"{"debug": false, "sleep": 5, "services": []}"#).unwrap();
    assert_eq!(config.log_file, "error.log");
    assert_eq!(config.debug, false);
    assert_eq!(config.sleep, 5);
    assert!(config.services.is_empty());
}

#[test]
fn empty_log_file_defaults() {
    let config =
        parse_config(r#"{"debug": false, "sleep": 5, "services": [], "log_file": ""}"#).unwrap();
    assert_eq!(config.log_file, "error.log");
}

#[test]
fn custom_log_file_is_kept() {
    let config = parse_config(
        r#"{"debug": false, "sleep": 5, "services": [], "log_file": "custom.log"}"#,
    )
    .unwrap();
    assert_eq!(config.log_file, "custom.log");
}

#[test]
fn unknown_members_are_ignored() {
    let config = parse_config(
        r#"{"debug": true, "sleep": 0, "services": [], "colour": "blue", "retries": 3}"#,
    )
    .unwrap();
    assert_eq!(config.sleep, 0);
}

#[test]
fn services_keep_their_order() {
    let text = r#"{"debug": false, "sleep": 1, "services": [
        {"name": "A", "active_text": "a1", "inactive_text": "a0"},
        {"name": "B", "active_text": "b1", "inactive_text": "b0"},
        {"name": "C", "active_text": "c1", "inactive_text": "c0"}
    ]}"#;
    let config = parse_config(text).unwrap();
    let names: Vec<&str> = config.services.iter().map(|s| s.name.as_str()).collect();
    assert_eq!(names, vec!["A", "B", "C"]);
    assert_eq!(config.services[1].active_text, "b1");
    assert_eq!(config.services[2].inactive_text, "c0");
}

#[test]
fn text_that_is_not_json_is_a_syntax_error() {
    assert_eq!(
        parse_config("{\"debug\": true,\n  \"sleep\": }"),
        Err(ConfigParseError::Syntax(SyntaxFault { line: 2, column: 12 }))
    );
    assert_eq!(
        parse_config(""),
        Err(ConfigParseError::Syntax(SyntaxFault { line: 1, column: 0 }))
    );
    assert!(matches!(
        parse_config(r#"{"debug": true} trailing"#),
        Err(ConfigParseError::Syntax(_))
    ));
}

#[test]
fn required_fields_are_checked_in_order() {
    assert_eq!(parse_config("{}"), Err(ConfigParseError::Field(ConfigField::Debug)));
    assert_eq!(parse_config("[]"), Err(ConfigParseError::Field(ConfigField::Debug)));
    assert_eq!(parse_config("null"), Err(ConfigParseError::Field(ConfigField::Debug)));
    assert_eq!(
        parse_config(r#"{"debug": "yes", "sleep": 2, "services": []}"#),
        Err(ConfigParseError::Field(ConfigField::Debug))
    );
    assert_eq!(
        parse_config(r#"{"debug": true, "services": []}"#),
        Err(ConfigParseError::Field(ConfigField::Sleep))
    );
    assert_eq!(
        parse_config(r#"{"debug": true, "sleep": 2}"#),
        Err(ConfigParseError::Field(ConfigField::Services))
    );
    assert_eq!(
        parse_config(r#"{"debug": true, "sleep": 2, "services": {}}"#),
        Err(ConfigParseError::Field(ConfigField::Services))
    );
    assert_eq!(
        parse_config(r#"{"debug": true, "sleep": 2, "services": [], "log_file": 7}"#),
        Err(ConfigParseError::Field(ConfigField::LogFile))
    );
    assert_eq!(
        parse_config(r#"{"debug": true, "sleep": 2, "services": [], "log_file": null}"#),
        Err(ConfigParseError::Field(ConfigField::LogFile))
    );
}

#[test]
fn sleep_must_be_a_non_negative_integer() {
    for bad in ["-1", "2.5", "2.0", "\"2\"", "18446744073709551616", "null"] {
        let text = format!(r#"{{"debug": true, "sleep": {}, "services": []}}"#, bad);
        assert_eq!(parse_config(&text), Err(ConfigParseError::Field(ConfigField::Sleep)));
    }
    let text = r#"{"debug": true, "sleep": 18446744073709551615, "services": []}"#;
    assert_eq!(parse_config(text).unwrap().sleep, u64::MAX);
}

#[test]
fn the_first_faulty_service_is_reported() {
    let text = r#"{"debug": true, "sleep": 2, "services": [
        {"name": "A", "active_text": "a1", "inactive_text": "a0"},
        {"name": "B", "inactive_text": "b0"},
        {"active_text": "c1", "inactive_text": "c0"}
    ]}"#;
    assert_eq!(
        parse_config(text),
        Err(ConfigParseError::Service { index: 1, field: ServiceField::ActiveText })
    );
    assert_eq!(
        parse_config(r#"{"debug": true, "sleep": 2, "services": [7]}"#),
        Err(ConfigParseError::Service { index: 0, field: ServiceField::Name })
    );
    assert_eq!(
        parse_config(
            r#"{"debug": true, "sleep": 2, "services": [{"name": "A", "active_text": "x"}]}"#
        ),
        Err(ConfigParseError::Service { index: 0, field: ServiceField::InactiveText })
    );
    assert_eq!(
        parse_config(
            r#"{"debug": true, "sleep": 2, "log_file": 1,
                "services": [{"name": 1, "active_text": "x", "inactive_text": "y"}]}"#
        ),
        Err(ConfigParseError::Service { index: 0, field: ServiceField::Name })
    );
}

#[test]
fn a_document_is_read_as_its_text_is() {
    let text = r#"{"debug": false, "sleep": 9, "services": [
        {"name": "A", "active_text": "a1", "inactive_text": "a0"}]}"#;
    let value: serde_json::Value = serde_json::from_str(text).unwrap();
    assert_eq!(config_from_value(&value), parse_config(text));
    assert_eq!(
        config_from_value(&serde_json::Value::Null),
        Err(ConfigParseError::Field(ConfigField::Debug))
    );
}
