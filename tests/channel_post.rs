use channel_post::config::{lookup_url, Config};
use channel_post::dispatch::{conclude, plan_command, post_outcome, Action, Command, Failure};
use channel_post::exit::{exit_status, ExitCode};
use channel_post::body::generate_post_body;

fn config_from_json(text: &str) -> Config {
    let value: serde_json::Value = serde_json::from_str(text).unwrap();
    let channels = value.get("channels").unwrap().as_object().unwrap();
    let mut entries = Vec::new();
    for (name, url) in channels.iter() {
        entries.push((name.clone(), url.as_str().unwrap().to_string()));
    }
    Config::from_entries(entries)
}

fn sample_config() -> Config {
    let mut config = Config::new();
    config.insert("default".to_string(), "https://example.com/hook".to_string());
    config.insert("test".to_string(), "https://httpbin.org/anything".to_string());
    config
}

#[test]
fn test_global_config() {
    let config = config_from_json(
        r#"{"channels": {"default": "https://example.com/hook", "test": "https://httpbin.org/anything"}}"#,
    );
    assert_eq!(
        lookup_url(&config, "test".to_string()).ok().unwrap(),
        "https://httpbin.org/anything"
    );
}

#[test]
fn lookup_returns_each_configured_url_exactly() {
    let config = sample_config();
    assert_eq!(
        lookup_url(&config, "default".to_string()).ok().unwrap(),
        "https://example.com/hook"
    );
    assert_eq!(
        lookup_url(&config, "test".to_string()).ok().unwrap(),
        "https://httpbin.org/anything"
    );
}

#[test]
fn lookup_matches_names_byte_for_byte() {
    let config = sample_config();
    for name in ["Test", "test ", " test", "tes", ""] {
        match lookup_url(&config, name.to_string()) {
            Err(Failure::ChannelNotFound { channel }) => assert_eq!(channel, name),
            _ => panic!("expected ChannelNotFound for {:?}", name),
        }
    }
}

#[test]
fn unknown_channel_fails_and_exits_with_one() {
    let config = sample_config();
    let r = plan_command(&config, Command::Post { message: "hello".to_string() }, "nope".to_string());
    let failure = match r {
        Err(f) => f,
        Ok(_) => panic!("expected a failure"),
    };
    assert!(matches!(&failure, Failure::ChannelNotFound { channel } if channel == "nope"));
    let (code, report) = conclude(Err(failure));
    assert_eq!(code, ExitCode::ERROR);
    assert_eq!(exit_status(code), 1);
    assert_eq!(report.unwrap(), "channel not found: nope");
}

#[test]
fn unknown_channel_fails_for_get_too() {
    let config = Config::new();
    let r = plan_command(&config, Command::Get { message: "hello".to_string() }, "default".to_string());
    assert!(matches!(r, Err(Failure::ChannelNotFound { channel }) if channel == "default"));
}

#[test]
fn get_prints_message_and_sends_nothing() {
    let config = sample_config();
    let r = plan_command(&config, Command::Get { message: "hello".to_string() }, "default".to_string());
    match r {
        Ok(Action::Print { text, code }) => {
            assert_eq!(text, "hello");
            assert_eq!(code, ExitCode::SUCCESS);
            assert_eq!(exit_status(code), 0);
        }
        _ => panic!("expected a print and no request"),
    }
}

#[test]
fn post_sends_json_body_with_json_content_type() {
    let config = sample_config();
    let r = plan_command(&config, Command::Post { message: "hello".to_string() }, "test".to_string());
    match r {
        Ok(Action::Send { url, body, content_type }) => {
            assert_eq!(url, "https://httpbin.org/anything");
            assert_eq!(body, r#"{"text": "hello"}"#);
            assert_eq!(content_type, "application/json");
        }
        _ => panic!("expected a request"),
    }
}

#[test]
fn post_request_body_for_test_message() {
    assert_eq!(generate_post_body("test".to_string()), r#"{"text": "test"}"#);
    let parsed: serde_json::Value = serde_json::from_str(&generate_post_body("test".to_string())).unwrap();
    assert_eq!(parsed.get("text").unwrap().as_str().unwrap(), "test");
}

#[test]
fn any_response_succeeds_and_is_printed() {
    match post_outcome(Ok("<html>500 Internal Server Error</html>".to_string())) {
        Ok(Action::Print { text, code }) => {
            assert_eq!(text, "<html>500 Internal Server Error</html>");
            assert_eq!(code, ExitCode::SUCCESS);
        }
        _ => panic!("expected the response to be printed"),
    }
}

#[test]
fn transport_error_ends_in_error() {
    let failure = match post_outcome(Err("connection refused".to_string())) {
        Err(f) => f,
        Ok(_) => panic!("expected a failure"),
    };
    assert!(matches!(&failure, Failure::PostTransportError { detail } if detail == "connection refused"));
    let (code, report) = conclude(Err(failure));
    assert_eq!(exit_status(code), 1);
    assert_eq!(report.unwrap(), "request failed: connection refused");
}

#[test]
fn round_trip_resolves_repeatedly() {
    let config = config_from_json(r#"{"channels": {"a": "http://x"}}"#);
    assert_eq!(lookup_url(&config, "a".to_string()).ok().unwrap(), "http://x");
    assert_eq!(lookup_url(&config, "a".to_string()).ok().unwrap(), "http://x");
    assert_eq!(lookup_url(&config, "a".to_string()).ok().unwrap(), "http://x");
}

#[test]
fn quote_in_message_is_escaped() {
    let body = generate_post_body("say \"hi\"".to_string());
    assert_eq!(body, r#"{"text": "say \"hi\""}"#);
    let parsed: serde_json::Value = serde_json::from_str(&body).unwrap();
    assert_eq!(parsed.get("text").unwrap().as_str().unwrap(), "say \"hi\"");
}

#[test]
fn backslash_and_control_characters_are_escaped() {
    let message = "a\\b\nc\rd\te\u{8}f\u{c}g\u{1}h\u{1f}i";
    let body = generate_post_body(message.to_string());
    assert_eq!(
        body,
        r#"{"text": "a\\b\nc\rd\te\bf\fg\u0001h\u001fi"}"#
    );
    let parsed: serde_json::Value = serde_json::from_str(&body).unwrap();
    assert_eq!(parsed.get("text").unwrap().as_str().unwrap(), message);
}

#[test]
fn empty_and_non_ascii_messages() {
    assert_eq!(generate_post_body(String::new()), r#"{"text": ""}"#);
    assert_eq!(generate_post_body("héllo ✓ \u{7f}".to_string()), "{\"text\": \"héllo ✓ \u{7f}\"}");
}

#[test]
fn missing_configuration_ends_with_error() {
    let failure = Failure::ConfigIOError { detail: "No such file or directory".to_string() };
    let (code, report) = conclude(Err(failure));
    assert_eq!(code, ExitCode::ERROR);
    assert_eq!(exit_status(code), 1);
    assert_eq!(report.unwrap(), "cannot read configuration: No such file or directory");
}

#[test]
fn malformed_configuration_ends_with_error() {
    let failure = Failure::ConfigParseError { detail: "missing field `channels`".to_string() };
    assert_eq!(failure.message(), "invalid configuration: missing field `channels`");
    let (code, _) = conclude(Err(failure));
    assert_eq!(exit_status(code), 1);
}

#[test]
fn success_and_warning_share_status_zero() {
    assert_eq!(exit_status(ExitCode::SUCCESS), 0);
    assert_eq!(exit_status(ExitCode::WARNING), 0);
    assert_eq!(exit_status(ExitCode::ERROR), 1);
    let (code, report) = conclude(Ok(ExitCode::WARNING));
    assert_eq!(code, ExitCode::WARNING);
    assert!(report.is_none());
}

#[test]
fn later_binding_replaces_earlier() {
    let mut config = Config::new();
    config.insert("a".to_string(), "http://one".to_string());
    config.insert("b".to_string(), "http://two".to_string());
    config.insert("a".to_string(), "http://three".to_string());
    assert_eq!(lookup_url(&config, "a".to_string()).ok().unwrap(), "http://three");
    assert_eq!(lookup_url(&config, "b".to_string()).ok().unwrap(), "http://two");
    let listed = Config::from_entries(vec![
        ("a".to_string(), "http://one".to_string()),
        ("a".to_string(), "http://two".to_string()),
    ]);
    assert_eq!(config.get(&"b".to_string()).unwrap(), "http://two");
    assert_eq!(listed.get(&"a".to_string()).unwrap(), "http://two");
    assert!(Config::new().get(&"a".to_string()).is_none());
}
