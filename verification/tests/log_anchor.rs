//! The anchoring hop: configuration, request and reply.

use std::time::Duration;

use unidpp_archive::hash::sha256;
use unidpp_archive::log_anchor::{
    anchor_outcome, anchor_request, AnchorReply, DEFAULT_TIMEOUT_MS,
};
use unidpp_archive::params::Params;
use unidpp_archive::LogAnchorConfig;

#[test]
fn env_defaults_to_disabled() {
    let cfg = LogAnchorConfig::disabled();
    assert!(!cfg.is_enabled());
    assert_eq!(cfg.timeout, Duration::from_millis(DEFAULT_TIMEOUT_MS));
    let enabled = LogAnchorConfig::enabled("http://127.0.0.1:8092");
    assert!(enabled.is_enabled());
    assert_eq!(enabled.base_url.as_deref(), Some("http://127.0.0.1:8092"));
}

#[test]
fn the_default_timeout_is_three_seconds() {
    assert_eq!(LogAnchorConfig::default().timeout, Duration::from_secs(3));
    assert_eq!(LogAnchorConfig::enabled("x").timeout, Duration::from_secs(3));
    assert_eq!(LogAnchorConfig::enabled("x").clone().bearer, None);
}

#[test]
fn the_environment_configures_anchoring() {
    let mut vars = Params::new();
    let cfg = LogAnchorConfig::from_env_map(&vars);
    assert!(!cfg.is_enabled());
    vars.insert("UNIDPP_LOG_URL", "  http://log:8092 ");
    vars.insert("UNIDPP_ARCHIVE_LOG_TOKEN", " secret\n");
    vars.insert("UNIDPP_ARCHIVE_LOG_TIMEOUT_MS", " 250 ");
    let cfg = LogAnchorConfig::from_env_map(&vars);
    assert_eq!(cfg.base_url.as_deref(), Some("http://log:8092"));
    assert_eq!(cfg.bearer.as_deref(), Some("secret"));
    assert_eq!(cfg.timeout, Duration::from_millis(250));
    // Blank values and a timeout that is no positive number are ignored.
    vars.insert("UNIDPP_LOG_URL", "  ");
    vars.insert("UNIDPP_ARCHIVE_LOG_TOKEN", "");
    for ms in ["0", "-1", "soon", ""] {
        vars.insert("UNIDPP_ARCHIVE_LOG_TIMEOUT_MS", ms);
        let cfg = LogAnchorConfig::from_env_map(&vars);
        assert!(!cfg.is_enabled());
        assert_eq!(cfg.bearer, None);
        assert_eq!(cfg.timeout, Duration::from_millis(DEFAULT_TIMEOUT_MS));
    }
}

#[test]
fn a_blank_base_url_disables_anchoring() {
    for base in ["", "  ", " \t\n", "\u{3000}"] {
        assert!(!LogAnchorConfig::enabled(base).is_enabled());
    }
    assert!(LogAnchorConfig::enabled(" x ").is_enabled());
}

#[test]
fn a_request_needs_a_configured_log() {
    for cfg in [LogAnchorConfig::disabled(), LogAnchorConfig::enabled(" \t")] {
        let err = anchor_request(&cfg, "s", &sha256(b"x")).err().unwrap();
        assert!(err.contains("not configured"));
        assert_eq!(err, "log anchoring not configured (UNIDPP_LOG_URL is unset)");
    }
}

#[test]
fn a_request_posts_subject_and_commitment() {
    let mut cfg = LogAnchorConfig::enabled(" http://127.0.0.1:8092// ");
    cfg.bearer = Some("secret".to_string());
    let req = anchor_request(&cfg, "urn:s \"1\"", &sha256(b"x")).ok().unwrap();
    assert_eq!(req.url, "http://127.0.0.1:8092/commitments");
    assert_eq!(
        req.body,
        format!(
            r#"{{"commitment":"{}","subject":"urn:s \"1\""}}"#,
            sha256(b"x").hex()
        )
    );
    assert_eq!(req.bearer.as_deref(), Some("secret"));
    assert_eq!(req.timeout, Duration::from_secs(3));
}

fn reply(status: u16, body: &str) -> Result<serde_json::Value, String> {
    anchor_outcome(Ok(AnchorReply {
        status,
        body: body.to_string(),
    }))
}

#[test]
fn a_success_reply_holds_the_receipt() {
    for status in [200, 201, 299] {
        assert_eq!(reply(status, r#"{"seq": 1}"#).unwrap()["seq"], 1);
    }
    let err = reply(200, "<html>").unwrap_err();
    assert!(err.starts_with("log returned a non-JSON receipt: "));
    let expected = serde_json::from_str::<serde_json::Value>("<html>").unwrap_err();
    assert_eq!(err, format!("log returned a non-JSON receipt: {expected}"));
}

#[test]
fn a_refusal_quotes_the_start_of_the_reply() {
    assert_eq!(reply(503, "").unwrap_err(), "log refused the commitment: 503");
    assert_eq!(
        reply(401, "unauthorized").unwrap_err(),
        "log refused the commitment: 401: unauthorized"
    );
    assert_eq!(
        reply(199, &"é".repeat(201)).unwrap_err(),
        format!("log refused the commitment: 199: {}", "é".repeat(200))
    );
    assert_eq!(reply(300, "x").unwrap_err(), "log refused the commitment: 300: x");
}

#[test]
fn an_unreachable_log_is_named_as_such() {
    assert_eq!(
        anchor_outcome(Err("connection refused".to_string())).unwrap_err(),
        "log unreachable: connection refused"
    );
}
