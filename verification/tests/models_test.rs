use updown::json::JsonValue;
use updown::models::check::{greater, Check, CheckRow, Downtime, DowntimeRow, Reading};
use updown::models::node::{Node, NodeRow};
use updown::models::recipient::{Recipient, RecipientRow};
use updown::models::status_page::{StatusPage, StatusPageRow};

fn reading(x: f64) -> Reading {
    Reading {
        bits: x.to_bits(),
        fixed2: format!("{:.2}", x),
        fixed4: format!("{:.4}", x),
    }
}

#[test]
fn test_check_row_up() {
    let check = Check {
        token: "abc".to_string(),
        url: "https://example.com".to_string(),
        alias: None,
        last_status: Some(200),
        uptime: Some(reading(99.97)),
        down: Some(false),
        period: Some(30),
        apdex_t: Some(reading(0.98)),
        enabled: None,
        published: None,
        string_match: None,
        mute_until: None,
        http_verb: None,
        http_body: None,
        check_type: None,
        disabled_locations: None,
        recipients: None,
        custom_headers: None,
        metrics: None,
    };

    let row = CheckRow::from(&check);
    assert_eq!(row.status, "up");
    assert_eq!(row.uptime, "99.97%");
    assert_eq!(row.period, "30s");
}

#[test]
fn check_row_down_and_absent_fields() {
    let check = Check {
        token: "t".to_string(),
        url: "u".to_string(),
        alias: None,
        last_status: None,
        uptime: None,
        down: Some(true),
        period: None,
        apdex_t: None,
        enabled: None,
        published: None,
        string_match: None,
        mute_until: None,
        http_verb: None,
        http_body: None,
        check_type: None,
        disabled_locations: None,
        recipients: Some(vec![JsonValue::Str("r".to_string())]),
        custom_headers: None,
        metrics: None,
    };
    let row = CheckRow::from(&check);
    assert_eq!(row.token, "t");
    assert_eq!(row.status, "down");
    assert_eq!(row.url, "u");
    assert_eq!(row.uptime, "-");
    assert_eq!(row.apdex, "-");
    assert_eq!(row.period, "-");
}

#[test]
fn check_row_apdex_two_decimals() {
    let mut check = Check {
        token: "t".to_string(),
        url: "u".to_string(),
        alias: None,
        last_status: None,
        uptime: None,
        down: None,
        period: Some(3600),
        apdex_t: Some(reading(0.5)),
        enabled: None,
        published: None,
        string_match: None,
        mute_until: None,
        http_verb: None,
        http_body: None,
        check_type: None,
        disabled_locations: None,
        recipients: None,
        custom_headers: None,
        metrics: None,
    };
    let row = CheckRow::from(&check);
    assert_eq!(row.status, "up");
    assert_eq!(row.apdex, "0.50");
    assert_eq!(row.period, "3600s");
    check.down = Some(false);
    assert_eq!(CheckRow::from(&check).status, "up");
}

#[test]
fn readings_compare_as_numbers() {
    assert!(greater(&reading(99.5), &reading(12.0)));
    assert!(!greater(&reading(12.0), &reading(99.5)));
    assert!(greater(&reading(0.0), &reading(-1.0)));
    assert!(greater(&reading(-1.0), &reading(-2.5)));
    assert!(!greater(&reading(0.0), &reading(-0.0)));
    assert!(!greater(&reading(-0.0), &reading(0.0)));
    assert!(!greater(&reading(f64::NAN), &reading(1.0)));
    assert!(!greater(&reading(1.0), &reading(f64::NAN)));
    assert!(greater(&reading(f64::INFINITY), &reading(1e300)));
}

#[test]
fn downtime_row_fields() {
    let d = Downtime {
        id: "dt1".to_string(),
        error: Some("timeout".to_string()),
        started_at: Some("2024-01-01T00:00:00Z".to_string()),
        ended_at: None,
        duration: Some(3600),
    };
    let row = DowntimeRow::from(&d);
    assert_eq!(row.id, "dt1");
    assert_eq!(row.error, "timeout");
    assert_eq!(row.started_at, "2024-01-01T00:00:00Z");
    assert_eq!(row.ended_at, "-");
    assert_eq!(row.duration, "3600s");
    let dup = d.duplicate();
    assert_eq!(dup.id, "dt1");
    assert_eq!(dup.duration, Some(3600));
}

#[test]
fn node_row_fields() {
    let n = Node {
        ip: Some("1.2.3.4".to_string()),
        ip6: None,
        city: Some("Paris".to_string()),
        country: Some("France".to_string()),
        country_code: Some("FR".to_string()),
    };
    let row = NodeRow::from_entry(&"par".to_string(), &n);
    assert_eq!(row.code, "par");
    assert_eq!(row.city, "Paris");
    assert_eq!(row.country, "France");
    assert_eq!(row.ip, "1.2.3.4");
    assert_eq!(row.ip6, "-");
}

#[test]
fn recipient_row_fields() {
    let r = Recipient {
        id: "rec123".to_string(),
        recipient_type: "email".to_string(),
        name: None,
        value: Some("a@example.com".to_string()),
        selected: Some(true),
    };
    let row = RecipientRow::from(&r);
    assert_eq!(row.id, "rec123");
    assert_eq!(row.recipient_type, "email");
    assert_eq!(row.name, "-");
    assert_eq!(row.value, "a@example.com");
    assert_eq!(row.selected, "true");
}

#[test]
fn status_page_row_joins_checks() {
    let sp = StatusPage {
        token: "sp123".to_string(),
        url: None,
        name: Some("My Status".to_string()),
        description: None,
        visibility: Some("public".to_string()),
        checks: Some(vec!["check1".to_string(), "check2".to_string()]),
    };
    let row = StatusPageRow::from(&sp);
    assert_eq!(row.token, "sp123");
    assert_eq!(row.name, "My Status");
    assert_eq!(row.visibility, "public");
    assert_eq!(row.url, "-");
    assert_eq!(row.checks, "check1, check2");
    let none = StatusPage {
        token: "x".to_string(),
        url: None,
        name: None,
        description: None,
        visibility: None,
        checks: None,
    };
    assert_eq!(StatusPageRow::from(&none).checks, "-");
}
