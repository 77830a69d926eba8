use updown::cmd::checks::{self, ChecksAction};
use updown::cmd::{CommandError, Expect, Method, Output, Reply, Rows};
use updown::json::{JsonObject, JsonValue};
use updown::models::check::{Check, CheckMetrics, Downtime, Reading};
use updown::output::OutputMode;

fn reading(x: f64) -> Reading {
    Reading {
        bits: x.to_bits(),
        fixed2: format!("{:.2}", x),
        fixed4: format!("{:.4}", x),
    }
}

fn check(token: &str, url: &str) -> Check {
    Check {
        token: token.to_string(),
        url: url.to_string(),
        alias: None,
        last_status: None,
        uptime: None,
        down: None,
        period: None,
        apdex_t: None,
        enabled: None,
        published: None,
        string_match: None,
        mute_until: None,
        http_verb: None,
        http_body: None,
        check_type: None,
        disabled_locations: None,
        recipients: None,
        custom_headers: None,
        metrics: None,
    }
}

fn create(url: Option<&str>) -> ChecksAction {
    ChecksAction::Create {
        url: url.map(|u| u.to_string()),
        check_type: None,
        period: None,
        apdex_t: None,
        enabled: false,
        published: false,
        alias: None,
        string_match: None,
        mute_until: None,
        http_verb: None,
        http_body: None,
        disabled_locations: None,
        recipients: None,
        custom_headers: None,
    }
}

fn text(o: &JsonObject, key: &str) -> String {
    match o.get(key) {
        Some(JsonValue::Str(s)) => s.clone(),
        _ => panic!("no string under {}", key),
    }
}

fn printed(o: Output) -> String {
    match o {
        Output::Print(t) => t,
        _ => panic!("not printed text"),
    }
}

#[test]
fn list_plans_get_checks() {
    let s = checks::plan(&ChecksAction::List, OutputMode::Table).ok().unwrap();
    assert!(s.request.method == Method::Get);
    assert_eq!(s.request.path, "/api/checks");
    assert!(s.request.query.is_empty());
    assert!(s.request.body.is_none());
    assert!(s.expect == Expect::Checks);
    let s = checks::plan(&ChecksAction::List, OutputMode::Json).ok().unwrap();
    assert!(s.expect == Expect::AnyJson);
}

#[test]
fn create_sends_url_and_period() {
    let mut a = create(Some("https://new.example.com"));
    if let ChecksAction::Create { period, enabled, .. } = &mut a {
        *period = Some("60".to_string());
        *enabled = true;
    }
    let s = checks::plan(&a, OutputMode::Table).ok().unwrap();
    assert!(s.request.method == Method::Post);
    assert_eq!(s.request.path, "/api/checks");
    let body = s.request.body.unwrap();
    assert_eq!(text(&body, "url"), "https://new.example.com");
    assert!(matches!(body.get("period"), Some(JsonValue::UInt(60))));
    assert!(matches!(body.get("enabled"), Some(JsonValue::Bool(true))));
    assert!(body.get("published").is_none());
    assert!(body.get("type").is_none());
    assert_eq!(body.len(), 3);
    assert!(s.expect == Expect::Check);
}

#[test]
fn create_without_url_is_refused() {
    match checks::plan(&create(None), OutputMode::Axi) {
        Err(e) => {
            assert!(matches!(e, CommandError::MissingUrl));
            assert_eq!(e.message(), "URL is required for all check types except pulse");
        }
        Ok(_) => panic!("planned without a URL"),
    }
}

#[test]
fn pulse_needs_no_url() {
    let mut a = create(None);
    if let ChecksAction::Create { check_type, .. } = &mut a {
        *check_type = Some("pulse".to_string());
    }
    let s = checks::plan(&a, OutputMode::Axi).ok().unwrap();
    let body = s.request.body.unwrap();
    assert_eq!(text(&body, "type"), "pulse");
    assert!(body.get("url").is_none());
}

#[test]
fn invalid_custom_headers_are_refused() {
    let mut a = create(Some("https://x"));
    if let ChecksAction::Create { custom_headers, .. } = &mut a {
        *custom_headers = Some("{not json".to_string());
    }
    match checks::plan(&a, OutputMode::Table) {
        Err(e) => {
            assert!(matches!(e, CommandError::InvalidCustomHeaders(_)));
            let m = e.message();
            assert!(m.starts_with("--custom-headers must be valid JSON: "));
            assert!(m.len() > "--custom-headers must be valid JSON: ".len());
        }
        Ok(_) => panic!("bad headers accepted"),
    }
}

#[test]
fn valid_custom_headers_are_kept_as_json() {
    let mut a = create(Some("https://x"));
    if let ChecksAction::Create { custom_headers, apdex_t, .. } = &mut a {
        *custom_headers = Some("{\"X-Test\": \"1\"}".to_string());
        *apdex_t = Some("0.5".to_string());
    }
    let s = checks::plan(&a, OutputMode::Table).ok().unwrap();
    let body = s.request.body.unwrap();
    match body.get("custom_headers") {
        Some(JsonValue::Raw(t)) => assert_eq!(t, "{\"X-Test\": \"1\"}"),
        _ => panic!("headers missing"),
    }
    match body.get("apdex_t") {
        Some(JsonValue::Raw(t)) => assert_eq!(t, "0.5"),
        _ => panic!("apdex missing"),
    }
}

#[test]
fn with_custom_headers_follows_parse_outcome() {
    let r = checks::with_custom_headers(JsonObject::new(), &"[1]".to_string(), Ok(()));
    let b = r.ok().unwrap();
    assert!(matches!(b.get("custom_headers"), Some(JsonValue::Raw(t)) if t == "[1]"));
    let r = checks::with_custom_headers(JsonObject::new(), &"x".to_string(), Err("expected value".to_string()));
    match r {
        Err(CommandError::InvalidCustomHeaders(d)) => assert_eq!(d, "expected value"),
        _ => panic!("error lost"),
    }
}

#[test]
fn update_puts_to_token_path() {
    let a = ChecksAction::Update {
        token: "abc123".to_string(),
        url: None,
        check_type: None,
        period: Some("300".to_string()),
        apdex_t: None,
        enabled: Some(false),
        published: None,
        alias: None,
        string_match: None,
        mute_until: None,
        http_verb: None,
        http_body: None,
        disabled_locations: Some(vec!["fra".to_string(), "sin".to_string()]),
        recipients: None,
        custom_headers: None,
    };
    let s = checks::plan(&a, OutputMode::Table).ok().unwrap();
    assert!(s.request.method == Method::Put);
    assert_eq!(s.request.path, "/api/checks/abc123");
    let body = s.request.body.unwrap();
    assert!(matches!(body.get("period"), Some(JsonValue::UInt(300))));
    assert!(matches!(body.get("enabled"), Some(JsonValue::Bool(false))));
    match body.get("disabled_locations") {
        Some(JsonValue::StrList(l)) => assert_eq!(l, &vec!["fra".to_string(), "sin".to_string()]),
        _ => panic!("locations missing"),
    }
    let out = checks::render(&a, OutputMode::Table, Reply::Check(check("abc123", "https://example.com")));
    assert_eq!(printed(out), "Check updated: abc123 (https://example.com)\n");
}

#[test]
fn get_with_metrics_adds_query() {
    let a = ChecksAction::Get { token: "abc123".to_string(), metrics: true };
    let s = checks::plan(&a, OutputMode::Table).ok().unwrap();
    assert_eq!(s.request.path, "/api/checks/abc123");
    assert_eq!(s.request.query, vec![("metrics".to_string(), "true".to_string())]);
}

#[test]
fn downtimes_query_and_path() {
    let a = ChecksAction::Downtimes { token: "abc123".to_string(), page: Some(2), results: true };
    let s = checks::plan(&a, OutputMode::Axi).ok().unwrap();
    assert_eq!(s.request.path, "/api/checks/abc123/downtimes");
    assert_eq!(
        s.request.query,
        vec![("page".to_string(), "2".to_string()), ("results".to_string(), "true".to_string())]
    );
    assert!(s.expect == Expect::Downtimes);
}

#[test]
fn metrics_query_in_order() {
    let a = ChecksAction::Metrics {
        token: "abc123".to_string(),
        from: Some("2024-01-01".to_string()),
        to: None,
        group: Some("host".to_string()),
    };
    let s = checks::plan(&a, OutputMode::Table).ok().unwrap();
    assert_eq!(s.request.path, "/api/checks/abc123/metrics");
    assert_eq!(
        s.request.query,
        vec![("from".to_string(), "2024-01-01".to_string()), ("group".to_string(), "host".to_string())]
    );
    assert!(s.expect == Expect::AnyJson);
    let s = checks::plan(&a, OutputMode::Axi).ok().unwrap();
    assert!(s.expect == Expect::Metrics);
    match checks::render(&a, OutputMode::Axi, Reply::Metrics(Some(reading(0.95)))) {
        Output::AxiJson { prefix, hints } => {
            assert_eq!(prefix, "summary: apdex: 0.9500\n");
            assert_eq!(hints, vec!["checks get abc123".to_string(), "checks downtimes abc123".to_string()]);
        }
        _ => panic!("wrong output"),
    }
    match checks::render(&a, OutputMode::Axi, Reply::Metrics(None)) {
        Output::AxiJson { prefix, .. } => assert_eq!(prefix, "summary: apdex: -\n"),
        _ => panic!("wrong output"),
    }
}

#[test]
fn list_axi_summary() {
    let mut a = check("abc", "https://a");
    a.down = Some(false);
    a.uptime = Some(reading(99.5));
    let mut b = check("def", "https://b");
    b.down = Some(true);
    b.uptime = Some(reading(12.345));
    let c = check("ghi", "https://c");
    match checks::render(&ChecksAction::List, OutputMode::Axi, Reply::Checks(vec![a, b, c])) {
        Output::AxiList { rows: Rows::Checks(rows), resource, aggregate, hints } => {
            assert_eq!(rows.len(), 3);
            assert_eq!(rows[1].status, "down");
            assert_eq!(resource, "checks");
            assert_eq!(aggregate, "3 checks, 1 down, worst_uptime: 12.35%");
            assert_eq!(
                hints,
                vec!["checks get <token> --metrics".to_string(), "checks downtimes <token>".to_string()]
            );
        }
        _ => panic!("wrong output"),
    }
    match checks::render(&ChecksAction::List, OutputMode::Axi, Reply::Checks(Vec::new())) {
        Output::AxiList { aggregate, hints, .. } => {
            assert_eq!(aggregate, "0 checks, 0 down, worst_uptime: -");
            assert_eq!(hints, vec!["checks create --url <url>".to_string()]);
        }
        _ => panic!("wrong output"),
    }
}

#[test]
fn summarize_checks_keeps_first_of_equal_minimums() {
    let mut a = check("a", "u");
    a.uptime = Some(reading(50.0));
    let mut b = check("b", "u");
    b.uptime = Some(reading(f64::NAN));
    let mut c = check("c", "u");
    c.uptime = Some(reading(70.0));
    assert_eq!(checks::summarize_checks(&vec![a, b, c]), "3 checks, 0 down, worst_uptime: 50.00%");
}

#[test]
fn list_table_rows() {
    match checks::render(&ChecksAction::List, OutputMode::Table, Reply::Checks(vec![check("abc123", "https://example.com")])) {
        Output::Table(Rows::Checks(rows)) => {
            assert_eq!(rows[0].token, "abc123");
            assert_eq!(rows[0].url, "https://example.com");
        }
        _ => panic!("wrong output"),
    }
    assert!(matches!(
        checks::render(&ChecksAction::List, OutputMode::Json, Reply::AnyJson),
        Output::PrettyJson
    ));
}

#[test]
fn get_table_lists_fields() {
    let mut c = check("abc123", "https://example.com");
    c.alias = Some("My Site".to_string());
    c.down = Some(false);
    c.uptime = Some(reading(99.97));
    c.period = Some(60);
    c.check_type = Some("https".to_string());
    c.enabled = Some(true);
    c.metrics = Some(CheckMetrics { apdex: Some(reading(0.95)), timings: None, requests: None });
    let a = ChecksAction::Get { token: "abc123".to_string(), metrics: true };
    let out = printed(checks::render(&a, OutputMode::Table, Reply::Check(c)));
    assert_eq!(
        out,
        "  Token:  abc123\n    URL:  https://example.com\n  Alias:  My Site\n Status:  up\n Uptime:  99.97%\n Period:  60s\n   Type:  https\nEnabled:  true\n  Apdex:  0.9500\n"
    );
}

#[test]
fn get_axi_cuts_long_fields() {
    let mut c = check("abc123", "https://example.com");
    c.http_body = Some("x".repeat(300));
    c.custom_headers = Some(JsonValue::Raw(format!("{{\"h\":\"{}\"}}", "y".repeat(250))));
    let a = ChecksAction::Get { token: "abc123".to_string(), metrics: false };
    match checks::render(&a, OutputMode::Axi, Reply::Check(c)) {
        Output::AxiCheck { http_body, custom_headers, hints } => {
            let body = http_body.unwrap();
            assert!(body.ends_with("...[300]"));
            assert_eq!(body.len(), 200);
            assert!(custom_headers.unwrap().ends_with("...[258]"));
            assert_eq!(hints.len(), 3);
            assert_eq!(hints[0], "checks update abc123");
        }
        _ => panic!("wrong output"),
    }
    let mut short = check("abc123", "https://example.com");
    short.http_body = Some("hello".to_string());
    short.custom_headers = Some(JsonValue::Raw("{}".to_string()));
    match checks::render(&a, OutputMode::Axi, Reply::Check(short)) {
        Output::AxiCheck { http_body, custom_headers, .. } => {
            assert_eq!(http_body.unwrap(), "hello");
            assert!(custom_headers.is_none());
        }
        _ => panic!("wrong output"),
    }
}

#[test]
fn create_confirmations() {
    let a = create(Some("https://new.example.com"));
    let out = printed(checks::render(&a, OutputMode::Table, Reply::Check(check("new123", "https://new.example.com"))));
    assert_eq!(out, "Check created: new123 (https://new.example.com)\n");
    let out = printed(checks::render(&a, OutputMode::Axi, Reply::Check(check("new123", "https://new.example.com"))));
    assert_eq!(
        out,
        "Check created: new123 (https://new.example.com)\nhelp[checks get new123, checks list]"
    );
}

#[test]
fn delete_confirmations() {
    let a = ChecksAction::Delete { token: "abc123".to_string() };
    let s = checks::plan(&a, OutputMode::Table).ok().unwrap();
    assert!(s.request.method == Method::Delete);
    assert_eq!(s.request.path, "/api/checks/abc123");
    assert!(s.expect == Expect::Nothing);
    assert_eq!(printed(checks::render(&a, OutputMode::Table, Reply::Nothing)), "Deleted check abc123\n");
    assert_eq!(
        printed(checks::render(&a, OutputMode::Axi, Reply::Nothing)),
        "Deleted check abc123\nhelp[checks list]"
    );
}

#[test]
fn downtimes_axi_summary_and_cut_errors() {
    let d1 = Downtime {
        id: "dt1".to_string(),
        error: Some("e".repeat(250)),
        started_at: None,
        ended_at: None,
        duration: Some(3600),
    };
    let d2 = Downtime {
        id: "dt2".to_string(),
        error: Some("timeout".to_string()),
        started_at: None,
        ended_at: None,
        duration: None,
    };
    let d3 = Downtime {
        id: "dt3".to_string(),
        error: None,
        started_at: None,
        ended_at: None,
        duration: Some(60),
    };
    let a = ChecksAction::Downtimes { token: "abc123".to_string(), page: None, results: false };
    match checks::render(&a, OutputMode::Axi, Reply::Downtimes(vec![d1.duplicate(), d2.duplicate(), d3.duplicate()])) {
        Output::AxiList { rows: Rows::Downtimes(rows), resource, aggregate, hints } => {
            assert_eq!(resource, "downtimes");
            assert_eq!(aggregate, "3 downtimes, total_duration: 3660s");
            assert!(rows[0].error.ends_with("...[250]"));
            assert_eq!(rows[1].error, "timeout");
            assert_eq!(rows[2].error, "-");
            assert_eq!(hints, vec!["checks get abc123".to_string(), "checks metrics abc123".to_string()]);
        }
        _ => panic!("wrong output"),
    }
    match checks::render(&a, OutputMode::Table, Reply::Downtimes(vec![d1])) {
        Output::Table(Rows::Downtimes(rows)) => assert_eq!(rows[0].error.len(), 250),
        _ => panic!("wrong output"),
    }
    assert_eq!(checks::downtime_total(&vec![d2, d3]), Some(60));
}

#[test]
fn downtime_total_detects_overflow() {
    let big = |id: &str| Downtime {
        id: id.to_string(),
        error: None,
        started_at: None,
        ended_at: None,
        duration: Some(u64::MAX),
    };
    assert_eq!(checks::downtime_total(&vec![big("a")]), Some(u64::MAX));
    assert_eq!(checks::downtime_total(&vec![big("a"), big("b")]), None);
}

#[test]
fn body_params_checked() {
    assert!(checks::body_params_ok(&Some("60".to_string()), &Some("0.125".to_string())));
    assert!(!checks::body_params_ok(&Some("sixty".to_string()), &None));
    assert!(!checks::body_params_ok(&None, &Some("0.3".to_string())));
    assert!(checks::body_params_ok(&None, &None));
}

#[test]
fn check_body_holds_exactly_the_given_options() {
    let none: Option<String> = None;
    let no_list: Option<Vec<String>> = None;
    let empty = checks::build_check_body(&checks::CheckBodyParams {
        url: &none,
        check_type: &none,
        period: &none,
        apdex_t: &none,
        alias: &none,
        string_match: &none,
        mute_until: &none,
        http_verb: &none,
        http_body: &none,
        disabled_locations: &no_list,
        recipients: &no_list,
        custom_headers: &none,
    })
    .ok()
    .unwrap();
    assert_eq!(empty.len(), 0);
    let t = Some("tcp".to_string());
    let a = Some("My Site".to_string());
    let body = checks::build_check_body(&checks::CheckBodyParams {
        url: &none,
        check_type: &t,
        period: &none,
        apdex_t: &none,
        alias: &a,
        string_match: &none,
        mute_until: &none,
        http_verb: &none,
        http_body: &none,
        disabled_locations: &no_list,
        recipients: &no_list,
        custom_headers: &none,
    })
    .ok()
    .unwrap();
    assert_eq!(body.len(), 2);
    assert!(matches!(body.get("type"), Some(JsonValue::Str(v)) if v == "tcp"));
    assert!(matches!(body.get("alias"), Some(JsonValue::Str(v)) if v == "My Site"));
    assert!(body.get("enabled").is_none());
}
