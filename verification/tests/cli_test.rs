use updown::client::ApiError;
use updown::cmd::checks::ChecksAction;
use updown::cmd::cli::{failure, render, run, Cli, Commands, Failure, RunError};
use updown::cmd::nodes::NodesAction;
use updown::cmd::status_pages::StatusPagesAction;
use updown::cmd::{CommandError, Expect, Output, Reply};
use updown::models::check::Downtime;
use updown::output::OutputMode;

fn cli(command: Commands, api_key: Option<&str>) -> Cli {
    Cli {
        command,
        json: false,
        table: false,
        api_key: api_key.map(|k| k.to_string()),
    }
}

#[test]
fn run_resolves_key_then_plans() {
    let c = cli(Commands::Checks { action: ChecksAction::List }, Some("test-key"));
    match run(&c, OutputMode::Axi, None, None, Some("http://localhost:1".to_string())) {
        Ok((config, step)) => {
            assert_eq!(config.api_key, "test-key");
            assert_eq!(config.base_url, "http://localhost:1");
            assert_eq!(step.request.path, "/api/checks");
            assert!(step.expect == Expect::Checks);
        }
        Err(_) => panic!("run refused"),
    }
}

#[test]
fn run_without_key_fails_first() {
    let create = ChecksAction::Create {
        url: None,
        check_type: None,
        period: None,
        apdex_t: None,
        enabled: false,
        published: false,
        alias: None,
        string_match: None,
        mute_until: None,
        http_verb: None,
        http_body: None,
        disabled_locations: None,
        recipients: None,
        custom_headers: None,
    };
    let c = cli(Commands::Checks { action: create }, None);
    match run(&c, OutputMode::Axi, None, None, None) {
        Err(e) => {
            assert!(matches!(e, RunError::Config(_)));
            assert!(e.message().starts_with("No API key found"));
        }
        Ok(_) => panic!("ran without a key"),
    }
    match run(&c, OutputMode::Axi, Some("k".to_string()), None, None) {
        Err(e) => {
            assert!(matches!(e, RunError::Command(CommandError::MissingUrl)));
            assert_eq!(e.message(), "URL is required for all check types except pulse");
        }
        Ok(_) => panic!("ran without a URL"),
    }
}

#[test]
fn render_rejects_wrong_reply() {
    let c = Commands::Nodes { action: NodesAction::List };
    assert!(render(&c, OutputMode::Table, Reply::Ips(Vec::new())).is_none());
    assert!(matches!(render(&c, OutputMode::Json, Reply::AnyJson), Some(Output::PrettyJson)));
}

#[test]
fn render_rejects_overflowing_total() {
    let c = Commands::Checks {
        action: ChecksAction::Downtimes { token: "t".to_string(), page: None, results: false },
    };
    let big = |id: &str| Downtime {
        id: id.to_string(),
        error: None,
        started_at: None,
        ended_at: None,
        duration: Some(u64::MAX),
    };
    assert!(render(&c, OutputMode::Axi, Reply::Downtimes(vec![big("a"), big("b")])).is_none());
    assert!(render(&c, OutputMode::Table, Reply::Downtimes(vec![big("a"), big("b")])).is_some());
    let sp = Commands::StatusPages { action: StatusPagesAction::List };
    assert!(render(&sp, OutputMode::Axi, Reply::StatusPages(Vec::new())).is_some());
}

#[test]
fn axi_api_error_is_reported_on_stdout() {
    let e = Some(ApiError { status_code: 401, message: "Authentication failed (HTTP 401 Unauthorized): x".to_string() });
    match failure(OutputMode::Axi, &e, "Authentication failed (HTTP 401 Unauthorized): x") {
        Failure::Reported(t) => {
            assert_eq!(t, "error{code,message}:\n  401,Authentication failed (HTTP 401 Unauthorized): x")
        }
        _ => panic!("not reported"),
    }
    match failure(OutputMode::Json, &e, "Authentication failed (HTTP 401 Unauthorized): x") {
        Failure::Exit { message, code } => {
            assert_eq!(message, "Error: Authentication failed (HTTP 401 Unauthorized): x");
            assert_eq!(code, 1);
        }
        _ => panic!("reported outside AXI"),
    }
}

#[test]
fn configuration_failures_exit_with_2() {
    let chain = "No API key found. Pass --api-key, set UPDOWN_API_KEY, or add api_key to ~/.config/updown/config.toml";
    match failure(OutputMode::Axi, &None, chain) {
        Failure::Exit { code, .. } => assert_eq!(code, 2),
        _ => panic!("reported"),
    }
    match failure(OutputMode::Table, &None, "Failed to parse config: expected `=`") {
        Failure::Exit { code, .. } => assert_eq!(code, 2),
        _ => panic!("reported"),
    }
    match failure(OutputMode::Table, &None, "HOME environment variable not set") {
        Failure::Exit { code, .. } => assert_eq!(code, 2),
        _ => panic!("reported"),
    }
    match failure(OutputMode::Axi, &None, "URL is required for all check types except pulse") {
        Failure::Exit { message, code } => {
            assert_eq!(message, "Error: URL is required for all check types except pulse");
            assert_eq!(code, 1);
        }
        _ => panic!("reported"),
    }
}
