//! The command line as a whole: its arguments, the planning and rendering of
//! every command, and how a failed run ends.

use vstd::prelude::*;
use vstd::string::*;
use crate::client::ApiError;
use crate::cmd::checks::{self, checks_expect, checks_refusal, checks_rendered, checks_request_ok, create_params, total_duration, ChecksAction};
use crate::cmd::nodes::{self, nodes_expect, nodes_rendered, nodes_request_ok, NodesAction};
use crate::cmd::recipients::{self, recipients_expect, recipients_rendered, recipients_request_ok, RecipientsAction};
use crate::cmd::status_pages::{
    self, checks_monitored, monitored_total, status_pages_expect, status_pages_rendered, status_pages_request_ok,
    StatusPagesAction,
};
use crate::cmd::{command_error_text, concat, reply_shape, CommandError, Expect, Output, Reply, Step};
use crate::config::{chosen_base_url, chosen_key, Config, ConfigError};
use crate::models::common::clone_opt;
use crate::output::{axi_error_text, format_axi_error, OutputMode};
use crate::text::{contains_text, decimal, str_eq, text_contains};

verus! {

/// Top-level command line: the command and the global options.
pub struct Cli {
    pub command: Commands,
    /// Output as JSON
    pub json: bool,
    /// Output as human-readable table
    pub table: bool,
    /// API key (overrides config file and env var)
    pub api_key: Option<String>,
}

/// Top-level subcommands, each mapping to an updown.io API resource.
pub enum Commands {
    /// Manage monitoring checks
    Checks { action: ChecksAction },
    /// View monitoring node locations and IPs
    Nodes { action: NodesAction },
    /// Manage alert recipients
    Recipients { action: RecipientsAction },
    /// Manage public status pages
    StatusPages { action: StatusPagesAction },
}

/// The arguments are values the requests can carry (the command line's own
/// choices of period and Apdex threshold).
pub open spec fn command_params_valid(c: Commands) -> bool {
    match c {
        Commands::Checks { action } => create_params(action),
        _ => true,
    }
}

/// What a command expects back, by output mode.
pub open spec fn command_expect(c: Commands, mode: OutputMode) -> Expect {
    match c {
        Commands::Checks { action } => checks_expect(action, mode),
        Commands::Nodes { action } => nodes_expect(action, mode),
        Commands::Recipients { action } => recipients_expect(action, mode),
        Commands::StatusPages { action } => status_pages_expect(action, mode),
    }
}

/// The request a command sends.
pub open spec fn command_request_ok(c: Commands, r: crate::cmd::Request) -> bool {
    match c {
        Commands::Checks { action } => checks_request_ok(action, r),
        Commands::Nodes { action } => nodes_request_ok(action, r),
        Commands::Recipients { action } => recipients_request_ok(action, r),
        Commands::StatusPages { action } => status_pages_request_ok(action, r),
    }
}

/// When a command is refused before any request, the message it is refused with.
pub open spec fn command_refusal(c: Commands) -> Option<Seq<char>> {
    match c {
        Commands::Checks { action } => checks_refusal(action),
        _ => None,
    }
}

/// What a command prints, given its reply.
pub open spec fn command_rendered(c: Commands, mode: OutputMode, reply: Reply, o: Output) -> bool {
    match c {
        Commands::Checks { action } => checks_rendered(action, mode, reply, o),
        Commands::Nodes { action } => nodes_rendered(action, mode, reply, o),
        Commands::Recipients { action } => recipients_rendered(action, mode, reply, o),
        Commands::StatusPages { action } => status_pages_rendered(action, mode, reply, o),
    }
}

/// A reply can be rendered for the command: it has the shape the command expects,
/// and the totals an AXI summary adds up fit in the integers that hold them.
pub open spec fn reply_fits(c: Commands, mode: OutputMode, reply: Reply) -> bool {
    &&& reply_shape(reply) == command_expect(c, mode)
    &&& mode == OutputMode::Axi ==> (reply matches Reply::Downtimes(ds) ==> total_duration(ds@) <= u64::MAX)
    &&& mode == OutputMode::Axi ==> (reply matches Reply::StatusPages(ps) ==> checks_monitored(ps@) <= usize::MAX)
}

/// Why a run stopped before sending its request.
pub enum RunError {
    /// No API key could be found.
    Config(ConfigError),
    /// The command's arguments were refused.
    Command(CommandError),
}

/// The message of a run error.
pub open spec fn run_error_text(e: RunError) -> Seq<char> {
    match e {
        RunError::Config(_) => "No API key found. Pass --api-key, set UPDOWN_API_KEY, or add api_key to ~/.config/updown/config.toml"@,
        RunError::Command(c) => command_error_text(c),
    }
}

impl RunError {
    /// The message of this error.
    pub fn message(&self) -> (m: String)
        ensures
            m@ == run_error_text(*self),
    {
        match self {
            RunError::Config(c) => c.message(),
            RunError::Command(c) => c.message(),
        }
    }
}

/// What a command expects back, by output mode.
pub fn expect_of(c: &Commands, mode: OutputMode) -> (e: Expect)
    ensures
        e == command_expect(*c, mode),
{
    let json = mode == OutputMode::Json;
    match c {
        Commands::Checks { action } => match action {
            ChecksAction::List => if json { Expect::AnyJson } else { Expect::Checks },
            ChecksAction::Get { .. } => if json { Expect::AnyJson } else { Expect::Check },
            ChecksAction::Create { .. } => if json { Expect::AnyJson } else { Expect::Check },
            ChecksAction::Update { .. } => if json { Expect::AnyJson } else { Expect::Check },
            ChecksAction::Delete { .. } => if json { Expect::AnyJson } else { Expect::Nothing },
            ChecksAction::Downtimes { .. } => if json { Expect::AnyJson } else { Expect::Downtimes },
            ChecksAction::Metrics { .. } => if mode == OutputMode::Axi { Expect::Metrics } else { Expect::AnyJson },
        },
        Commands::Nodes { action } => match action {
            NodesAction::List => if json { Expect::AnyJson } else { Expect::Nodes },
            NodesAction::Ips { format, .. } => match format {
                Some(f) => if str_eq(f.as_str(), "txt") { Expect::Text } else { Expect::AnyJson },
                None => if json { Expect::AnyJson } else { Expect::Ips },
            },
        },
        Commands::Recipients { action } => match action {
            RecipientsAction::List => if json { Expect::AnyJson } else { Expect::Recipients },
            RecipientsAction::Create { .. } => if json { Expect::AnyJson } else { Expect::Recipient },
            RecipientsAction::Delete { .. } => if mode == OutputMode::Table { Expect::Nothing } else { Expect::AnyJson },
        },
        Commands::StatusPages { action } => {
            if json {
                Expect::AnyJson
            } else {
                match action {
                    StatusPagesAction::List => Expect::StatusPages,
                    StatusPagesAction::Create { .. } => Expect::StatusPage,
                    StatusPagesAction::Update { .. } => Expect::StatusPage,
                    StatusPagesAction::Delete { .. } => Expect::Nothing,
                }
            }
        },
    }
}

/// Plans the request of a command.
pub fn plan(c: &Commands, mode: OutputMode) -> (r: Result<Step, CommandError>)
    requires
        command_params_valid(*c),
    ensures
        match command_refusal(*c) {
            Some(m) => r matches Err(e) && command_error_text(e) == m,
            None => r matches Ok(s) && command_request_ok(*c, s.request) && s.expect == command_expect(*c, mode),
        },
{
    match c {
        Commands::Checks { action } => checks::plan(action, mode),
        Commands::Nodes { action } => Ok(nodes::plan(action, mode)),
        Commands::Recipients { action } => Ok(recipients::plan(action, mode)),
        Commands::StatusPages { action } => Ok(status_pages::plan(action, mode)),
    }
}

/// Resolves the configuration, then plans the command's request: the decisions of
/// a run, before anything is sent. `env_key`, `file_key` and `env_base_url` are what
/// `UPDOWN_API_KEY`, the config file and `UPDOWN_BASE_URL` supply.
pub fn run(
    cli: &Cli,
    mode: OutputMode,
    env_key: Option<String>,
    file_key: Option<String>,
    env_base_url: Option<String>,
) -> (r: Result<(Config, Step), RunError>)
    requires
        command_params_valid(cli.command),
    ensures
        match chosen_key(cli.api_key, env_key, file_key) {
            None => r matches Err(RunError::Config(ConfigError::NoApiKey)),
            Some(k) => match command_refusal(cli.command) {
                Some(m) => r matches Err(RunError::Command(e)) && command_error_text(e) == m,
                None => r matches Ok((c, s)) && c.api_key@ == k@ && c.base_url@ == chosen_base_url(env_base_url)
                    && command_request_ok(cli.command, s.request) && s.expect == command_expect(cli.command, mode),
            },
        },
{
    let config = match Config::resolve(clone_opt(&cli.api_key), env_key, file_key, env_base_url) {
        Ok(c) => c,
        Err(e) => return Err(RunError::Config(e)),
    };
    match plan(&cli.command, mode) {
        Ok(s) => Ok((config, s)),
        Err(e) => Err(RunError::Command(e)),
    }
}

/// Renders a command's reply, or `None` when the reply cannot be rendered for it.
pub fn render(c: &Commands, mode: OutputMode, reply: Reply) -> (o: Option<Output>)
    ensures
        o is Some <==> reply_fits(*c, mode, reply),
        o matches Some(out) ==> command_rendered(*c, mode, reply, out),
{
    if reply.shape() != expect_of(c, mode) {
        return None;
    }
    if mode == OutputMode::Axi {
        match &reply {
            Reply::Downtimes(ds) => {
                if checks::downtime_total(ds).is_none() {
                    return None;
                }
            },
            Reply::StatusPages(ps) => {
                if monitored_total(ps).is_none() {
                    return None;
                }
            },
            _ => {},
        }
    }
    match c {
        Commands::Checks { action } => Some(checks::render(action, mode, reply)),
        Commands::Nodes { action } => Some(nodes::render(action, mode, reply)),
        Commands::Recipients { action } => Some(recipients::render(action, mode, reply)),
        Commands::StatusPages { action } => Some(status_pages::render(action, mode, reply)),
    }
}

/// How a failed run ends.
pub enum Failure {
    /// This text on standard output, and a successful exit.
    Reported(String),
    /// `message` on standard error, then exit with `code`.
    Exit { message: String, code: i32 },
}

/// The exit status of a failure: 2 for a configuration problem (no key, an
/// unreadable config file, no home directory), 1 for anything else.
pub open spec fn exit_code(chain: Seq<char>) -> i32 {
    if contains_text(chain, "No API key found"@) || contains_text(chain, "Failed to parse config"@)
        || contains_text(chain, "HOME environment variable"@) {
        2
    } else {
        1
    }
}

/// The ending of a failed run: in AXI mode a known API error is reported on
/// standard output as an `error{code,message}` table; any other failure prints
/// `Error: ` and the error chain, and exits with [`exit_code`].
pub open spec fn failure_ok(mode: OutputMode, api_error: Option<ApiError>, chain: Seq<char>, f: Failure) -> bool {
    match api_error {
        Some(e) if mode == OutputMode::Axi => f matches Failure::Reported(t) && t@ == axi_error_text(e.status_code, e.message@),
        _ => f matches Failure::Exit { message, code } && message@ == "Error: "@ + chain && code == exit_code(chain),
    }
}

/// Decides how a failed run ends. `api_error` is the failure when it is an API
/// error; `chain` is the whole error chain as text.
pub fn failure(mode: OutputMode, api_error: &Option<ApiError>, chain: &str) -> (f: Failure)
    ensures
        failure_ok(mode, *api_error, chain@, f),
{
    if mode == OutputMode::Axi {
        if let Some(e) = api_error {
            return Failure::Reported(format_axi_error(e.status_code, e.message.as_str()));
        }
    }
    let code: i32 = if text_contains(chain, "No API key found") || text_contains(chain, "Failed to parse config")
        || text_contains(chain, "HOME environment variable") {
        2
    } else {
        1
    };
    Failure::Exit { message: concat("Error: ", chain), code }
}

/// A failure exits with status 2 when its chain mentions a missing key, an
/// unreadable config file or a missing home directory, and with 1 otherwise; in AXI
/// mode an API error is instead reported on standard output as a one-row
/// `error{code,message}` table, and outside AXI mode it exits like any failure.
pub proof fn law_failure_endings(mode: OutputMode, api_error: Option<ApiError>, chain: Seq<char>, f: Failure)
    requires
        failure_ok(mode, api_error, chain, f),
    ensures
        contains_text(chain, "No API key found"@) && !(mode == OutputMode::Axi && api_error is Some) ==>
            (f matches Failure::Exit { code, .. } && code == 2),
        !contains_text(chain, "No API key found"@) && !contains_text(chain, "Failed to parse config"@)
            && !contains_text(chain, "HOME environment variable"@) && !(mode == OutputMode::Axi && api_error is Some) ==>
            (f matches Failure::Exit { code, .. } && code == 1),
        mode == OutputMode::Axi && api_error is Some ==> (f matches Failure::Reported(t)
            && t@ == "error{code,message}:\n  "@ + decimal(api_error.unwrap().status_code as nat) + ","@ + api_error.unwrap().message@),
        !(mode == OutputMode::Axi && api_error is Some) ==> (f matches Failure::Exit { message, .. } && message@ == "Error: "@ + chain),
{
}

} // verus!
