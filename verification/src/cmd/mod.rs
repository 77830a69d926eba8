//! The commands, as decisions: each command is planned into one API request
//! and the reply is rendered into what to print. Sending the request, decoding
//! the reply and printing are the caller's part.

pub mod checks;
pub mod cli;
pub mod nodes;
pub mod recipients;
pub mod status_pages;

use vstd::prelude::*;
use vstd::string::*;
use crate::json::JsonObject;
use crate::models::check::{Check, CheckRow, Downtime, DowntimeRow, Reading};
use crate::models::node::{Node, NodeRow};
use crate::models::recipient::{Recipient, RecipientRow};
use crate::models::status_page::{StatusPage, StatusPageRow};
use crate::output::{axi_confirm_text, format_axi_confirm, truncated, truncation_fits, truncate_field, AXI_FIELD_LIMIT, OutputMode};
use crate::text::{byte_len, decimal, decimal_string, utf8_len, views};

verus! {

/// HTTP method of a request.
#[derive(Debug, Clone, Copy, PartialEq, Eq, Structural)]
pub enum Method {
    Get,
    Post,
    Put,
    Delete,
}

/// One authenticated API request.
pub struct Request {
    pub method: Method,
    /// Path below the base URL, e.g. `/api/checks/abc123`.
    pub path: String,
    /// Query parameters, in order.
    pub query: Vec<(String, String)>,
    /// JSON body, for POST and PUT.
    pub body: Option<JsonObject>,
}

/// What the caller decodes from a successful reply and hands back to `render`.
#[derive(Debug, Clone, Copy, PartialEq, Eq, Structural)]
pub enum Expect {
    /// The body is not read.
    Nothing,
    /// The body is decoded as JSON (kept by the caller for printing); nothing is handed back.
    AnyJson,
    /// The body as plain text.
    Text,
    /// A list of checks.
    Checks,
    /// One check (the caller keeps its own copy for AXI encoding).
    Check,
    /// A list of downtimes.
    Downtimes,
    /// The map from location code to node.
    Nodes,
    /// A list of recipients.
    Recipients,
    /// One recipient.
    Recipient,
    /// A list of status pages.
    StatusPages,
    /// One status page.
    StatusPage,
    /// A list of IP addresses.
    Ips,
    /// A metrics document (kept by the caller); its numeric `apdex` is handed back.
    Metrics,
}

/// A request and the shape of reply it needs.
pub struct Step {
    pub request: Request,
    pub expect: Expect,
}

/// A decoded reply, in the shape its [`Expect`] named.
pub enum Reply {
    Nothing,
    AnyJson,
    Text(String),
    Checks(Vec<Check>),
    Check(Check),
    Downtimes(Vec<Downtime>),
    /// Location code and node, one entry per code.
    Nodes(Vec<(String, Node)>),
    Recipients(Vec<Recipient>),
    Recipient(Recipient),
    StatusPages(Vec<StatusPage>),
    StatusPage(StatusPage),
    Ips(Vec<String>),
    /// The metrics document's `apdex`, when it is a number.
    Metrics(Option<Reading>),
}

/// The shape of a reply.
pub open spec fn reply_shape(r: Reply) -> Expect {
    match r {
        Reply::Nothing => Expect::Nothing,
        Reply::AnyJson => Expect::AnyJson,
        Reply::Text(_) => Expect::Text,
        Reply::Checks(_) => Expect::Checks,
        Reply::Check(_) => Expect::Check,
        Reply::Downtimes(_) => Expect::Downtimes,
        Reply::Nodes(_) => Expect::Nodes,
        Reply::Recipients(_) => Expect::Recipients,
        Reply::Recipient(_) => Expect::Recipient,
        Reply::StatusPages(_) => Expect::StatusPages,
        Reply::StatusPage(_) => Expect::StatusPage,
        Reply::Ips(_) => Expect::Ips,
        Reply::Metrics(_) => Expect::Metrics,
    }
}

impl Reply {
    /// The shape of this reply, to compare with what a plan expects.
    pub fn shape(&self) -> (e: Expect)
        ensures
            e == reply_shape(*self),
    {
        match self {
            Reply::Nothing => Expect::Nothing,
            Reply::AnyJson => Expect::AnyJson,
            Reply::Text(_) => Expect::Text,
            Reply::Checks(_) => Expect::Checks,
            Reply::Check(_) => Expect::Check,
            Reply::Downtimes(_) => Expect::Downtimes,
            Reply::Nodes(_) => Expect::Nodes,
            Reply::Recipients(_) => Expect::Recipients,
            Reply::Recipient(_) => Expect::Recipient,
            Reply::StatusPages(_) => Expect::StatusPages,
            Reply::StatusPage(_) => Expect::StatusPage,
            Reply::Ips(_) => Expect::Ips,
            Reply::Metrics(_) => Expect::Metrics,
        }
    }
}

/// Rows for a table or an AXI list.
pub enum Rows {
    Checks(Vec<CheckRow>),
    Downtimes(Vec<DowntimeRow>),
    Nodes(Vec<NodeRow>),
    Recipients(Vec<RecipientRow>),
    StatusPages(Vec<StatusPageRow>),
}

/// What to print for a command.
pub enum Output {
    /// The reply's JSON, pretty-printed, on its own line.
    PrettyJson,
    /// The rows as a table, laid out with [`crate::output::format_table`].
    Table(Rows),
    /// This text exactly as it stands.
    Print(String),
    /// The rows encoded for AXI, laid out with [`crate::output::format_axi_list`]
    /// around the summary, resource name and hints given here.
    AxiList { rows: Rows, resource: String, aggregate: String, hints: Vec<String> },
    /// The decoded check encoded for AXI and laid out with
    /// [`crate::output::format_axi_detail`] and these hints, after its request body
    /// is set to `http_body` and, when `custom_headers` is given, its custom headers
    /// are replaced by that string (their JSON text, cut).
    AxiCheck { http_body: Option<String>, custom_headers: Option<String>, hints: Vec<String> },
    /// `prefix`, then the reply's JSON encoded for AXI and laid out with
    /// [`crate::output::format_axi_detail`] and these hints.
    AxiJson { prefix: String, hints: Vec<String> },
}

/// Why a command was refused before any request was sent.
pub enum CommandError {
    /// A check other than a pulse check needs a URL.
    MissingUrl,
    /// The `--custom-headers` text is not JSON; the parser's message is kept.
    InvalidCustomHeaders(String),
}

/// The message for a refused command, as the error chain prints it.
pub open spec fn command_error_text(e: CommandError) -> Seq<char> {
    match e {
        CommandError::MissingUrl => "URL is required for all check types except pulse"@,
        CommandError::InvalidCustomHeaders(d) => "--custom-headers must be valid JSON: "@ + d@,
    }
}

impl CommandError {
    /// The message for this error.
    pub fn message(&self) -> (m: String)
        ensures
            m@ == command_error_text(*self),
    {
        match self {
            CommandError::MissingUrl => String::from_str("URL is required for all check types except pulse"),
            CommandError::InvalidCustomHeaders(d) => {
                let mut m = String::from_str("--custom-headers must be valid JSON: ");
                m.append(d.as_str());
                m
            },
        }
    }
}

/// The views of query parameters.
pub open spec fn query_views(q: Seq<(String, String)>) -> Seq<(Seq<char>, Seq<char>)> {
    q.map_values(|p: (String, String)| (p.0@, p.1@))
}

/// A request with no query and no body.
pub open spec fn is_plain(r: Request, method: Method, path: Seq<char>) -> bool {
    r.method == method && r.path@ == path && r.query@.len() == 0 && r.body is None
}

/// `prefix` followed by `s`.
pub fn concat(prefix: &str, s: &str) -> (r: String)
    ensures
        r@ == prefix@ + s@,
{
    let mut r = String::from_str(prefix);
    r.append(s);
    r
}

/// `prefix`, `s`, then `suffix`.
pub fn concat3(prefix: &str, s: &str, suffix: &str) -> (r: String)
    ensures
        r@ == prefix@ + s@ + suffix@,
{
    let mut r = String::from_str(prefix);
    r.append(s);
    r.append(suffix);
    r
}

/// A request with no query and no body.
pub fn plain(method: Method, path: String) -> (r: Request)
    ensures
        is_plain(r, method, path@),
{
    Request { method, path, query: Vec::new(), body: None }
}

/// The confirmation for a table (the message on its own line) or for AXI (with hints).
pub open spec fn confirm_text(mode: OutputMode, message: Seq<char>, hints: Seq<Seq<char>>) -> Seq<char> {
    if mode == OutputMode::Axi {
        axi_confirm_text(message, hints)
    } else {
        message + "\n"@
    }
}

/// Prints a confirmation as the mode lays it out.
pub fn confirm(mode: OutputMode, message: &str, hints: &Vec<String>) -> (o: Output)
    ensures
        o matches Output::Print(t) && t@ == confirm_text(mode, message@, views(hints@)),
{
    if mode == OutputMode::Axi {
        Output::Print(format_axi_confirm(message, hints))
    } else {
        Output::Print(concat(message, "\n"))
    }
}

/// One hint.
pub fn hint1(a: String) -> (v: Vec<String>)
    ensures
        views(v@) == seq![a@],
{
    let mut v = Vec::new();
    v.push(a);
    assert(views(v@) =~= seq![a@]);
    v
}

/// Two hints.
pub fn hint2(a: String, b: String) -> (v: Vec<String>)
    ensures
        views(v@) == seq![a@, b@],
{
    let mut v = Vec::new();
    v.push(a);
    v.push(b);
    assert(views(v@) =~= seq![a@, b@]);
    v
}

/// Three hints.
pub fn hint3(a: String, b: String, c: String) -> (v: Vec<String>)
    ensures
        views(v@) == seq![a@, b@, c@],
{
    let mut v = Vec::new();
    v.push(a);
    v.push(b);
    v.push(c);
    assert(views(v@) =~= seq![a@, b@, c@]);
    v
}

proof fn lemma_decimal_len_pow(n: nat, k: nat)
    requires
        n < pow10(k),
        k >= 1,
    ensures
        decimal(n).len() <= k,
    decreases k,
{
    if n >= 10 {
        assert(n / 10 < pow10((k - 1) as nat)) by {
            assert(pow10(k) == 10 * pow10((k - 1) as nat));
            if k == 1 {
                assert(pow10(0) == 1);
            }
        }
        if k == 1 {
            assert(pow10(1) == 10 * pow10(0));
            assert(pow10(0) == 1);
        } else {
            lemma_decimal_len_pow(n / 10, (k - 1) as nat);
        }
    }
}

/// Ten to the power `k`.
pub open spec fn pow10(k: nat) -> nat
    decreases k,
{
    if k == 0 { 1 } else { 10 * pow10((k - 1) as nat) }
}

/// Any text whose byte length fits in a `usize` can be cut to the AXI limit: the
/// marker `...[N]` is at most 25 bytes.
proof fn lemma_axi_cut_fits(value: Seq<char>)
    requires
        utf8_len(value) <= usize::MAX,
    ensures
        truncation_fits(value, AXI_FIELD_LIMIT as nat),
{
    reveal_with_fuel(pow10, 21);
    assert(pow10(20) == 100000000000000000000);
    lemma_decimal_len_pow(utf8_len(value), 20);
}

/// A field cut for AXI output at 200 bytes.
pub fn truncate_axi(value: &str) -> (r: String)
    ensures
        r@ == truncated(value@, AXI_FIELD_LIMIT as nat),
{
    let n = byte_len(value);
    proof {
        lemma_axi_cut_fits(value@);
    }
    truncate_field(value, AXI_FIELD_LIMIT)
}

} // verus!
