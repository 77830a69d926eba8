//! Subcommands for the `status_pages` resource (`GET/POST/PUT/DELETE /api/status_pages`).

use vstd::prelude::*;
use vstd::string::*;
use crate::cmd::{
    concat, concat3, confirm, confirm_text, hint1, is_plain, plain, reply_shape, Expect, Method, Output,
    Reply, Request, Rows, Step,
};
use crate::json::{clone_strings, JsonData, JsonObject, JsonValue};
use crate::models::common::opt_view;
use crate::models::status_page::{status_page_row_of, StatusPage, StatusPageRow};
use crate::output::OutputMode;
use crate::text::{decimal, decimal_string, str_eq, views};

verus! {

/// Actions available under `updown status-pages`.
pub enum StatusPagesAction {
    /// List all status pages
    List,
    /// Create a new status page
    Create {
        /// Check tokens to include (required)
        checks: Vec<String>,
        name: Option<String>,
        description: Option<String>,
        /// `public`, `protected` or `private`
        visibility: Option<String>,
        access_key: Option<String>,
    },
    /// Update a status page
    Update {
        /// Status page token
        token: String,
        checks: Option<Vec<String>>,
        name: Option<String>,
        description: Option<String>,
        visibility: Option<String>,
        access_key: Option<String>,
    },
    /// Delete a status page
    Delete {
        /// Status page token
        token: String,
    },
}

/// What a status pages action expects back, by output mode.
pub open spec fn status_pages_expect(a: StatusPagesAction, mode: OutputMode) -> Expect {
    if mode == OutputMode::Json {
        Expect::AnyJson
    } else {
        match a {
            StatusPagesAction::List => Expect::StatusPages,
            StatusPagesAction::Create { .. } => Expect::StatusPage,
            StatusPagesAction::Update { .. } => Expect::StatusPage,
            StatusPagesAction::Delete { .. } => Expect::Nothing,
        }
    }
}

/// `/api/status_pages/TOKEN`.
pub open spec fn status_page_path(token: Seq<char>) -> Seq<char> {
    "/api/status_pages/"@ + token
}

/// `m` with `key` set to the string `v`, when there is one.
pub open spec fn with_text(m: Map<Seq<char>, JsonData>, key: Seq<char>, v: Option<String>) -> Map<Seq<char>, JsonData> {
    match v {
        Some(s) => m.insert(key, JsonData::Str(s@)),
        None => m,
    }
}

/// The body of a creation or update: the check tokens when given, then the name,
/// description, visibility and access key, each when given.
pub open spec fn status_page_body(
    checks: Option<Vec<String>>,
    name: Option<String>,
    description: Option<String>,
    visibility: Option<String>,
    access_key: Option<String>,
) -> Map<Seq<char>, JsonData> {
    let m = match checks {
        Some(c) => Map::<Seq<char>, JsonData>::empty().insert("checks"@, JsonData::StrList(views(c@))),
        None => Map::<Seq<char>, JsonData>::empty(),
    };
    let m = with_text(m, "name"@, name);
    let m = with_text(m, "description"@, description);
    let m = with_text(m, "visibility"@, visibility);
    with_text(m, "access_key"@, access_key)
}

/// The request a status pages action sends.
pub open spec fn status_pages_request_ok(a: StatusPagesAction, r: Request) -> bool {
    match a {
        StatusPagesAction::List => is_plain(r, Method::Get, "/api/status_pages"@),
        StatusPagesAction::Create { checks, name, description, visibility, access_key } => {
            &&& r.method == Method::Post
            &&& r.path@ == "/api/status_pages"@
            &&& r.query@.len() == 0
            &&& r.body matches Some(b) && b@ == status_page_body(Some(checks), name, description, visibility, access_key)
        },
        StatusPagesAction::Update { token, checks, name, description, visibility, access_key } => {
            &&& r.method == Method::Put
            &&& r.path@ == status_page_path(token@)
            &&& r.query@.len() == 0
            &&& r.body matches Some(b) && b@ == status_page_body(checks, name, description, visibility, access_key)
        },
        StatusPagesAction::Delete { token } => is_plain(r, Method::Delete, status_page_path(token@)),
    }
}

fn put_text(body: &mut JsonObject, key: &str, v: &Option<String>)
    ensures
        final(body)@ == with_text(old(body)@, key@, *v),
{
    if let Some(s) = v {
        body.insert(String::from_str(key), JsonValue::Str(s.clone()));
    }
}

/// Builds the body of a creation or update.
pub fn build_status_page_body(
    checks: &Option<Vec<String>>,
    name: &Option<String>,
    description: &Option<String>,
    visibility: &Option<String>,
    access_key: &Option<String>,
) -> (b: JsonObject)
    ensures
        b@ == status_page_body(*checks, *name, *description, *visibility, *access_key),
{
    let mut body = JsonObject::new();
    if let Some(c) = checks {
        body.insert(String::from_str("checks"), JsonValue::StrList(clone_strings(c)));
    }
    put_text(&mut body, "name", name);
    put_text(&mut body, "description", description);
    put_text(&mut body, "visibility", visibility);
    put_text(&mut body, "access_key", access_key);
    body
}

/// Plans the request for a status pages action.
pub fn plan(action: &StatusPagesAction, mode: OutputMode) -> (s: Step)
    ensures
        status_pages_request_ok(*action, s.request),
        s.expect == status_pages_expect(*action, mode),
{
    let json = mode == OutputMode::Json;
    match action {
        StatusPagesAction::List => {
            let expect = if json { Expect::AnyJson } else { Expect::StatusPages };
            Step { request: plain(Method::Get, String::from_str("/api/status_pages")), expect }
        },
        StatusPagesAction::Create { checks, name, description, visibility, access_key } => {
            let given = Some(clone_strings(checks));
            let body = build_status_page_body(&given, name, description, visibility, access_key);
            let request = Request {
                method: Method::Post,
                path: String::from_str("/api/status_pages"),
                query: Vec::new(),
                body: Some(body),
            };
            let expect = if json { Expect::AnyJson } else { Expect::StatusPage };
            Step { request, expect }
        },
        StatusPagesAction::Update { token, checks, name, description, visibility, access_key } => {
            let body = build_status_page_body(checks, name, description, visibility, access_key);
            let request = Request {
                method: Method::Put,
                path: concat("/api/status_pages/", token.as_str()),
                query: Vec::new(),
                body: Some(body),
            };
            let expect = if json { Expect::AnyJson } else { Expect::StatusPage };
            Step { request, expect }
        },
        StatusPagesAction::Delete { token } => {
            let expect = if json { Expect::AnyJson } else { Expect::Nothing };
            Step { request: plain(Method::Delete, concat("/api/status_pages/", token.as_str())), expect }
        },
    }
}

/// Number of pages whose visibility is `public`.
pub open spec fn public_count(ps: Seq<StatusPage>) -> nat
    decreases ps.len(),
{
    if ps.len() == 0 {
        0
    } else {
        public_count(ps.drop_last()) + (if ps.last().visibility matches Some(v) && v@ == "public"@ {
            1nat
        } else {
            0nat
        })
    }
}

/// Number of checks the pages list, counted once per page that lists them.
pub open spec fn checks_monitored(ps: Seq<StatusPage>) -> nat
    decreases ps.len(),
{
    if ps.len() == 0 {
        0
    } else {
        checks_monitored(ps.drop_last()) + match ps.last().checks {
            Some(c) => c@.len(),
            None => 0,
        }
    }
}

/// `N status pages, P public, C total checks monitored`.
pub open spec fn status_pages_summary(ps: Seq<StatusPage>) -> Seq<char> {
    decimal(ps.len()) + " status pages, "@ + decimal(public_count(ps)) + " public, "@
        + decimal(checks_monitored(ps)) + " total checks monitored"@
}

/// The rows of a list of status pages, one per page, in order.
pub open spec fn status_page_rows(ps: Seq<StatusPage>, rows: Seq<StatusPageRow>) -> bool {
    rows.len() == ps.len() && forall|i: int| 0 <= i < ps.len() ==> status_page_row_of(#[trigger] ps[i], rows[i])
}

/// The URL of a page, or nothing when it has none.
pub open spec fn url_or_empty(u: Option<String>) -> Seq<char> {
    match u {
        Some(s) => s@,
        None => Seq::empty(),
    }
}

/// What a status pages action prints, given its reply.
pub open spec fn status_pages_rendered(a: StatusPagesAction, mode: OutputMode, reply: Reply, o: Output) -> bool {
    if mode == OutputMode::Json {
        o is PrettyJson
    } else {
        match a {
            StatusPagesAction::List => match reply {
                Reply::StatusPages(ps) => if mode == OutputMode::Table {
                    o matches Output::Table(Rows::StatusPages(rows)) && status_page_rows(ps@, rows@)
                } else {
                    o matches Output::AxiList { rows: Rows::StatusPages(rows), resource, aggregate, hints }
                        && status_page_rows(ps@, rows@) && resource@ == "status_pages"@
                        && aggregate@ == status_pages_summary(ps@)
                        && views(hints@) == seq!["status-pages create --checks <tokens>"@]
                },
                _ => false,
            },
            StatusPagesAction::Create { .. } => match reply {
                Reply::StatusPage(sp) => o matches Output::Print(t) && t@ == confirm_text(mode,
                    "Status page created: "@ + sp.token@ + " ("@ + url_or_empty(sp.url) + ")"@,
                    seq!["status-pages list"@]),
                _ => false,
            },
            StatusPagesAction::Update { .. } => match reply {
                Reply::StatusPage(sp) => o matches Output::Print(t) && t@ == confirm_text(mode,
                    "Status page updated: "@ + sp.token@, seq!["status-pages list"@]),
                _ => false,
            },
            StatusPagesAction::Delete { token } => o matches Output::Print(t)
                && t@ == confirm_text(mode, "Deleted status page "@ + token@, seq!["status-pages list"@]),
        }
    }
}

/// Counts the public pages.
fn count_public(ps: &Vec<StatusPage>) -> (n: usize)
    ensures
        n == public_count(ps@),
{
    let mut n: usize = 0;
    let mut i: usize = 0;
    while i < ps.len()
        invariant
            i <= ps@.len(),
            n == public_count(ps@.take(i as int)),
            n <= i,
        decreases ps@.len() - i,
    {
        proof {
            assert(ps@.take(i + 1).drop_last() =~= ps@.take(i as int));
        }
        let public = match &ps[i].visibility {
            Some(v) => str_eq(v.as_str(), "public"),
            None => false,
        };
        if public {
            n = n + 1;
        }
        i = i + 1;
    }
    assert(ps@.take(ps@.len() as int) =~= ps@);
    n
}

proof fn lemma_checks_monitored_prefix(ps: Seq<StatusPage>, i: int)
    requires
        0 <= i <= ps.len(),
    ensures
        checks_monitored(ps.take(i)) <= checks_monitored(ps),
    decreases ps.len() - i,
{
    if i < ps.len() {
        lemma_checks_monitored_prefix(ps, i + 1);
        assert(ps.take(i + 1).drop_last() =~= ps.take(i));
    } else {
        assert(ps.take(i) =~= ps);
    }
}

/// The number of checks the pages list, or `None` when it does not fit in a `usize`.
pub fn monitored_total(ps: &Vec<StatusPage>) -> (t: Option<usize>)
    ensures
        match t {
            Some(n) => n == checks_monitored(ps@),
            None => checks_monitored(ps@) > usize::MAX,
        },
{
    let mut total: usize = 0;
    let mut i: usize = 0;
    while i < ps.len()
        invariant
            i <= ps@.len(),
            total == checks_monitored(ps@.take(i as int)),
        decreases ps@.len() - i,
    {
        proof {
            assert(ps@.take(i + 1).drop_last() =~= ps@.take(i as int));
        }
        if let Some(c) = &ps[i].checks {
            let n = c.len();
            if total > usize::MAX - n {
                proof {
                    lemma_checks_monitored_prefix(ps@, i + 1);
                }
                return None;
            }
            total = total + n;
        }
        i = i + 1;
    }
    assert(ps@.take(ps@.len() as int) =~= ps@);
    Some(total)
}

/// The AXI summary of a list of status pages.
pub fn summarize_status_pages(ps: &Vec<StatusPage>) -> (s: String)
    requires
        checks_monitored(ps@) <= usize::MAX,
    ensures
        s@ == status_pages_summary(ps@),
{
    let mut s = decimal_string(ps.len() as u64);
    s.append(" status pages, ");
    let p = decimal_string(count_public(ps) as u64);
    s.append(p.as_str());
    s.append(" public, ");
    let total = match monitored_total(ps) {
        Some(t) => t,
        None => 0,
    };
    let c = decimal_string(total as u64);
    s.append(c.as_str());
    s.append(" total checks monitored");
    s
}

/// The rows of a list of status pages.
pub fn rows_of_status_pages(ps: &Vec<StatusPage>) -> (rows: Vec<StatusPageRow>)
    ensures
        status_page_rows(ps@, rows@),
{
    let mut rows: Vec<StatusPageRow> = Vec::new();
    let mut i: usize = 0;
    while i < ps.len()
        invariant
            i <= ps@.len(),
            rows@.len() == i,
            forall|j: int| 0 <= j < i ==> status_page_row_of(#[trigger] ps@[j], rows@[j]),
        decreases ps@.len() - i,
    {
        rows.push(StatusPageRow::from(&ps[i]));
        i = i + 1;
    }
    rows
}

/// Renders the reply to a status pages action.
pub fn render(action: &StatusPagesAction, mode: OutputMode, reply: Reply) -> (o: Output)
    requires
        reply_shape(reply) == status_pages_expect(*action, mode),
        mode == OutputMode::Axi ==> (reply matches Reply::StatusPages(ps) ==> checks_monitored(ps@) <= usize::MAX),
    ensures
        status_pages_rendered(*action, mode, reply, o),
{
    if mode == OutputMode::Json {
        return Output::PrettyJson;
    }
    match action {
        StatusPagesAction::List => match reply {
            Reply::StatusPages(ps) => {
                let rows = rows_of_status_pages(&ps);
                if mode == OutputMode::Table {
                    Output::Table(Rows::StatusPages(rows))
                } else {
                    Output::AxiList {
                        rows: Rows::StatusPages(rows),
                        resource: String::from_str("status_pages"),
                        aggregate: summarize_status_pages(&ps),
                        hints: hint1(String::from_str("status-pages create --checks <tokens>")),
                    }
                }
            },
            _ => Output::PrettyJson,
        },
        StatusPagesAction::Create { .. } => match reply {
            Reply::StatusPage(sp) => {
                let url = match &sp.url {
                    Some(u) => u.clone(),
                    None => String::new(),
                };
                let m = concat3("Status page created: ", sp.token.as_str(), " (");
                let m = concat3(m.as_str(), url.as_str(), ")");
                confirm(mode, m.as_str(), &hint1(String::from_str("status-pages list")))
            },
            _ => Output::PrettyJson,
        },
        StatusPagesAction::Update { .. } => match reply {
            Reply::StatusPage(sp) => {
                let m = concat("Status page updated: ", sp.token.as_str());
                confirm(mode, m.as_str(), &hint1(String::from_str("status-pages list")))
            },
            _ => Output::PrettyJson,
        },
        StatusPagesAction::Delete { token } => {
            let m = concat("Deleted status page ", token.as_str());
            confirm(mode, m.as_str(), &hint1(String::from_str("status-pages list")))
        },
    }
}

/// Where each status pages action goes: listing and creation to
/// `/api/status_pages`, update and deletion to `/api/status_pages/TOKEN`.
pub proof fn law_status_pages_request_targets(a: StatusPagesAction, r: Request)
    requires
        status_pages_request_ok(a, r),
    ensures
        a is List ==> r.method == Method::Get && r.path@ == "/api/status_pages"@ && r.body is None,
        a is Create ==> r.method == Method::Post && r.path@ == "/api/status_pages"@,
        a matches StatusPagesAction::Update { token, .. } ==> (r.method == Method::Put
            && r.path@ == "/api/status_pages/"@ + token@),
        a matches StatusPagesAction::Delete { token } ==> (r.method == Method::Delete
            && r.path@ == "/api/status_pages/"@ + token@ && r.body is None),
{
}

/// Only a page whose visibility is exactly `public` counts as public: no pages
/// count nothing, appending a public page adds one, and appending any other page
/// (protected, private, or with no visibility) adds nothing.
pub proof fn law_public_count(ps: Seq<StatusPage>, p: StatusPage)
    ensures
        public_count(Seq::<StatusPage>::empty()) == 0,
        opt_view(p.visibility) == Some("public"@) ==> public_count(ps.push(p)) == public_count(ps) + 1,
        opt_view(p.visibility) != Some("public"@) ==> public_count(ps.push(p)) == public_count(ps),
        public_count(ps) <= ps.len(),
    decreases ps.len(),
{
    assert(ps.push(p).drop_last() =~= ps);
    if ps.len() > 0 {
        law_public_count(ps.drop_last(), ps.last());
    }
}

/// Each page adds the number of check tokens it lists to the checks monitored:
/// none for no pages, and appending a page adds its list's length (nothing when it
/// lists none).
pub proof fn law_checks_monitored(ps: Seq<StatusPage>, p: StatusPage)
    ensures
        checks_monitored(Seq::<StatusPage>::empty()) == 0,
        checks_monitored(ps.push(p)) == checks_monitored(ps) + (if p.checks is Some { p.checks->0@.len() } else { 0 }),
{
    assert(ps.push(p).drop_last() =~= ps);
}

/// The names of the status page body fields are all different.
proof fn lemma_page_keys_distinct()
    ensures
        "checks"@ != "name"@,
        "checks"@ != "description"@,
        "checks"@ != "visibility"@,
        "checks"@ != "access_key"@,
        "name"@ != "description"@,
        "name"@ != "visibility"@,
        "name"@ != "access_key"@,
        "description"@ != "visibility"@,
        "description"@ != "access_key"@,
        "visibility"@ != "access_key"@,
{
    reveal_strlit("checks");
    reveal_strlit("name");
    reveal_strlit("description");
    reveal_strlit("visibility");
    reveal_strlit("access_key");
    assert("checks"@.len() != "name"@.len());
    assert("checks"@.len() != "description"@.len());
    assert("checks"@.len() != "visibility"@.len());
    assert("checks"@.len() != "access_key"@.len());
    assert("name"@.len() != "description"@.len());
    assert("name"@.len() != "visibility"@.len());
    assert("name"@.len() != "access_key"@.len());
    assert("description"@.len() != "visibility"@.len());
    assert("description"@.len() != "access_key"@.len());
    assert("visibility"@[0] != "access_key"@[0]);
}

/// A status page body holds exactly the given options, each under its API name:
/// the check tokens as an array of strings, the name, description, visibility and
/// access key as the strings given, and nothing else.
pub proof fn law_status_page_body_fields(
    checks: Option<Vec<String>>,
    name: Option<String>,
    description: Option<String>,
    visibility: Option<String>,
    access_key: Option<String>,
)
    ensures
        forall|k: Seq<char>| #[trigger] status_page_body(checks, name, description, visibility, access_key).contains_key(k) <==> {
            ||| (k == "checks"@ && checks is Some)
            ||| (k == "name"@ && name is Some)
            ||| (k == "description"@ && description is Some)
            ||| (k == "visibility"@ && visibility is Some)
            ||| (k == "access_key"@ && access_key is Some)
        },
        checks matches Some(c) ==> status_page_body(checks, name, description, visibility, access_key)["checks"@] == JsonData::StrList(views(c@)),
        name matches Some(v) ==> status_page_body(checks, name, description, visibility, access_key)["name"@] == JsonData::Str(v@),
        description matches Some(v) ==> status_page_body(checks, name, description, visibility, access_key)["description"@] == JsonData::Str(v@),
        visibility matches Some(v) ==> status_page_body(checks, name, description, visibility, access_key)["visibility"@] == JsonData::Str(v@),
        access_key matches Some(v) ==> status_page_body(checks, name, description, visibility, access_key)["access_key"@] == JsonData::Str(v@),
{
    lemma_page_keys_distinct();
}

/// A create always sends its check tokens, and a create or update sends the access
/// key exactly when one is given, as the string given.
pub proof fn law_status_page_request_body(a: StatusPagesAction, r: Request)
    requires
        status_pages_request_ok(a, r),
    ensures
        a matches StatusPagesAction::Create { checks, access_key, .. } ==> r.body matches Some(b)
            && b@["checks"@] == JsonData::StrList(views(checks@))
            && (b@.contains_key("access_key"@) <==> access_key is Some)
            && (access_key matches Some(k) ==> b@["access_key"@] == JsonData::Str(k@)),
        a matches StatusPagesAction::Update { access_key, .. } ==> r.body matches Some(b)
            && (b@.contains_key("access_key"@) <==> access_key is Some)
            && (access_key matches Some(k) ==> b@["access_key"@] == JsonData::Str(k@)),
{
    match a {
        StatusPagesAction::Create { checks, name, description, visibility, access_key } => {
            law_status_page_body_fields(Some(checks), name, description, visibility, access_key);
            lemma_page_keys_distinct();
            let bd = status_page_body(Some(checks), name, description, visibility, access_key);
            assert(bd.contains_key("access_key"@) <==> access_key is Some);
            assert(bd.contains_key("checks"@));
        },
        StatusPagesAction::Update { token, checks, name, description, visibility, access_key } => {
            law_status_page_body_fields(checks, name, description, visibility, access_key);
            lemma_page_keys_distinct();
            let bd = status_page_body(checks, name, description, visibility, access_key);
            assert(bd.contains_key("access_key"@) <==> access_key is Some);
        },
        _ => {},
    }
}

} // verus!
