use updown::cmd::nodes::{self, NodesAction};
use updown::cmd::recipients::{self, RecipientsAction};
use updown::cmd::status_pages::{self, StatusPagesAction};
use updown::cmd::{Expect, Method, Output, Reply, Rows};
use updown::json::JsonValue;
use updown::models::node::Node;
use updown::models::recipient::Recipient;
use updown::models::status_page::StatusPage;
use updown::output::OutputMode;

fn node(city: &str, cc: Option<&str>) -> Node {
    Node {
        ip: Some("1.2.3.4".to_string()),
        ip6: None,
        city: Some(city.to_string()),
        country: None,
        country_code: cc.map(|c| c.to_string()),
    }
}

fn recipient(id: &str, t: &str, value: Option<&str>) -> Recipient {
    Recipient {
        id: id.to_string(),
        recipient_type: t.to_string(),
        name: None,
        value: value.map(|v| v.to_string()),
        selected: None,
    }
}

fn page(token: &str, visibility: Option<&str>, checks: Option<Vec<&str>>) -> StatusPage {
    StatusPage {
        token: token.to_string(),
        url: None,
        name: None,
        description: None,
        visibility: visibility.map(|v| v.to_string()),
        checks: checks.map(|c| c.into_iter().map(|s| s.to_string()).collect()),
    }
}

fn printed(o: Output) -> String {
    match o {
        Output::Print(t) => t,
        _ => panic!("not printed text"),
    }
}

#[test]
fn nodes_list_sorted_by_code() {
    let entries = vec![
        ("sin".to_string(), node("Singapore", Some("SG"))),
        ("lan".to_string(), node("Los Angeles", Some("US"))),
        ("mia".to_string(), node("Miami", Some("US"))),
        ("fra".to_string(), node("Frankfurt", None)),
    ];
    let s = nodes::plan(&NodesAction::List, OutputMode::Table);
    assert_eq!(s.request.path, "/api/nodes");
    assert!(s.expect == Expect::Nodes);
    match nodes::render(&NodesAction::List, OutputMode::Table, Reply::Nodes(entries)) {
        Output::Table(Rows::Nodes(rows)) => {
            let codes: Vec<&str> = rows.iter().map(|r| r.code.as_str()).collect();
            assert_eq!(codes, vec!["fra", "lan", "mia", "sin"]);
            assert_eq!(rows[1].city, "Los Angeles");
            assert_eq!(rows[1].ip6, "-");
        }
        _ => panic!("wrong output"),
    }
}

#[test]
fn nodes_axi_counts_countries() {
    let entries = vec![
        ("sin".to_string(), node("Singapore", Some("SG"))),
        ("lan".to_string(), node("Los Angeles", Some("US"))),
        ("mia".to_string(), node("Miami", Some("US"))),
        ("fra".to_string(), node("Frankfurt", None)),
    ];
    assert_eq!(nodes::count_countries(&entries), 2);
    match nodes::render(&NodesAction::List, OutputMode::Axi, Reply::Nodes(entries)) {
        Output::AxiList { rows: Rows::Nodes(rows), resource, aggregate, hints } => {
            assert_eq!(rows[0].code, "fra");
            assert_eq!(resource, "nodes");
            assert_eq!(aggregate, "4 nodes across 2 countries");
            assert_eq!(hints, vec!["nodes ips --ipv4".to_string(), "nodes ips --ipv6".to_string()]);
        }
        _ => panic!("wrong output"),
    }
}

#[test]
fn nodes_ips_paths() {
    let a = NodesAction::Ips { ipv4: true, ipv6: false, format: None };
    let s = nodes::plan(&a, OutputMode::Table);
    assert_eq!(s.request.path, "/api/nodes/ipv4");
    assert!(s.request.query.is_empty());
    assert!(s.expect == Expect::Ips);
    let a6 = NodesAction::Ips { ipv4: false, ipv6: true, format: None };
    assert_eq!(nodes::plan(&a6, OutputMode::Table).request.path, "/api/nodes/ipv6");
    let both = NodesAction::Ips { ipv4: false, ipv6: false, format: None };
    assert_eq!(nodes::plan(&both, OutputMode::Json).request.path, "/api/nodes/ips");
    assert!(nodes::plan(&both, OutputMode::Json).expect == Expect::AnyJson);
    let ips = vec!["1.2.3.4".to_string(), "5.6.7.8".to_string()];
    assert_eq!(printed(nodes::render(&a, OutputMode::Table, Reply::Ips(ips.clone()))), "1.2.3.4\n5.6.7.8\n");
    assert_eq!(
        printed(nodes::render(&a, OutputMode::Axi, Reply::Ips(ips))),
        "1.2.3.4\n5.6.7.8\nhelp[nodes list]\n"
    );
}

#[test]
fn nodes_ips_format_txt() {
    let a = NodesAction::Ips { ipv4: false, ipv6: false, format: Some("txt".to_string()) };
    let s = nodes::plan(&a, OutputMode::Axi);
    assert_eq!(s.request.path, "/api/nodes/ips");
    assert_eq!(s.request.query, vec![("format".to_string(), "txt".to_string())]);
    assert!(s.expect == Expect::Text);
    let out = printed(nodes::render(&a, OutputMode::Axi, Reply::Text("1.2.3.4\n5.6.7.8\n".to_string())));
    assert_eq!(out, "1.2.3.4\n5.6.7.8\nhelp[nodes list]\n");
    let out = printed(nodes::render(&a, OutputMode::Axi, Reply::Text("1.2.3.4".to_string())));
    assert_eq!(out, "1.2.3.4\nhelp[nodes list]\n");
    let out = printed(nodes::render(&a, OutputMode::Table, Reply::Text("1.2.3.4\n5.6.7.8\n".to_string())));
    assert_eq!(out, "1.2.3.4\n5.6.7.8\n");
    let j = NodesAction::Ips { ipv4: false, ipv6: true, format: Some("json".to_string()) };
    let s = nodes::plan(&j, OutputMode::Table);
    assert_eq!(s.request.query, vec![("format".to_string(), "json".to_string())]);
    assert!(s.expect == Expect::AnyJson);
}

#[test]
fn recipients_create_body() {
    let a = RecipientsAction::Create {
        recipient_type: "email".to_string(),
        value: "new@example.com".to_string(),
        name: Some("New Admin".to_string()),
        no_selected: false,
    };
    let s = recipients::plan(&a, OutputMode::Axi);
    assert!(s.request.method == Method::Post);
    assert_eq!(s.request.path, "/api/recipients");
    let body = s.request.body.unwrap();
    assert!(matches!(body.get("type"), Some(JsonValue::Str(t)) if t == "email"));
    assert!(matches!(body.get("value"), Some(JsonValue::Str(t)) if t == "new@example.com"));
    assert!(matches!(body.get("name"), Some(JsonValue::Str(t)) if t == "New Admin"));
    assert!(body.get("selected").is_none());
    let out = printed(recipients::render(&a, OutputMode::Axi, Reply::Recipient(recipient("rec456", "email", Some("new@example.com")))));
    assert_eq!(out, "Recipient created: rec456 (email new@example.com)\nhelp[recipients list]");
    let out = printed(recipients::render(&a, OutputMode::Table, Reply::Recipient(recipient("rec1", "webhook", None))));
    assert_eq!(out, "Recipient created: rec1 (webhook )\n");
}

#[test]
fn recipients_create_no_selected() {
    let a = RecipientsAction::Create {
        recipient_type: "email".to_string(),
        value: "opt@example.com".to_string(),
        name: None,
        no_selected: true,
    };
    let body = recipients::plan(&a, OutputMode::Table).request.body.unwrap();
    assert!(matches!(body.get("selected"), Some(JsonValue::Bool(false))));
    assert!(body.get("name").is_none());
    assert_eq!(body.len(), 3);
}

#[test]
fn recipients_axi_tally() {
    let rs = vec![
        recipient("a", "webhook", None),
        recipient("b", "email", Some("x@y")),
        recipient("c", "sms", None),
        recipient("d", "email", None),
    ];
    let tally = recipients::recipient_tally(&rs);
    assert_eq!(
        tally,
        vec![("email".to_string(), 2), ("sms".to_string(), 1), ("webhook".to_string(), 1)]
    );
    match recipients::render(&RecipientsAction::List, OutputMode::Axi, Reply::Recipients(rs)) {
        Output::AxiList { rows: Rows::Recipients(rows), resource, aggregate, hints } => {
            assert_eq!(rows.len(), 4);
            assert_eq!(rows[1].value, "x@y");
            assert_eq!(resource, "recipients");
            assert_eq!(aggregate, "4 recipients (2 email, 1 sms, 1 webhook)");
            assert_eq!(hints, vec!["recipients create <type> <value>".to_string()]);
        }
        _ => panic!("wrong output"),
    }
    assert_eq!(recipients::summarize_recipients(&Vec::new()), "0 recipients ()");
}

#[test]
fn recipients_delete() {
    let a = RecipientsAction::Delete { id: "rec123".to_string() };
    let s = recipients::plan(&a, OutputMode::Axi);
    assert!(s.request.method == Method::Delete);
    assert_eq!(s.request.path, "/api/recipients/rec123");
    assert!(s.expect == Expect::AnyJson);
    assert!(recipients::plan(&a, OutputMode::Table).expect == Expect::Nothing);
    assert_eq!(
        printed(recipients::render(&a, OutputMode::Axi, Reply::AnyJson)),
        "Deleted recipient rec123\nhelp[recipients list]"
    );
    assert_eq!(printed(recipients::render(&a, OutputMode::Table, Reply::Nothing)), "Deleted recipient rec123\n");
    assert!(matches!(recipients::render(&a, OutputMode::Json, Reply::AnyJson), Output::PrettyJson));
}

#[test]
fn status_pages_create_body() {
    let a = StatusPagesAction::Create {
        checks: vec!["abc123".to_string(), "def456".to_string()],
        name: Some("New Status".to_string()),
        description: None,
        visibility: None,
        access_key: None,
    };
    let s = status_pages::plan(&a, OutputMode::Axi);
    assert!(s.request.method == Method::Post);
    assert_eq!(s.request.path, "/api/status_pages");
    let body = s.request.body.unwrap();
    match body.get("checks") {
        Some(JsonValue::StrList(l)) => assert_eq!(l, &vec!["abc123".to_string(), "def456".to_string()]),
        _ => panic!("checks missing"),
    }
    assert_eq!(body.len(), 2);
    let mut sp = page("spnew", None, None);
    sp.url = Some("https://status.new.com".to_string());
    assert_eq!(
        printed(status_pages::render(&a, OutputMode::Axi, Reply::StatusPage(sp))),
        "Status page created: spnew (https://status.new.com)\nhelp[status-pages list]"
    );
}

#[test]
fn status_pages_update_and_delete() {
    let a = StatusPagesAction::Update {
        token: "sp123".to_string(),
        checks: None,
        name: Some("Updated".to_string()),
        description: None,
        visibility: Some("public".to_string()),
        access_key: None,
    };
    let s = status_pages::plan(&a, OutputMode::Table);
    assert!(s.request.method == Method::Put);
    assert_eq!(s.request.path, "/api/status_pages/sp123");
    let body = s.request.body.unwrap();
    assert!(body.get("checks").is_none());
    assert!(matches!(body.get("visibility"), Some(JsonValue::Str(v)) if v == "public"));
    assert_eq!(
        printed(status_pages::render(&a, OutputMode::Table, Reply::StatusPage(page("sp123", None, None)))),
        "Status page updated: sp123\n"
    );
    let d = StatusPagesAction::Delete { token: "sp123".to_string() };
    assert_eq!(status_pages::plan(&d, OutputMode::Axi).request.path, "/api/status_pages/sp123");
    assert_eq!(
        printed(status_pages::render(&d, OutputMode::Axi, Reply::Nothing)),
        "Deleted status page sp123\nhelp[status-pages list]"
    );
}

#[test]
fn status_pages_axi_summary() {
    let ps = vec![
        page("a", Some("public"), Some(vec!["c1", "c2"])),
        page("b", Some("private"), Some(vec!["c1"])),
        page("c", None, None),
    ];
    assert_eq!(status_pages::monitored_total(&ps), Some(3));
    match status_pages::render(&StatusPagesAction::List, OutputMode::Axi, Reply::StatusPages(ps)) {
        Output::AxiList { rows: Rows::StatusPages(rows), resource, aggregate, hints } => {
            assert_eq!(rows[0].checks, "c1, c2");
            assert_eq!(resource, "status_pages");
            assert_eq!(aggregate, "3 status pages, 1 public, 3 total checks monitored");
            assert_eq!(hints, vec!["status-pages create --checks <tokens>".to_string()]);
        }
        _ => panic!("wrong output"),
    }
}

#[test]
fn node_listing_ignores_map_order() {
    let a = vec![
        ("sin".to_string(), node("Singapore", Some("SG"))),
        ("ams".to_string(), node("Amsterdam", Some("NL"))),
        ("lan".to_string(), node("Los Angeles", Some("US"))),
    ];
    let b = vec![
        ("lan".to_string(), node("Los Angeles", Some("US"))),
        ("sin".to_string(), node("Singapore", Some("SG"))),
        ("ams".to_string(), node("Amsterdam", Some("NL"))),
    ];
    let ra = nodes::sorted_node_rows(&a);
    let rb = nodes::sorted_node_rows(&b);
    let ca: Vec<(String, String)> = ra.iter().map(|r| (r.code.clone(), r.city.clone())).collect();
    let cb: Vec<(String, String)> = rb.iter().map(|r| (r.code.clone(), r.city.clone())).collect();
    assert_eq!(ca, cb);
    assert_eq!(ca[0].0, "ams");
}

#[test]
fn recipient_tally_ignores_order() {
    let a = vec![recipient("1", "sms", None), recipient("2", "email", None), recipient("3", "sms", None)];
    let b = vec![recipient("3", "sms", None), recipient("1", "sms", None), recipient("2", "email", None)];
    assert_eq!(recipients::recipient_tally(&a), recipients::recipient_tally(&b));
    assert_eq!(recipients::summarize_recipients(&a), "3 recipients (1 email, 2 sms)");
    let total: usize = recipients::recipient_tally(&a).iter().map(|p| p.1).sum();
    assert_eq!(total, 3);
}
