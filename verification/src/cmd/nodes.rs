//! Subcommands for the `nodes` resource (`GET /api/nodes`).

use vstd::prelude::*;
use vstd::string::*;
use crate::cmd::{hint2, is_plain, plain, query_views, reply_shape, Expect, Method, Output, Reply, Request, Rows, Step};
use crate::models::common::{opt_view, text_or_dash};
use crate::models::node::{Node, NodeRow};
use crate::output::{append_line_end, with_line_end, OutputMode};
use crate::text::{
    decimal, decimal_string, lemma_sorted_by_key_unique, lemma_text_less_total, lemma_text_less_trans, str_eq, str_less,
    text_less, views,
};

verus! {

/// Actions available under `updown nodes`.
pub enum NodesAction {
    /// List monitoring node locations
    List,
    /// List monitoring node IP addresses
    Ips {
        /// Only the IPv4 addresses (takes precedence over `ipv6`)
        ipv4: bool,
        /// Only the IPv6 addresses
        ipv6: bool,
        /// `txt` for the API's plain-text list, `json` for its JSON list
        format: Option<String>,
    },
}

/// The path of an IP listing: IPv4 only, IPv6 only, or both.
pub open spec fn ips_path(ipv4: bool, ipv6: bool) -> Seq<char> {
    if ipv4 {
        "/api/nodes/ipv4"@
    } else if ipv6 {
        "/api/nodes/ipv6"@
    } else {
        "/api/nodes/ips"@
    }
}

/// What a nodes action expects back, by output mode: an explicit `--format` asks
/// the API for text (`txt`) or JSON (anything else), whatever the mode.
pub open spec fn nodes_expect(a: NodesAction, mode: OutputMode) -> Expect {
    match a {
        NodesAction::List => if mode == OutputMode::Json { Expect::AnyJson } else { Expect::Nodes },
        NodesAction::Ips { format, .. } => match format {
            Some(f) => if f@ == "txt"@ { Expect::Text } else { Expect::AnyJson },
            None => if mode == OutputMode::Json { Expect::AnyJson } else { Expect::Ips },
        },
    }
}

/// The request a nodes action sends.
pub open spec fn nodes_request_ok(a: NodesAction, r: Request) -> bool {
    match a {
        NodesAction::List => is_plain(r, Method::Get, "/api/nodes"@),
        NodesAction::Ips { ipv4, ipv6, format } => {
            &&& r.method == Method::Get
            &&& r.path@ == ips_path(ipv4, ipv6)
            &&& query_views(r.query@) == match format {
                Some(f) => seq![("format"@, if f@ == "txt"@ { "txt"@ } else { "json"@ })],
                None => Seq::empty(),
            }
            &&& r.body is None
        },
    }
}

/// Plans the request for a nodes action.
pub fn plan(action: &NodesAction, mode: OutputMode) -> (s: Step)
    ensures
        nodes_request_ok(*action, s.request),
        s.expect == nodes_expect(*action, mode),
{
    match action {
        NodesAction::List => {
            let expect = if mode == OutputMode::Json { Expect::AnyJson } else { Expect::Nodes };
            Step { request: plain(Method::Get, String::from_str("/api/nodes")), expect }
        },
        NodesAction::Ips { ipv4, ipv6, format } => {
            let path = if *ipv4 {
                String::from_str("/api/nodes/ipv4")
            } else if *ipv6 {
                String::from_str("/api/nodes/ipv6")
            } else {
                String::from_str("/api/nodes/ips")
            };
            let mut query: Vec<(String, String)> = Vec::new();
            let expect = match format {
                Some(f) => {
                    if str_eq(f.as_str(), "txt") {
                        query.push((String::from_str("format"), String::from_str("txt")));
                        Expect::Text
                    } else {
                        query.push((String::from_str("format"), String::from_str("json")));
                        Expect::AnyJson
                    }
                },
                None => if mode == OutputMode::Json { Expect::AnyJson } else { Expect::Ips },
            };
            proof {
                match format {
                    Some(f) => {
                        assert(query_views(query@) =~= seq![("format"@, if f@ == "txt"@ { "txt"@ } else { "json"@ })]);
                    },
                    None => {
                        assert(query_views(query@) =~= Seq::empty());
                    },
                }
            }
            Step { request: Request { method: Method::Get, path, query, body: None }, expect }
        },
    }
}

/// The columns of the row for the node at location `e.0`, `-` for what is absent.
pub open spec fn entry_row(e: (String, Node)) -> (Seq<char>, Seq<char>, Seq<char>, Seq<char>, Seq<char>) {
    (e.0@, text_or_dash(e.1.city), text_or_dash(e.1.country), text_or_dash(e.1.ip), text_or_dash(e.1.ip6))
}

/// The columns of a row.
pub open spec fn row_columns(r: NodeRow) -> (Seq<char>, Seq<char>, Seq<char>, Seq<char>, Seq<char>) {
    (r.code@, r.city@, r.country@, r.ip@, r.ip6@)
}

/// The columns of each row.
pub open spec fn rows_columns(rows: Seq<NodeRow>) -> Seq<(Seq<char>, Seq<char>, Seq<char>, Seq<char>, Seq<char>)> {
    rows.map_values(|r: NodeRow| row_columns(r))
}

/// The columns of the row of each entry.
pub open spec fn entries_columns(entries: Seq<(String, Node)>) -> Seq<(Seq<char>, Seq<char>, Seq<char>, Seq<char>, Seq<char>)> {
    entries.map_values(|e: (String, Node)| entry_row(e))
}

/// Rows in ascending order of location code.
pub open spec fn sorted_by_code(rows: Seq<NodeRow>) -> bool {
    forall|i: int, j: int|
        #![trigger rows[i], rows[j]]
        0 <= i < j < rows.len() ==> !text_less(rows[j].code@, rows[i].code@)
}

/// The rows of the node map: one per entry, whatever the order the entries came
/// in, sorted by location code.
pub open spec fn node_rows(entries: Seq<(String, Node)>, rows: Seq<NodeRow>) -> bool {
    &&& sorted_by_code(rows)
    &&& rows_columns(rows).to_multiset() == entries_columns(entries).to_multiset()
}

/// Each location code occurs once, as the keys of the API's node map do.
pub open spec fn distinct_codes(entries: Seq<(String, Node)>) -> bool {
    forall|i: int, j: int|
        #![trigger entries[i], entries[j]]
        0 <= i < j < entries.len() ==> entries[i].0@ != entries[j].0@
}

/// Rows in strictly ascending order of location code.
pub open spec fn strictly_sorted_by_code(rows: Seq<NodeRow>) -> bool {
    forall|i: int, j: int|
        #![trigger rows[i], rows[j]]
        0 <= i < j < rows.len() ==> text_less(rows[i].code@, rows[j].code@)
}

/// When each location code occurs once, as in the API's node map, the rows of the
/// listing are in strictly ascending order of code.
pub proof fn law_node_rows_strictly_sorted(entries: Seq<(String, Node)>, rows: Seq<NodeRow>)
    requires
        distinct_codes(entries),
        node_rows(entries, rows),
    ensures
        strictly_sorted_by_code(rows),
        forall|i: int, j: int|
            #![trigger rows_columns(rows)[i], rows_columns(rows)[j]]
            0 <= i < j < rows.len() ==> text_less(rows_columns(rows)[i].0, rows_columns(rows)[j].0),
{
    let ec = entries_columns(entries);
    let c = rows_columns(rows);
    assert(ec.no_duplicates()) by {
        assert forall|i: int, j: int| 0 <= i < ec.len() && 0 <= j < ec.len() && i != j implies ec[i] != ec[j] by {
            if i < j {
                assert(entries[i].0@ != entries[j].0@);
            } else {
                assert(entries[j].0@ != entries[i].0@);
            }
        }
    }
    ec.lemma_multiset_has_no_duplicates();
    c.lemma_multiset_has_no_duplicates_conv();
    assert forall|i: int, j: int|
        #![trigger c[i], c[j]]
        0 <= i < j < rows.len() implies text_less(c[i].0, c[j].0) by {
        assert(c[i] != c[j]);
        vstd::seq_lib::to_multiset_contains(c, c[i]);
        vstd::seq_lib::to_multiset_contains(c, c[j]);
        vstd::seq_lib::to_multiset_contains(ec, c[i]);
        vstd::seq_lib::to_multiset_contains(ec, c[j]);
        assert(c.contains(c[i]));
        assert(c.contains(c[j]));
        let p = choose|p: int| 0 <= p < ec.len() && ec[p] == c[i];
        let q = choose|q: int| 0 <= q < ec.len() && ec[q] == c[j];
        assert(p != q);
        if p < q {
            assert(entries[p].0@ != entries[q].0@);
        } else {
            assert(entries[q].0@ != entries[p].0@);
        }
        assert(c[i].0 != c[j].0);
        assert(!text_less(rows[j].code@, rows[i].code@));
        lemma_text_less_total(c[i].0, c[j].0);
    }
    assert forall|i: int, j: int|
        #![trigger rows[i], rows[j]]
        0 <= i < j < rows.len() implies text_less(rows[i].code@, rows[j].code@) by {
        assert(c[i].0 == rows[i].code@ && c[j].0 == rows[j].code@);
    }
}

/// The node listing is determined by the node map: when each location code occurs
/// once, any two row lists that meet `node_rows` hold the same rows in the same order.
pub proof fn law_node_rows_unique(entries: Seq<(String, Node)>, r1: Seq<NodeRow>, r2: Seq<NodeRow>)
    requires
        distinct_codes(entries),
        node_rows(entries, r1),
        node_rows(entries, r2),
    ensures
        rows_columns(r1) == rows_columns(r2),
{
    law_node_rows_strictly_sorted(entries, r1);
    law_node_rows_strictly_sorted(entries, r2);
    let c1 = rows_columns(r1);
    let c2 = rows_columns(r2);
    let key = |c: (Seq<char>, Seq<char>, Seq<char>, Seq<char>, Seq<char>)| c.0;
    assert forall|x: (Seq<char>, Seq<char>, Seq<char>, Seq<char>, Seq<char>)| c1.contains(x) <==> c2.contains(x) by {
        vstd::seq_lib::to_multiset_contains(c1, x);
        vstd::seq_lib::to_multiset_contains(c2, x);
    }
    lemma_sorted_by_key_unique(c1, c2, key);
}

/// The distinct country codes of the nodes that have one.
pub open spec fn country_codes(entries: Seq<(String, Node)>) -> Set<Seq<char>>
    decreases entries.len(),
{
    if entries.len() == 0 {
        Set::empty()
    } else {
        let rest = country_codes(entries.drop_last());
        match entries.last().1.country_code {
            Some(c) => rest.insert(c@),
            None => rest,
        }
    }
}

/// The node requests: the map at `/api/nodes`; the IP listing at its path, asking
/// the API for plain text when `--format txt` is given, for JSON when another
/// format is given, and with no query otherwise.
pub proof fn law_nodes_request_targets(a: NodesAction, r: Request)
    requires
        nodes_request_ok(a, r),
    ensures
        a is List ==> r.method == Method::Get && r.path@ == "/api/nodes"@ && r.query@.len() == 0,
        a matches NodesAction::Ips { ipv4, ipv6, format } ==> (r.method == Method::Get
            && r.path@ == ips_path(ipv4, ipv6)
            && query_views(r.query@) == (match format {
                Some(f) => if f@ == "txt"@ { seq![("format"@, "txt"@)] } else { seq![("format"@, "json"@)] },
                None => Seq::empty(),
            })),
{
}

/// The countries counted are exactly the country codes that some node has.
pub proof fn law_country_codes(entries: Seq<(String, Node)>, c: Seq<char>)
    ensures
        country_codes(entries).contains(c) <==> exists|i: int|
            0 <= i < entries.len() && #[trigger] opt_view(entries[i].1.country_code) == Some(c),
        country_codes(entries).finite(),
    decreases entries.len(),
{
    if entries.len() > 0 {
        let rest = entries.drop_last();
        law_country_codes(rest, c);
        if country_codes(entries).contains(c) {
            if country_codes(rest).contains(c) {
                let i = choose|i: int| 0 <= i < rest.len() && opt_view(rest[i].1.country_code) == Some(c);
                assert(entries[i] == rest[i]);
            } else {
                assert(opt_view(entries[entries.len() - 1].1.country_code) == Some(c));
            }
        }
        if exists|i: int| 0 <= i < entries.len() && #[trigger] opt_view(entries[i].1.country_code) == Some(c) {
            let i = choose|i: int| 0 <= i < entries.len() && #[trigger] opt_view(entries[i].1.country_code) == Some(c);
            if i < entries.len() - 1 {
                assert(rest[i] == entries[i]);
            }
        }
    }
}

/// The IP listing path: IPv4 only when asked for (whatever else is asked), else
/// IPv6 only when asked for, else both.
pub proof fn law_ips_path(ipv4: bool, ipv6: bool)
    ensures
        ipv4 ==> ips_path(ipv4, ipv6) == "/api/nodes/ipv4"@,
        !ipv4 && ipv6 ==> ips_path(ipv4, ipv6) == "/api/nodes/ipv6"@,
        !ipv4 && !ipv6 ==> ips_path(ipv4, ipv6) == "/api/nodes/ips"@,
{
}

/// `N nodes across C countries`.
pub open spec fn nodes_summary(entries: Seq<(String, Node)>) -> Seq<char> {
    decimal(entries.len()) + " nodes across "@ + decimal(country_codes(entries).len()) + " countries"@
}

/// Each address on a line of its own.
pub open spec fn ip_lines(ips: Seq<Seq<char>>) -> Seq<char>
    decreases ips.len(),
{
    if ips.len() == 0 {
        Seq::empty()
    } else {
        ip_lines(ips.drop_last()) + ips.last() + "\n"@
    }
}

/// What a nodes action prints, given its reply.
pub open spec fn nodes_rendered(a: NodesAction, mode: OutputMode, reply: Reply, o: Output) -> bool {
    if nodes_expect(a, mode) == Expect::AnyJson {
        o is PrettyJson
    } else {
        match a {
            NodesAction::List => match reply {
                Reply::Nodes(es) => if mode == OutputMode::Table {
                    o matches Output::Table(Rows::Nodes(rows)) && node_rows(es@, rows@)
                        && (distinct_codes(es@) ==> strictly_sorted_by_code(rows@))
                } else {
                    o matches Output::AxiList { rows: Rows::Nodes(rows), resource, aggregate, hints }
                        && node_rows(es@, rows@) && (distinct_codes(es@) ==> strictly_sorted_by_code(rows@))
                        && resource@ == "nodes"@
                        && aggregate@ == nodes_summary(es@)
                        && views(hints@) == seq!["nodes ips --ipv4"@, "nodes ips --ipv6"@]
                },
                _ => false,
            },
            NodesAction::Ips { .. } => match reply {
                Reply::Text(t) => o matches Output::Print(p) && p@ == (if mode == OutputMode::Axi {
                    with_line_end(t@) + "help[nodes list]\n"@
                } else {
                    t@
                }),
                Reply::Ips(ips) => o matches Output::Print(p) && p@ == ip_lines(views(ips@)) + (if mode
                    == OutputMode::Axi {
                    "help[nodes list]\n"@
                } else {
                    Seq::empty()
                }),
                _ => false,
            },
        }
    }
}

/// The number of distinct country codes among the nodes.
pub fn count_countries(entries: &Vec<(String, Node)>) -> (n: usize)
    ensures
        n == country_codes(entries@).len(),
{
    let mut seen: Vec<String> = Vec::new();
    let mut i: usize = 0;
    while i < entries.len()
        invariant
            i <= entries@.len(),
            views(seen@).no_duplicates(),
            views(seen@).to_set() == country_codes(entries@.take(i as int)),
            seen@.len() <= i,
        decreases entries@.len() - i,
    {
        proof {
            assert(entries@.take(i + 1).drop_last() =~= entries@.take(i as int));
        }
        if let Some(cc) = &entries[i].1.country_code {
            let mut found = false;
            let mut j: usize = 0;
            while j < seen.len()
                invariant
                    j <= seen@.len(),
                    found <==> exists|k: int| 0 <= k < j && seen@[k]@ == cc@,
                decreases seen@.len() - j,
            {
                if str_eq(seen[j].as_str(), cc.as_str()) {
                    found = true;
                }
                j = j + 1;
            }
            let ghost before = views(seen@);
            if found {
                proof {
                    let k = choose|k: int| 0 <= k < seen@.len() && seen@[k]@ == cc@;
                    assert(before[k] == cc@);
                    assert(before.to_set().contains(cc@));
                    assert(before.to_set().insert(cc@) =~= before.to_set());
                }
            } else {
                seen.push(cc.clone());
                proof {
                    assert(views(seen@) =~= before.push(cc@));
                    before.lemma_push_to_set_commute(cc@);
                    assert forall|a: int, b: int| 0 <= a < b < views(seen@).len()
                        implies views(seen@)[a] != views(seen@)[b] by {
                        if b == before.len() {
                            assert(seen@[a]@ != cc@);
                        }
                    }
                }
            }
        }
        i = i + 1;
    }
    proof {
        assert(entries@.take(entries@.len() as int) =~= entries@);
        views(seen@).unique_seq_to_set();
    }
    seen.len()
}

/// The rows of the node map, sorted by location code.
pub fn sorted_node_rows(entries: &Vec<(String, Node)>) -> (rows: Vec<NodeRow>)
    ensures
        node_rows(entries@, rows@),
{
    let mut rows: Vec<NodeRow> = Vec::new();
    let mut i: usize = 0;
    assert(rows_columns(rows@) =~= entries_columns(entries@.take(0)));
    while i < entries.len()
        invariant
            i <= entries@.len(),
            sorted_by_code(rows@),
            rows_columns(rows@).to_multiset() == entries_columns(entries@.take(i as int)).to_multiset(),
        decreases entries@.len() - i,
    {
        let row = NodeRow::from_entry(&entries[i].0, &entries[i].1);
        let mut j: usize = 0;
        while j < rows.len() && !str_less(row.code.as_str(), rows[j].code.as_str())
            invariant
                j <= rows@.len(),
                forall|k: int| 0 <= k < j ==> !text_less(row.code@, #[trigger] rows@[k].code@),
            decreases rows@.len() - j,
        {
            j = j + 1;
        }
        let ghost old_rows = rows@;
        rows.insert(j, row);
        proof {
            assert(rows@ =~= old_rows.insert(j as int, row));
            assert forall|a: int, b: int| 0 <= a < b < rows@.len() implies
                !text_less(#[trigger] rows@[b].code@, #[trigger] rows@[a].code@) by {
                if b < j {
                    assert(rows@[a] == old_rows[a] && rows@[b] == old_rows[b]);
                } else if b == j {
                    assert(rows@[a] == old_rows[a]);
                } else if a == j {
                    let x = old_rows[b - 1];
                    assert(rows@[b] == x);
                    assert(text_less(row.code@, old_rows[j as int].code@));
                    if text_less(x.code@, row.code@) {
                        lemma_text_less_trans(x.code@, row.code@, old_rows[j as int].code@);
                        if j as int == b - 1 {
                            lemma_text_less_total(x.code@, x.code@);
                        } else {
                            assert(!text_less(old_rows[b - 1].code@, old_rows[j as int].code@));
                        }
                    }
                } else if a < j {
                    assert(rows@[a] == old_rows[a] && rows@[b] == old_rows[b - 1]);
                } else {
                    assert(rows@[a] == old_rows[a - 1] && rows@[b] == old_rows[b - 1]);
                }
            }
            assert(rows_columns(rows@) =~= rows_columns(old_rows).insert(j as int, row_columns(row)));
            assert(entries_columns(entries@.take(i + 1)) =~= entries_columns(entries@.take(i as int)).push(
                entry_row(entries@[i as int])));
            assert(row_columns(row) == entry_row(entries@[i as int]));
            vstd::seq_lib::to_multiset_insert(rows_columns(old_rows), j as int, row_columns(row));
            vstd::seq_lib::to_multiset_build(entries_columns(entries@.take(i as int)), entry_row(entries@[i as int]));
        }
        i = i + 1;
    }
    assert(entries@.take(entries@.len() as int) =~= entries@);
    rows
}

/// The AXI summary of the node map.
pub fn summarize_nodes(entries: &Vec<(String, Node)>) -> (s: String)
    ensures
        s@ == nodes_summary(entries@),
{
    let mut s = decimal_string(entries.len() as u64);
    s.append(" nodes across ");
    let c = decimal_string(count_countries(entries) as u64);
    s.append(c.as_str());
    s.append(" countries");
    s
}

/// Each address on a line of its own.
pub fn lines_of(ips: &Vec<String>) -> (t: String)
    ensures
        t@ == ip_lines(views(ips@)),
{
    let mut t = String::new();
    let mut i: usize = 0;
    while i < ips.len()
        invariant
            i <= ips@.len(),
            t@ == ip_lines(views(ips@).take(i as int)),
        decreases ips@.len() - i,
    {
        proof {
            assert(views(ips@).take(i + 1).drop_last() =~= views(ips@).take(i as int));
        }
        t.append(ips[i].as_str());
        t.append("\n");
        i = i + 1;
    }
    assert(views(ips@).take(ips@.len() as int) =~= views(ips@));
    t
}

/// Renders the reply to a nodes action.
pub fn render(action: &NodesAction, mode: OutputMode, reply: Reply) -> (o: Output)
    requires
        reply_shape(reply) == nodes_expect(*action, mode),
    ensures
        nodes_rendered(*action, mode, reply, o),
{
    match reply {
        Reply::AnyJson => Output::PrettyJson,
        Reply::Nodes(es) => {
            let rows = sorted_node_rows(&es);
            proof {
                if distinct_codes(es@) {
                    law_node_rows_strictly_sorted(es@, rows@);
                }
            }
            if mode == OutputMode::Table {
                Output::Table(Rows::Nodes(rows))
            } else {
                Output::AxiList {
                    rows: Rows::Nodes(rows),
                    resource: String::from_str("nodes"),
                    aggregate: summarize_nodes(&es),
                    hints: hint2(String::from_str("nodes ips --ipv4"), String::from_str("nodes ips --ipv6")),
                }
            }
        },
        Reply::Text(t) => {
            if mode == OutputMode::Axi {
                let mut p = String::new();
                append_line_end(&mut p, t.as_str());
                p.append("help[nodes list]\n");
                Output::Print(p)
            } else {
                Output::Print(t)
            }
        },
        Reply::Ips(ips) => {
            let mut t = lines_of(&ips);
            if mode == OutputMode::Axi {
                t.append("help[nodes list]\n");
            }
            Output::Print(t)
        },
        _ => Output::PrettyJson,
    }
}

} // verus!
