//! Subcommands for the `recipients` resource (`GET/POST/DELETE /api/recipients`).

use vstd::prelude::*;
use vstd::string::*;
use crate::cmd::{
    concat, concat3, confirm, confirm_text, hint1, is_plain, plain, reply_shape, Expect, Method, Output,
    Reply, Request, Rows, Step,
};
use crate::json::{JsonData, JsonObject, JsonValue};
use crate::models::recipient::{recipient_row_of, Recipient, RecipientRow};
use crate::output::OutputMode;
use crate::text::{
    decimal, decimal_string, join, join_strings, lemma_sorted_by_key_unique, lemma_text_less_total,
    lemma_text_less_trans, str_eq, str_less, text_less, views,
};

verus! {

/// Actions available under `updown recipients`.
pub enum RecipientsAction {
    /// List all recipients
    List,
    /// Create a new recipient
    Create {
        /// Recipient type: `email`, `sms`, `webhook`, `slack_compatible` or `msteams`
        recipient_type: String,
        /// Recipient value (email address, phone number, URL, etc.)
        value: String,
        name: Option<String>,
        /// Opt out of auto-selecting for all checks (API defaults to selected=true)
        no_selected: bool,
    },
    /// Delete a recipient
    Delete {
        /// Recipient ID
        id: String,
    },
}

/// What a recipients action expects back, by output mode. A deletion's reply is
/// read as JSON except for a table, where it is not read at all.
pub open spec fn recipients_expect(a: RecipientsAction, mode: OutputMode) -> Expect {
    match a {
        RecipientsAction::List => if mode == OutputMode::Json { Expect::AnyJson } else { Expect::Recipients },
        RecipientsAction::Create { .. } => if mode == OutputMode::Json { Expect::AnyJson } else { Expect::Recipient },
        RecipientsAction::Delete { .. } => if mode == OutputMode::Table { Expect::Nothing } else { Expect::AnyJson },
    }
}

/// `/api/recipients/ID`.
pub open spec fn recipient_path(id: Seq<char>) -> Seq<char> {
    "/api/recipients/"@ + id
}

/// The body of a creation: type and value, the name when given, and `selected:
/// false` when the recipient opts out of being selected for all checks.
pub open spec fn recipient_body(recipient_type: Seq<char>, value: Seq<char>, name: Option<String>, no_selected: bool) -> Map<Seq<char>, JsonData> {
    let m = Map::<Seq<char>, JsonData>::empty()
        .insert("type"@, JsonData::Str(recipient_type))
        .insert("value"@, JsonData::Str(value));
    let m = match name {
        Some(n) => m.insert("name"@, JsonData::Str(n@)),
        None => m,
    };
    if no_selected { m.insert("selected"@, JsonData::Bool(false)) } else { m }
}

/// The request a recipients action sends.
pub open spec fn recipients_request_ok(a: RecipientsAction, r: Request) -> bool {
    match a {
        RecipientsAction::List => is_plain(r, Method::Get, "/api/recipients"@),
        RecipientsAction::Create { recipient_type, value, name, no_selected } => {
            &&& r.method == Method::Post
            &&& r.path@ == "/api/recipients"@
            &&& r.query@.len() == 0
            &&& r.body matches Some(b) && b@ == recipient_body(recipient_type@, value@, name, no_selected)
        },
        RecipientsAction::Delete { id } => is_plain(r, Method::Delete, recipient_path(id@)),
    }
}

/// Plans the request for a recipients action.
pub fn plan(action: &RecipientsAction, mode: OutputMode) -> (s: Step)
    ensures
        recipients_request_ok(*action, s.request),
        s.expect == recipients_expect(*action, mode),
{
    match action {
        RecipientsAction::List => {
            let expect = if mode == OutputMode::Json { Expect::AnyJson } else { Expect::Recipients };
            Step { request: plain(Method::Get, String::from_str("/api/recipients")), expect }
        },
        RecipientsAction::Create { recipient_type, value, name, no_selected } => {
            let mut body = JsonObject::new();
            body.insert(String::from_str("type"), JsonValue::Str(recipient_type.clone()));
            body.insert(String::from_str("value"), JsonValue::Str(value.clone()));
            if let Some(n) = name {
                body.insert(String::from_str("name"), JsonValue::Str(n.clone()));
            }
            if *no_selected {
                body.insert(String::from_str("selected"), JsonValue::Bool(false));
            }
            let request = Request {
                method: Method::Post,
                path: String::from_str("/api/recipients"),
                query: Vec::new(),
                body: Some(body),
            };
            let expect = if mode == OutputMode::Json { Expect::AnyJson } else { Expect::Recipient };
            Step { request, expect }
        },
        RecipientsAction::Delete { id } => {
            let expect = if mode == OutputMode::Table { Expect::Nothing } else { Expect::AnyJson };
            Step { request: plain(Method::Delete, concat("/api/recipients/", id.as_str())), expect }
        },
    }
}

/// Where each recipients action goes: listing and creation to `/api/recipients`,
/// deletion to `/api/recipients/ID`; the creation carries the body of its options.
pub proof fn law_recipients_request_targets(a: RecipientsAction, r: Request)
    requires
        recipients_request_ok(a, r),
    ensures
        a is List ==> r.method == Method::Get && r.path@ == "/api/recipients"@ && r.body is None,
        a matches RecipientsAction::Create { recipient_type, value, name, no_selected } ==> (r.method == Method::Post
            && r.path@ == "/api/recipients"@
            && (r.body matches Some(b) && b@ == recipient_body(recipient_type@, value@, name, no_selected))),
        a matches RecipientsAction::Delete { id } ==> (r.method == Method::Delete && r.path@ == "/api/recipients/"@ + id@
            && r.body is None),
{
}

/// How many recipients are of type `t`.
pub open spec fn type_count(rs: Seq<Recipient>, t: Seq<char>) -> nat
    decreases rs.len(),
{
    if rs.len() == 0 {
        0
    } else {
        type_count(rs.drop_last(), t) + (if rs.last().recipient_type@ == t { 1nat } else { 0nat })
    }
}

/// Each recipient counts once, toward its own type only: appending a recipient adds
/// one to the count of its type and leaves every other type's count as it was.
pub proof fn law_type_count(rs: Seq<Recipient>, r: Recipient, t: Seq<char>)
    ensures
        type_count(Seq::<Recipient>::empty(), t) == 0,
        r.recipient_type@ == t ==> type_count(rs.push(r), t) == type_count(rs, t) + 1,
        r.recipient_type@ != t ==> type_count(rs.push(r), t) == type_count(rs, t),
{
    assert(rs.push(r).drop_last() =~= rs);
}

/// A creation sends the type and the value as given, the name exactly when one is
/// given, and `selected: false` exactly when the recipient opts out; nothing else.
pub proof fn law_recipient_body_fields(recipient_type: Seq<char>, value: Seq<char>, name: Option<String>, no_selected: bool)
    ensures
        forall|k: Seq<char>| #[trigger] recipient_body(recipient_type, value, name, no_selected).contains_key(k) <==> {
            ||| k == "type"@
            ||| k == "value"@
            ||| (k == "name"@ && name is Some)
            ||| (k == "selected"@ && no_selected)
        },
        recipient_body(recipient_type, value, name, no_selected)["type"@] == JsonData::Str(recipient_type),
        recipient_body(recipient_type, value, name, no_selected)["value"@] == JsonData::Str(value),
        name matches Some(n) ==> recipient_body(recipient_type, value, name, no_selected)["name"@] == JsonData::Str(n@),
        no_selected ==> recipient_body(recipient_type, value, name, no_selected)["selected"@] == JsonData::Bool(false),
{
    reveal_strlit("type");
    reveal_strlit("value");
    reveal_strlit("name");
    reveal_strlit("selected");
    assert("type"@.len() != "value"@.len());
    assert("type"@[0] != "name"@[0]);
    assert("type"@.len() != "selected"@.len());
    assert("value"@.len() != "name"@.len());
    assert("value"@.len() != "selected"@.len());
    assert("name"@.len() != "selected"@.len());
}

/// The types of the recipients, each with its count, in ascending order of type:
/// every type that occurs listed once with how many recipients have it, and no other.
pub open spec fn tally_ok(rs: Seq<Recipient>, tally: Seq<(Seq<char>, nat)>) -> bool {
    &&& forall|i: int, j: int|
        #![trigger tally[i], tally[j]]
        0 <= i < j < tally.len() ==> text_less(tally[i].0, tally[j].0)
    &&& forall|i: int| 0 <= i < tally.len() ==> #[trigger] tally[i].1 == type_count(rs, tally[i].0) && tally[i].1 > 0
    &&& forall|t: Seq<char>| #[trigger] type_count(rs, t) > 0 ==> exists|i: int| 0 <= i < tally.len() && tally[i].0 == t
}

/// The sum of the counts.
pub open spec fn tally_total(tally: Seq<(Seq<char>, nat)>) -> nat
    decreases tally.len(),
{
    if tally.len() == 0 {
        0
    } else {
        tally_total(tally.drop_last()) + tally.last().1
    }
}

/// The views of a tally.
pub open spec fn tally_views(v: Seq<(String, usize)>) -> Seq<(Seq<char>, nat)> {
    v.map_values(|p: (String, usize)| (p.0@, p.1 as nat))
}

/// `C T`: a count and its type.
pub open spec fn tally_part(p: (Seq<char>, nat)) -> Seq<char> {
    decimal(p.1) + " "@ + p.0
}

/// The parts of a tally, in order.
pub open spec fn tally_parts(tally: Seq<(Seq<char>, nat)>) -> Seq<Seq<char>> {
    tally.map_values(|p: (Seq<char>, nat)| tally_part(p))
}

/// `N recipients (C1 T1, C2 T2, ...)`.
pub open spec fn recipients_summary(n: nat, tally: Seq<(Seq<char>, nat)>) -> Seq<char> {
    decimal(n) + " recipients ("@ + join(tally_parts(tally), ", "@) + ")"@
}

/// The rows of a list of recipients, one per recipient, in order.
pub open spec fn recipient_rows(rs: Seq<Recipient>, rows: Seq<RecipientRow>) -> bool {
    rows.len() == rs.len() && forall|i: int| 0 <= i < rs.len() ==> recipient_row_of(#[trigger] rs[i], rows[i])
}

/// The value of a recipient, or nothing when it has none.
pub open spec fn value_or_empty(v: Option<String>) -> Seq<char> {
    match v {
        Some(s) => s@,
        None => Seq::empty(),
    }
}

/// What a recipients action prints, given its reply.
pub open spec fn recipients_rendered(a: RecipientsAction, mode: OutputMode, reply: Reply, o: Output) -> bool {
    if mode == OutputMode::Json {
        o is PrettyJson
    } else {
        match a {
            RecipientsAction::List => match reply {
                Reply::Recipients(rs) => if mode == OutputMode::Table {
                    o matches Output::Table(Rows::Recipients(rows)) && recipient_rows(rs@, rows@)
                } else {
                    o matches Output::AxiList { rows: Rows::Recipients(rows), resource, aggregate, hints }
                        && recipient_rows(rs@, rows@) && resource@ == "recipients"@
                        && (exists|t: Seq<(Seq<char>, nat)>| tally_ok(rs@, t)
                            && aggregate@ == recipients_summary(rs@.len(), t))
                        && views(hints@) == seq!["recipients create <type> <value>"@]
                },
                _ => false,
            },
            RecipientsAction::Create { .. } => match reply {
                Reply::Recipient(r) => o matches Output::Print(t) && t@ == confirm_text(mode,
                    "Recipient created: "@ + r.id@ + " ("@ + r.recipient_type@ + " "@ + value_or_empty(r.value) + ")"@,
                    seq!["recipients list"@]),
                _ => false,
            },
            RecipientsAction::Delete { id } => o matches Output::Print(t)
                && t@ == confirm_text(mode, "Deleted recipient "@ + id@, seq!["recipients list"@]),
        }
    }
}

proof fn lemma_type_count_step(rs: Seq<Recipient>, i: int, t: Seq<char>)
    requires
        0 <= i < rs.len(),
    ensures
        type_count(rs.take(i + 1), t) == type_count(rs.take(i), t) + (if rs[i].recipient_type@ == t { 1nat } else { 0nat }),
{
    assert(rs.take(i + 1).drop_last() =~= rs.take(i));
}

proof fn lemma_type_count_bound(rs: Seq<Recipient>, t: Seq<char>)
    ensures
        type_count(rs, t) <= rs.len(),
    decreases rs.len(),
{
    if rs.len() > 0 {
        lemma_type_count_bound(rs.drop_last(), t);
    }
}

/// The types of the recipients with their counts, in ascending order of type.
pub fn recipient_tally(rs: &Vec<Recipient>) -> (tally: Vec<(String, usize)>)
    ensures
        tally_ok(rs@, tally_views(tally@)),
        tally_total(tally_views(tally@)) == rs@.len(),
{
    let mut tally: Vec<(String, usize)> = Vec::new();
    let mut i: usize = 0;
    proof {
        assert(tally_views(tally@) =~= Seq::<(Seq<char>, nat)>::empty());
        assert forall|t: Seq<char>| #[trigger] type_count(rs@.take(0), t) == 0 by {
            assert(rs@.take(0).len() == 0);
        }
    }
    while i < rs.len()
        invariant
            i <= rs@.len(),
            tally_ok(rs@.take(i as int), tally_views(tally@)),
            tally_total(tally_views(tally@)) == i,
        decreases rs@.len() - i,
    {
        let t = &rs[i].recipient_type;
        let ghost tv = tally_views(tally@);
        let mut j: usize = 0;
        while j < tally.len() && str_less(tally[j].0.as_str(), t.as_str())
            invariant
                j <= tally@.len(),
                tv == tally_views(tally@),
                forall|k: int| 0 <= k < j ==> text_less(#[trigger] tv[k].0, t@),
            decreases tally@.len() - j,
        {
            j = j + 1;
        }
        proof {
            assert forall|x: Seq<char>| #[trigger] type_count(rs@.take(i + 1), x) == type_count(rs@.take(i as int), x)
                + (if x == t@ { 1nat } else { 0nat }) by {
                lemma_type_count_step(rs@, i as int, x);
            }
            lemma_type_count_bound(rs@.take(i as int), t@);
        }
        if j < tally.len() && str_eq(tally[j].0.as_str(), t.as_str()) {
            let c = tally[j].1;
            let name = tally[j].0.clone();
            proof {
                assert(tv[j as int].1 == type_count(rs@.take(i as int), t@));
            }
            tally.set(j, (name, c + 1));
            proof {
                let nv = tally_views(tally@);
                assert(nv =~= tv.update(j as int, (t@, (c + 1) as nat)));
                assert forall|k: int| 0 <= k < nv.len() && k != j implies tv[k].0 != t@ by {
                    if k < j {
                        lemma_text_less_total(tv[k].0, tv[k].0);
                    } else {
                        assert(text_less(tv[j as int].0, tv[k].0));
                        lemma_text_less_total(tv[k].0, tv[k].0);
                    }
                }
                assert forall|x: Seq<char>| #[trigger] type_count(rs@.take(i + 1), x) > 0 implies
                    exists|k: int| 0 <= k < nv.len() && nv[k].0 == x by {
                    if x == t@ {
                        assert(nv[j as int].0 == x);
                    } else {
                        assert(type_count(rs@.take(i as int), x) > 0);
                        let k = choose|k: int| 0 <= k < tv.len() && tv[k].0 == x;
                        assert(nv[k].0 == x);
                    }
                }
                assert forall|k: int| 0 <= k < nv.len() implies #[trigger] nv[k].1 == type_count(rs@.take(i + 1), nv[k].0)
                    && nv[k].1 > 0 by {
                    if k != j {
                        assert(nv[k] == tv[k]);
                    }
                }
                assert forall|a: int, b: int| 0 <= a < b < nv.len() implies text_less(#[trigger] nv[a].0, #[trigger] nv[b].0) by {
                    assert(nv[a].0 == tv[a].0 && nv[b].0 == tv[b].0);
                }
                lemma_tally_total_update(tv, j as int, (c + 1) as nat);
            }
        } else {
            let ghost tv = tally_views(tally@);
            tally.insert(j, (t.clone(), 1));
            proof {
                let nv = tally_views(tally@);
                assert(nv =~= tv.insert(j as int, (t@, 1nat)));
                if j < tv.len() {
                    lemma_text_less_total(t@, tv[j as int].0);
                    assert(text_less(t@, tv[j as int].0));
                }
                assert forall|k: int| 0 <= k < tv.len() implies tv[k].0 != t@ by {
                    if k < j {
                        lemma_text_less_total(t@, t@);
                    } else if k == j {
                        lemma_text_less_total(t@, t@);
                    } else {
                        assert(text_less(tv[j as int].0, tv[k].0));
                        lemma_text_less_trans(t@, tv[j as int].0, tv[k].0);
                        lemma_text_less_total(t@, t@);
                    }
                }
                assert(type_count(rs@.take(i as int), t@) == 0);
                assert forall|a: int, b: int| 0 <= a < b < nv.len() implies text_less(#[trigger] nv[a].0, #[trigger] nv[b].0) by {
                    if b < j {
                        assert(nv[a] == tv[a] && nv[b] == tv[b]);
                    } else if b == j {
                        assert(nv[a] == tv[a]);
                    } else if a == j {
                        assert(nv[b] == tv[b - 1]);
                        if b - 1 > j {
                            assert(text_less(tv[j as int].0, tv[b - 1].0));
                            lemma_text_less_trans(t@, tv[j as int].0, tv[b - 1].0);
                        }
                    } else if a < j {
                        assert(nv[a] == tv[a] && nv[b] == tv[b - 1]);
                    } else {
                        assert(nv[a] == tv[a - 1] && nv[b] == tv[b - 1]);
                    }
                }
                assert forall|k: int| 0 <= k < nv.len() implies #[trigger] nv[k].1 == type_count(rs@.take(i + 1), nv[k].0)
                    && nv[k].1 > 0 by {
                    if k < j {
                        assert(nv[k] == tv[k]);
                    } else if k > j {
                        assert(nv[k] == tv[k - 1]);
                    }
                }
                assert forall|x: Seq<char>| #[trigger] type_count(rs@.take(i + 1), x) > 0 implies
                    exists|k: int| 0 <= k < nv.len() && nv[k].0 == x by {
                    if x == t@ {
                        assert(nv[j as int].0 == x);
                    } else {
                        assert(type_count(rs@.take(i as int), x) > 0);
                        let k = choose|k: int| 0 <= k < tv.len() && tv[k].0 == x;
                        if k < j {
                            assert(nv[k].0 == x);
                        } else {
                            assert(nv[k + 1].0 == x);
                        }
                    }
                }
                lemma_tally_total_insert(tv, j as int, (t@, 1nat));
            }
        }
        i = i + 1;
    }
    proof {
        assert(rs@.take(rs@.len() as int) =~= rs@);
    }
    tally
}

proof fn lemma_tally_total_update(tv: Seq<(Seq<char>, nat)>, j: int, c: nat)
    requires
        0 <= j < tv.len(),
    ensures
        tally_total(tv.update(j, (tv[j].0, c))) == tally_total(tv) - tv[j].1 + c,
    decreases tv.len(),
{
    let u = tv.update(j, (tv[j].0, c));
    if j == tv.len() - 1 {
        assert(u.drop_last() =~= tv.drop_last());
    } else {
        lemma_tally_total_update(tv.drop_last(), j, c);
        assert(u.drop_last() =~= tv.drop_last().update(j, (tv[j].0, c)));
    }
}

proof fn lemma_tally_total_insert(tv: Seq<(Seq<char>, nat)>, j: int, p: (Seq<char>, nat))
    requires
        0 <= j <= tv.len(),
    ensures
        tally_total(tv.insert(j, p)) == tally_total(tv) + p.1,
    decreases tv.len(),
{
    let u = tv.insert(j, p);
    if j == tv.len() {
        assert(u.drop_last() =~= tv);
    } else {
        lemma_tally_total_insert(tv.drop_last(), j, p);
        assert(u.drop_last() =~= tv.drop_last().insert(j, p));
    }
}

/// The AXI summary of a list of recipients.
pub fn summarize_recipients(rs: &Vec<Recipient>) -> (s: String)
    ensures
        exists|t: Seq<(Seq<char>, nat)>| tally_ok(rs@, t) && s@ == recipients_summary(rs@.len(), t),
{
    let tally = recipient_tally(rs);
    let mut parts: Vec<String> = Vec::new();
    let mut i: usize = 0;
    while i < tally.len()
        invariant
            i <= tally@.len(),
            views(parts@) == tally_parts(tally_views(tally@)).take(i as int),
        decreases tally@.len() - i,
    {
        let mut part = decimal_string(tally[i].1 as u64);
        part.append(" ");
        part.append(tally[i].0.as_str());
        proof {
            assert(tally_parts(tally_views(tally@)).take(i + 1) =~= tally_parts(tally_views(tally@)).take(i as int).push(
                tally_part(tally_views(tally@)[i as int])));
        }
        parts.push(part);
        proof {
            assert(views(parts@) =~= tally_parts(tally_views(tally@)).take(i + 1));
        }
        i = i + 1;
    }
    proof {
        assert(tally_parts(tally_views(tally@)).take(tally@.len() as int) =~= tally_parts(tally_views(tally@)));
    }
    let mut s = decimal_string(rs.len() as u64);
    s.append(" recipients (");
    let joined = join_strings(&parts, ", ");
    s.append(joined.as_str());
    s.append(")");
    s
}

/// The rows of a list of recipients.
pub fn rows_of_recipients(rs: &Vec<Recipient>) -> (rows: Vec<RecipientRow>)
    ensures
        recipient_rows(rs@, rows@),
{
    let mut rows: Vec<RecipientRow> = Vec::new();
    let mut i: usize = 0;
    while i < rs.len()
        invariant
            i <= rs@.len(),
            rows@.len() == i,
            forall|j: int| 0 <= j < i ==> recipient_row_of(#[trigger] rs@[j], rows@[j]),
        decreases rs@.len() - i,
    {
        rows.push(RecipientRow::from(&rs[i]));
        i = i + 1;
    }
    rows
}

/// Renders the reply to a recipients action.
pub fn render(action: &RecipientsAction, mode: OutputMode, reply: Reply) -> (o: Output)
    requires
        reply_shape(reply) == recipients_expect(*action, mode),
    ensures
        recipients_rendered(*action, mode, reply, o),
{
    if mode == OutputMode::Json {
        return Output::PrettyJson;
    }
    match action {
        RecipientsAction::List => match reply {
            Reply::Recipients(rs) => {
                let rows = rows_of_recipients(&rs);
                if mode == OutputMode::Table {
                    Output::Table(Rows::Recipients(rows))
                } else {
                    Output::AxiList {
                        rows: Rows::Recipients(rows),
                        resource: String::from_str("recipients"),
                        aggregate: summarize_recipients(&rs),
                        hints: hint1(String::from_str("recipients create <type> <value>")),
                    }
                }
            },
            _ => Output::PrettyJson,
        },
        RecipientsAction::Create { .. } => match reply {
            Reply::Recipient(r) => {
                let m = concat3("Recipient created: ", r.id.as_str(), " (");
                let m = concat3(m.as_str(), r.recipient_type.as_str(), " ");
                let v = match &r.value {
                    Some(v) => v.clone(),
                    None => String::new(),
                };
                let m = concat3(m.as_str(), v.as_str(), ")");
                confirm(mode, m.as_str(), &hint1(String::from_str("recipients list")))
            },
            _ => Output::PrettyJson,
        },
        RecipientsAction::Delete { id } => {
            let m = concat("Deleted recipient ", id.as_str());
            confirm(mode, m.as_str(), &hint1(String::from_str("recipients list")))
        },
    }
}

/// A list of recipients has exactly one tally: the types that occur, in ascending
/// order, each with its count. So the AXI summary of the recipients is determined by them.
pub proof fn law_tally_unique(rs: Seq<Recipient>, t1: Seq<(Seq<char>, nat)>, t2: Seq<(Seq<char>, nat)>)
    requires
        tally_ok(rs, t1),
        tally_ok(rs, t2),
    ensures
        t1 == t2,
{
    let key = |p: (Seq<char>, nat)| p.0;
    assert forall|i: int, j: int| #![trigger t1[i], t1[j]] 0 <= i < j < t1.len() implies text_less(key(t1[i]), key(t1[j])) by {
        assert(text_less(t1[i].0, t1[j].0));
    }
    assert forall|i: int, j: int| #![trigger t2[i], t2[j]] 0 <= i < j < t2.len() implies text_less(key(t2[i]), key(t2[j])) by {
        assert(text_less(t2[i].0, t2[j].0));
    }
    assert forall|x: (Seq<char>, nat)| t1.contains(x) <==> t2.contains(x) by {
        if t1.contains(x) {
            let i = choose|i: int| 0 <= i < t1.len() && t1[i] == x;
            assert(t1[i].1 == type_count(rs, t1[i].0) && t1[i].1 > 0);
            assert(type_count(rs, x.0) > 0);
            let j = choose|j: int| 0 <= j < t2.len() && t2[j].0 == x.0;
            assert(t2[j].1 == type_count(rs, t2[j].0));
            assert(t2[j] == x);
        }
        if t2.contains(x) {
            let i = choose|i: int| 0 <= i < t2.len() && t2[i] == x;
            assert(t2[i].1 == type_count(rs, t2[i].0) && t2[i].1 > 0);
            assert(type_count(rs, x.0) > 0);
            let j = choose|j: int| 0 <= j < t1.len() && t1[j].0 == x.0;
            assert(t1[j].1 == type_count(rs, t1[j].0));
            assert(t1[j] == x);
        }
    }
    lemma_sorted_by_key_unique(t1, t2, key);
}

} // verus!
