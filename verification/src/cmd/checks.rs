//! Subcommands for the `checks` resource (`GET/POST/PUT/DELETE /api/checks`).

use vstd::prelude::*;
use vstd::string::*;
use crate::cmd::{
    concat, concat3, confirm, confirm_text, hint1, hint2, hint3, is_plain, plain, query_views, reply_shape,
    truncate_axi, CommandError, Expect, Method, Output, Reply, Request, Rows, Step,
};
use crate::json::{check_json_text, clone_strings, json_parse_outcome, JsonData, JsonObject, JsonValue};
use crate::models::check::{
    check_row_of, downtime_row_of, fixed2_or_dash, fixed4_or_dash, fixed4_or_dash_string,
    fixed2_or_dash_string, greater, period_secs, period_string, reading_greater, status_string,
    status_word, Check, CheckRow, Downtime, DowntimeRow, Reading,
};
use crate::models::common::{
    clone_opt, flag_or_dash, flag_or_dash_string, opt_view, or_dash, seconds_or_dash, text_or_dash,
};
use crate::output::{format_kv, kv_lines, law_truncated_fits, pair_views, truncated, widest_key, OutputMode, AXI_FIELD_LIMIT};
use crate::text::{byte_len, decimal, decimal_string, parse_u32, parsed_u32, str_eq, utf8_len, views};

verus! {

/// Actions available under `updown checks`.
#[allow(inconsistent_fields)]
pub enum ChecksAction {
    /// List all checks
    List,
    /// Get a single check
    Get {
        /// Check token
        token: String,
        /// Include metrics
        metrics: bool,
    },
    /// Create a new check
    Create {
        /// URL to monitor (required for all types except pulse)
        url: Option<String>,
        /// `https`, `http`, `icmp`, `pulse`, `tcp` or `tcps` (the `--type` option)
        check_type: Option<String>,
        /// One of `15 30 60 120 300 600 1800 3600`
        period: Option<String>,
        /// One of `0.125 0.25 0.5 1.0 2.0 4.0 8.0`
        apdex_t: Option<String>,
        enabled: bool,
        published: bool,
        alias: Option<String>,
        string_match: Option<String>,
        mute_until: Option<String>,
        /// One of `GET/HEAD POST PUT PATCH DELETE OPTIONS`
        http_verb: Option<String>,
        http_body: Option<String>,
        disabled_locations: Option<Vec<String>>,
        recipients: Option<Vec<String>>,
        /// A JSON object
        custom_headers: Option<String>,
    },
    /// Update an existing check
    Update {
        /// Check token
        token: String,
        url: Option<String>,
        check_type: Option<String>,
        period: Option<String>,
        apdex_t: Option<String>,
        enabled: Option<bool>,
        published: Option<bool>,
        alias: Option<String>,
        string_match: Option<String>,
        mute_until: Option<String>,
        http_verb: Option<String>,
        http_body: Option<String>,
        disabled_locations: Option<Vec<String>>,
        recipients: Option<Vec<String>>,
        custom_headers: Option<String>,
    },
    /// Delete a check
    Delete {
        /// Check token
        token: String,
    },
    /// View downtime history
    Downtimes {
        /// Check token
        token: String,
        page: Option<u32>,
        results: bool,
    },
    /// View performance metrics
    Metrics {
        /// Check token
        token: String,
        from: Option<String>,
        to: Option<String>,
        /// `time` or `host`
        group: Option<String>,
    },
}

/// Fields shared by the create and update commands.
pub struct CheckBodyParams<'a> {
    pub url: &'a Option<String>,
    pub check_type: &'a Option<String>,
    pub period: &'a Option<String>,
    pub apdex_t: &'a Option<String>,
    pub alias: &'a Option<String>,
    pub string_match: &'a Option<String>,
    pub mute_until: &'a Option<String>,
    pub http_verb: &'a Option<String>,
    pub http_body: &'a Option<String>,
    pub disabled_locations: &'a Option<Vec<String>>,
    pub recipients: &'a Option<Vec<String>>,
    pub custom_headers: &'a Option<String>,
}

/// The Apdex thresholds the command line offers.
pub open spec fn is_apdex_choice(a: Seq<char>) -> bool {
    ||| a == "0.125"@
    ||| a == "0.25"@
    ||| a == "0.5"@
    ||| a == "1.0"@
    ||| a == "2.0"@
    ||| a == "4.0"@
    ||| a == "8.0"@
}

/// Is `a` one of the Apdex thresholds the command line offers?
pub fn apdex_choice(a: &str) -> (r: bool)
    ensures
        r == is_apdex_choice(a@),
{
    str_eq(a, "0.125") || str_eq(a, "0.25") || str_eq(a, "0.5") || str_eq(a, "1.0")
        || str_eq(a, "2.0") || str_eq(a, "4.0") || str_eq(a, "8.0")
}

/// The period and Apdex threshold, when given, are values the body can hold: the
/// period a decimal `u32`, the threshold one of the offered values.
pub open spec fn body_params_valid(period: Option<String>, apdex_t: Option<String>) -> bool {
    &&& (period matches Some(p) ==> parsed_u32(p@) is Some)
    &&& (apdex_t matches Some(a) ==> is_apdex_choice(a@))
}

/// Checks that the period and Apdex threshold can go into a body.
pub fn body_params_ok(period: &Option<String>, apdex_t: &Option<String>) -> (r: bool)
    ensures
        r == body_params_valid(*period, *apdex_t),
{
    let p_ok = match period {
        Some(p) => parse_u32(p.as_str()).is_some(),
        None => true,
    };
    let a_ok = match apdex_t {
        Some(a) => apdex_choice(a.as_str()),
        None => true,
    };
    p_ok && a_ok
}

/// `m` with `key` set to the string `v`, when there is one.
pub open spec fn put_text(m: Map<Seq<char>, JsonData>, key: Seq<char>, v: Option<String>) -> Map<Seq<char>, JsonData> {
    match v {
        Some(s) => m.insert(key, JsonData::Str(s@)),
        None => m,
    }
}

/// `m` with `key` set to the list of strings `v`, when there is one.
pub open spec fn put_list(m: Map<Seq<char>, JsonData>, key: Seq<char>, v: Option<Vec<String>>) -> Map<Seq<char>, JsonData> {
    match v {
        Some(l) => m.insert(key, JsonData::StrList(views(l@))),
        None => m,
    }
}

/// `m` with `key` set to the raw JSON text `v`, when there is one.
pub open spec fn put_raw(m: Map<Seq<char>, JsonData>, key: Seq<char>, v: Option<String>) -> Map<Seq<char>, JsonData> {
    match v {
        Some(s) => m.insert(key, JsonData::Raw(s@)),
        None => m,
    }
}

/// `m` with the period set as a number, when there is one.
pub open spec fn put_period(m: Map<Seq<char>, JsonData>, v: Option<String>) -> Map<Seq<char>, JsonData> {
    match v {
        Some(s) => m.insert("period"@, JsonData::UInt(parsed_u32(s@)->0 as u64)),
        None => m,
    }
}

/// `m` with `key` set to the flag `v`, when there is one.
pub open spec fn put_flag(m: Map<Seq<char>, JsonData>, key: Seq<char>, v: Option<bool>) -> Map<Seq<char>, JsonData> {
    match v {
        Some(b) => m.insert(key, JsonData::Bool(b)),
        None => m,
    }
}

/// The body fields that create and update share: each given option under its API
/// name, the period as a number, the Apdex threshold and the custom headers as the
/// JSON they are written in, the lists as arrays of strings.
pub open spec fn check_body_map(p: CheckBodyParams) -> Map<Seq<char>, JsonData> {
    let m = Map::<Seq<char>, JsonData>::empty();
    let m = put_text(m, "url"@, *p.url);
    let m = put_text(m, "type"@, *p.check_type);
    let m = put_period(m, *p.period);
    let m = put_raw(m, "apdex_t"@, *p.apdex_t);
    let m = put_text(m, "alias"@, *p.alias);
    let m = put_text(m, "string_match"@, *p.string_match);
    let m = put_text(m, "mute_until"@, *p.mute_until);
    let m = put_text(m, "http_verb"@, *p.http_verb);
    let m = put_text(m, "http_body"@, *p.http_body);
    let m = put_list(m, "disabled_locations"@, *p.disabled_locations);
    let m = put_list(m, "recipients"@, *p.recipients);
    put_raw(m, "custom_headers"@, *p.custom_headers)
}

/// The names of the body fields are all different.
proof fn lemma_body_keys_distinct()
    ensures
        "url"@ != "type"@,
        "url"@ != "period"@,
        "url"@ != "apdex_t"@,
        "url"@ != "alias"@,
        "url"@ != "string_match"@,
        "url"@ != "mute_until"@,
        "url"@ != "http_verb"@,
        "url"@ != "http_body"@,
        "url"@ != "disabled_locations"@,
        "url"@ != "recipients"@,
        "url"@ != "custom_headers"@,
        "url"@ != "enabled"@,
        "url"@ != "published"@,
        "type"@ != "period"@,
        "type"@ != "apdex_t"@,
        "type"@ != "alias"@,
        "type"@ != "string_match"@,
        "type"@ != "mute_until"@,
        "type"@ != "http_verb"@,
        "type"@ != "http_body"@,
        "type"@ != "disabled_locations"@,
        "type"@ != "recipients"@,
        "type"@ != "custom_headers"@,
        "type"@ != "enabled"@,
        "type"@ != "published"@,
        "period"@ != "apdex_t"@,
        "period"@ != "alias"@,
        "period"@ != "string_match"@,
        "period"@ != "mute_until"@,
        "period"@ != "http_verb"@,
        "period"@ != "http_body"@,
        "period"@ != "disabled_locations"@,
        "period"@ != "recipients"@,
        "period"@ != "custom_headers"@,
        "period"@ != "enabled"@,
        "period"@ != "published"@,
        "apdex_t"@ != "alias"@,
        "apdex_t"@ != "string_match"@,
        "apdex_t"@ != "mute_until"@,
        "apdex_t"@ != "http_verb"@,
        "apdex_t"@ != "http_body"@,
        "apdex_t"@ != "disabled_locations"@,
        "apdex_t"@ != "recipients"@,
        "apdex_t"@ != "custom_headers"@,
        "apdex_t"@ != "enabled"@,
        "apdex_t"@ != "published"@,
        "alias"@ != "string_match"@,
        "alias"@ != "mute_until"@,
        "alias"@ != "http_verb"@,
        "alias"@ != "http_body"@,
        "alias"@ != "disabled_locations"@,
        "alias"@ != "recipients"@,
        "alias"@ != "custom_headers"@,
        "alias"@ != "enabled"@,
        "alias"@ != "published"@,
        "string_match"@ != "mute_until"@,
        "string_match"@ != "http_verb"@,
        "string_match"@ != "http_body"@,
        "string_match"@ != "disabled_locations"@,
        "string_match"@ != "recipients"@,
        "string_match"@ != "custom_headers"@,
        "string_match"@ != "enabled"@,
        "string_match"@ != "published"@,
        "mute_until"@ != "http_verb"@,
        "mute_until"@ != "http_body"@,
        "mute_until"@ != "disabled_locations"@,
        "mute_until"@ != "recipients"@,
        "mute_until"@ != "custom_headers"@,
        "mute_until"@ != "enabled"@,
        "mute_until"@ != "published"@,
        "http_verb"@ != "http_body"@,
        "http_verb"@ != "disabled_locations"@,
        "http_verb"@ != "recipients"@,
        "http_verb"@ != "custom_headers"@,
        "http_verb"@ != "enabled"@,
        "http_verb"@ != "published"@,
        "http_body"@ != "disabled_locations"@,
        "http_body"@ != "recipients"@,
        "http_body"@ != "custom_headers"@,
        "http_body"@ != "enabled"@,
        "http_body"@ != "published"@,
        "disabled_locations"@ != "recipients"@,
        "disabled_locations"@ != "custom_headers"@,
        "disabled_locations"@ != "enabled"@,
        "disabled_locations"@ != "published"@,
        "recipients"@ != "custom_headers"@,
        "recipients"@ != "enabled"@,
        "recipients"@ != "published"@,
        "custom_headers"@ != "enabled"@,
        "custom_headers"@ != "published"@,
        "enabled"@ != "published"@,
{
    reveal_strlit("url");
    reveal_strlit("type");
    reveal_strlit("period");
    reveal_strlit("apdex_t");
    reveal_strlit("alias");
    reveal_strlit("string_match");
    reveal_strlit("mute_until");
    reveal_strlit("http_verb");
    reveal_strlit("http_body");
    reveal_strlit("disabled_locations");
    reveal_strlit("recipients");
    reveal_strlit("custom_headers");
    reveal_strlit("enabled");
    reveal_strlit("published");
    assert("url"@.len() != "type"@.len());
    assert("url"@.len() != "period"@.len());
    assert("url"@.len() != "apdex_t"@.len());
    assert("url"@.len() != "alias"@.len());
    assert("url"@.len() != "string_match"@.len());
    assert("url"@.len() != "mute_until"@.len());
    assert("url"@.len() != "http_verb"@.len());
    assert("url"@.len() != "http_body"@.len());
    assert("url"@.len() != "disabled_locations"@.len());
    assert("url"@.len() != "recipients"@.len());
    assert("url"@.len() != "custom_headers"@.len());
    assert("url"@.len() != "enabled"@.len());
    assert("url"@.len() != "published"@.len());
    assert("type"@.len() != "period"@.len());
    assert("type"@.len() != "apdex_t"@.len());
    assert("type"@.len() != "alias"@.len());
    assert("type"@.len() != "string_match"@.len());
    assert("type"@.len() != "mute_until"@.len());
    assert("type"@.len() != "http_verb"@.len());
    assert("type"@.len() != "http_body"@.len());
    assert("type"@.len() != "disabled_locations"@.len());
    assert("type"@.len() != "recipients"@.len());
    assert("type"@.len() != "custom_headers"@.len());
    assert("type"@.len() != "enabled"@.len());
    assert("type"@.len() != "published"@.len());
    assert("period"@.len() != "apdex_t"@.len());
    assert("period"@.len() != "alias"@.len());
    assert("period"@.len() != "string_match"@.len());
    assert("period"@.len() != "mute_until"@.len());
    assert("period"@.len() != "http_verb"@.len());
    assert("period"@.len() != "http_body"@.len());
    assert("period"@.len() != "disabled_locations"@.len());
    assert("period"@.len() != "recipients"@.len());
    assert("period"@.len() != "custom_headers"@.len());
    assert("period"@.len() != "enabled"@.len());
    assert("period"@.len() != "published"@.len());
    assert("apdex_t"@.len() != "alias"@.len());
    assert("apdex_t"@.len() != "string_match"@.len());
    assert("apdex_t"@.len() != "mute_until"@.len());
    assert("apdex_t"@.len() != "http_verb"@.len());
    assert("apdex_t"@.len() != "http_body"@.len());
    assert("apdex_t"@.len() != "disabled_locations"@.len());
    assert("apdex_t"@.len() != "recipients"@.len());
    assert("apdex_t"@.len() != "custom_headers"@.len());
    assert("apdex_t"@[0] != "enabled"@[0]);
    assert("apdex_t"@.len() != "published"@.len());
    assert("alias"@.len() != "string_match"@.len());
    assert("alias"@.len() != "mute_until"@.len());
    assert("alias"@.len() != "http_verb"@.len());
    assert("alias"@.len() != "http_body"@.len());
    assert("alias"@.len() != "disabled_locations"@.len());
    assert("alias"@.len() != "recipients"@.len());
    assert("alias"@.len() != "custom_headers"@.len());
    assert("alias"@.len() != "enabled"@.len());
    assert("alias"@.len() != "published"@.len());
    assert("string_match"@.len() != "mute_until"@.len());
    assert("string_match"@.len() != "http_verb"@.len());
    assert("string_match"@.len() != "http_body"@.len());
    assert("string_match"@.len() != "disabled_locations"@.len());
    assert("string_match"@.len() != "recipients"@.len());
    assert("string_match"@.len() != "custom_headers"@.len());
    assert("string_match"@.len() != "enabled"@.len());
    assert("string_match"@.len() != "published"@.len());
    assert("mute_until"@.len() != "http_verb"@.len());
    assert("mute_until"@.len() != "http_body"@.len());
    assert("mute_until"@.len() != "disabled_locations"@.len());
    assert("mute_until"@[0] != "recipients"@[0]);
    assert("mute_until"@.len() != "custom_headers"@.len());
    assert("mute_until"@.len() != "enabled"@.len());
    assert("mute_until"@.len() != "published"@.len());
    assert("http_verb"@[5] != "http_body"@[5]);
    assert("http_verb"@.len() != "disabled_locations"@.len());
    assert("http_verb"@.len() != "recipients"@.len());
    assert("http_verb"@.len() != "custom_headers"@.len());
    assert("http_verb"@.len() != "enabled"@.len());
    assert("http_verb"@[0] != "published"@[0]);
    assert("http_body"@.len() != "disabled_locations"@.len());
    assert("http_body"@.len() != "recipients"@.len());
    assert("http_body"@.len() != "custom_headers"@.len());
    assert("http_body"@.len() != "enabled"@.len());
    assert("http_body"@[0] != "published"@[0]);
    assert("disabled_locations"@.len() != "recipients"@.len());
    assert("disabled_locations"@.len() != "custom_headers"@.len());
    assert("disabled_locations"@.len() != "enabled"@.len());
    assert("disabled_locations"@.len() != "published"@.len());
    assert("recipients"@.len() != "custom_headers"@.len());
    assert("recipients"@.len() != "enabled"@.len());
    assert("recipients"@.len() != "published"@.len());
    assert("custom_headers"@.len() != "enabled"@.len());
    assert("custom_headers"@.len() != "published"@.len());
    assert("enabled"@.len() != "published"@.len());
}

/// The shared body holds exactly the given options, each under its API name (the
/// check type under `type`) and never the `enabled` or `published` flags, which the
/// create and update commands add themselves. The text options are sent as the
/// strings given, the period as its number, the Apdex threshold and the custom
/// headers as the JSON text given, the lists as arrays of strings; with no option
/// given the body is empty.
pub proof fn law_check_body_fields(p: CheckBodyParams)
    ensures
        forall|k: Seq<char>| #[trigger] check_body_map(p).contains_key(k) <==> {
            ||| (k == "url"@ && *p.url is Some)
            ||| (k == "type"@ && *p.check_type is Some)
            ||| (k == "period"@ && *p.period is Some)
            ||| (k == "apdex_t"@ && *p.apdex_t is Some)
            ||| (k == "alias"@ && *p.alias is Some)
            ||| (k == "string_match"@ && *p.string_match is Some)
            ||| (k == "mute_until"@ && *p.mute_until is Some)
            ||| (k == "http_verb"@ && *p.http_verb is Some)
            ||| (k == "http_body"@ && *p.http_body is Some)
            ||| (k == "disabled_locations"@ && *p.disabled_locations is Some)
            ||| (k == "recipients"@ && *p.recipients is Some)
            ||| (k == "custom_headers"@ && *p.custom_headers is Some)
        },
        !check_body_map(p).contains_key("enabled"@),
        !check_body_map(p).contains_key("published"@),
        *p.url matches Some(v) ==> check_body_map(p)["url"@] == JsonData::Str(v@),
        *p.check_type matches Some(v) ==> check_body_map(p)["type"@] == JsonData::Str(v@),
        *p.period matches Some(v) ==> check_body_map(p)["period"@] == JsonData::UInt(parsed_u32(v@)->0 as u64),
        *p.apdex_t matches Some(v) ==> check_body_map(p)["apdex_t"@] == JsonData::Raw(v@),
        *p.alias matches Some(v) ==> check_body_map(p)["alias"@] == JsonData::Str(v@),
        *p.string_match matches Some(v) ==> check_body_map(p)["string_match"@] == JsonData::Str(v@),
        *p.mute_until matches Some(v) ==> check_body_map(p)["mute_until"@] == JsonData::Str(v@),
        *p.http_verb matches Some(v) ==> check_body_map(p)["http_verb"@] == JsonData::Str(v@),
        *p.http_body matches Some(v) ==> check_body_map(p)["http_body"@] == JsonData::Str(v@),
        *p.disabled_locations matches Some(v) ==> check_body_map(p)["disabled_locations"@] == JsonData::StrList(views(v@)),
        *p.recipients matches Some(v) ==> check_body_map(p)["recipients"@] == JsonData::StrList(views(v@)),
        *p.custom_headers matches Some(v) ==> check_body_map(p)["custom_headers"@] == JsonData::Raw(v@),
{
    lemma_body_keys_distinct();
}

/// The custom headers, when given, are not JSON: the parser's complaint.
pub open spec fn headers_error(h: Option<String>) -> Option<Seq<char>> {
    match h {
        Some(t) => match json_parse_outcome(t@) {
            Ok(()) => None,
            Err(e) => Some(e),
        },
        None => None,
    }
}

fn put_text_field(body: &mut JsonObject, key: &str, v: &Option<String>)
    ensures
        final(body)@ == put_text(old(body)@, key@, *v),
{
    if let Some(s) = v {
        body.insert(String::from_str(key), JsonValue::Str(s.clone()));
    }
}

fn put_list_field(body: &mut JsonObject, key: &str, v: &Option<Vec<String>>)
    ensures
        final(body)@ == put_list(old(body)@, key@, *v),
{
    if let Some(l) = v {
        body.insert(String::from_str(key), JsonValue::StrList(clone_strings(l)));
    }
}

/// Builds the request body shared by the create and update commands.
pub fn build_check_body(p: &CheckBodyParams) -> (r: Result<JsonObject, CommandError>)
    requires
        body_params_valid(*p.period, *p.apdex_t),
    ensures
        match headers_error(*p.custom_headers) {
            Some(e) => r matches Err(CommandError::InvalidCustomHeaders(d)) && d@ == e,
            None => r matches Ok(b) && b@ == check_body_map(*p),
        },
{
    let mut body = JsonObject::new();
    put_text_field(&mut body, "url", p.url);
    put_text_field(&mut body, "type", p.check_type);
    if let Some(period) = p.period {
        let n = parse_u32(period.as_str());
        match n {
            Some(v) => body.insert(String::from_str("period"), JsonValue::UInt(v as u64)),
            None => {},
        }
    }
    if let Some(a) = p.apdex_t {
        body.insert(String::from_str("apdex_t"), JsonValue::Raw(a.clone()));
    }
    put_text_field(&mut body, "alias", p.alias);
    put_text_field(&mut body, "string_match", p.string_match);
    put_text_field(&mut body, "mute_until", p.mute_until);
    put_text_field(&mut body, "http_verb", p.http_verb);
    put_text_field(&mut body, "http_body", p.http_body);
    put_list_field(&mut body, "disabled_locations", p.disabled_locations);
    put_list_field(&mut body, "recipients", p.recipients);
    if let Some(h) = p.custom_headers {
        let parsed = check_json_text(h.as_str());
        return with_custom_headers(body, h, parsed);
    }
    Ok(body)
}

/// Adds the custom headers to a body, given what parsing their text gave: the text
/// itself under `custom_headers` when it parsed, else the parser's complaint.
pub fn with_custom_headers(body: JsonObject, headers: &String, parsed: Result<(), String>) -> (r: Result<JsonObject, CommandError>)
    ensures
        match parsed {
            Ok(()) => r matches Ok(b) && b@ == body@.insert("custom_headers"@, JsonData::Raw(headers@)),
            Err(e) => r matches Err(CommandError::InvalidCustomHeaders(d)) && d@ == e@,
        },
{
    match parsed {
        Ok(()) => {
            let mut body = body;
            body.insert(String::from_str("custom_headers"), JsonValue::Raw(headers.clone()));
            Ok(body)
        },
        Err(e) => Err(CommandError::InvalidCustomHeaders(e)),
    }
}

/// The check is a pulse check, which needs no URL.
pub open spec fn is_pulse(check_type: Option<String>) -> bool {
    match check_type {
        Some(t) => t@ == "pulse"@,
        None => false,
    }
}

/// The body parameters of a create or update action.
pub open spec fn create_params(a: ChecksAction) -> bool {
    match a {
        ChecksAction::Create { period, apdex_t, .. } => body_params_valid(period, apdex_t),
        ChecksAction::Update { period, apdex_t, .. } => body_params_valid(period, apdex_t),
        _ => true,
    }
}

/// What a checks action expects back, by output mode.
pub open spec fn checks_expect(a: ChecksAction, mode: OutputMode) -> Expect {
    match a {
        ChecksAction::List => if mode == OutputMode::Json { Expect::AnyJson } else { Expect::Checks },
        ChecksAction::Get { .. } => if mode == OutputMode::Json { Expect::AnyJson } else { Expect::Check },
        ChecksAction::Create { .. } => if mode == OutputMode::Json { Expect::AnyJson } else { Expect::Check },
        ChecksAction::Update { .. } => if mode == OutputMode::Json { Expect::AnyJson } else { Expect::Check },
        ChecksAction::Delete { .. } => if mode == OutputMode::Json { Expect::AnyJson } else { Expect::Nothing },
        ChecksAction::Downtimes { .. } => if mode == OutputMode::Json { Expect::AnyJson } else { Expect::Downtimes },
        ChecksAction::Metrics { .. } => if mode == OutputMode::Axi { Expect::Metrics } else { Expect::AnyJson },
    }
}

fn json_or(mode: OutputMode, e: Expect) -> (r: Expect)
    ensures
        r == (if mode == OutputMode::Json { Expect::AnyJson } else { e }),
{
    if mode == OutputMode::Json { Expect::AnyJson } else { e }
}

/// `/api/checks/TOKEN`.
pub open spec fn check_path(token: Seq<char>) -> Seq<char> {
    "/api/checks/"@ + token
}

/// The query of a downtimes listing: the page, then `results=true` when asked.
pub open spec fn downtimes_query(page: Option<u32>, results: bool) -> Seq<(Seq<char>, Seq<char>)> {
    let q = match page {
        Some(p) => seq![("page"@, decimal(p as nat))],
        None => Seq::empty(),
    };
    if results { q.push(("results"@, "true"@)) } else { q }
}

/// The query of a metrics request: `from`, `to` and `group`, each when given.
pub open spec fn metrics_query(from: Option<String>, to: Option<String>, group: Option<String>) -> Seq<(Seq<char>, Seq<char>)> {
    let q = match from {
        Some(f) => seq![("from"@, f@)],
        None => Seq::empty(),
    };
    let q = match to {
        Some(t) => q.push(("to"@, t@)),
        None => q,
    };
    match group {
        Some(g) => q.push(("group"@, g@)),
        None => q,
    }
}

/// The request a checks action sends.
pub open spec fn checks_request_ok(a: ChecksAction, r: Request) -> bool {
    match a {
        ChecksAction::List => is_plain(r, Method::Get, "/api/checks"@),
        ChecksAction::Get { token, metrics } => {
            &&& r.method == Method::Get
            &&& r.path@ == check_path(token@)
            &&& query_views(r.query@) == (if metrics { seq![("metrics"@, "true"@)] } else { Seq::empty() })
            &&& r.body is None
        },
        ChecksAction::Create {
            url, check_type, period, apdex_t, enabled, published, alias, string_match,
            mute_until, http_verb, http_body, disabled_locations, recipients, custom_headers,
        } => {
            let p = CheckBodyParams {
                url: &url, check_type: &check_type, period: &period, apdex_t: &apdex_t,
                alias: &alias, string_match: &string_match, mute_until: &mute_until,
                http_verb: &http_verb, http_body: &http_body, disabled_locations: &disabled_locations,
                recipients: &recipients, custom_headers: &custom_headers,
            };
            let m = check_body_map(p);
            let m = if enabled { m.insert("enabled"@, JsonData::Bool(true)) } else { m };
            let m = if published { m.insert("published"@, JsonData::Bool(true)) } else { m };
            &&& r.method == Method::Post
            &&& r.path@ == "/api/checks"@
            &&& r.query@.len() == 0
            &&& r.body matches Some(b) && b@ == m
        },
        ChecksAction::Update {
            token, url, check_type, period, apdex_t, enabled, published, alias, string_match,
            mute_until, http_verb, http_body, disabled_locations, recipients, custom_headers,
        } => {
            let p = CheckBodyParams {
                url: &url, check_type: &check_type, period: &period, apdex_t: &apdex_t,
                alias: &alias, string_match: &string_match, mute_until: &mute_until,
                http_verb: &http_verb, http_body: &http_body, disabled_locations: &disabled_locations,
                recipients: &recipients, custom_headers: &custom_headers,
            };
            let m = put_flag(put_flag(check_body_map(p), "enabled"@, enabled), "published"@, published);
            &&& r.method == Method::Put
            &&& r.path@ == check_path(token@)
            &&& r.query@.len() == 0
            &&& r.body matches Some(b) && b@ == m
        },
        ChecksAction::Delete { token } => is_plain(r, Method::Delete, check_path(token@)),
        ChecksAction::Downtimes { token, page, results } => {
            &&& r.method == Method::Get
            &&& r.path@ == check_path(token@) + "/downtimes"@
            &&& query_views(r.query@) == downtimes_query(page, results)
            &&& r.body is None
        },
        ChecksAction::Metrics { token, from, to, group } => {
            &&& r.method == Method::Get
            &&& r.path@ == check_path(token@) + "/metrics"@
            &&& query_views(r.query@) == metrics_query(from, to, group)
            &&& r.body is None
        },
    }
}

/// A create sends the `enabled` and `published` flags only when they are set, and
/// then as `true`; otherwise the API's defaults apply. An update sends each flag
/// exactly when it is given, with the value given.
pub proof fn law_check_flags_sent_only_when_given(a: ChecksAction, r: Request)
    requires
        checks_request_ok(a, r),
    ensures
        a matches ChecksAction::Create { enabled, published, .. } ==> r.body matches Some(b)
            && (b@.contains_key("enabled"@) <==> enabled)
            && (enabled ==> b@["enabled"@] == JsonData::Bool(true))
            && (b@.contains_key("published"@) <==> published)
            && (published ==> b@["published"@] == JsonData::Bool(true)),
        a matches ChecksAction::Update { enabled, published, .. } ==> r.body matches Some(b)
            && (b@.contains_key("enabled"@) <==> enabled is Some)
            && (enabled matches Some(e) ==> b@["enabled"@] == JsonData::Bool(e))
            && (b@.contains_key("published"@) <==> published is Some)
            && (published matches Some(e) ==> b@["published"@] == JsonData::Bool(e)),
{
    lemma_body_keys_distinct();
    match a {
        ChecksAction::Create {
            url, check_type, period, apdex_t, enabled, published, alias, string_match,
            mute_until, http_verb, http_body, disabled_locations, recipients, custom_headers,
        } => {
            let p = CheckBodyParams {
                url: &url, check_type: &check_type, period: &period, apdex_t: &apdex_t,
                alias: &alias, string_match: &string_match, mute_until: &mute_until,
                http_verb: &http_verb, http_body: &http_body, disabled_locations: &disabled_locations,
                recipients: &recipients, custom_headers: &custom_headers,
            };
            law_check_body_fields(p);
        },
        ChecksAction::Update {
            token, url, check_type, period, apdex_t, enabled, published, alias, string_match,
            mute_until, http_verb, http_body, disabled_locations, recipients, custom_headers,
        } => {
            let p = CheckBodyParams {
                url: &url, check_type: &check_type, period: &period, apdex_t: &apdex_t,
                alias: &alias, string_match: &string_match, mute_until: &mute_until,
                http_verb: &http_verb, http_body: &http_body, disabled_locations: &disabled_locations,
                recipients: &recipients, custom_headers: &custom_headers,
            };
            law_check_body_fields(p);
        },
        _ => {},
    }
}

/// Where each checks action goes: the list and creation to `/api/checks`; a single
/// check's reading, update and deletion to `/api/checks/TOKEN` (with
/// `metrics=true` exactly when metrics are asked for); its downtimes and metrics
/// below that path.
pub proof fn law_checks_request_targets(a: ChecksAction, r: Request)
    requires
        checks_request_ok(a, r),
    ensures
        a is List ==> r.method == Method::Get && r.path@ == "/api/checks"@,
        a is Create ==> r.method == Method::Post && r.path@ == "/api/checks"@,
        a matches ChecksAction::Get { token, metrics } ==> (r.method == Method::Get && r.path@ == "/api/checks/"@ + token@
            && query_views(r.query@) == (if metrics { seq![("metrics"@, "true"@)] } else { Seq::empty() })),
        a matches ChecksAction::Update { token, .. } ==> (r.method == Method::Put && r.path@ == "/api/checks/"@ + token@),
        a matches ChecksAction::Delete { token } ==> (r.method == Method::Delete && r.path@ == "/api/checks/"@ + token@),
        a matches ChecksAction::Downtimes { token, .. } ==> (r.method == Method::Get
            && r.path@ == "/api/checks/"@ + token@ + "/downtimes"@),
        a matches ChecksAction::Metrics { token, .. } ==> (r.method == Method::Get
            && r.path@ == "/api/checks/"@ + token@ + "/metrics"@),
{
}

/// A metrics request carries each of `from`, `to` and `group` that is given, under
/// its own name with its value, and nothing else.
pub proof fn law_metrics_query_options(a: ChecksAction, r: Request)
    requires
        checks_request_ok(a, r),
    ensures
        a matches ChecksAction::Metrics { from, to, group, .. } ==> {
            let q = query_views(r.query@);
            &&& from matches Some(f) ==> q.contains(("from"@, f@))
            &&& to matches Some(t) ==> q.contains(("to"@, t@))
            &&& group matches Some(g) ==> q.contains(("group"@, g@))
            &&& forall|i: int| 0 <= i < q.len() ==> {
                ||| from matches Some(f) && #[trigger] q[i] == ("from"@, f@)
                ||| to matches Some(t) && q[i] == ("to"@, t@)
                ||| group matches Some(g) && q[i] == ("group"@, g@)
            }
        },
{
    if let ChecksAction::Metrics { token, from, to, group } = a {
        let q = query_views(r.query@);
        let nf: int = if from is Some { 1 } else { 0 };
        let nt: int = if to is Some { 1 } else { 0 };
        if let Some(f) = from {
            assert(q[0] == ("from"@, f@));
        }
        if let Some(t) = to {
            assert(q[nf] == ("to"@, t@));
        }
        if let Some(g) = group {
            assert(q[nf + nt] == ("group"@, g@));
        }
    }
}

/// A downtimes request carries the page, when given, as its decimal numeral, and
/// `results=true` exactly when results are asked for, and nothing else.
pub proof fn law_downtimes_query_options(a: ChecksAction, r: Request)
    requires
        checks_request_ok(a, r),
    ensures
        a matches ChecksAction::Downtimes { page, results, .. } ==> {
            let q = query_views(r.query@);
            &&& page matches Some(n) ==> q.contains(("page"@, decimal(n as nat)))
            &&& results ==> q.contains(("results"@, "true"@))
            &&& forall|i: int| 0 <= i < q.len() ==> {
                ||| page matches Some(n) && #[trigger] q[i] == ("page"@, decimal(n as nat))
                ||| results && q[i] == ("results"@, "true"@)
            }
        },
{
    if let ChecksAction::Downtimes { token, page, results } = a {
        let q = query_views(r.query@);
        let np: int = if page is Some { 1 } else { 0 };
        if let Some(n) = page {
            assert(q[0] == ("page"@, decimal(n as nat)));
        }
        if results {
            assert(q[np] == ("results"@, "true"@));
        }
    }
}

/// When a checks action is refused before sending anything, the message it is
/// refused with: a non-pulse create without a URL, then custom headers that are not JSON.
pub open spec fn checks_refusal(a: ChecksAction) -> Option<Seq<char>> {
    match a {
        ChecksAction::Create { url, check_type, custom_headers, .. } => {
            if !is_pulse(check_type) && url is None {
                Some("URL is required for all check types except pulse"@)
            } else {
                match headers_error(custom_headers) {
                    Some(e) => Some("--custom-headers must be valid JSON: "@ + e),
                    None => None,
                }
            }
        },
        ChecksAction::Update { custom_headers, .. } => match headers_error(custom_headers) {
            Some(e) => Some("--custom-headers must be valid JSON: "@ + e),
            None => None,
        },
        _ => None,
    }
}


fn pair(k: &str, v: String) -> (r: (String, String))
    ensures
        r.0@ == k@,
        r.1@ == v@,
{
    (String::from_str(k), v)
}

fn check_path_string(token: &String) -> (r: String)
    ensures
        r@ == check_path(token@),
{
    concat("/api/checks/", token.as_str())
}

/// Plans the request for a checks action.
pub fn plan(action: &ChecksAction, mode: OutputMode) -> (r: Result<Step, CommandError>)
    requires
        create_params(*action),
    ensures
        match checks_refusal(*action) {
            Some(m) => r matches Err(e) && crate::cmd::command_error_text(e) == m,
            None => r matches Ok(s) && checks_request_ok(*action, s.request) && s.expect == checks_expect(*action, mode),
        },
{
    match action {
        ChecksAction::List => {
            let request = plain(Method::Get, String::from_str("/api/checks"));
            Ok(Step { request, expect: json_or(mode, Expect::Checks) })
        },
        ChecksAction::Get { token, metrics } => {
            let mut query: Vec<(String, String)> = Vec::new();
            if *metrics {
                query.push(pair("metrics", String::from_str("true")));
            }
            assert(query_views(query@) =~= (if *metrics { seq![("metrics"@, "true"@)] } else { Seq::empty() }));
            let request = Request { method: Method::Get, path: check_path_string(token), query, body: None };
            Ok(Step { request, expect: json_or(mode, Expect::Check) })
        },
        ChecksAction::Create {
            url, check_type, period, apdex_t, enabled, published, alias, string_match,
            mute_until, http_verb, http_body, disabled_locations, recipients, custom_headers,
        } => {
            let pulse = match check_type {
                Some(t) => str_eq(t.as_str(), "pulse"),
                None => false,
            };
            if !pulse && url.is_none() {
                return Err(CommandError::MissingUrl);
            }
            let params = CheckBodyParams {
                url, check_type, period, apdex_t, alias, string_match, mute_until, http_verb,
                http_body, disabled_locations, recipients, custom_headers,
            };
            let mut body = match build_check_body(&params) {
                Ok(b) => b,
                Err(e) => return Err(e),
            };
            if *enabled {
                body.insert(String::from_str("enabled"), JsonValue::Bool(true));
            }
            if *published {
                body.insert(String::from_str("published"), JsonValue::Bool(true));
            }
            let request = Request {
                method: Method::Post,
                path: String::from_str("/api/checks"),
                query: Vec::new(),
                body: Some(body),
            };
            Ok(Step { request, expect: json_or(mode, Expect::Check) })
        },
        ChecksAction::Update {
            token, url, check_type, period, apdex_t, enabled, published, alias, string_match,
            mute_until, http_verb, http_body, disabled_locations, recipients, custom_headers,
        } => {
            let params = CheckBodyParams {
                url, check_type, period, apdex_t, alias, string_match, mute_until, http_verb,
                http_body, disabled_locations, recipients, custom_headers,
            };
            let mut body = match build_check_body(&params) {
                Ok(b) => b,
                Err(e) => return Err(e),
            };
            if let Some(e) = enabled {
                body.insert(String::from_str("enabled"), JsonValue::Bool(*e));
            }
            if let Some(p) = published {
                body.insert(String::from_str("published"), JsonValue::Bool(*p));
            }
            let request = Request {
                method: Method::Put,
                path: check_path_string(token),
                query: Vec::new(),
                body: Some(body),
            };
            Ok(Step { request, expect: json_or(mode, Expect::Check) })
        },
        ChecksAction::Delete { token } => {
            let request = plain(Method::Delete, check_path_string(token));
            Ok(Step { request, expect: json_or(mode, Expect::Nothing) })
        },
        ChecksAction::Downtimes { token, page, results } => {
            let mut query: Vec<(String, String)> = Vec::new();
            if let Some(p) = page {
                query.push(pair("page", decimal_string(*p as u64)));
            }
            if *results {
                query.push(pair("results", String::from_str("true")));
            }
            assert(query_views(query@) =~= downtimes_query(*page, *results));
            let request = Request {
                method: Method::Get,
                path: concat3("/api/checks/", token.as_str(), "/downtimes"),
                query,
                body: None,
            };
            Ok(Step { request, expect: json_or(mode, Expect::Downtimes) })
        },
        ChecksAction::Metrics { token, from, to, group } => {
            let mut query: Vec<(String, String)> = Vec::new();
            if let Some(f) = from {
                query.push(pair("from", f.clone()));
            }
            if let Some(t) = to {
                query.push(pair("to", t.clone()));
            }
            if let Some(g) = group {
                query.push(pair("group", g.clone()));
            }
            assert(query_views(query@) =~= metrics_query(*from, *to, *group));
            let request = Request {
                method: Method::Get,
                path: concat3("/api/checks/", token.as_str(), "/metrics"),
                query,
                body: None,
            };
            let expect = if mode == OutputMode::Axi { Expect::Metrics } else { Expect::AnyJson };
            Ok(Step { request, expect })
        },
    }
}


/// Number of checks reported down.
pub open spec fn down_count(cs: Seq<Check>) -> nat
    decreases cs.len(),
{
    if cs.len() == 0 {
        0
    } else {
        down_count(cs.drop_last()) + (if cs.last().down == Some(true) { 1nat } else { 0nat })
    }
}

/// The uptimes that are known, in check order.
pub open spec fn uptimes(cs: Seq<Check>) -> Seq<Reading>
    decreases cs.len(),
{
    if cs.len() == 0 {
        Seq::empty()
    } else {
        uptimes(cs.drop_last()) + match cs.last().uptime {
            Some(u) => seq![u],
            None => Seq::empty(),
        }
    }
}

/// The least reading as `Iterator::min_by` with `partial_cmp` finds it: scanning in
/// order, a later reading replaces the current one only when the current is greater.
pub open spec fn least_reading(rs: Seq<Reading>) -> Option<Reading>
    decreases rs.len(),
{
    if rs.len() == 0 {
        None
    } else {
        match least_reading(rs.drop_last()) {
            None => Some(rs.last()),
            Some(w) => if reading_greater(w, rs.last()) { Some(rs.last()) } else { Some(w) },
        }
    }
}

/// `N checks, D down, worst_uptime: W`.
pub open spec fn checks_summary(cs: Seq<Check>) -> Seq<char> {
    decimal(cs.len()) + " checks, "@ + decimal(down_count(cs)) + " down, worst_uptime: "@
        + fixed2_or_dash(least_reading(uptimes(cs)), "%"@)
}

/// Sum of the known downtime durations.
pub open spec fn total_duration(ds: Seq<Downtime>) -> nat
    decreases ds.len(),
{
    if ds.len() == 0 {
        0
    } else {
        total_duration(ds.drop_last()) + match ds.last().duration {
            Some(d) => d as nat,
            None => 0,
        }
    }
}

/// A check counts as down exactly when the API reports `down: true`: no checks
/// count nothing, and appending a check adds one if it is down and nothing otherwise
/// (also when `down` is absent); so no more checks are down than there are checks.
pub proof fn law_down_count(cs: Seq<Check>, c: Check)
    ensures
        down_count(Seq::<Check>::empty()) == 0,
        c.down == Some(true) ==> down_count(cs.push(c)) == down_count(cs) + 1,
        c.down != Some(true) ==> down_count(cs.push(c)) == down_count(cs),
        down_count(cs) <= cs.len(),
    decreases cs.len(),
{
    assert(cs.push(c).drop_last() =~= cs);
    if cs.len() > 0 {
        law_down_count(cs.drop_last(), cs.last());
    }
}

/// The uptimes are the known uptimes of the checks, in order: appending a check
/// appends its uptime when it has one.
pub proof fn law_uptimes(cs: Seq<Check>, c: Check)
    ensures
        uptimes(Seq::<Check>::empty()) == Seq::<Reading>::empty(),
        c.uptime matches Some(u) ==> uptimes(cs.push(c)) == uptimes(cs).push(u),
        c.uptime is None ==> uptimes(cs.push(c)) == uptimes(cs),
{
    assert(cs.push(c).drop_last() =~= cs);
}

/// The worst uptime is one of the readings, and no reading is smaller than it (as
/// `partial_cmp` compares them); there is one exactly when there is any reading.
pub proof fn law_least_reading(rs: Seq<Reading>)
    ensures
        least_reading(rs) is Some <==> rs.len() > 0,
        least_reading(rs) matches Some(w) ==> rs.contains(w),
        least_reading(rs) matches Some(w) ==> forall|i: int| 0 <= i < rs.len() ==> !reading_greater(w, #[trigger] rs[i]),
    decreases rs.len(),
{
    if rs.len() > 0 {
        let r0 = rs.drop_last();
        let x = rs.last();
        law_least_reading(r0);
        match least_reading(r0) {
            None => {
                assert(rs[rs.len() - 1] == x);
            },
            Some(w0) => {
                let i0 = choose|i: int| 0 <= i < r0.len() && r0[i] == w0;
                assert(rs[i0] == w0);
                assert(rs[rs.len() - 1] == x);
                if reading_greater(w0, x) {
                    assert forall|i: int| 0 <= i < rs.len() implies !reading_greater(x, #[trigger] rs[i]) by {
                        if i < rs.len() - 1 {
                            assert(rs[i] == r0[i]);
                            assert(!reading_greater(w0, r0[i]));
                        }
                    }
                } else {
                    assert forall|i: int| 0 <= i < rs.len() implies !reading_greater(w0, #[trigger] rs[i]) by {
                        if i < rs.len() - 1 {
                            assert(rs[i] == r0[i]);
                        }
                    }
                }
            },
        }
    }
}

/// The total downtime adds up the known durations: nothing for no downtimes, and
/// appending one adds its duration, or nothing when it is still ongoing.
pub proof fn law_total_duration(ds: Seq<Downtime>, d: Downtime)
    ensures
        total_duration(Seq::<Downtime>::empty()) == 0,
        d.duration matches Some(n) ==> total_duration(ds.push(d)) == total_duration(ds) + n,
        d.duration is None ==> total_duration(ds.push(d)) == total_duration(ds),
{
    assert(ds.push(d).drop_last() =~= ds);
}

/// `N downtimes, total_duration: Ss`.
pub open spec fn downtimes_summary(ds: Seq<Downtime>) -> Seq<char> {
    decimal(ds.len()) + " downtimes, total_duration: "@ + decimal(total_duration(ds)) + "s"@
}

/// The key/value listing of one check: token, URL, alias (when set) in third place,
/// status, uptime, period, type and enabled flag; and the Apdex score last when
/// metrics were asked for and returned.
pub open spec fn check_kv(c: Check, metrics: bool) -> Seq<(Seq<char>, Seq<char>)> {
    let base = seq![
        ("Token"@, c.token@),
        ("URL"@, c.url@),
        ("Status"@, status_word(c.down)),
        ("Uptime"@, fixed2_or_dash(c.uptime, "%"@)),
        ("Period"@, seconds_or_dash(period_secs(c.period))),
        ("Type"@, text_or_dash(c.check_type)),
        ("Enabled"@, flag_or_dash(c.enabled)),
    ];
    let with_alias = match c.alias {
        Some(a) => base.insert(2, ("Alias"@, a@)),
        None => base,
    };
    match c.metrics {
        Some(m) => if metrics { with_alias.push(("Apdex"@, fixed4_or_dash(m.apdex))) } else { with_alias },
        None => with_alias,
    }
}

/// The details of a check list the token, then the URL, then the alias when it has
/// one, then status, uptime, period, type and enabled flag, and the Apdex score last
/// only when metrics were asked for and came back.
pub proof fn law_check_details(c: Check, metrics: bool)
    ensures
        ({
            let kv = check_kv(c, metrics);
            let a: int = if c.alias is Some { 1 } else { 0 };
            let m: int = if metrics && c.metrics is Some { 1 } else { 0 };
            &&& kv.len() == 7 + a + m
            &&& kv[0] == ("Token"@, c.token@)
            &&& kv[1] == ("URL"@, c.url@)
            &&& (c.alias matches Some(al) ==> kv[2] == ("Alias"@, al@))
            &&& kv[2 + a] == ("Status"@, status_word(c.down))
            &&& kv[3 + a] == ("Uptime"@, fixed2_or_dash(c.uptime, "%"@))
            &&& kv[4 + a] == ("Period"@, seconds_or_dash(period_secs(c.period)))
            &&& kv[5 + a] == ("Type"@, text_or_dash(c.check_type))
            &&& kv[6 + a] == ("Enabled"@, flag_or_dash(c.enabled))
            &&& (metrics ==> (c.metrics matches Some(mm) ==> kv[7 + a] == ("Apdex"@, fixed4_or_dash(mm.apdex))))
        }),
{
}

/// The rows of a list of checks, one per check, in order.
pub open spec fn check_rows(cs: Seq<Check>, rows: Seq<CheckRow>) -> bool {
    rows.len() == cs.len() && forall|i: int| 0 <= i < cs.len() ==> check_row_of(#[trigger] cs[i], rows[i])
}

/// The rows of a list of downtimes, one per downtime, in order.
pub open spec fn downtime_rows(ds: Seq<Downtime>, rows: Seq<DowntimeRow>) -> bool {
    rows.len() == ds.len() && forall|i: int| 0 <= i < ds.len() ==> downtime_row_of(#[trigger] ds[i], rows[i])
}

/// The AXI rows of downtimes: as the table rows, with the error cut at 200 bytes.
pub open spec fn downtime_rows_axi(ds: Seq<Downtime>, rows: Seq<DowntimeRow>) -> bool {
    &&& rows.len() == ds.len()
    &&& forall|i: int| 0 <= i < ds.len() ==> {
        let d = #[trigger] ds[i];
        let r = rows[i];
        &&& r.id@ == d.id@
        &&& r.error@ == truncated(text_or_dash(d.error), AXI_FIELD_LIMIT as nat)
        &&& r.started_at@ == text_or_dash(d.started_at)
        &&& r.ended_at@ == text_or_dash(d.ended_at)
        &&& r.duration@ == seconds_or_dash(d.duration)
    }
}

/// The check's request body as AXI output shows it: cut at 200 bytes.
pub open spec fn axi_body_text(b: Option<String>) -> Option<Seq<char>> {
    match b {
        Some(s) => Some(truncated(s@, AXI_FIELD_LIMIT as nat)),
        None => None,
    }
}

/// What replaces the custom headers in AXI output: their JSON text, cut, when it is
/// longer than 200 bytes; nothing otherwise, and the headers stay as they are.
pub open spec fn axi_headers_text(h: Option<JsonValue>) -> Option<Seq<char>> {
    match h {
        Some(JsonValue::Raw(t)) => if utf8_len(t@) > AXI_FIELD_LIMIT {
            Some(truncated(t@, AXI_FIELD_LIMIT as nat))
        } else {
            None
        },
        _ => None,
    }
}

/// The check's request body cut for AXI output.
pub fn axi_http_body(b: &Option<String>) -> (r: Option<String>)
    ensures
        opt_view(r) == axi_body_text(*b),
{
    match b {
        Some(s) => Some(truncate_axi(s.as_str())),
        None => None,
    }
}

/// The replacement of the custom headers in AXI output, when their JSON text is too long.
pub fn axi_custom_headers(h: &Option<JsonValue>) -> (r: Option<String>)
    ensures
        opt_view(r) == axi_headers_text(*h),
{
    match h {
        Some(JsonValue::Raw(t)) => {
            if byte_len(t.as_str()) > AXI_FIELD_LIMIT {
                Some(truncate_axi(t.as_str()))
            } else {
                None
            }
        },
        _ => None,
    }
}

/// The follow-up hints of an AXI checks listing: toward creating a check when there
/// are none, else toward a check's details and its downtimes.
pub open spec fn checks_list_hints(count: nat) -> Seq<Seq<char>> {
    if count == 0 {
        seq!["checks create --url <url>"@]
    } else {
        seq!["checks get <token> --metrics"@, "checks downtimes <token>"@]
    }
}

/// An AXI checks listing with no checks points toward creating one; with checks it
/// points toward a check's details and its downtimes.
pub proof fn law_checks_list_hints(count: nat)
    ensures
        count == 0 ==> checks_list_hints(count) == seq!["checks create --url <url>"@],
        count > 0 ==> checks_list_hints(count) == seq!["checks get <token> --metrics"@, "checks downtimes <token>"@],
{
}

/// What a checks action prints, given its reply.
pub open spec fn checks_rendered(a: ChecksAction, mode: OutputMode, reply: Reply, o: Output) -> bool {
    if checks_expect(a, mode) == Expect::AnyJson {
        o is PrettyJson
    } else {
        match a {
            ChecksAction::List => match reply {
                Reply::Checks(cs) => if mode == OutputMode::Table {
                    o matches Output::Table(Rows::Checks(rows)) && check_rows(cs@, rows@)
                } else {
                    o matches Output::AxiList { rows: Rows::Checks(rows), resource, aggregate, hints }
                        && check_rows(cs@, rows@) && resource@ == "checks"@
                        && aggregate@ == checks_summary(cs@)
                        && views(hints@) == checks_list_hints(cs@.len())
                },
                _ => false,
            },
            ChecksAction::Get { token, metrics } => match reply {
                Reply::Check(c) => if mode == OutputMode::Table {
                    o matches Output::Print(t) && t@ == kv_lines(check_kv(c, metrics), widest_key(check_kv(c, metrics)))
                } else {
                    o matches Output::AxiCheck { http_body, custom_headers, hints }
                        && opt_view(http_body) == axi_body_text(c.http_body)
                        && opt_view(custom_headers) == axi_headers_text(c.custom_headers)
                        && views(hints@) == seq![
                        "checks update "@ + token@, "checks downtimes "@ + token@, "checks metrics "@ + token@]
                },
                _ => false,
            },
            ChecksAction::Create { .. } => match reply {
                Reply::Check(c) => o matches Output::Print(t) && t@ == confirm_text(mode,
                    "Check created: "@ + c.token@ + " ("@ + c.url@ + ")"@,
                    seq!["checks get "@ + c.token@, "checks list"@]),
                _ => false,
            },
            ChecksAction::Update { .. } => match reply {
                Reply::Check(c) => o matches Output::Print(t) && t@ == confirm_text(mode,
                    "Check updated: "@ + c.token@ + " ("@ + c.url@ + ")"@,
                    seq!["checks get "@ + c.token@, "checks list"@]),
                _ => false,
            },
            ChecksAction::Delete { token } => o matches Output::Print(t)
                && t@ == confirm_text(mode, "Deleted check "@ + token@, seq!["checks list"@]),
            ChecksAction::Downtimes { token, .. } => match reply {
                Reply::Downtimes(ds) => if mode == OutputMode::Table {
                    o matches Output::Table(Rows::Downtimes(rows)) && downtime_rows(ds@, rows@)
                } else {
                    o matches Output::AxiList { rows: Rows::Downtimes(rows), resource, aggregate, hints }
                        && downtime_rows_axi(ds@, rows@) && resource@ == "downtimes"@
                        && aggregate@ == downtimes_summary(ds@)
                        && views(hints@) == seq!["checks get "@ + token@, "checks metrics "@ + token@]
                },
                _ => false,
            },
            ChecksAction::Metrics { token, .. } => match reply {
                Reply::Metrics(apdex) => o matches Output::AxiJson { prefix, hints }
                    && prefix@ == "summary: apdex: "@ + fixed4_or_dash(apdex) + "\n"@
                    && views(hints@) == seq!["checks get "@ + token@, "checks downtimes "@ + token@],
                _ => false,
            },
        }
    }
}

/// Truncation is for AXI output only: there every downtime error is cut to at most
/// 200 bytes, and one that already fits is shown as it is; a table shows each
/// error whole.
pub proof fn law_downtime_errors_cut_for_axi_only(a: ChecksAction, reply: Reply, table: Output, axi: Output)
    requires
        a is Downtimes,
        checks_rendered(a, OutputMode::Table, reply, table),
        checks_rendered(a, OutputMode::Axi, reply, axi),
        reply matches Reply::Downtimes(ds) && forall|i: int|
            0 <= i < ds@.len() ==> utf8_len(#[trigger] text_or_dash(ds@[i].error)) <= usize::MAX,
    ensures
        match (reply, table, axi) {
            (Reply::Downtimes(ds), Output::Table(Rows::Downtimes(t)), Output::AxiList { rows: Rows::Downtimes(x), .. }) => {
                &&& t@.len() == ds@.len() && x@.len() == ds@.len()
                &&& forall|i: int| #![trigger ds@[i]] 0 <= i < ds@.len() ==> {
                    &&& t@[i].error@ == text_or_dash(ds@[i].error)
                    &&& utf8_len(x@[i].error@) <= AXI_FIELD_LIMIT
                    &&& utf8_len(text_or_dash(ds@[i].error)) <= AXI_FIELD_LIMIT ==> x@[i].error@ == text_or_dash(ds@[i].error)
                }
            },
            _ => false,
        },
{
    if let Reply::Downtimes(ds) = reply {
        assert forall|i: int| #![trigger ds@[i]] 0 <= i < ds@.len() implies
            utf8_len(truncated(text_or_dash(ds@[i].error), AXI_FIELD_LIMIT as nat)) <= AXI_FIELD_LIMIT
            && (utf8_len(text_or_dash(ds@[i].error)) <= AXI_FIELD_LIMIT ==>
                truncated(text_or_dash(ds@[i].error), AXI_FIELD_LIMIT as nat) == text_or_dash(ds@[i].error)) by {
            let e = text_or_dash(ds@[i].error);
            crate::cmd::lemma_axi_cut_fits(e);
            law_truncated_fits(e, AXI_FIELD_LIMIT as nat);
        }
    }
}

/// The rows of a list of checks.
pub fn rows_of_checks(cs: &Vec<Check>) -> (rows: Vec<CheckRow>)
    ensures
        check_rows(cs@, rows@),
{
    let mut rows: Vec<CheckRow> = Vec::new();
    let mut i: usize = 0;
    while i < cs.len()
        invariant
            i <= cs@.len(),
            rows@.len() == i,
            forall|j: int| 0 <= j < i ==> check_row_of(#[trigger] cs@[j], rows@[j]),
        decreases cs@.len() - i,
    {
        rows.push(CheckRow::from(&cs[i]));
        i = i + 1;
    }
    rows
}

/// The rows of a list of downtimes, with the error cut for AXI when `axi` is set.
fn rows_of_downtimes(ds: &Vec<Downtime>, axi: bool) -> (rows: Vec<DowntimeRow>)
    ensures
        axi ==> downtime_rows_axi(ds@, rows@),
        !axi ==> downtime_rows(ds@, rows@),
{
    let mut rows: Vec<DowntimeRow> = Vec::new();
    let mut i: usize = 0;
    while i < ds.len()
        invariant
            i <= ds@.len(),
            rows@.len() == i,
            axi ==> forall|j: int| 0 <= j < i ==> {
                let d = #[trigger] ds@[j];
                let r = rows@[j];
                &&& r.id@ == d.id@
                &&& r.error@ == truncated(text_or_dash(d.error), AXI_FIELD_LIMIT as nat)
                &&& r.started_at@ == text_or_dash(d.started_at)
                &&& r.ended_at@ == text_or_dash(d.ended_at)
                &&& r.duration@ == seconds_or_dash(d.duration)
            },
            !axi ==> forall|j: int| 0 <= j < i ==> downtime_row_of(#[trigger] ds@[j], rows@[j]),
        decreases ds@.len() - i,
    {
        let mut row = DowntimeRow::from(&ds[i]);
        if axi {
            row.error = truncate_axi(row.error.as_str());
        }
        rows.push(row);
        i = i + 1;
    }
    rows
}

/// Counts the checks reported down.
fn count_down(cs: &Vec<Check>) -> (n: usize)
    ensures
        n == down_count(cs@),
{
    let mut n: usize = 0;
    let mut i: usize = 0;
    while i < cs.len()
        invariant
            i <= cs@.len(),
            n == down_count(cs@.take(i as int)),
            n <= i,
        decreases cs@.len() - i,
    {
        proof {
            assert(cs@.take(i + 1).drop_last() =~= cs@.take(i as int));
        }
        if cs[i].down == Some(true) {
            n = n + 1;
        }
        i = i + 1;
    }
    assert(cs@.take(cs@.len() as int) =~= cs@);
    n
}

/// The worst known uptime.
fn worst_uptime(cs: &Vec<Check>) -> (w: Option<Reading>)
    ensures
        w == least_reading(uptimes(cs@)),
{
    let mut w: Option<Reading> = None;
    let mut i: usize = 0;
    while i < cs.len()
        invariant
            i <= cs@.len(),
            w == least_reading(uptimes(cs@.take(i as int))),
        decreases cs@.len() - i,
    {
        let ghost before = uptimes(cs@.take(i as int));
        proof {
            assert(cs@.take(i + 1).drop_last() =~= cs@.take(i as int));
        }
        match &cs[i].uptime {
            Some(u) => {
                proof {
                    assert(uptimes(cs@.take(i + 1)) =~= before.push(*u));
                    assert(before.push(*u).drop_last() =~= before);
                }
                let replace = match &w {
                    None => true,
                    Some(cur) => greater(cur, u),
                };
                if replace {
                    w = Some(u.duplicate());
                }
            },
            None => {
                proof {
                    assert(uptimes(cs@.take(i + 1)) =~= before);
                }
            },
        }
        i = i + 1;
    }
    assert(cs@.take(cs@.len() as int) =~= cs@);
    w
}

/// The AXI summary of a list of checks.
pub fn summarize_checks(cs: &Vec<Check>) -> (s: String)
    ensures
        s@ == checks_summary(cs@),
{
    let mut s = decimal_string(cs.len() as u64);
    s.append(" checks, ");
    let down = decimal_string(count_down(cs) as u64);
    s.append(down.as_str());
    s.append(" down, worst_uptime: ");
    let worst = worst_uptime(cs);
    let w = fixed2_or_dash_string(&worst, "%");
    s.append(w.as_str());
    s
}

proof fn lemma_total_duration_prefix(ds: Seq<Downtime>, i: int)
    requires
        0 <= i <= ds.len(),
    ensures
        total_duration(ds.take(i)) <= total_duration(ds),
    decreases ds.len() - i,
{
    if i < ds.len() {
        lemma_total_duration_prefix(ds, i + 1);
        assert(ds.take(i + 1).drop_last() =~= ds.take(i));
    } else {
        assert(ds.take(i) =~= ds);
    }
}

/// The sum of the known downtime durations, or `None` when it does not fit in a `u64`.
pub fn downtime_total(ds: &Vec<Downtime>) -> (t: Option<u64>)
    ensures
        match t {
            Some(n) => n == total_duration(ds@),
            None => total_duration(ds@) > u64::MAX,
        },
{
    let mut total: u64 = 0;
    let mut i: usize = 0;
    while i < ds.len()
        invariant
            i <= ds@.len(),
            total == total_duration(ds@.take(i as int)),
        decreases ds@.len() - i,
    {
        proof {
            assert(ds@.take(i + 1).drop_last() =~= ds@.take(i as int));
        }
        if let Some(d) = ds[i].duration {
            if total > u64::MAX - d {
                proof {
                    lemma_total_duration_prefix(ds@, i + 1);
                }
                return None;
            }
            total = total + d;
        }
        i = i + 1;
    }
    assert(ds@.take(ds@.len() as int) =~= ds@);
    Some(total)
}

/// The AXI summary of a list of downtimes.
pub fn summarize_downtimes(ds: &Vec<Downtime>) -> (s: String)
    requires
        total_duration(ds@) <= u64::MAX,
    ensures
        s@ == downtimes_summary(ds@),
{
    let mut s = decimal_string(ds.len() as u64);
    s.append(" downtimes, total_duration: ");
    let total = match downtime_total(ds) {
        Some(t) => t,
        None => 0,
    };
    let t = decimal_string(total);
    s.append(t.as_str());
    s.append("s");
    s
}

/// The key/value pairs of one check.
pub fn check_pairs(c: &Check, metrics: bool) -> (pairs: Vec<(String, String)>)
    ensures
        pair_views(pairs@) == check_kv(*c, metrics),
{
    let mut pairs: Vec<(String, String)> = Vec::new();
    pairs.push(pair("Token", c.token.clone()));
    pairs.push(pair("URL", c.url.clone()));
    pairs.push(pair("Status", status_string(c.down)));
    pairs.push(pair("Uptime", fixed2_or_dash_string(&c.uptime, "%")));
    pairs.push(pair("Period", period_string(c.period)));
    pairs.push(pair("Type", or_dash(&c.check_type)));
    pairs.push(pair("Enabled", flag_or_dash_string(c.enabled)));
    let ghost base = pair_views(pairs@);
    if let Some(alias) = &c.alias {
        pairs.insert(2, pair("Alias", alias.clone()));
        assert(pair_views(pairs@) =~= base.insert(2, ("Alias"@, alias@)));
    }
    let ghost with_alias = pair_views(pairs@);
    if let Some(m) = &c.metrics {
        if metrics {
            pairs.push(pair("Apdex", fixed4_or_dash_string(&m.apdex)));
            assert(pair_views(pairs@) =~= with_alias.push(("Apdex"@, fixed4_or_dash(m.apdex))));
        }
    }
    pairs
}


/// Renders the reply to a checks action.
pub fn render(action: &ChecksAction, mode: OutputMode, reply: Reply) -> (o: Output)
    requires
        reply_shape(reply) == checks_expect(*action, mode),
        mode == OutputMode::Axi ==> (reply matches Reply::Downtimes(ds) ==> total_duration(ds@) <= u64::MAX),
    ensures
        checks_rendered(*action, mode, reply, o),
{
    if let Reply::AnyJson = reply {
        return Output::PrettyJson;
    }
    match action {
        ChecksAction::List => match reply {
            Reply::Checks(cs) => {
                let rows = rows_of_checks(&cs);
                if mode == OutputMode::Table {
                    Output::Table(Rows::Checks(rows))
                } else {
                    Output::AxiList {
                        rows: Rows::Checks(rows),
                        resource: String::from_str("checks"),
                        aggregate: summarize_checks(&cs),
                        hints: if cs.len() == 0 {
                            hint1(String::from_str("checks create --url <url>"))
                        } else {
                            hint2(
                                String::from_str("checks get <token> --metrics"),
                                String::from_str("checks downtimes <token>"),
                            )
                        },
                    }
                }
            },
            _ => Output::PrettyJson,
        },
        ChecksAction::Get { token, metrics } => match reply {
            Reply::Check(c) => {
                if mode == OutputMode::Table {
                    let pairs = check_pairs(&c, *metrics);
                    Output::Print(format_kv(&pairs))
                } else {
                    Output::AxiCheck {
                        http_body: axi_http_body(&c.http_body),
                        custom_headers: axi_custom_headers(&c.custom_headers),
                        hints: hint3(
                            concat("checks update ", token.as_str()),
                            concat("checks downtimes ", token.as_str()),
                            concat("checks metrics ", token.as_str()),
                        ),
                    }
                }
            },
            _ => Output::PrettyJson,
        },
        ChecksAction::Create { .. } => match reply {
            Reply::Check(c) => {
                let m = concat3("Check created: ", c.token.as_str(), " (");
                let m = concat3(m.as_str(), c.url.as_str(), ")");
                let hints = hint2(concat("checks get ", c.token.as_str()), String::from_str("checks list"));
                confirm(mode, m.as_str(), &hints)
            },
            _ => Output::PrettyJson,
        },
        ChecksAction::Update { .. } => match reply {
            Reply::Check(c) => {
                let m = concat3("Check updated: ", c.token.as_str(), " (");
                let m = concat3(m.as_str(), c.url.as_str(), ")");
                let hints = hint2(concat("checks get ", c.token.as_str()), String::from_str("checks list"));
                confirm(mode, m.as_str(), &hints)
            },
            _ => Output::PrettyJson,
        },
        ChecksAction::Delete { token } => {
            let m = concat("Deleted check ", token.as_str());
            confirm(mode, m.as_str(), &hint1(String::from_str("checks list")))
        },
        ChecksAction::Downtimes { token, .. } => match reply {
            Reply::Downtimes(ds) => {
                if mode == OutputMode::Table {
                    Output::Table(Rows::Downtimes(rows_of_downtimes(&ds, false)))
                } else {
                    Output::AxiList {
                        rows: Rows::Downtimes(rows_of_downtimes(&ds, true)),
                        resource: String::from_str("downtimes"),
                        aggregate: summarize_downtimes(&ds),
                        hints: hint2(
                            concat("checks get ", token.as_str()),
                            concat("checks metrics ", token.as_str()),
                        ),
                    }
                }
            },
            _ => Output::PrettyJson,
        },
        ChecksAction::Metrics { token, .. } => match reply {
            Reply::Metrics(apdex) => {
                let a = fixed4_or_dash_string(&apdex);
                Output::AxiJson {
                    prefix: concat3("summary: apdex: ", a.as_str(), "\n"),
                    hints: hint2(
                        concat("checks get ", token.as_str()),
                        concat("checks downtimes ", token.as_str()),
                    ),
                }
            },
            _ => Output::PrettyJson,
        },
    }
}

} // verus!
