//! Check model — the primary monitoring resource in updown.io.

use vstd::prelude::*;
use vstd::string::*;
use crate::json::JsonValue;
use crate::models::common::{
    clone_opt, or_dash, seconds_or_dash, seconds_or_dash_string, text_or_dash,
};

verus! {

/// A floating-point number from the API as the library holds it: its IEEE 754
/// bits, which order readings as the numbers order, and its renderings to two and
/// to four decimal places (as `{:.2}` and `{:.4}` print it). The three fields
/// describe the same number; whoever decodes the API's JSON fills them in, since
/// the library does no floating-point arithmetic.
pub struct Reading {
    /// `f64::to_bits` of the number.
    pub bits: u64,
    /// The number printed with two decimals, e.g. `99.97`.
    pub fixed2: String,
    /// The number printed with four decimals, e.g. `0.9500`.
    pub fixed4: String,
}

/// The bit pattern of negative zero.
pub const NEGATIVE_ZERO_BITS: u64 = 0x8000_0000_0000_0000;

/// The bits are a NaN: all exponent bits set and a non-zero fraction.
pub open spec fn is_nan_bits(b: u64) -> bool {
    (b & 0x7ff0_0000_0000_0000) == 0x7ff0_0000_0000_0000 && (b & 0x000f_ffff_ffff_ffff) != 0
}

/// A key that orders non-NaN doubles as the numbers order, with both zeros equal.
pub open spec fn order_key(b: u64) -> u64 {
    let c = if b == NEGATIVE_ZERO_BITS { 0u64 } else { b };
    if (c & NEGATIVE_ZERO_BITS) != 0 {
        !c
    } else {
        c | NEGATIVE_ZERO_BITS
    }
}

/// `a > b` as `f64::partial_cmp` decides it: false whenever either is NaN.
pub open spec fn reading_greater(a: Reading, b: Reading) -> bool {
    !is_nan_bits(a.bits) && !is_nan_bits(b.bits) && order_key(a.bits) > order_key(b.bits)
}

/// Compares two readings as `a.partial_cmp(b) == Some(Greater)`.
pub fn greater(a: &Reading, b: &Reading) -> (r: bool)
    ensures
        r == reading_greater(*a, *b),
{
    let x = a.bits;
    let y = b.bits;
    let x_nan = (x & 0x7ff0_0000_0000_0000) == 0x7ff0_0000_0000_0000 && (x & 0x000f_ffff_ffff_ffff) != 0;
    let y_nan = (y & 0x7ff0_0000_0000_0000) == 0x7ff0_0000_0000_0000 && (y & 0x000f_ffff_ffff_ffff) != 0;
    if x_nan || y_nan {
        return false;
    }
    let cx = if x == NEGATIVE_ZERO_BITS { 0u64 } else { x };
    let cy = if y == NEGATIVE_ZERO_BITS { 0u64 } else { y };
    let kx = if (cx & NEGATIVE_ZERO_BITS) != 0 { !cx } else { cx | NEGATIVE_ZERO_BITS };
    let ky = if (cy & NEGATIVE_ZERO_BITS) != 0 { !cy } else { cy | NEGATIVE_ZERO_BITS };
    kx > ky
}

impl Reading {
    /// A copy of the reading.
    pub fn duplicate(&self) -> (r: Reading)
        ensures
            r == *self,
    {
        Reading { bits: self.bits, fixed2: self.fixed2.clone(), fixed4: self.fixed4.clone() }
    }
}

/// A monitoring check as returned by the updown.io API.
///
/// Checks poll a URL (or host, for ICMP/TCP) at a configurable interval and
/// record uptime, response codes, and Apdex scores. Most fields are optional
/// because the API omits them when they are not applicable.
pub struct Check {
    /// Unique check identifier used in all API paths.
    pub token: String,
    /// The URL (or host) being monitored.
    pub url: String,
    /// Optional human-readable label for the check.
    pub alias: Option<String>,
    /// HTTP status code from the most recent probe.
    pub last_status: Option<u16>,
    /// Rolling uptime percentage (0–100).
    pub uptime: Option<Reading>,
    /// `true` when the check is currently reporting a failure.
    pub down: Option<bool>,
    /// Polling interval in seconds.
    pub period: Option<u32>,
    /// Apdex satisfaction threshold in seconds.
    pub apdex_t: Option<Reading>,
    /// Whether the check is actively polling.
    pub enabled: Option<bool>,
    /// Whether the check appears on public status pages.
    pub published: Option<bool>,
    /// Substring that must appear in the response body for the check to pass.
    pub string_match: Option<String>,
    /// ISO 8601 timestamp or `"recovery"` — alerts are suppressed until this time.
    pub mute_until: Option<String>,
    /// HTTP verb used for the request (e.g. `"GET/HEAD"`, `"POST"`).
    pub http_verb: Option<String>,
    /// Request body sent with POST/PUT probes.
    pub http_body: Option<String>,
    /// Check type: `https`, `http`, `icmp`, `pulse`, `tcp`, or `tcps` (the API's `type`).
    pub check_type: Option<String>,
    /// Node location codes excluded from probing (e.g. `["fra", "sin"]`).
    pub disabled_locations: Option<Vec<String>>,
    /// Alert recipients attached to this check.
    pub recipients: Option<Vec<JsonValue>>,
    /// Custom HTTP headers sent with each probe, as a JSON object: its compact
    /// JSON text, held as [`JsonValue::Raw`].
    pub custom_headers: Option<JsonValue>,
    /// Aggregated metrics, present only when requested via `?metrics=true`.
    pub metrics: Option<CheckMetrics>,
}

/// Aggregated performance metrics for a check, returned when `?metrics=true` is set.
pub struct CheckMetrics {
    /// Overall Apdex score for the requested period.
    pub apdex: Option<Reading>,
    /// Breakdown of response time components (DNS, connect, TLS, etc.).
    pub timings: Option<JsonValue>,
    /// Request counts and error rates for the requested period.
    pub requests: Option<JsonValue>,
}

/// Flattened, display-ready representation of a [`Check`] for table output.
pub struct CheckRow {
    pub token: String,
    /// `"up"` or `"down"` derived from [`Check::down`].
    pub status: String,
    pub url: String,
    /// Formatted as `"99.97%"`, or `"-"` when not yet available.
    pub uptime: String,
    /// Apdex threshold formatted to two decimal places, or `"-"`.
    pub apdex: String,
    /// Polling interval formatted as `"60s"`, or `"-"`.
    pub period: String,
}

/// `down` or `up`: a check is down only when the API says so.
pub open spec fn status_word(down: Option<bool>) -> Seq<char> {
    if down == Some(true) { "down"@ } else { "up"@ }
}

/// An optional reading with two decimals and a trailing `suffix`, or `-`.
pub open spec fn fixed2_or_dash(r: Option<Reading>, suffix: Seq<char>) -> Seq<char> {
    match r {
        Some(x) => x.fixed2@ + suffix,
        None => "-"@,
    }
}

/// An optional reading with four decimals, or `-`.
pub open spec fn fixed4_or_dash(r: Option<Reading>) -> Seq<char> {
    match r {
        Some(x) => x.fixed4@,
        None => "-"@,
    }
}

/// The optional period as a number of seconds.
pub open spec fn period_secs(p: Option<u32>) -> Option<u64> {
    match p {
        Some(n) => Some(n as u64),
        None => None,
    }
}

/// `down` or `up`.
pub fn status_string(down: Option<bool>) -> (r: String)
    ensures
        r@ == status_word(down),
{
    match down {
        Some(true) => String::from_str("down"),
        _ => String::from_str("up"),
    }
}

/// An optional reading with two decimals and `suffix`, or `-`.
pub fn fixed2_or_dash_string(r: &Option<Reading>, suffix: &str) -> (s: String)
    ensures
        s@ == fixed2_or_dash(*r, suffix@),
{
    match r {
        Some(x) => {
            let mut s = x.fixed2.clone();
            s.append(suffix);
            s
        },
        None => String::from_str("-"),
    }
}

/// An optional reading with four decimals, or `-`.
pub fn fixed4_or_dash_string(r: &Option<Reading>) -> (s: String)
    ensures
        s@ == fixed4_or_dash(*r),
{
    match r {
        Some(x) => x.fixed4.clone(),
        None => String::from_str("-"),
    }
}

/// An optional period as `60s`, or `-`.
pub fn period_string(p: Option<u32>) -> (s: String)
    ensures
        s@ == seconds_or_dash(period_secs(p)),
{
    match p {
        Some(n) => seconds_or_dash_string(Some(n as u64)),
        None => seconds_or_dash_string(None),
    }
}

/// The row for check `c`: status from `down`, uptime as `99.97%`, Apdex threshold
/// with two decimals, period as `60s`, and `-` for whatever is absent.
pub open spec fn check_row_of(c: Check, r: CheckRow) -> bool {
    &&& r.token@ == c.token@
    &&& r.status@ == status_word(c.down)
    &&& r.url@ == c.url@
    &&& r.uptime@ == fixed2_or_dash(c.uptime, "%"@)
    &&& r.apdex@ == fixed2_or_dash(c.apdex_t, ""@)
    &&& r.period@ == seconds_or_dash(period_secs(c.period))
}

impl CheckRow {
    /// Flattens a check into its table row.
    pub fn from(c: &Check) -> (r: CheckRow)
        ensures
            check_row_of(*c, r),
    {
        CheckRow {
            token: c.token.clone(),
            status: status_string(c.down),
            url: c.url.clone(),
            uptime: fixed2_or_dash_string(&c.uptime, "%"),
            apdex: fixed2_or_dash_string(&c.apdex_t, ""),
            period: period_string(c.period),
        }
    }
}

/// A single downtime event recorded by updown.io for a check.
pub struct Downtime {
    /// Unique identifier for this downtime event.
    pub id: String,
    /// Human-readable description of the failure (e.g. `"Connection refused"`).
    pub error: Option<String>,
    /// ISO 8601 timestamp when the downtime began.
    pub started_at: Option<String>,
    /// ISO 8601 timestamp when the check recovered. `None` if still down.
    pub ended_at: Option<String>,
    /// Duration of the outage in seconds.
    pub duration: Option<u64>,
}

/// Flattened, display-ready representation of a [`Downtime`] for table output.
pub struct DowntimeRow {
    pub id: String,
    pub error: String,
    pub started_at: String,
    pub ended_at: String,
    /// Duration formatted as `"3600s"`, or `"-"` when still ongoing.
    pub duration: String,
}

/// The row for downtime `d`, with `-` for whatever is absent.
pub open spec fn downtime_row_of(d: Downtime, r: DowntimeRow) -> bool {
    &&& r.id@ == d.id@
    &&& r.error@ == text_or_dash(d.error)
    &&& r.started_at@ == text_or_dash(d.started_at)
    &&& r.ended_at@ == text_or_dash(d.ended_at)
    &&& r.duration@ == seconds_or_dash(d.duration)
}

impl DowntimeRow {
    /// Flattens a downtime into its table row.
    pub fn from(d: &Downtime) -> (r: DowntimeRow)
        ensures
            downtime_row_of(*d, r),
    {
        DowntimeRow {
            id: d.id.clone(),
            error: or_dash(&d.error),
            started_at: or_dash(&d.started_at),
            ended_at: or_dash(&d.ended_at),
            duration: seconds_or_dash_string(d.duration),
        }
    }
}

impl Downtime {
    /// A copy of the downtime.
    pub fn duplicate(&self) -> (r: Downtime)
        ensures
            r == *self,
    {
        Downtime {
            id: self.id.clone(),
            error: clone_opt(&self.error),
            started_at: clone_opt(&self.started_at),
            ended_at: clone_opt(&self.ended_at),
            duration: self.duration,
        }
    }
}

/// A check reads as down only when the API reports `down: true`; absent or false,
/// it reads as up, and the two words differ.
pub proof fn law_status_word(down: Option<bool>)
    ensures
        down == Some(true) ==> status_word(down) == "down"@,
        down != Some(true) ==> status_word(down) == "up"@,
        "down"@ != "up"@,
{
    reveal_strlit("down");
    reveal_strlit("up");
    assert("down"@.len() != "up"@.len());
}

} // verus!
