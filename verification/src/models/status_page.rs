//! Status page model — public-facing uptime dashboards in updown.io.

use vstd::prelude::*;
use vstd::string::*;
use crate::models::common::{or_dash, text_or_dash};
use crate::text::{join, join_strings, views};

verus! {

/// A status page as returned by the updown.io API.
///
/// Status pages aggregate one or more checks into a publicly shareable
/// uptime dashboard. Visibility can be `"public"`, `"protected"` (access key
/// required), or `"private"`.
pub struct StatusPage {
    /// Unique status page identifier used in all API paths.
    pub token: String,
    /// Public URL of the rendered status page.
    pub url: Option<String>,
    /// Display name shown on the status page.
    pub name: Option<String>,
    /// Optional description rendered below the page title.
    pub description: Option<String>,
    /// Access level: `"public"`, `"protected"`, or `"private"`.
    pub visibility: Option<String>,
    /// Tokens of the checks displayed on this page.
    pub checks: Option<Vec<String>>,
}

/// Flattened, display-ready representation of a [`StatusPage`] for table output.
pub struct StatusPageRow {
    pub token: String,
    pub name: String,
    pub visibility: String,
    pub url: String,
    /// Comma-separated list of check tokens.
    pub checks: String,
}

/// The check tokens joined with `, `, or `-` when the page lists none.
pub open spec fn checks_text(c: Option<Vec<String>>) -> Seq<char> {
    match c {
        Some(v) => join(views(v@), ", "@),
        None => "-"@,
    }
}

/// The row for status page `sp`, with `-` for whatever is absent.
pub open spec fn status_page_row_of(sp: StatusPage, r: StatusPageRow) -> bool {
    &&& r.token@ == sp.token@
    &&& r.name@ == text_or_dash(sp.name)
    &&& r.visibility@ == text_or_dash(sp.visibility)
    &&& r.url@ == text_or_dash(sp.url)
    &&& r.checks@ == checks_text(sp.checks)
}

impl StatusPageRow {
    /// Flattens a status page into its table row.
    pub fn from(sp: &StatusPage) -> (r: StatusPageRow)
        ensures
            status_page_row_of(*sp, r),
    {
        let checks = match &sp.checks {
            Some(c) => join_strings(c, ", "),
            None => String::from_str("-"),
        };
        StatusPageRow {
            token: sp.token.clone(),
            name: or_dash(&sp.name),
            visibility: or_dash(&sp.visibility),
            url: or_dash(&sp.url),
            checks,
        }
    }
}

} // verus!
