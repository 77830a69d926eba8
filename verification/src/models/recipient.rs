//! Recipient model — alert notification targets in updown.io.

use vstd::prelude::*;
use crate::models::common::{flag_or_dash, flag_or_dash_string, law_flag_text, or_dash, text_or_dash};

verus! {

/// An alert recipient as returned by the updown.io API.
///
/// Recipients receive notifications when a check goes down or recovers.
/// Supported types include `email`, `sms`, `webhook`, `slack_compatible`,
/// and `msteams`.
pub struct Recipient {
    /// Unique recipient identifier.
    pub id: String,
    /// Notification channel type (e.g. `"email"`, `"webhook"`; the API's `type`).
    pub recipient_type: String,
    /// Optional display name for the recipient.
    pub name: Option<String>,
    /// The notification target: email address, phone number, or URL depending on type.
    pub value: Option<String>,
    /// Whether this recipient is auto-selected when creating new checks.
    pub selected: Option<bool>,
}

/// Flattened, display-ready representation of a [`Recipient`] for table output.
pub struct RecipientRow {
    pub id: String,
    pub recipient_type: String,
    pub name: String,
    pub value: String,
    pub selected: String,
}

/// The row for recipient `r`, with `-` for whatever is absent.
pub open spec fn recipient_row_of(r: Recipient, row: RecipientRow) -> bool {
    &&& row.id@ == r.id@
    &&& row.recipient_type@ == r.recipient_type@
    &&& row.name@ == text_or_dash(r.name)
    &&& row.value@ == text_or_dash(r.value)
    &&& row.selected@ == flag_or_dash(r.selected)
}

impl RecipientRow {
    /// Flattens a recipient into its table row.
    pub fn from(r: &Recipient) -> (row: RecipientRow)
        ensures
            recipient_row_of(*r, row),
    {
        RecipientRow {
            id: r.id.clone(),
            recipient_type: r.recipient_type.clone(),
            name: or_dash(&r.name),
            value: or_dash(&r.value),
            selected: flag_or_dash_string(r.selected),
        }
    }
}

/// A recipient row shows whether the recipient is selected as the API says: its
/// selected column reads `false` exactly when the recipient is not selected,
/// `true` exactly when it is, and `-` when the API does not say.
pub proof fn law_recipient_row_selected(r: Recipient, row: RecipientRow)
    requires
        recipient_row_of(r, row),
    ensures
        row.selected@ == "false"@ <==> r.selected == Some(false),
        row.selected@ == "true"@ <==> r.selected == Some(true),
        row.selected@ == "-"@ <==> r.selected is None,
{
    law_flag_text(true);
    law_flag_text(false);
    reveal_strlit("true");
    reveal_strlit("false");
    reveal_strlit("-");
}

} // verus!
