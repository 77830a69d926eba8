//! Small renderings the row types share.

use vstd::prelude::*;
use vstd::string::*;
use crate::text::{decimal, decimal_string};

verus! {

/// The view of an optional string.
pub open spec fn opt_view(o: Option<String>) -> Option<Seq<char>> {
    match o {
        Some(s) => Some(s@),
        None => None,
    }
}

/// The text of an optional field, or `-` when it is absent.
pub open spec fn text_or_dash(o: Option<String>) -> Seq<char> {
    match o {
        Some(s) => s@,
        None => "-"@,
    }
}

/// The text of an optional field, or `-` when it is absent.
pub fn or_dash(o: &Option<String>) -> (r: String)
    ensures
        r@ == text_or_dash(*o),
{
    match o {
        Some(s) => s.clone(),
        None => String::from_str("-"),
    }
}

/// How `bool::to_string` writes a flag.
pub open spec fn bool_text(b: bool) -> Seq<char> {
    if b { "true"@ } else { "false"@ }
}

/// Writes a flag as `bool::to_string` does.
pub fn bool_string(b: bool) -> (r: String)
    ensures
        r@ == bool_text(b),
{
    if b {
        String::from_str("true")
    } else {
        String::from_str("false")
    }
}

/// An optional flag as text, or `-` when it is absent.
pub open spec fn flag_or_dash(o: Option<bool>) -> Seq<char> {
    match o {
        Some(b) => bool_text(b),
        None => "-"@,
    }
}

/// An optional flag as text, or `-` when it is absent.
pub fn flag_or_dash_string(o: Option<bool>) -> (r: String)
    ensures
        r@ == flag_or_dash(o),
{
    match o {
        Some(b) => bool_string(b),
        None => String::from_str("-"),
    }
}

/// A number of seconds as `60s`, or `-` when it is absent.
pub open spec fn seconds_or_dash(o: Option<u64>) -> Seq<char> {
    match o {
        Some(n) => decimal(n as nat) + "s"@,
        None => "-"@,
    }
}

/// A number of seconds as `60s`, or `-` when it is absent.
pub fn seconds_or_dash_string(o: Option<u64>) -> (r: String)
    ensures
        r@ == seconds_or_dash(o),
{
    match o {
        Some(n) => {
            let mut s = decimal_string(n);
            s.append("s");
            s
        },
        None => String::from_str("-"),
    }
}

/// A copy of an optional string.
pub fn clone_opt(o: &Option<String>) -> (r: Option<String>)
    ensures
        r == *o,
{
    match o {
        Some(s) => Some(s.clone()),
        None => None,
    }
}

/// A present flag reads `true` or `false` as its value says, an absent one `-`; so
/// the two values of a flag never read alike.
pub proof fn law_flag_text(b: bool)
    ensures
        flag_or_dash(Some(b)) == (if b { "true"@ } else { "false"@ }),
        flag_or_dash(None) == "-"@,
        flag_or_dash(Some(true)) != flag_or_dash(Some(false)),
        flag_or_dash(Some(b)) != flag_or_dash(None),
{
    reveal_strlit("true");
    reveal_strlit("false");
    reveal_strlit("-");
    assert("true"@.len() != "false"@.len());
}

/// An optional field reads as its text when present and as `-` when absent.
pub proof fn law_text_or_dash(o: Option<String>)
    ensures
        o matches Some(s) ==> text_or_dash(o) == s@,
        o is None ==> text_or_dash(o) == "-"@,
{
}

/// A number of seconds reads as its decimal numeral followed by `s`; absent, as `-`.
pub proof fn law_seconds_text(o: Option<u64>)
    ensures
        o matches Some(n) ==> seconds_or_dash(o) == decimal(n as nat) + "s"@,
        o is None ==> seconds_or_dash(o) == "-"@,
{
}

} // verus!
