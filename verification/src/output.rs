//! Output modes and the text layouts every command shares: AXI summaries, help
//! hints, structured errors, truncated fields and aligned key/value listings.

use vstd::prelude::*;
use vstd::string::*;
use crate::text::{
    digit_char, byte_len, char_width, decimal, decimal_string, join, join_strings, lemma_utf8_len_concat,
    lemma_utf8_len_take, lemma_utf8_len_take_mono, push_char, utf8_len, utf8_width, views,
};

verus! {

/// How a command renders what the API returned.
#[derive(Debug, Clone, Copy, PartialEq, Eq, Structural)]
pub enum OutputMode {
    /// Token-efficient text with a summary line and follow-up hints (the default).
    Axi,
    /// Columnar table output suitable for human reading.
    Table,
    /// Pretty-printed JSON suitable for piping or scripting.
    Json,
}

impl OutputMode {
    /// Converts the `--json` flag alone into a mode: JSON when set, a table otherwise.
    pub fn from_json_flag(json: bool) -> (m: OutputMode)
        ensures
            m == (if json { OutputMode::Json } else { OutputMode::Table }),
    {
        if json {
            OutputMode::Json
        } else {
            OutputMode::Table
        }
    }

    /// Chooses the mode from the `--json` and `--table` flags: `--json` wins, then
    /// `--table`, and with neither flag the mode is AXI.
    pub fn from_flags(json: bool, table: bool) -> (m: OutputMode)
        ensures
            m == (if json {
                OutputMode::Json
            } else if table {
                OutputMode::Table
            } else {
                OutputMode::Axi
            }),
    {
        if json {
            OutputMode::Json
        } else if table {
            OutputMode::Table
        } else {
            OutputMode::Axi
        }
    }
}

/// The widest AXI field, in bytes, before it is cut.
pub const AXI_FIELD_LIMIT: usize = 200;

/// The marker that replaces the cut part of a field: `...[N]`, N the field's byte length.
pub open spec fn truncation_suffix(total: nat) -> Seq<char> {
    seq!['.', '.', '.', '['] + decimal(total) + seq![']']
}

/// Number of character positions `0..i` of `s` whose first byte lies at or before
/// byte offset `keep`.
pub open spec fn starts_within(s: Seq<char>, keep: nat, i: nat) -> nat
    decreases i,
{
    if i == 0 {
        0
    } else {
        starts_within(s, keep, (i - 1) as nat) + (if utf8_len(s.take(i - 1)) <= keep { 1nat } else { 0nat })
    }
}

/// A field as AXI output shows it: unchanged when it fits in `max` bytes; otherwise
/// cut at the last character boundary that lies within `max` minus the length of the
/// marker, and followed by the marker `...[N]`.
pub open spec fn truncated(value: Seq<char>, max: nat) -> Seq<char> {
    let total = utf8_len(value);
    if total <= max {
        value
    } else {
        let suffix = truncation_suffix(total);
        let keep = (max - suffix.len()) as nat;
        value.take(starts_within(value, keep, value.len()) - 1) + suffix
    }
}

/// `truncate_field` can run: the field fits, or there is room for the marker.
pub open spec fn truncation_fits(value: Seq<char>, max: nat) -> bool {
    utf8_len(value) <= max || truncation_suffix(utf8_len(value)).len() <= max
}

/// Text made of ASCII characters has one byte per character.
pub proof fn lemma_ascii_len(s: Seq<char>)
    requires
        forall|i: int| 0 <= i < s.len() ==> (#[trigger] s[i] as u32) < 128,
    ensures
        utf8_len(s) == s.len(),
    decreases s.len(),
{
    if s.len() > 0 {
        lemma_ascii_len(s.drop_last());
    }
}

proof fn lemma_decimal_ascii(n: nat)
    ensures
        forall|i: int| 0 <= i < decimal(n).len() ==> (#[trigger] decimal(n)[i] as u32) < 128,
        decimal(n).len() >= 1,
    decreases n,
{
    if n >= 10 {
        lemma_decimal_ascii(n / 10);
    }
    let d = if n < 10 { n } else { n % 10 };
    assert((digit_char(d) as u32) < 128);
}

proof fn lemma_suffix_width(total: nat)
    ensures
        utf8_len(truncation_suffix(total)) == truncation_suffix(total).len(),
{
    lemma_decimal_ascii(total);
    lemma_ascii_len(truncation_suffix(total));
}

/// When the character at position `m` starts within `keep`, so do all before it.
proof fn lemma_starts_within_all(s: Seq<char>, keep: nat, m: nat)
    requires
        m < s.len(),
        utf8_len(s.take(m as int)) <= keep,
    ensures
        starts_within(s, keep, m + 1) == m + 1,
    decreases m,
{
    if m > 0 {
        lemma_utf8_len_take_mono(s, m - 1, m as int);
        lemma_starts_within_all(s, keep, (m - 1) as nat);
    } else {
        assert(s.take(0) =~= Seq::<char>::empty());
        assert(starts_within(s, keep, 0) == 0);
    }
    assert(starts_within(s, keep, m + 1) == starts_within(s, keep, m) + 1);
}

/// The last counted position starts within `keep`.
proof fn lemma_starts_within_last(s: Seq<char>, keep: nat, i: nat)
    requires
        i <= s.len(),
    ensures
        starts_within(s, keep, i) <= i,
        starts_within(s, keep, i) > 0 ==> utf8_len(s.take(starts_within(s, keep, i) - 1)) <= keep,
        i > 0 ==> starts_within(s, keep, i) > 0,
    decreases i,
{
    if i > 0 {
        lemma_starts_within_last(s, keep, (i - 1) as nat);
        if utf8_len(s.take(i - 1)) <= keep {
            lemma_starts_within_all(s, keep, (i - 1) as nat);
        }
        if i == 1 {
            assert(s.take(0) =~= Seq::<char>::empty());
        }
    }
}

/// Cuts an over-long field for AXI output, keeping its length in the marker.
pub fn truncate_field(value: &str, max: usize) -> (r: String)
    requires
        truncation_fits(value@, max as nat),
    ensures
        r@ == truncated(value@, max as nat),
{
    let total = byte_len(value);
    if total <= max {
        return String::from_str(value);
    }
    let mut suffix = String::from_str("...[");
    proof {
        reveal_strlit("...[");
    }
    let digits = decimal_string(total as u64);
    suffix.append(digits.as_str());
    push_char(&mut suffix, ']');
    assert(suffix@ =~= truncation_suffix(total as nat));
    let suffix_len = suffix.unicode_len();
    let keep = max - suffix_len;
    let n = value.unicode_len();
    let mut i: usize = 0;
    let mut offset: usize = 0;
    let mut count: usize = 0;
    assert(value@.take(0) =~= Seq::<char>::empty());
    while i < n
        invariant
            n == value@.len(),
            i <= n,
            offset == utf8_len(value@.take(i as int)),
            offset <= total,
            total == utf8_len(value@),
            count == starts_within(value@, keep as nat, i as nat),
            count <= i,
        decreases n - i,
    {
        if offset <= keep {
            count = count + 1;
        }
        let c = value.get_char(i);
        proof {
            lemma_utf8_len_take(value@, i as int);
            lemma_utf8_len_take_mono(value@, i + 1, n as int);
            assert(value@.take(n as int) =~= value@);
        }
        offset = offset + char_width(c);
        i = i + 1;
    }
    proof {
        lemma_starts_within_last(value@, keep as nat, n as nat);
    }
    let head = value.substring_char(0, count - 1);
    let mut r = String::from_str(head);
    r.append(suffix.as_str());
    r
}

/// Cutting a field never leaves it longer than `max` bytes, and a field that already
/// fits is left as it is.
pub proof fn law_truncated_fits(value: Seq<char>, max: nat)
    requires
        truncation_fits(value, max),
    ensures
        utf8_len(truncated(value, max)) <= max,
        utf8_len(value) <= max ==> truncated(value, max) == value,
{
    let total = utf8_len(value);
    if total > max {
        let suffix = truncation_suffix(total);
        let keep = (max - suffix.len()) as nat;
        lemma_starts_within_last(value, keep, value.len());
        let k = starts_within(value, keep, value.len()) - 1;
        lemma_utf8_len_concat(value.take(k), suffix);
        lemma_suffix_width(total);
    }
}

/// A field too long for `max` bytes becomes a prefix of itself followed by the
/// marker `...[N]`, N being the field's whole byte length.
pub proof fn law_truncated_shape(value: Seq<char>, max: nat)
    requires
        truncation_fits(value, max),
        utf8_len(value) > max,
    ensures
        exists|k: int| 0 <= k <= value.len()
            && truncated(value, max) == value.take(k) + "...["@ + decimal(utf8_len(value)) + "]"@,
{
    reveal_strlit("...[");
    reveal_strlit("]");
    let total = utf8_len(value);
    let suffix = truncation_suffix(total);
    let keep = (max - suffix.len()) as nat;
    lemma_starts_within_last(value, keep, value.len());
    let k = starts_within(value, keep, value.len()) - 1;
    assert(suffix =~= "...["@ + decimal(total) + "]"@);
    assert(truncated(value, max) =~= value.take(k) + "...["@ + decimal(total) + "]"@);
}

/// The `help[...]` block listing follow-up commands; empty when there are none.
pub open spec fn help_block(hints: Seq<Seq<char>>) -> Seq<char> {
    if hints.len() == 0 {
        Seq::empty()
    } else {
        "help["@ + join(hints, ", "@) + "]"@
    }
}

/// `text` followed by a line break unless it already ends with one.
pub open spec fn with_line_end(text: Seq<char>) -> Seq<char> {
    if text.len() > 0 && text.last() == '\n' {
        text
    } else {
        text.push('\n')
    }
}

fn help(hints: &Vec<String>) -> (r: String)
    ensures
        r@ == help_block(views(hints@)),
{
    if hints.len() == 0 {
        String::new()
    } else {
        let mut r = String::from_str("help[");
        let joined = join_strings(hints, ", ");
        r.append(joined.as_str());
        r.append("]");
        r
    }
}

/// Appends `text` and, unless it already ends with one, a line break.
pub fn append_line_end(out: &mut String, text: &str)
    ensures
        final(out)@ == old(out)@ + with_line_end(text@),
{
    out.append(text);
    let n = text.unicode_len();
    if n == 0 || text.get_char(n - 1) != '\n' {
        push_char(out, '\n');
    }
}

/// The rows as AXI output shows them: their encoding, ending with a line break;
/// `NAME[N]: <encoding error>` when they could not be encoded.
pub open spec fn encoded_rows_text(encoded_rows: Option<Seq<char>>, resource_name: Seq<char>, item_count: nat) -> Seq<char> {
    match encoded_rows {
        Some(e) => with_line_end(e),
        None => resource_name + "["@ + decimal(item_count) + "]: <encoding error>\n"@,
    }
}

/// AXI list output: the summary line; then the encoded rows, or `NAME[0]:` when there
/// are none; then the help block.
pub open spec fn axi_list_text(
    encoded_rows: Option<Seq<char>>,
    resource_name: Seq<char>,
    item_count: nat,
    aggregate: Seq<char>,
    hints: Seq<Seq<char>>,
) -> Seq<char> {
    "summary: "@ + aggregate + "\n"@ + (if item_count == 0 {
        resource_name + "[0]:\n"@
    } else {
        encoded_rows_text(encoded_rows, resource_name, item_count)
    }) + help_block(hints)
}

/// The view of an optional string slice.
pub open spec fn opt_str_view(o: Option<&str>) -> Option<Seq<char>> {
    match o {
        Some(s) => Some(s@),
        None => None,
    }
}

/// Lays out a list for AXI output around its encoded rows (`None` when the rows
/// could not be encoded).
pub fn format_axi_list(
    encoded_rows: Option<&str>,
    resource_name: &str,
    item_count: usize,
    aggregate: &str,
    hints: &Vec<String>,
) -> (r: String)
    ensures
        r@ == axi_list_text(opt_str_view(encoded_rows), resource_name@, item_count as nat, aggregate@, views(hints@)),
{
    let mut out = String::from_str("summary: ");
    out.append(aggregate);
    out.append("\n");
    if item_count == 0 {
        out.append(resource_name);
        out.append("[0]:\n");
    } else {
        match encoded_rows {
            Some(e) => append_line_end(&mut out, e),
            None => {
                out.append(resource_name);
                out.append("[");
                let n = decimal_string(item_count as u64);
                out.append(n.as_str());
                out.append("]: <encoding error>\n");
            },
        }
    }
    let h = help(hints);
    out.append(h.as_str());
    out
}

/// AXI detail output: the encoded item (or `<encoding error>` when it could not be
/// encoded), ending with a line break, then the help block.
pub open spec fn axi_detail_text(encoded_item: Option<Seq<char>>, hints: Seq<Seq<char>>) -> Seq<char> {
    with_line_end(
        match encoded_item {
            Some(e) => e,
            None => "<encoding error>"@,
        },
    ) + help_block(hints)
}

/// Lays out a single item for AXI output around its encoding.
pub fn format_axi_detail(encoded_item: Option<&str>, hints: &Vec<String>) -> (r: String)
    ensures
        r@ == axi_detail_text(opt_str_view(encoded_item), views(hints@)),
{
    let mut out = String::new();
    match encoded_item {
        Some(e) => append_line_end(&mut out, e),
        None => append_line_end(&mut out, "<encoding error>"),
    }
    let h = help(hints);
    out.append(h.as_str());
    out
}

/// The help block is empty without hints, and otherwise lists them in order,
/// separated by `, `, inside `help[` and `]`. An AXI list always starts with its
/// summary line and, when it has no rows, shows `NAME[0]:` in their place.
pub proof fn law_axi_layout(hints: Seq<Seq<char>>, encoded_rows: Option<Seq<char>>, resource_name: Seq<char>, aggregate: Seq<char>)
    ensures
        hints.len() == 0 ==> help_block(hints) == Seq::<char>::empty(),
        hints.len() > 0 ==> help_block(hints) == "help["@ + join(hints, ", "@) + "]"@,
        axi_list_text(encoded_rows, resource_name, 0, aggregate, hints)
            == "summary: "@ + aggregate + "\n"@ + resource_name + "[0]:\n"@ + help_block(hints),
{
}

/// AXI confirmation: the message on its own line, then the help block.
pub open spec fn axi_confirm_text(message: Seq<char>, hints: Seq<Seq<char>>) -> Seq<char> {
    message + "\n"@ + help_block(hints)
}

/// Lays out the confirmation of a create, update or delete for AXI output.
pub fn format_axi_confirm(message: &str, hints: &Vec<String>) -> (r: String)
    ensures
        r@ == axi_confirm_text(message@, views(hints@)),
{
    let mut out = String::from_str(message);
    out.append("\n");
    let h = help(hints);
    out.append(h.as_str());
    out
}

/// AXI error output: a one-row `error{code,message}` table.
pub open spec fn axi_error_text(code: u16, message: Seq<char>) -> Seq<char> {
    "error{code,message}:\n  "@ + decimal(code as nat) + ","@ + message
}

/// Lays out a known API error for AXI output (written to standard output).
pub fn format_axi_error(code: u16, message: &str) -> (r: String)
    ensures
        r@ == axi_error_text(code, message@),
{
    let mut out = String::from_str("error{code,message}:\n  ");
    let digits = decimal_string(code as u64);
    out.append(digits.as_str());
    out.append(",");
    out.append(message);
    out
}

/// A table as printed: `No results.` when it has no rows, else the drawn table; a
/// line break follows either.
pub open spec fn table_text(row_count: nat, drawn: Seq<char>) -> Seq<char> {
    if row_count == 0 {
        "No results.\n"@
    } else {
        drawn + "\n"@
    }
}

/// Lays out a table of `row_count` rows that the caller has drawn as `drawn`.
pub fn format_table(row_count: usize, drawn: &str) -> (r: String)
    ensures
        r@ == table_text(row_count as nat, drawn@),
{
    if row_count == 0 {
        String::from_str("No results.\n")
    } else {
        let mut r = String::from_str(drawn);
        r.append("\n");
        r
    }
}

/// The byte length of the longest key, 0 when there are no pairs.
pub open spec fn widest_key(pairs: Seq<(Seq<char>, Seq<char>)>) -> nat
    decreases pairs.len(),
{
    if pairs.len() == 0 {
        0
    } else {
        let w = widest_key(pairs.drop_last());
        let k = utf8_len(pairs.last().0);
        if k > w { k } else { w }
    }
}

/// `n` spaces.
pub open spec fn spaces(n: nat) -> Seq<char> {
    Seq::new(n, |i: int| ' ')
}

/// One `key:  value` line with the key right-aligned to `width`, padded as
/// `{:>width$}` pads: by the number of characters the key is short.
pub open spec fn kv_line(key: Seq<char>, value: Seq<char>, width: nat) -> Seq<char> {
    let pad = if width > key.len() { (width - key.len()) as nat } else { 0 };
    spaces(pad) + key + ":  "@ + value + "\n"@
}

/// The lines for `pairs`, all keys aligned to `width`.
pub open spec fn kv_lines(pairs: Seq<(Seq<char>, Seq<char>)>, width: nat) -> Seq<char>
    decreases pairs.len(),
{
    if pairs.len() == 0 {
        Seq::empty()
    } else {
        kv_lines(pairs.drop_last(), width) + kv_line(pairs.last().0, pairs.last().1, width)
    }
}

/// The views of key/value pairs.
pub open spec fn pair_views(pairs: Seq<(String, String)>) -> Seq<(Seq<char>, Seq<char>)> {
    pairs.map_values(|p: (String, String)| (p.0@, p.1@))
}

/// Key/value pairs in aligned `key:  value` lines, keys right-aligned to the longest.
pub fn format_kv(pairs: &Vec<(String, String)>) -> (r: String)
    ensures
        r@ == kv_lines(pair_views(pairs@), widest_key(pair_views(pairs@))),
{
    let ghost pv = pair_views(pairs@);
    let mut width: usize = 0;
    let mut i: usize = 0;
    while i < pairs.len()
        invariant
            i <= pairs@.len(),
            pv == pair_views(pairs@),
            width == widest_key(pv.take(i as int)),
        decreases pairs@.len() - i,
    {
        proof {
            assert(pv.take(i + 1).drop_last() =~= pv.take(i as int));
        }
        let k = byte_len(pairs[i].0.as_str());
        if k > width {
            width = k;
        }
        i = i + 1;
    }
    assert(pv.take(pairs@.len() as int) =~= pv);
    let mut out = String::new();
    let mut j: usize = 0;
    while j < pairs.len()
        invariant
            j <= pairs@.len(),
            pv == pair_views(pairs@),
            width == widest_key(pv),
            out@ == kv_lines(pv.take(j as int), width as nat),
        decreases pairs@.len() - j,
    {
        let key = pairs[j].0.as_str();
        let klen = key.unicode_len();
        if width > klen {
            let pad = width - klen;
            let mut p: usize = 0;
            let ghost start = out@;
            while p < pad
                invariant
                    p <= pad,
                    out@ == start + spaces(p as nat),
                decreases pad - p,
            {
                push_char(&mut out, ' ');
                p = p + 1;
                proof {
                    assert(spaces(p as nat) =~= spaces((p - 1) as nat).push(' '));
                }
            }
        }
        out.append(key);
        out.append(":  ");
        out.append(pairs[j].1.as_str());
        out.append("\n");
        proof {
            assert(pv.take(j + 1).drop_last() =~= pv.take(j as int));
            assert(spaces(0) =~= Seq::<char>::empty());
        }
        j = j + 1;
    }
    out
}

} // verus!
