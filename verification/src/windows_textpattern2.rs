//! Caret and selection evidence from UI Automation TextPattern2: whether an
//! element may be inspected at all, how many selection ranges are read, how
//! their text is summarized, and the evidence lines. A password field's text
//! is never requested, and selected text appears only with the
//! sensitive-text opt-in.
use vstd::prelude::*;
use vstd::string::StringExecFns;

use crate::presentation::{join_seq, join_tokens};
use crate::text::{int_decimal, nat_decimal, owned, push_i64_decimal, push_u64_decimal};
use crate::windows_diagnostics::{one_line, one_line_seq, redacted_seq, text};

verus! {

/// Most selection ranges whose text is read.
pub const MAX_SELECTION_RANGES_READ: i32 = 8;
/// Most characters read from one selection range.
pub const MAX_SELECTION_RANGE_CHARS: i32 = 512;

/// The reported number of selection ranges: negative counts read as none.
pub fn selection_range_count(length: i32) -> (r: i32)
    ensures
        r == (if length < 0 {
            0
        } else {
            length
        }),
{
    if length < 0 {
        0
    } else {
        length
    }
}

/// How many of the reported ranges are read.
pub fn selection_ranges_to_read(count: i32) -> (r: i32)
    ensures
        r == (if count < 0 {
            0
        } else if count > MAX_SELECTION_RANGES_READ {
            MAX_SELECTION_RANGES_READ
        } else {
            count
        }),
        0 <= r <= MAX_SELECTION_RANGES_READ,
{
    if count < 0 {
        0
    } else if count > MAX_SELECTION_RANGES_READ {
        MAX_SELECTION_RANGES_READ
    } else {
        count
    }
}

/// What the inspection of a focused text element may do.
#[derive(Debug, Clone, Copy, PartialEq, Eq, Structural)]
pub enum SelectionPlan {
    /// A password field: only the redacted evidence line is written, and no
    /// TextPattern2 interface is requested.
    Protected,
    /// Any other element: caret and selection are read through TextPattern2.
    Inspect,
}

/// `IsPassword` decides before any TextPattern2 request.
pub fn selection_plan(is_password: bool) -> (r: SelectionPlan)
    ensures
        r == (if is_password {
            SelectionPlan::Protected
        } else {
            SelectionPlan::Inspect
        }),
{
    if is_password {
        SelectionPlan::Protected
    } else {
        SelectionPlan::Inspect
    }
}

/// Adds a selection range's text unless it is empty.
pub fn push_selection_part(parts: &mut Vec<String>, range_text: &str)
    ensures
        final(parts).deep_view() == (if range_text@.len() == 0 {
            old(parts).deep_view()
        } else {
            old(parts).deep_view().push(range_text@)
        }),
{
    if !range_text.is_empty() {
        let ghost before = parts.deep_view();
        parts.push(owned(range_text));
        assert(parts.deep_view() =~= before.push(range_text@));
    }
}

/// Every part flattened to one line.
pub open spec fn one_line_parts(parts: Seq<Seq<char>>) -> Seq<Seq<char>> {
    parts.map_values(|p: Seq<char>| one_line_seq(p))
}

/// The selection summary of an evidence line: `<none>` without selected
/// text; with the sensitive-text opt-in, the parts flattened to one line and
/// joined by ` || `; without it, only the length of the selected text.
pub open spec fn selection_text_spec(parts: Seq<Seq<char>>, include_sensitive_text: bool) -> Seq<
    char,
> {
    if parts.len() == 0 {
        "<none>"@
    } else if include_sensitive_text {
        join_seq(one_line_parts(parts), " || "@)
    } else {
        redacted_seq(join_seq(parts, " || "@).len())
    }
}

pub fn selection_text(parts: &Vec<String>, include_sensitive_text: bool) -> (r: String)
    ensures
        r@ == selection_text_spec(parts.deep_view(), include_sensitive_text),
{
    if parts.len() == 0 {
        return owned("<none>");
    }
    if include_sensitive_text {
        let ghost all = parts.deep_view();
        let mut flat: Vec<String> = Vec::new();
        let mut i: usize = 0;
        while i < parts.len()
            invariant
                all == parts.deep_view(),
                i <= parts@.len(),
                flat.deep_view() =~= one_line_parts(all).take(i as int),
            decreases parts@.len() - i,
        {
            let ghost before = flat.deep_view();
            flat.push(one_line(parts[i].as_str()));
            assert(flat.deep_view() =~= before.push(one_line_seq(all[i as int])));
            i = i + 1;
        }
        assert(one_line_parts(all).take(parts@.len() as int) =~= one_line_parts(all));
        join_tokens(&flat, " || ")
    } else {
        let joined = join_tokens(parts, " || ");
        text(joined.as_str(), false)
    }
}

/// Without the opt-in, two selections whose joined text has the same length
/// give the same summary: no selected text reaches the line.
pub proof fn selection_reveals_only_length(a: Seq<Seq<char>>, b: Seq<Seq<char>>)
    requires
        a.len() > 0 <==> b.len() > 0,
        join_seq(a, " || "@).len() == join_seq(b, " || "@).len(),
    ensures
        selection_text_spec(a, false) == selection_text_spec(b, false),
{
}

/// The evidence line for a password field: the caret and the selection are
/// redacted, and nothing of the field's text is passed in.
pub fn protected_line(sequence: u64, process_id: i32) -> (r: String)
    ensures
        r@ == "TEXT_PATTERN2 #"@ + nat_decimal(sequence as nat) + " | PID="@ + int_decimal(
            process_id as int,
        )
            + " | protected=password | caret_active=<redacted> | selection_ranges=<redacted> | selection_text=<redacted>"@,
{
    let mut s = owned("TEXT_PATTERN2 #");
    push_u64_decimal(&mut s, sequence);
    s.append(" | PID=");
    push_i64_decimal(&mut s, process_id as i64);
    s.append(
        " | protected=password | caret_active=<redacted> | selection_ranges=<redacted> | selection_text=<redacted>",
    );
    s
}

/// The text of a boolean as `Display` writes it.
pub open spec fn bool_text(b: bool) -> Seq<char> {
    if b {
        "true"@
    } else {
        "false"@
    }
}

/// The evidence line of an inspected selection.
pub fn pass_line(
    sequence: u64,
    process_id: i32,
    caret_active: bool,
    selection_ranges: i32,
    parts: &Vec<String>,
    include_sensitive_text: bool,
) -> (r: String)
    ensures
        r@ == "TEXT_PATTERN2 #"@ + nat_decimal(sequence as nat) + " | PID="@ + int_decimal(
            process_id as int,
        ) + " | status=pass | caret_active="@ + bool_text(caret_active)
            + " | selection_ranges="@ + int_decimal(selection_ranges as int)
            + " | selection_text="@ + selection_text_spec(parts.deep_view(), include_sensitive_text),
{
    let mut s = owned("TEXT_PATTERN2 #");
    push_u64_decimal(&mut s, sequence);
    s.append(" | PID=");
    push_i64_decimal(&mut s, process_id as i64);
    s.append(" | status=pass | caret_active=");
    if caret_active {
        s.append("true");
    } else {
        s.append("false");
    }
    s.append(" | selection_ranges=");
    push_i64_decimal(&mut s, selection_ranges as i64);
    s.append(" | selection_text=");
    let summary = selection_text(parts, include_sensitive_text);
    s.append(summary.as_str());
    s
}

} // verus!
