//! Diagnostic text policy: evidence lines never carry user text unless the
//! operator opted in, and opted-in text is flattened to a single line.
use vstd::prelude::*;
use vstd::string::StrSliceExecFns;
use vstd::string::StringExecFns;

use crate::text::{
    ascii_lower_seq, nat_decimal, owned, push_char, push_u64_decimal, str_eq, to_ascii_lowercase,
    trim, trim_seq,
};

verus! {

/// Whether an opt-in setting's text enables sensitive diagnostics: `1`,
/// `true` or `yes`, ignoring surrounding white space and ASCII case.
pub open spec fn opt_in_spec(value: Option<Seq<char>>) -> bool {
    match value {
        Some(v) => {
            let t = ascii_lower_seq(trim_seq(v));
            t == "1"@ || t == "true"@ || t == "yes"@
        },
        None => false,
    }
}

pub fn parse_opt_in(value: Option<String>) -> (r: bool)
    ensures
        r == opt_in_spec(
            match value {
                Some(v) => Some(v@),
                None => None,
            },
        ),
{
    match value {
        Some(v) => {
            let lowered = to_ascii_lowercase(trim(v.as_str()));
            let t = lowered.as_str();
            str_eq(t, "1") || str_eq(t, "true") || str_eq(t, "yes")
        },
        None => false,
    }
}

/// The escaped form of one character: backslash, carriage return, line feed
/// and the field separator `|` are written as two-character escapes.
pub open spec fn escape_char(c: char) -> Seq<char> {
    if c == '\\' {
        seq!['\\', '\\']
    } else if c == '\r' {
        seq!['\\', 'r']
    } else if c == '\n' {
        seq!['\\', 'n']
    } else if c == '|' {
        seq!['\\', '|']
    } else {
        seq![c]
    }
}

/// A text escaped so that it fits on one evidence line.
pub open spec fn one_line_seq(s: Seq<char>) -> Seq<char>
    decreases s.len(),
{
    if s.len() == 0 {
        Seq::empty()
    } else {
        one_line_seq(s.drop_last()) + escape_char(s.last())
    }
}

pub fn one_line(value: &str) -> (r: String)
    ensures
        r@ == one_line_seq(value@),
{
    let n = value.unicode_len();
    let mut r = String::new();
    let mut i: usize = 0;
    while i < n
        invariant
            n == value@.len(),
            i <= n,
            r@ == one_line_seq(value@.subrange(0, i as int)),
        decreases n - i,
    {
        let c = value.get_char(i);
        if c == '\\' {
            push_char(&mut r, '\\');
            push_char(&mut r, '\\');
        } else if c == '\r' {
            push_char(&mut r, '\\');
            push_char(&mut r, 'r');
        } else if c == '\n' {
            push_char(&mut r, '\\');
            push_char(&mut r, 'n');
        } else if c == '|' {
            push_char(&mut r, '\\');
            push_char(&mut r, '|');
        } else {
            push_char(&mut r, c);
        }
        let ghost next = value@.subrange(0, i + 1);
        assert(next.drop_last() =~= value@.subrange(0, i as int));
        assert(next.last() == c);
        assert(r@ =~= one_line_seq(next));
        i = i + 1;
    }
    assert(value@.subrange(0, n as int) =~= value@);
    r
}

/// The redaction marker that replaces a text: it tells only how many
/// characters the text has.
pub open spec fn redacted_seq(len: nat) -> Seq<char> {
    "<redacted chars="@ + nat_decimal(len) + ">"@
}

/// A user text as a diagnostic line shows it: flattened when the operator
/// opted in to sensitive text, otherwise redacted.
pub open spec fn text_spec(value: Seq<char>, include_sensitive_text: bool) -> Seq<char> {
    if include_sensitive_text {
        one_line_seq(value)
    } else {
        redacted_seq(value.len())
    }
}

pub fn text(value: &str, include_sensitive_text: bool) -> (r: String)
    ensures
        r@ == text_spec(value@, include_sensitive_text),
{
    if include_sensitive_text {
        one_line(value)
    } else {
        let mut r = owned("<redacted chars=");
        push_u64_decimal(&mut r, value.unicode_len() as u64);
        r.append(">");
        r
    }
}

/// Like [`text`], but an empty value reads `<none>`.
pub fn optional_text(value: &str, include_sensitive_text: bool) -> (r: String)
    ensures
        r@ == (if value@.len() == 0 {
            "<none>"@
        } else {
            text_spec(value@, include_sensitive_text)
        }),
{
    if value.is_empty() {
        owned("<none>")
    } else {
        text(value, include_sensitive_text)
    }
}

/// The marker lines that announce the diagnostic text policy in force:
/// whether ordinary text is included, and that passwords are always redacted.
pub fn policy_marker_lines(include_sensitive_text: bool) -> (r: Vec<String>)
    ensures
        r.deep_view() == seq![
            if include_sensitive_text {
                "DIAGNOSTIC_TEXT_POLICY = TEST_EVIDENCE_OPT_IN"@
            } else {
                "DIAGNOSTIC_TEXT_POLICY = REDACTED_DEFAULT"@
            },
            "PASSWORD_TEXT_POLICY = ALWAYS_REDACTED"@,
        ],
{
    let mut r: Vec<String> = Vec::new();
    if include_sensitive_text {
        r.push(owned("DIAGNOSTIC_TEXT_POLICY = TEST_EVIDENCE_OPT_IN"));
    } else {
        r.push(owned("DIAGNOSTIC_TEXT_POLICY = REDACTED_DEFAULT"));
    }
    r.push(owned("PASSWORD_TEXT_POLICY = ALWAYS_REDACTED"));
    assert(r.deep_view() =~= seq![
        if include_sensitive_text {
            "DIAGNOSTIC_TEXT_POLICY = TEST_EVIDENCE_OPT_IN"@
        } else {
            "DIAGNOSTIC_TEXT_POLICY = REDACTED_DEFAULT"@
        },
        "PASSWORD_TEXT_POLICY = ALWAYS_REDACTED"@,
    ]);
    r
}

/// The escaped text of a value never holds a line break, so it cannot forge
/// an evidence line of its own.
pub proof fn one_line_has_no_line_break(s: Seq<char>)
    ensures
        !one_line_seq(s).contains('\n'),
        !one_line_seq(s).contains('\r'),
    decreases s.len(),
{
    if s.len() > 0 {
        one_line_has_no_line_break(s.drop_last());
        let a = one_line_seq(s.drop_last());
        let b = escape_char(s.last());
        assert(!b.contains('\n') && !b.contains('\r')) by {
            if b.contains('\n') {
                let k = choose|k: int| 0 <= k < b.len() && b[k] == '\n';
            }
            if b.contains('\r') {
                let k = choose|k: int| 0 <= k < b.len() && b[k] == '\r';
            }
        }
        assert forall|k: int| 0 <= k < (a + b).len() implies (a + b)[k] != '\n' && (a + b)[k]
            != '\r' by {
            if k < a.len() {
                assert((a + b)[k] == a[k]);
            } else {
                assert((a + b)[k] == b[k - a.len()]);
            }
        }
    }
}

/// Without the opt-in, two texts of the same length give the same diagnostic
/// text: nothing but the length is revealed.
pub proof fn redaction_reveals_only_length(a: Seq<char>, b: Seq<char>)
    requires
        a.len() == b.len(),
    ensures
        text_spec(a, false) == text_spec(b, false),
{
}

} // verus!
