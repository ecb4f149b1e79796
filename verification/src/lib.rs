//! Portable screen-reader core: normalized accessibility semantics, focus
//! presentation, object navigation, command routing, the diagnostic text
//! policy and the decisions of the platform runtimes, each with its
//! mathematical model.
use vstd::prelude::*;
use vstd::string::StrSliceExecFns;
use vstd::string::StringExecFns;

pub mod commands;
pub mod linux_probe;
pub mod linux_semantic;
pub mod macos_semantic;
pub mod navigation;
pub mod navigation_security;
pub mod platform;
pub mod presentation;
pub mod semantic;
pub mod text;
pub mod uia;
pub mod uia_semantic;
pub mod windows_diagnostics;
pub mod windows_runtime;
pub mod windows_speech;
pub mod windows_textpattern2;

use crate::text::{int_decimal, nat_decimal, owned, push_i64_decimal, push_u64_decimal};

verus! {

/// Monitoring time used when no valid duration is given.
pub const DEFAULT_MONITOR_SECONDS: u64 = 15;

/// An ASCII decimal digit.
pub open spec fn is_decimal_digit(c: char) -> bool {
    '0' <= c && c <= '9'
}

/// The value of a decimal digit character.
pub open spec fn digit_value(c: char) -> int {
    (c as int) - ('0' as int)
}

/// The value of a sequence of decimal digits (most significant first).
pub open spec fn decimal_value(s: Seq<char>) -> int
    decreases s.len(),
{
    if s.len() == 0 {
        0
    } else {
        decimal_value(s.drop_last()) * 10 + digit_value(s.last())
    }
}

/// The digits of an unsigned number: the text after an optional leading `+`.
pub open spec fn unsigned_digits(s: Seq<char>) -> Seq<char> {
    if s.len() > 0 && s[0] == '+' {
        s.drop_first()
    } else {
        s
    }
}

/// Every character is a decimal digit.
pub open spec fn all_decimal_digits(s: Seq<char>) -> bool {
    forall|k: int| 0 <= k < s.len() ==> is_decimal_digit(#[trigger] s[k])
}

/// What `u64::from_str` accepts: an optional `+` followed by at least one
/// decimal digit, whose value fits in a `u64`.
pub open spec fn parse_u64_spec(s: Seq<char>) -> Option<u64> {
    let digits = unsigned_digits(s);
    if digits.len() > 0 && all_decimal_digits(digits) && decimal_value(digits) <= u64::MAX {
        Some(decimal_value(digits) as u64)
    } else {
        None
    }
}

proof fn lemma_decimal_value_nonneg(s: Seq<char>)
    requires
        forall|k: int| 0 <= k < s.len() ==> is_decimal_digit(#[trigger] s[k]),
    ensures
        decimal_value(s) >= 0,
    decreases s.len(),
{
    if s.len() > 0 {
        lemma_decimal_value_nonneg(s.drop_last());
        assert(is_decimal_digit(s[s.len() - 1]));
    }
}

proof fn lemma_decimal_prefix_le(s: Seq<char>, j: int)
    requires
        0 <= j <= s.len(),
        forall|k: int| 0 <= k < s.len() ==> is_decimal_digit(#[trigger] s[k]),
    ensures
        decimal_value(s.subrange(0, j)) <= decimal_value(s),
    decreases s.len(),
{
    if j == s.len() {
        assert(s.subrange(0, j) =~= s);
    } else {
        let t = s.drop_last();
        lemma_decimal_prefix_le(t, j);
        assert(t.subrange(0, j) =~= s.subrange(0, j));
        lemma_decimal_value_nonneg(t);
        assert(is_decimal_digit(s[s.len() - 1]));
    }
}

/// `u64::from_str`: an optional `+` then decimal digits, rejected on overflow.
pub fn parse_u64(s: &str) -> (r: Option<u64>)
    ensures
        r == parse_u64_spec(s@),
{
    let n = s.unicode_len();
    let mut start: usize = 0;
    if n > 0 && s.get_char(0) == '+' {
        start = 1;
    }
    let ghost digits = s@.subrange(start as int, n as int);
    proof {
        assert(start == 1 <==> (s@.len() > 0 && s@[0] == '+'));
        if start == 1 {
            assert(digits =~= s@.drop_first());
        } else {
            assert(digits =~= s@);
        }
    }
    if start == n {
        return None;
    }
    let mut acc: u64 = 0;
    let mut i: usize = start;
    while i < n
        invariant
            n == s@.len(),
            start <= i <= n,
            start < n,
            digits == s@.subrange(start as int, n as int),
            digits == unsigned_digits(s@),
            forall|k: int| 0 <= k < i - start ==> is_decimal_digit(#[trigger] digits[k]),
            acc as int == decimal_value(digits.subrange(0, i - start)),
        decreases n - i,
    {
        let c = s.get_char(i);
        assert(c == digits[i - start]);
        if !('0' <= c && c <= '9') {
            assert(!is_decimal_digit(digits[i - start]));
            assert(!all_decimal_digits(digits));
            return None;
        }
        assert(is_decimal_digit(digits[i - start]));
        assert(forall|k: int| 0 <= k < i + 1 - start ==> is_decimal_digit(#[trigger] digits[k]));
        let d: u64 = ((c as u32) - 48) as u64;
        let ghost next = digits.subrange(0, i + 1 - start);
        assert(next.drop_last() =~= digits.subrange(0, i - start));
        assert(decimal_value(next) == acc * 10 + d);
        match acc.checked_mul(10) {
            None => {
                assert(acc * 10 > u64::MAX);
                proof {
                    lemma_overflow_rejects(digits, i + 1 - start);
                }
                return None;
            },
            Some(m) => match m.checked_add(d) {
                None => {
                    proof {
                        lemma_overflow_rejects(digits, i + 1 - start);
                    }
                    return None;
                },
                Some(v) => {
                    acc = v;
                },
            },
        }
        i = i + 1;
    }
    assert(digits.subrange(0, n - start) =~= digits);
    Some(acc)
}

proof fn lemma_overflow_rejects(digits: Seq<char>, j: int)
    requires
        0 < j <= digits.len(),
        forall|k: int| 0 <= k < j ==> is_decimal_digit(#[trigger] digits[k]),
        decimal_value(digits.subrange(0, j)) > u64::MAX,
    ensures
        !((forall|k: int| 0 <= k < digits.len() ==> is_decimal_digit(#[trigger] digits[k]))
            && decimal_value(digits) <= u64::MAX),
{
    if forall|k: int| 0 <= k < digits.len() ==> is_decimal_digit(#[trigger] digits[k]) {
        lemma_decimal_prefix_le(digits, j);
    }
}

/// The monitoring duration named by `value`, or `default` when it is absent
/// or not a `u64`.
pub open spec fn monitor_seconds_spec(value: Option<Seq<char>>, default: u64) -> u64 {
    match value {
        Some(v) => match parse_u64_spec(v) {
            Some(n) => n,
            None => default,
        },
        None => default,
    }
}

/// The view of an optional string slice.
pub open spec fn opt_str_view(value: Option<&str>) -> Option<Seq<char>> {
    match value {
        Some(v) => Some(v@),
        None => None,
    }
}

pub fn monitor_seconds_or(value: Option<&str>, default: u64) -> (r: u64)
    ensures
        r == monitor_seconds_spec(opt_str_view(value), default),
{
    match value {
        Some(v) => match parse_u64(v) {
            Some(n) => n,
            None => default,
        },
        None => default,
    }
}

/// The monitoring duration named by `value`, or the default when it is absent
/// or not a `u64`.
pub fn parse_monitor_seconds(value: Option<&str>) -> (r: u64)
    ensures
        r == monitor_seconds_spec(opt_str_view(value), DEFAULT_MONITOR_SECONDS),
{
    monitor_seconds_or(value, DEFAULT_MONITOR_SECONDS)
}

/// Kind of a normalized accessibility event.
#[derive(Debug, Clone, Copy, PartialEq, Eq, Structural)]
pub enum AccessibilityEventKind {
    Focus,
    TextChanged,
    TextSelectionChanged,
}

impl AccessibilityEventKind {
    pub open spec fn canonical_name_spec(self) -> Seq<char> {
        match self {
            AccessibilityEventKind::Focus => "focus"@,
            AccessibilityEventKind::TextChanged => "text_changed"@,
            AccessibilityEventKind::TextSelectionChanged => "text_selection_changed"@,
        }
    }

    /// The label kept for compatibility with the Windows evidence format.
    pub open spec fn label_spec(self) -> Seq<char> {
        match self {
            AccessibilityEventKind::Focus => "FOCUS"@,
            AccessibilityEventKind::TextChanged => "TEXT_CHANGED/UIA_20015"@,
            AccessibilityEventKind::TextSelectionChanged => "TEXT_SELECTION_CHANGED/UIA_20014"@,
        }
    }

    pub fn canonical_name(self) -> (r: &'static str)
        ensures
            r@ == self.canonical_name_spec(),
    {
        match self {
            AccessibilityEventKind::Focus => "focus",
            AccessibilityEventKind::TextChanged => "text_changed",
            AccessibilityEventKind::TextSelectionChanged => "text_selection_changed",
        }
    }

    pub fn label(self) -> (r: &'static str)
        ensures
            r@ == self.label_spec(),
    {
        match self {
            AccessibilityEventKind::Focus => "FOCUS",
            AccessibilityEventKind::TextChanged => "TEXT_CHANGED/UIA_20015",
            AccessibilityEventKind::TextSelectionChanged => "TEXT_SELECTION_CHANGED/UIA_20014",
        }
    }

    /// The text that `Display` writes for an event kind: its compatibility label.
    pub fn to_string(&self) -> (r: String)
        ensures
            r@ == self.label_spec(),
    {
        owned(self.label())
    }
}

/// Identifying properties of the element an event came from.
#[derive(Debug, Clone, Default, PartialEq, Eq)]
pub struct ElementSnapshot {
    pub process_id: i32,
    pub framework: String,
    pub class_name: String,
    pub role: String,
    pub name: String,
    pub automation_id: String,
}

/// The evidence line written for an event.
pub open spec fn event_line_spec(
    kind: AccessibilityEventKind,
    sequence: u64,
    element: ElementSnapshot,
) -> Seq<char> {
    kind.label_spec() + " #"@ + nat_decimal(sequence as nat) + " | PID="@ + int_decimal(
        element.process_id as int,
    ) + " | Framework="@ + element.framework@ + " | Class="@ + element.class_name@
        + " | Role="@ + element.role@ + " | Name="@ + element.name@ + " | AutomationId="@
        + element.automation_id@
}

pub fn format_event_line(
    kind: AccessibilityEventKind,
    sequence: u64,
    element: &ElementSnapshot,
) -> (r: String)
    ensures
        r@ == event_line_spec(kind, sequence, *element),
{
    let mut s = owned(kind.label());
    s.append(" #");
    push_u64_decimal(&mut s, sequence);
    s.append(" | PID=");
    push_i64_decimal(&mut s, element.process_id as i64);
    s.append(" | Framework=");
    s.append(element.framework.as_str());
    s.append(" | Class=");
    s.append(element.class_name.as_str());
    s.append(" | Role=");
    s.append(element.role.as_str());
    s.append(" | Name=");
    s.append(element.name.as_str());
    s.append(" | AutomationId=");
    s.append(element.automation_id.as_str());
    s
}

} // verus!
