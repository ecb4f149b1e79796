//! Decisions of the Windows UI Automation runtime: focus de-duplication, the
//! bounded per-control state sampler that stands in for incomplete providers,
//! what is spoken for focus and state changes, and the evidence lines. The
//! runtime performs the COM calls and the output and hands plain values here.
use vstd::prelude::*;
use vstd::pervasive::VecAdditionalExecFns;
use vstd::string::StringExecFns;

use crate::presentation::focus_utterance;
use crate::semantic::{AccessibleNode, Role};
use crate::text::{
    empty_str, int_decimal, nat_decimal, owned, push_i64_decimal, push_u64_decimal, str_eq,
    trim, trim_seq,
};
use crate::uia_semantic::{adapter_role_spec, build_accessible_node, role_from_control_type_id, UiaSemanticInput};
use crate::windows_diagnostics::{text, text_spec};
use crate::ElementSnapshot;

verus! {

pub const VALUE_VALUE_PROPERTY_ID: i32 = 30045;
pub const SELECTION_ITEM_IS_SELECTED_PROPERTY_ID: i32 = 30079;
pub const TOGGLE_TOGGLE_STATE_PROPERTY_ID: i32 = 30086;
/// Number of controls whose sampled state is remembered.
pub const MAX_TRACKED_CONTROL_STATES: usize = 256;
/// UIA ToggleState values.
pub const TOGGLE_STATE_OFF: i32 = 0;
pub const TOGGLE_STATE_ON: i32 = 1;
pub const TOGGLE_STATE_INDETERMINATE: i32 = 2;

/// An element as the runtime observed it.
#[derive(Debug, Clone, PartialEq, Eq)]
pub struct Observation {
    pub snapshot: ElementSnapshot,
    pub is_password: bool,
    pub control_type_id: i32,
}

/// The identity key of an observed element: its identifying properties
/// joined by `|`.
pub open spec fn focus_identity_spec(s: ElementSnapshot) -> Seq<char> {
    int_decimal(s.process_id as int) + "|"@ + s.framework@ + "|"@ + s.class_name@ + "|"@
        + s.role@ + "|"@ + s.name@ + "|"@ + s.automation_id@
}

pub fn focus_identity(snapshot: &ElementSnapshot) -> (r: String)
    ensures
        r@ == focus_identity_spec(*snapshot),
{
    let mut s = String::new();
    push_i64_decimal(&mut s, snapshot.process_id as i64);
    s.append("|");
    s.append(snapshot.framework.as_str());
    s.append("|");
    s.append(snapshot.class_name.as_str());
    s.append("|");
    s.append(snapshot.role.as_str());
    s.append("|");
    s.append(snapshot.name.as_str());
    s.append("|");
    s.append(snapshot.automation_id.as_str());
    s
}

/// Remembers the last announced focus so that the focus event and the focus
/// poll do not announce the same element twice.
pub struct FocusTracker {
    last: Option<String>,
}

impl View for FocusTracker {
    type V = Option<Seq<char>>;

    closed spec fn view(&self) -> Option<Seq<char>> {
        match self.last {
            Some(s) => Some(s@),
            None => None,
        }
    }
}

impl FocusTracker {
    pub fn new() -> (r: Self)
        ensures
            r@ is None,
    {
        FocusTracker { last: None }
    }

    /// Whether `identity` differs from the last announced focus; it becomes
    /// the last one either way.
    pub fn focus_changed(&mut self, identity: &str) -> (changed: bool)
        ensures
            changed == (old(self)@ != Some(identity@)),
            final(self)@ == Some(identity@),
    {
        let same = match &self.last {
            Some(previous) => str_eq(previous.as_str(), identity),
            None => false,
        };
        if same {
            false
        } else {
            self.last = Some(owned(identity));
            true
        }
    }
}

/// The remembered state of one control.
pub struct TrackedState {
    pub identity: Seq<char>,
    pub value: Option<Seq<char>>,
    pub toggle: Option<i32>,
}

/// The view of an optional owned string.
pub open spec fn opt_string_view(o: Option<String>) -> Option<Seq<char>> {
    match o {
        Some(s) => Some(s@),
        None => None,
    }
}

struct PolledState {
    identity: String,
    value: Option<String>,
    toggle: Option<i32>,
}

impl PolledState {
    spec fn entry(&self) -> TrackedState {
        TrackedState {
            identity: self.identity@,
            value: opt_string_view(self.value),
            toggle: self.toggle,
        }
    }
}

/// A change that sampling revealed: a new value and/or a new toggle state.
#[derive(Debug, PartialEq, Eq)]
pub struct ControlChange {
    pub value: Option<String>,
    pub toggle: Option<i32>,
}

/// Whether the remembered states have pairwise distinct identities.
pub open spec fn identities_unique(states: Seq<TrackedState>) -> bool {
    forall|i: int, j: int|
        0 <= i < states.len() && 0 <= j < states.len() && i != j ==> states[i].identity
            != states[j].identity
}

/// A report of an observed change: only between two known values that differ.
pub open spec fn reported_change<T>(old: Option<T>, new: Option<T>) -> Option<T> {
    if old is Some && new is Some && old != new {
        new
    } else {
        None
    }
}

/// The remembered states and the reported change after sampling a control.
/// A known control's entry is updated in place; an unknown control is
/// appended, after the oldest entry is dropped when the store is full.
pub open spec fn sample_spec(
    states: Seq<TrackedState>,
    identity: Seq<char>,
    value: Option<Seq<char>>,
    toggle: Option<i32>,
) -> (Seq<TrackedState>, Option<Seq<char>>, Option<i32>) {
    let entry = TrackedState { identity, value, toggle };
    if exists|i: int| 0 <= i < states.len() && states[i].identity == identity {
        let i = choose|i: int| 0 <= i < states.len() && states[i].identity == identity;
        (
            states.update(i, entry),
            reported_change(states[i].value, value),
            reported_change(states[i].toggle, toggle),
        )
    } else {
        let kept = if states.len() >= MAX_TRACKED_CONTROL_STATES {
            states.drop_first()
        } else {
            states
        };
        (kept.push(entry), None, None)
    }
}

/// Bounded store of the last sampled value and toggle state per control,
/// used to notice changes that a provider did not report as events.
pub struct ControlStateTracker {
    states: Vec<PolledState>,
}

impl View for ControlStateTracker {
    type V = Seq<TrackedState>;

    closed spec fn view(&self) -> Seq<TrackedState> {
        self.states@.map_values(|p: PolledState| p.entry())
    }
}

fn opt_str_eq(a: &Option<String>, b: &Option<String>) -> (r: bool)
    ensures
        r == (opt_string_view(*a) == opt_string_view(*b)),
{
    match (a, b) {
        (Some(x), Some(y)) => str_eq(x.as_str(), y.as_str()),
        (None, None) => true,
        _ => false,
    }
}

fn clone_opt(o: &Option<String>) -> (r: Option<String>)
    ensures
        opt_string_view(r) == opt_string_view(*o),
{
    match o {
        Some(s) => Some(s.clone()),
        None => None,
    }
}

impl ControlStateTracker {
    /// The store's invariant: bounded, with one entry per control.
    pub closed spec fn wf(&self) -> bool {
        &&& self@.len() <= MAX_TRACKED_CONTROL_STATES
        &&& identities_unique(self@)
    }

    pub fn new() -> (r: Self)
        ensures
            r.wf(),
            r@ == Seq::<TrackedState>::empty(),
    {
        let r = ControlStateTracker { states: Vec::new() };
        assert(r@ =~= Seq::<TrackedState>::empty());
        r
    }

    pub fn len(&self) -> (r: usize)
        ensures
            r == self@.len(),
    {
        self.states.len()
    }

    /// The store never holds more than its capacity, and at most one entry
    /// per control.
    pub proof fn tracker_is_bounded_with_one_entry_per_control(&self)
        requires
            self.wf(),
        ensures
            self@.len() <= MAX_TRACKED_CONTROL_STATES,
            identities_unique(self@),
    {
    }

    /// Records a control's sampled value and toggle state and reports what
    /// changed since its previous sample.
    pub fn sample(&mut self, identity: &str, value: Option<String>, toggle: Option<i32>) -> (r:
        ControlChange)
        requires
            old(self).wf(),
        ensures
            final(self).wf(),
            (final(self)@, opt_string_view(r.value), r.toggle) == sample_spec(
                old(self)@,
                identity@,
                opt_string_view(value),
                toggle,
            ),
    {
        let ghost old_view = self@;
        let ghost entry = TrackedState { identity: identity@, value: opt_string_view(value), toggle };
        let n = self.states.len();
        let mut i: usize = 0;
        while i < n
            invariant
                n == self.states@.len(),
                old_view == self@,
                old_view == old(self)@,
                identities_unique(old_view),
                old_view.len() <= MAX_TRACKED_CONTROL_STATES,
                entry == (TrackedState { identity: identity@, value: opt_string_view(value), toggle }),
                i <= n,
                forall|k: int| 0 <= k < i ==> (#[trigger] old_view[k]).identity != identity@,
            decreases n - i,
        {
            if str_eq(self.states[i].identity.as_str(), identity) {
                assert(old_view[i as int].identity == identity@);
                let changed_value = if !opt_str_eq(&self.states[i].value, &value)
                    && self.states[i].value.is_some() && value.is_some() {
                    clone_opt(&value)
                } else {
                    None
                };
                let old_toggle = self.states[i].toggle;
                let changed_toggle = if old_toggle != toggle && old_toggle.is_some()
                    && toggle.is_some() {
                    toggle
                } else {
                    None
                };
                let ghost before = self.states@;
                let new_state = PolledState { identity: owned(identity), value, toggle };
                assert(new_state.entry() == entry);
                self.states.set(i, new_state);
                proof {
                    assert(self.states@ == before.update(i as int, new_state));
                    let j = choose|j: int|
                        0 <= j < old_view.len() && old_view[j].identity == identity@;
                    assert(j == i);
                    assert(self@ =~= old_view.update(i as int, entry));
                    assert forall|a: int, b: int|
                        0 <= a < self@.len() && 0 <= b < self@.len() && a != b implies self@[a].identity
                        != self@[b].identity by {
                        if a != i && b != i {
                            assert(self@[a] == old_view[a]);
                            assert(self@[b] == old_view[b]);
                        } else if a == i {
                            assert(self@[b] == old_view[b]);
                        } else {
                            assert(self@[a] == old_view[a]);
                        }
                    }
                }
                return ControlChange { value: changed_value, toggle: changed_toggle };
            }
            i = i + 1;
        }
        if self.states.len() >= MAX_TRACKED_CONTROL_STATES {
            self.states.remove(0);
        }
        let ghost kept = self@;
        proof {
            if old_view.len() >= MAX_TRACKED_CONTROL_STATES {
                assert(kept =~= old_view.drop_first());
            } else {
                assert(kept =~= old_view);
            }
        }
        self.states.push(PolledState { identity: owned(identity), value, toggle });
        proof {
            assert(self@ =~= kept.push(entry));
            assert forall|k: int| 0 <= k < kept.len() implies (#[trigger] kept[k]).identity
                != identity@ by {
                if old_view.len() >= MAX_TRACKED_CONTROL_STATES {
                    assert(kept[k] == old_view[k + 1]);
                } else {
                    assert(kept[k] == old_view[k]);
                }
            }
            assert forall|a: int, b: int|
                0 <= a < self@.len() && 0 <= b < self@.len() && a != b implies self@[a].identity
                != self@[b].identity by {
                if a < kept.len() && b < kept.len() {
                    if old_view.len() >= MAX_TRACKED_CONTROL_STATES {
                        assert(kept[a] == old_view[a + 1]);
                        assert(kept[b] == old_view[b + 1]);
                    } else {
                        assert(kept[a] == old_view[a]);
                        assert(kept[b] == old_view[b]);
                    }
                } else if a < kept.len() {
                    assert(self@[a] == kept[a]);
                } else {
                    assert(self@[b] == kept[b]);
                }
            }
        }
        ControlChange { value: None, toggle: None }
    }
}

/// The first sample of a control reports no change.
pub proof fn first_sample_reports_nothing(
    states: Seq<TrackedState>,
    identity: Seq<char>,
    value: Option<Seq<char>>,
    toggle: Option<i32>,
)
    requires
        forall|k: int| 0 <= k < states.len() ==> (#[trigger] states[k]).identity != identity,
    ensures
        sample_spec(states, identity, value, toggle).1 is None,
        sample_spec(states, identity, value, toggle).2 is None,
{
}

/// Sampling a control again with the same value and toggle state reports no
/// change.
pub proof fn unchanged_resample_reports_nothing(
    states: Seq<TrackedState>,
    identity: Seq<char>,
    value: Option<Seq<char>>,
    toggle: Option<i32>,
)
    requires
        identities_unique(states),
    ensures
        ({
            let (after, _, _) = sample_spec(states, identity, value, toggle);
            &&& sample_spec(after, identity, value, toggle).1 is None
            &&& sample_spec(after, identity, value, toggle).2 is None
        }),
{
    let k = lemma_sampled_entry(states, identity, value, toggle);
    let after = sample_spec(states, identity, value, toggle).0;
    assert(after[k].identity == identity);
    let j = choose|j: int| 0 <= j < after.len() && after[j].identity == identity;
    assert(j == k);
}

/// After a control is sampled, its entry holds the sampled value and toggle
/// state, and it is the only entry of that control.
proof fn lemma_sampled_entry(
    states: Seq<TrackedState>,
    identity: Seq<char>,
    value: Option<Seq<char>>,
    toggle: Option<i32>,
) -> (k: int)
    requires
        identities_unique(states),
    ensures
        0 <= k < sample_spec(states, identity, value, toggle).0.len(),
        sample_spec(states, identity, value, toggle).0[k] == (TrackedState { identity, value, toggle }),
        forall|m: int|
            0 <= m < sample_spec(states, identity, value, toggle).0.len() && (#[trigger] sample_spec(
                states,
                identity,
                value,
                toggle,
            ).0[m]).identity == identity ==> m == k,
{
    let entry = TrackedState { identity, value, toggle };
    let after = sample_spec(states, identity, value, toggle).0;
    if exists|i: int| 0 <= i < states.len() && states[i].identity == identity {
        let i = choose|i: int| 0 <= i < states.len() && states[i].identity == identity;
        assert(after[i] == entry);
        assert forall|m: int| 0 <= m < after.len() && (#[trigger] after[m]).identity == identity implies m == i by {
            if m != i {
                assert(after[m] == states[m]);
            }
        }
        i
    } else {
        let kept = if states.len() >= MAX_TRACKED_CONTROL_STATES {
            states.drop_first()
        } else {
            states
        };
        let p = kept.len() as int;
        assert(after[p] == entry);
        assert forall|m: int| 0 <= m < after.len() && (#[trigger] after[m]).identity == identity implies m == p by {
            if m < p {
                assert(after[m] == kept[m]);
                if states.len() >= MAX_TRACKED_CONTROL_STATES {
                    assert(kept[m] == states[m + 1]);
                } else {
                    assert(kept[m] == states[m]);
                }
            }
        }
        p
    }
}

/// Every change of a known control is reported: when its remembered value
/// (or toggle state) is known and the new one is known and different, the
/// sample reports the new one, whatever it is; the entry is updated in place
/// and the other controls' entries are kept.
pub proof fn known_changes_are_reported(
    states: Seq<TrackedState>,
    identity: Seq<char>,
    value: Option<Seq<char>>,
    toggle: Option<i32>,
    i: int,
)
    requires
        identities_unique(states),
        0 <= i < states.len(),
        states[i].identity == identity,
    ensures
        ({
            let (after, changed_value, changed_toggle) = sample_spec(states, identity, value, toggle);
            &&& states[i].value is Some && value is Some && states[i].value != value ==> changed_value == value
            &&& states[i].toggle is Some && toggle is Some && states[i].toggle != toggle ==> changed_toggle == toggle
            &&& after.len() == states.len()
            &&& after[i] == (TrackedState { identity, value, toggle })
            &&& forall|k: int| 0 <= k < states.len() && k != i ==> #[trigger] after[k] == states[k]
        }),
{
    let j = choose|j: int| 0 <= j < states.len() && states[j].identity == identity;
    assert(j == i);
}

/// Two consecutive samples of one control: the second reports exactly the
/// value and the toggle state that changed between two known readings, so a
/// check box that goes from checked to not checked reports "off".
pub proof fn consecutive_samples_report_changes(
    states: Seq<TrackedState>,
    identity: Seq<char>,
    first_value: Option<Seq<char>>,
    first_toggle: Option<i32>,
    value: Option<Seq<char>>,
    toggle: Option<i32>,
)
    requires
        identities_unique(states),
    ensures
        ({
            let (after, _, _) = sample_spec(states, identity, first_value, first_toggle);
            let (_, changed_value, changed_toggle) = sample_spec(after, identity, value, toggle);
            &&& changed_value == (if first_value is Some && value is Some && first_value != value {
                value
            } else {
                None
            })
            &&& changed_toggle == (if first_toggle is Some && toggle is Some && first_toggle != toggle {
                toggle
            } else {
                None
            })
        }),
{
    let k = lemma_sampled_entry(states, identity, first_value, first_toggle);
    let after = sample_spec(states, identity, first_value, first_toggle).0;
    assert(after[k].identity == identity);
    let j = choose|j: int| 0 <= j < after.len() && after[j].identity == identity;
    assert(j == k);
}

/// A value change is reported only between two known values that differ,
/// and then it is the new value.
pub proof fn reported_changes_are_real(
    states: Seq<TrackedState>,
    identity: Seq<char>,
    value: Option<Seq<char>>,
    toggle: Option<i32>,
)
    ensures
        ({
            let (_, changed_value, changed_toggle) = sample_spec(states, identity, value, toggle);
            &&& changed_value is Some ==> changed_value == value && exists|i: int|
                0 <= i < states.len() && states[i].identity == identity && states[i].value is Some
                    && states[i].value != value
            &&& changed_toggle is Some ==> changed_toggle == toggle && exists|i: int|
                0 <= i < states.len() && states[i].identity == identity && states[i].toggle is Some
                    && states[i].toggle != toggle
        }),
{
}

/// What is spoken when a control's toggle state changes.
pub open spec fn toggle_phrase_spec(state: i32) -> Seq<char> {
    if state == TOGGLE_STATE_ON {
        "checked"@
    } else if state == TOGGLE_STATE_OFF {
        "not checked"@
    } else if state == TOGGLE_STATE_INDETERMINATE {
        "partially checked"@
    } else {
        "state changed"@
    }
}

pub fn toggle_phrase(state: i32) -> (r: &'static str)
    ensures
        r@ == toggle_phrase_spec(state),
{
    if state == TOGGLE_STATE_ON {
        "checked"
    } else if state == TOGGLE_STATE_OFF {
        "not checked"
    } else if state == TOGGLE_STATE_INDETERMINATE {
        "partially checked"
    } else {
        "state changed"
    }
}

/// The spoken toggle phrases: on is "checked", off is "not checked",
/// indeterminate is "partially checked", and any other state reads as a
/// changed state; the three known states never share a phrase.
pub proof fn toggle_phrases_name_the_state(state: i32)
    ensures
        toggle_phrase_spec(1) == "checked"@,
        toggle_phrase_spec(0) == "not checked"@,
        toggle_phrase_spec(2) == "partially checked"@,
        !(0 <= state <= 2) ==> toggle_phrase_spec(state) == "state changed"@,
        toggle_phrase_spec(0) != toggle_phrase_spec(1),
        toggle_phrase_spec(1) != toggle_phrase_spec(2),
        toggle_phrase_spec(0) != toggle_phrase_spec(2),
{
    reveal_strlit("checked");
    reveal_strlit("not checked");
    reveal_strlit("partially checked");
    assert("checked"@.len() != "not checked"@.len());
    assert("checked"@.len() != "partially checked"@.len());
    assert("not checked"@.len() != "partially checked"@.len());
}

/// The toggle state as the semantic adapter expects it: on, indeterminate,
/// or off for anything else.
pub fn toggle_state_code(state: i32) -> (r: i32)
    ensures
        r == (if state == TOGGLE_STATE_ON {
            1i32
        } else if state == TOGGLE_STATE_INDETERMINATE {
            2i32
        } else {
            0i32
        }),
{
    if state == TOGGLE_STATE_ON {
        1
    } else if state == TOGGLE_STATE_INDETERMINATE {
        2
    } else {
        0
    }
}

/// The label of a watched property id.
pub open spec fn property_label_spec(property: i32) -> Seq<char> {
    if property == VALUE_VALUE_PROPERTY_ID {
        "ValueValue"@
    } else if property == SELECTION_ITEM_IS_SELECTED_PROPERTY_ID {
        "SelectionItemIsSelected"@
    } else if property == TOGGLE_TOGGLE_STATE_PROPERTY_ID {
        "ToggleToggleState"@
    } else {
        "Unknown"@
    }
}

pub fn property_label(property: i32) -> (r: &'static str)
    ensures
        r@ == property_label_spec(property),
{
    if property == VALUE_VALUE_PROPERTY_ID {
        "ValueValue"
    } else if property == SELECTION_ITEM_IS_SELECTED_PROPERTY_ID {
        "SelectionItemIsSelected"
    } else if property == TOGGLE_TOGGLE_STATE_PROPERTY_ID {
        "ToggleToggleState"
    } else {
        "Unknown"
    }
}

/// A property text that was actually read.
pub open spec fn is_available(t: Seq<char>) -> bool {
    t.len() > 0 && t != "<unavailable>"@
}

/// What the direct runtime speaks on focus: a fixed phrase for password
/// fields, otherwise name and localized role, whichever are available.
pub open spec fn focus_phrase_spec(is_password: bool, name: Seq<char>, role: Seq<char>) -> Seq<
    char,
> {
    let n = trim_seq(name);
    let r = trim_seq(role);
    if is_password {
        "password field"@
    } else if is_available(n) && is_available(r) {
        n + ", "@ + r
    } else if is_available(n) {
        n
    } else if is_available(r) {
        r
    } else {
        Seq::empty()
    }
}

fn available(t: &str) -> (r: bool)
    ensures
        r == is_available(t@),
{
    !t.is_empty() && !str_eq(t, "<unavailable>")
}

pub fn focus_phrase(observation: &Observation) -> (r: String)
    ensures
        r@ == focus_phrase_spec(
            observation.is_password,
            observation.snapshot.name@,
            observation.snapshot.role@,
        ),
{
    if observation.is_password {
        return owned("password field");
    }
    let name = trim(observation.snapshot.name.as_str());
    let role = trim(observation.snapshot.role.as_str());
    if available(name) && available(role) {
        let mut s = owned(name);
        s.append(", ");
        s.append(role);
        s
    } else if available(name) {
        owned(name)
    } else if available(role) {
        owned(role)
    } else {
        String::new()
    }
}

/// The value of a combo box that is spoken when it changes, if any.
pub fn value_phrase(value: &str) -> (r: Option<String>)
    ensures
        r is None <==> trim_seq(value@).len() == 0,
        r matches Some(p) ==> p@ == trim_seq(value@),
{
    let phrase = trim(value);
    if phrase.is_empty() {
        None
    } else {
        Some(owned(phrase))
    }
}

/// The snapshot as diagnostics show it: name and automation id pass through
/// the diagnostic text policy.
pub fn diagnostic_snapshot(snapshot: &ElementSnapshot, include_sensitive_text: bool) -> (r:
    ElementSnapshot)
    ensures
        r.process_id == snapshot.process_id,
        r.framework@ == snapshot.framework@,
        r.class_name@ == snapshot.class_name@,
        r.role@ == snapshot.role@,
        r.name@ == text_spec(snapshot.name@, include_sensitive_text),
        r.automation_id@ == text_spec(snapshot.automation_id@, include_sensitive_text),
{
    ElementSnapshot {
        process_id: snapshot.process_id,
        framework: snapshot.framework.clone(),
        class_name: snapshot.class_name.clone(),
        role: snapshot.role.clone(),
        name: text(snapshot.name.as_str(), include_sensitive_text),
        automation_id: text(snapshot.automation_id.as_str(), include_sensitive_text),
    }
}

/// Whether the state sampler may read a control's value: never a password
/// field's, so its value pattern is not even requested.
pub fn samples_value(observation: &Observation) -> (r: bool)
    ensures
        r == !observation.is_password,
{
    !observation.is_password
}

/// Whether the runtime reads a control's value for its focus presentation:
/// never for a password field, and only for roles that report a value.
pub open spec fn reads_value_spec(observation: Observation) -> bool {
    !observation.is_password && adapter_role_spec(observation.control_type_id).reports_value_spec()
}

pub fn reads_value(observation: &Observation) -> (r: bool)
    ensures
        r == reads_value_spec(*observation),
{
    !observation.is_password && role_from_control_type_id(
        observation.control_type_id,
    ).reports_value_on_focus()
}

/// The semantic node of a focused element. Windows Terminal exposes a
/// document-like control, which is presented as a terminal.
pub fn semantic_node(
    observation: &Observation,
    value: &str,
    toggle_state: Option<i32>,
    is_enabled: bool,
    is_keyboard_focusable: bool,
    has_keyboard_focus: bool,
    is_offscreen: bool,
) -> (node: AccessibleNode)
    ensures
        node.process_id == observation.snapshot.process_id as i64,
        node.platform_id@ == focus_identity_spec(observation.snapshot),
        node.role == (if observation.snapshot.class_name@ == "TermControl"@ {
            Role::Terminal
        } else {
            adapter_role_spec(observation.control_type_id)
        }),
        node.native_role@ == observation.snapshot.role@,
        node.name@ == observation.snapshot.name@,
        node.description@ == Seq::<char>::empty(),
        node.value@ == (if reads_value_spec(*observation) {
            value@
        } else {
            Seq::<char>::empty()
        }),
        node.states@ == crate::uia_semantic::uia_states(
            UiaSemanticInput {
                process_id: observation.snapshot.process_id,
                platform_id: "",
                control_type_id: observation.control_type_id,
                native_role: "",
                name: "",
                description: "",
                value: "",
                is_password: observation.is_password,
                is_enabled,
                is_keyboard_focusable,
                has_keyboard_focus,
                is_offscreen,
                is_selected: None,
                toggle_state,
                expand_collapse_state: None,
            },
        ),
{
    let identity = focus_identity(&observation.snapshot);
    let value_text: &str = if reads_value(observation) {
        value
    } else {
        empty_str()
    };
    let input = UiaSemanticInput {
        process_id: observation.snapshot.process_id,
        platform_id: identity.as_str(),
        control_type_id: observation.control_type_id,
        native_role: observation.snapshot.role.as_str(),
        name: observation.snapshot.name.as_str(),
        description: empty_str(),
        value: value_text,
        is_password: observation.is_password,
        is_enabled,
        is_keyboard_focusable,
        has_keyboard_focus,
        is_offscreen,
        is_selected: None,
        toggle_state,
        expand_collapse_state: None,
    };
    let mut node = build_accessible_node(input);
    if str_eq(observation.snapshot.class_name.as_str(), "TermControl") {
        node.role = Role::Terminal;
    }
    node
}

/// The fields of a snapshot as evidence lines list them.
pub open spec fn snapshot_fields_spec(s: ElementSnapshot) -> Seq<char> {
    " | PID="@ + int_decimal(s.process_id as int) + " | Framework="@ + s.framework@
        + " | Class="@ + s.class_name@ + " | Role="@ + s.role@ + " | Name="@ + s.name@
        + " | AutomationId="@ + s.automation_id@
}

fn push_snapshot_fields(out: &mut String, s: &ElementSnapshot)
    ensures
        final(out)@ == old(out)@ + snapshot_fields_spec(*s),
{
    out.append(" | PID=");
    push_i64_decimal(out, s.process_id as i64);
    out.append(" | Framework=");
    out.append(s.framework.as_str());
    out.append(" | Class=");
    out.append(s.class_name.as_str());
    out.append(" | Role=");
    out.append(s.role.as_str());
    out.append(" | Name=");
    out.append(s.name.as_str());
    out.append(" | AutomationId=");
    out.append(s.automation_id.as_str());
    assert(out@ =~= old(out)@ + snapshot_fields_spec(*s));
}

/// The evidence line of an announced focus.
pub fn format_focus_line(sequence: u64, source: &str, snapshot: &ElementSnapshot) -> (r: String)
    ensures
        r@ == "FOCUS #"@ + nat_decimal(sequence as nat) + " | Source="@ + source@
            + snapshot_fields_spec(*snapshot),
{
    let mut s = owned("FOCUS #");
    push_u64_decimal(&mut s, sequence);
    s.append(" | Source=");
    s.append(source);
    push_snapshot_fields(&mut s, snapshot);
    s
}

/// The evidence line of a property change.
pub fn format_property_line(sequence: u64, property: i32, source: &str, snapshot: &ElementSnapshot) -> (r:
    String)
    ensures
        r@ == "PROPERTY_CHANGED/UIA_"@ + int_decimal(property as int) + "["@
            + property_label_spec(property) + "] #"@ + nat_decimal(sequence as nat)
            + " | Source="@ + source@ + snapshot_fields_spec(*snapshot),
{
    let mut s = owned("PROPERTY_CHANGED/UIA_");
    push_i64_decimal(&mut s, property as i64);
    s.append("[");
    s.append(property_label(property));
    s.append("] #");
    push_u64_decimal(&mut s, sequence);
    s.append(" | Source=");
    s.append(source);
    push_snapshot_fields(&mut s, snapshot);
    s
}

/// The speech for a focused element in the semantic runtime.
pub fn focus_speech(node: &AccessibleNode) -> (r: Option<String>)
    ensures
        opt_string_view(r) == crate::presentation::focus_text(node),
{
    match focus_utterance(node) {
        Some(u) => Some(u.text),
        None => None,
    }
}

} // verus!
