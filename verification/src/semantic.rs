//! Platform-neutral accessibility semantics: roles, states and the accessible
//! node that every native adapter produces before anything is presented.
use vstd::prelude::*;

use crate::text::{empty_str, owned, trim, trim_seq};

verus! {

/// Normalized role of an accessible object.
#[derive(Debug, Clone, Copy, PartialEq, Eq, Structural, Hash)]
pub enum Role {
    Unknown,
    Application,
    Window,
    Dialog,
    Document,
    Heading,
    Paragraph,
    StaticText,
    EditableText,
    Button,
    CheckBox,
    RadioButton,
    ComboBox,
    List,
    ListItem,
    Tree,
    TreeItem,
    Table,
    Row,
    Cell,
    Link,
    Image,
    Slider,
    ProgressBar,
    Menu,
    MenuItem,
    Tab,
    TabPanel,
    Toolbar,
    Terminal,
}

impl Role {
    /// The stable, platform-neutral name used in logs and tests.
    pub open spec fn canonical_name_spec(self) -> Seq<char> {
        match self {
            Role::Unknown => "unknown"@,
            Role::Application => "application"@,
            Role::Window => "window"@,
            Role::Dialog => "dialog"@,
            Role::Document => "document"@,
            Role::Heading => "heading"@,
            Role::Paragraph => "paragraph"@,
            Role::StaticText => "static_text"@,
            Role::EditableText => "editable_text"@,
            Role::Button => "button"@,
            Role::CheckBox => "check_box"@,
            Role::RadioButton => "radio_button"@,
            Role::ComboBox => "combo_box"@,
            Role::List => "list"@,
            Role::ListItem => "list_item"@,
            Role::Tree => "tree"@,
            Role::TreeItem => "tree_item"@,
            Role::Table => "table"@,
            Role::Row => "row"@,
            Role::Cell => "cell"@,
            Role::Link => "link"@,
            Role::Image => "image"@,
            Role::Slider => "slider"@,
            Role::ProgressBar => "progress_bar"@,
            Role::Menu => "menu"@,
            Role::MenuItem => "menu_item"@,
            Role::Tab => "tab"@,
            Role::TabPanel => "tab_panel"@,
            Role::Toolbar => "toolbar"@,
            Role::Terminal => "terminal"@,
        }
    }

    pub fn canonical_name(self) -> (r: &'static str)
        ensures
            r@ == self.canonical_name_spec(),
    {
        match self {
            Role::Unknown => "unknown",
            Role::Application => "application",
            Role::Window => "window",
            Role::Dialog => "dialog",
            Role::Document => "document",
            Role::Heading => "heading",
            Role::Paragraph => "paragraph",
            Role::StaticText => "static_text",
            Role::EditableText => "editable_text",
            Role::Button => "button",
            Role::CheckBox => "check_box",
            Role::RadioButton => "radio_button",
            Role::ComboBox => "combo_box",
            Role::List => "list",
            Role::ListItem => "list_item",
            Role::Tree => "tree",
            Role::TreeItem => "tree_item",
            Role::Table => "table",
            Role::Row => "row",
            Role::Cell => "cell",
            Role::Link => "link",
            Role::Image => "image",
            Role::Slider => "slider",
            Role::ProgressBar => "progress_bar",
            Role::Menu => "menu",
            Role::MenuItem => "menu_item",
            Role::Tab => "tab",
            Role::TabPanel => "tab_panel",
            Role::Toolbar => "toolbar",
            Role::Terminal => "terminal",
        }
    }

    /// Human-facing role label; empty for an unknown role.
    pub open spec fn speech_name_spec(self) -> Seq<char> {
        match self {
            Role::Unknown => ""@,
            Role::Application => "application"@,
            Role::Window => "window"@,
            Role::Dialog => "dialog"@,
            Role::Document => "document"@,
            Role::Heading => "heading"@,
            Role::Paragraph => "paragraph"@,
            Role::StaticText => "text"@,
            Role::EditableText => "edit"@,
            Role::Button => "button"@,
            Role::CheckBox => "check box"@,
            Role::RadioButton => "radio button"@,
            Role::ComboBox => "combo box"@,
            Role::List => "list"@,
            Role::ListItem => "list item"@,
            Role::Tree => "tree view"@,
            Role::TreeItem => "tree view item"@,
            Role::Table => "table"@,
            Role::Row => "row"@,
            Role::Cell => "cell"@,
            Role::Link => "link"@,
            Role::Image => "graphic"@,
            Role::Slider => "slider"@,
            Role::ProgressBar => "progress bar"@,
            Role::Menu => "menu"@,
            Role::MenuItem => "menu item"@,
            Role::Tab => "tab"@,
            Role::TabPanel => "tab control"@,
            Role::Toolbar => "tool bar"@,
            Role::Terminal => "terminal"@,
        }
    }

    /// Human-facing role label. Canonical names remain stable for logs and
    /// tests; speech labels can evolve or be localized independently.
    pub fn speech_name(self) -> (r: &'static str)
        ensures
            r@ == self.speech_name_spec(),
    {
        match self {
            Role::Unknown => "",
            Role::Application => "application",
            Role::Window => "window",
            Role::Dialog => "dialog",
            Role::Document => "document",
            Role::Heading => "heading",
            Role::Paragraph => "paragraph",
            Role::StaticText => "text",
            Role::EditableText => "edit",
            Role::Button => "button",
            Role::CheckBox => "check box",
            Role::RadioButton => "radio button",
            Role::ComboBox => "combo box",
            Role::List => "list",
            Role::ListItem => "list item",
            Role::Tree => "tree view",
            Role::TreeItem => "tree view item",
            Role::Table => "table",
            Role::Row => "row",
            Role::Cell => "cell",
            Role::Link => "link",
            Role::Image => "graphic",
            Role::Slider => "slider",
            Role::ProgressBar => "progress bar",
            Role::Menu => "menu",
            Role::MenuItem => "menu item",
            Role::Tab => "tab",
            Role::TabPanel => "tab control",
            Role::Toolbar => "tool bar",
            Role::Terminal => "terminal",
        }
    }

    /// Roles whose current value is part of the focus announcement.
    pub open spec fn reports_value_spec(self) -> bool {
        self == Role::EditableText || self == Role::ComboBox || self == Role::Slider || self
            == Role::ProgressBar
    }

    pub fn reports_value_on_focus(self) -> (r: bool)
        ensures
            r == self.reports_value_spec(),
    {
        match self {
            Role::EditableText | Role::ComboBox | Role::Slider | Role::ProgressBar => true,
            _ => false,
        }
    }

    /// The text that `Display` writes for a role: its canonical name.
    pub fn to_string(&self) -> (r: String)
        ensures
            r@ == self.canonical_name_spec(),
    {
        owned(self.canonical_name())
    }
}

/// Normalized state flag of an accessible object.
#[derive(Debug, Clone, Copy, PartialEq, Eq, Structural, Hash)]
pub enum State {
    Focused,
    Focusable,
    Enabled,
    Disabled,
    Selected,
    Checked,
    Mixed,
    Expanded,
    Collapsed,
    ReadOnly,
    Editable,
    Required,
    Invalid,
    Busy,
    Multiline,
    Password,
    Offscreen,
}

impl State {
    pub open spec fn canonical_name_spec(self) -> Seq<char> {
        match self {
            State::Focused => "focused"@,
            State::Focusable => "focusable"@,
            State::Enabled => "enabled"@,
            State::Disabled => "disabled"@,
            State::Selected => "selected"@,
            State::Checked => "checked"@,
            State::Mixed => "mixed"@,
            State::Expanded => "expanded"@,
            State::Collapsed => "collapsed"@,
            State::ReadOnly => "read_only"@,
            State::Editable => "editable"@,
            State::Required => "required"@,
            State::Invalid => "invalid"@,
            State::Busy => "busy"@,
            State::Multiline => "multiline"@,
            State::Password => "password"@,
            State::Offscreen => "offscreen"@,
        }
    }

    pub fn canonical_name(self) -> (r: &'static str)
        ensures
            r@ == self.canonical_name_spec(),
    {
        match self {
            State::Focused => "focused",
            State::Focusable => "focusable",
            State::Enabled => "enabled",
            State::Disabled => "disabled",
            State::Selected => "selected",
            State::Checked => "checked",
            State::Mixed => "mixed",
            State::Expanded => "expanded",
            State::Collapsed => "collapsed",
            State::ReadOnly => "read_only",
            State::Editable => "editable",
            State::Required => "required",
            State::Invalid => "invalid",
            State::Busy => "busy",
            State::Multiline => "multiline",
            State::Password => "password",
            State::Offscreen => "offscreen",
        }
    }
}

/// Whether `state` occurs in a state list.
pub fn states_contain(states: &Vec<State>, state: State) -> (r: bool)
    ensures
        r == states@.contains(state),
{
    let mut i: usize = 0;
    while i < states.len()
        invariant
            i <= states@.len(),
            forall|k: int| 0 <= k < i ==> states@[k] != state,
        decreases states@.len() - i,
    {
        if states[i] == state {
            assert(states@[i as int] == state);
            return true;
        }
        i = i + 1;
    }
    false
}

/// A platform-neutral accessible object, as an adapter hands it to the core.
///
/// Screen geometry is kept by the platform adapters; nothing in the core reads it.
#[derive(Debug, Clone, PartialEq)]
pub struct AccessibleNode {
    pub process_id: i64,
    pub platform_id: String,
    pub role: Role,
    pub native_role: String,
    pub name: String,
    pub description: String,
    pub value: String,
    pub states: Vec<State>,
}

impl AccessibleNode {
    pub open spec fn has_state_spec(&self, state: State) -> bool {
        self.states@.contains(state)
    }

    /// The text that identifies a node: its name, else its value unless the node
    /// is a password field, else its description, else nothing.
    pub open spec fn primary_text_spec(&self) -> Seq<char> {
        if self.name@.len() > 0 {
            self.name@
        } else if self.value@.len() > 0 && !self.has_state_spec(State::Password) {
            self.value@
        } else if self.description@.len() > 0 {
            self.description@
        } else {
            Seq::empty()
        }
    }

    /// The value that may be announced: trimmed, and never that of a password field.
    pub open spec fn safe_value_spec(&self) -> Seq<char> {
        if self.has_state_spec(State::Password) {
            Seq::empty()
        } else {
            trim_seq(self.value@)
        }
    }

    pub fn has_state(&self, state: State) -> (r: bool)
        ensures
            r == self.has_state_spec(state),
    {
        states_contain(&self.states, state)
    }

    pub fn primary_text(&self) -> (r: &str)
        ensures
            r@ == self.primary_text_spec(),
    {
        if !self.name.as_str().is_empty() {
            self.name.as_str()
        } else if !self.value.as_str().is_empty() && !self.has_state(State::Password) {
            self.value.as_str()
        } else if !self.description.as_str().is_empty() {
            self.description.as_str()
        } else {
            empty_str()
        }
    }

    pub fn safe_value(&self) -> (r: &str)
        ensures
            r@ == self.safe_value_spec(),
    {
        if self.has_state(State::Password) {
            empty_str()
        } else {
            trim(self.value.as_str())
        }
    }
}

impl Default for AccessibleNode {
    fn default() -> (r: Self)
        ensures
            r.process_id == 0,
            r.platform_id@ == Seq::<char>::empty(),
            r.role == Role::Unknown,
            r.native_role@ == Seq::<char>::empty(),
            r.name@ == Seq::<char>::empty(),
            r.description@ == Seq::<char>::empty(),
            r.value@ == Seq::<char>::empty(),
            r.states@ == Seq::<State>::empty(),
    {
        AccessibleNode {
            process_id: 0,
            platform_id: String::new(),
            role: Role::Unknown,
            native_role: String::new(),
            name: String::new(),
            description: String::new(),
            value: String::new(),
            states: Vec::new(),
        }
    }
}

/// Whether a state list holds exactly the states of place below `bound` that
/// `present` admits, each once and in increasing place.
pub open spec fn listing_invariant(
    states: Seq<State>,
    rank: spec_fn(State) -> int,
    present: spec_fn(State) -> bool,
    bound: int,
) -> bool {
    &&& forall|s: State| #[trigger] states.contains(s) <==> (rank(s) < bound && present(s))
    &&& forall|i: int, j: int| 0 <= i < j < states.len() ==> rank(#[trigger] states[i]) < rank(#[trigger] states[j])
    &&& forall|i: int| 0 <= i < states.len() ==> rank(#[trigger] states[i]) < bound
}

/// Appending the one present state of place `bound`, if any, keeps the
/// listing invariant one place further.
pub proof fn lemma_listing_step(
    before: Seq<State>,
    rank: spec_fn(State) -> int,
    present: spec_fn(State) -> bool,
    bound: int,
    candidate: Option<State>,
)
    requires
        listing_invariant(before, rank, present, bound),
        forall|s: State| rank(s) == bound && #[trigger] present(s) ==> candidate == Some(s),
        candidate matches Some(x) ==> rank(x) == bound && present(x),
    ensures
        candidate matches Some(x) ==> !before.contains(x),
        listing_invariant(
            match candidate {
                Some(x) => before.push(x),
                None => before,
            },
            rank,
            present,
            bound + 1,
        ),
{
    match candidate {
        None => {
            assert forall|s: State| #[trigger] before.contains(s) <==> (rank(s) < bound + 1 && present(s)) by {
                if rank(s) == bound && present(s) {
                    assert(candidate == Some(s));
                }
            }
        },
        Some(x) => {
            if before.contains(x) {
                let k = choose|k: int| 0 <= k < before.len() && before[k] == x;
                assert(rank(before[k]) < bound);
            }
            let r = before.push(x);
            assert forall|s: State| #[trigger] r.contains(s) <==> (rank(s) < bound + 1 && present(s)) by {
                if r.contains(s) {
                    let k = choose|k: int| 0 <= k < r.len() && r[k] == s;
                    if k < before.len() {
                        assert(before[k] == s);
                        assert(before.contains(s));
                    }
                }
                if rank(s) < bound && present(s) {
                    assert(before.contains(s));
                    let k = choose|k: int| 0 <= k < before.len() && before[k] == s;
                    assert(r[k] == s);
                }
                if rank(s) == bound && present(s) {
                    assert(candidate == Some(s));
                    assert(r[before.len() as int] == s);
                }
            }
            assert forall|i: int, j: int| 0 <= i < j < r.len() implies rank(#[trigger] r[i]) < rank(#[trigger] r[j]) by {
                if j < before.len() {
                    assert(r[i] == before[i] && r[j] == before[j]);
                } else {
                    assert(r[i] == before[i]);
                }
            }
            assert forall|i: int| 0 <= i < r.len() implies rank(#[trigger] r[i]) < bound + 1 by {
                if i < before.len() {
                    assert(r[i] == before[i]);
                }
            }
        },
    }
}

} // verus!
