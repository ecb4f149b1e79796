//! The UI Automation adapter boundary: raw UIA properties become a
//! platform-neutral accessible node, with password values removed here.
use vstd::prelude::*;

use crate::semantic::{lemma_listing_step, listing_invariant, states_contain, AccessibleNode, Role, State};
use crate::text::{empty_str, owned};

verus! {

pub const UIA_BUTTON_CONTROL_TYPE_ID: i32 = 50000;
pub const UIA_CHECK_BOX_CONTROL_TYPE_ID: i32 = 50002;
pub const UIA_COMBO_BOX_CONTROL_TYPE_ID: i32 = 50003;
pub const UIA_EDIT_CONTROL_TYPE_ID: i32 = 50004;
pub const UIA_HYPERLINK_CONTROL_TYPE_ID: i32 = 50005;
pub const UIA_IMAGE_CONTROL_TYPE_ID: i32 = 50006;
pub const UIA_LIST_ITEM_CONTROL_TYPE_ID: i32 = 50007;
pub const UIA_LIST_CONTROL_TYPE_ID: i32 = 50008;
pub const UIA_MENU_CONTROL_TYPE_ID: i32 = 50009;
pub const UIA_MENU_BAR_CONTROL_TYPE_ID: i32 = 50010;
pub const UIA_MENU_ITEM_CONTROL_TYPE_ID: i32 = 50011;
pub const UIA_PROGRESS_BAR_CONTROL_TYPE_ID: i32 = 50012;
pub const UIA_RADIO_BUTTON_CONTROL_TYPE_ID: i32 = 50013;
pub const UIA_SLIDER_CONTROL_TYPE_ID: i32 = 50015;
pub const UIA_STATUS_BAR_CONTROL_TYPE_ID: i32 = 50017;
pub const UIA_TAB_CONTROL_TYPE_ID: i32 = 50018;
pub const UIA_TAB_ITEM_CONTROL_TYPE_ID: i32 = 50019;
pub const UIA_TEXT_CONTROL_TYPE_ID: i32 = 50020;
pub const UIA_TOOL_BAR_CONTROL_TYPE_ID: i32 = 50021;
pub const UIA_TOOL_TIP_CONTROL_TYPE_ID: i32 = 50022;
pub const UIA_TREE_CONTROL_TYPE_ID: i32 = 50023;
pub const UIA_TREE_ITEM_CONTROL_TYPE_ID: i32 = 50024;
pub const UIA_DATA_GRID_CONTROL_TYPE_ID: i32 = 50028;
pub const UIA_DATA_ITEM_CONTROL_TYPE_ID: i32 = 50029;
pub const UIA_DOCUMENT_CONTROL_TYPE_ID: i32 = 50030;
pub const UIA_SPLIT_BUTTON_CONTROL_TYPE_ID: i32 = 50031;
pub const UIA_WINDOW_CONTROL_TYPE_ID: i32 = 50032;
pub const UIA_HEADER_CONTROL_TYPE_ID: i32 = 50034;
pub const UIA_HEADER_ITEM_CONTROL_TYPE_ID: i32 = 50035;
pub const UIA_TABLE_CONTROL_TYPE_ID: i32 = 50036;
pub const UIA_TITLE_BAR_CONTROL_TYPE_ID: i32 = 50037;
pub const UIA_APP_BAR_CONTROL_TYPE_ID: i32 = 50040;

/// The UIA properties of one element, as the Windows runtime read them.
#[derive(Debug, Clone, Copy)]
pub struct UiaSemanticInput<'a> {
    pub process_id: i32,
    pub platform_id: &'a str,
    pub control_type_id: i32,
    pub native_role: &'a str,
    pub name: &'a str,
    pub description: &'a str,
    pub value: &'a str,
    pub is_password: bool,
    pub is_enabled: bool,
    pub is_keyboard_focusable: bool,
    pub has_keyboard_focus: bool,
    pub is_offscreen: bool,
    pub is_selected: Option<bool>,
    /// UIA ToggleState: 0=off, 1=on, 2=indeterminate.
    pub toggle_state: Option<i32>,
    /// UIA ExpandCollapseState: 0=collapsed, 1=expanded, 2=partially expanded, 3=leaf.
    pub expand_collapse_state: Option<i32>,
}

/// The adapter's role mapping: status bars, tool tips and title bars read as
/// static text, and headers as rows.
pub open spec fn adapter_role_spec(control_type_id: i32) -> Role {
    match control_type_id {
        50000 | 50031 => Role::Button,
        50002 => Role::CheckBox,
        50003 => Role::ComboBox,
        50004 => Role::EditableText,
        50005 => Role::Link,
        50006 => Role::Image,
        50007 => Role::ListItem,
        50008 => Role::List,
        50009 | 50010 => Role::Menu,
        50011 => Role::MenuItem,
        50012 => Role::ProgressBar,
        50013 => Role::RadioButton,
        50015 => Role::Slider,
        50017 | 50020 | 50022 | 50037 => Role::StaticText,
        50018 => Role::TabPanel,
        50019 => Role::Tab,
        50021 | 50040 => Role::Toolbar,
        50023 => Role::Tree,
        50024 => Role::TreeItem,
        50028 | 50036 => Role::Table,
        50029 | 50034 => Role::Row,
        50035 => Role::Cell,
        50030 => Role::Document,
        50032 => Role::Window,
        _ => Role::Unknown,
    }
}

pub fn role_from_control_type_id(control_type_id: i32) -> (r: Role)
    ensures
        r == adapter_role_spec(control_type_id),
{
    match control_type_id {
        50000 | 50031 => Role::Button,  // Button / SplitButton
        50002 => Role::CheckBox,
        50003 => Role::ComboBox,
        50004 => Role::EditableText,
        50005 => Role::Link,
        50006 => Role::Image,
        50007 => Role::ListItem,
        50008 => Role::List,
        50009 | 50010 => Role::Menu,  // Menu / MenuBar
        50011 => Role::MenuItem,
        50012 => Role::ProgressBar,
        50013 => Role::RadioButton,
        50015 => Role::Slider,
        50017 | 50020 | 50022 | 50037 => Role::StaticText,  // StatusBar / Text / ToolTip / TitleBar
        50018 => Role::TabPanel,  // Tab
        50019 => Role::Tab,  // TabItem
        50021 | 50040 => Role::Toolbar,  // ToolBar / AppBar
        50023 => Role::Tree,
        50024 => Role::TreeItem,
        50028 | 50036 => Role::Table,  // DataGrid / Table
        50029 | 50034 => Role::Row,  // DataItem / Header
        50035 => Role::Cell,  // HeaderItem
        50030 => Role::Document,
        50032 => Role::Window,
        _ => Role::Unknown,
    }
}

/// Adds a state unless it is already listed.
pub open spec fn push_state_spec(states: Seq<State>, state: State) -> Seq<State> {
    if states.contains(state) {
        states
    } else {
        states.push(state)
    }
}

fn push_state(states: &mut Vec<State>, state: State)
    ensures
        final(states)@ == push_state_spec(old(states)@, state),
{
    if !states_contain(states, state) {
        states.push(state);
    }
}

/// The states an element has, in the order the adapter lists them.
pub open spec fn uia_states(input: UiaSemanticInput) -> Seq<State> {
    let s0 = Seq::<State>::empty();
    let s1 = if input.has_keyboard_focus {
        push_state_spec(s0, State::Focused)
    } else {
        s0
    };
    let s2 = if input.is_keyboard_focusable {
        push_state_spec(s1, State::Focusable)
    } else {
        s1
    };
    let s3 = if input.is_enabled {
        push_state_spec(s2, State::Enabled)
    } else {
        push_state_spec(s2, State::Disabled)
    };
    let s4 = if input.is_offscreen {
        push_state_spec(s3, State::Offscreen)
    } else {
        s3
    };
    let s5 = if input.is_password {
        push_state_spec(s4, State::Password)
    } else {
        s4
    };
    let s6 = if adapter_role_spec(input.control_type_id) == Role::EditableText {
        push_state_spec(s5, State::Editable)
    } else {
        s5
    };
    let s7 = if input.is_selected == Some(true) {
        push_state_spec(s6, State::Selected)
    } else {
        s6
    };
    let s8 = match input.toggle_state {
        Some(1) => push_state_spec(s7, State::Checked),
        Some(2) => push_state_spec(s7, State::Mixed),
        _ => s7,
    };
    match input.expand_collapse_state {
        Some(0) => push_state_spec(s8, State::Collapsed),
        Some(1) | Some(2) => push_state_spec(s8, State::Expanded),
        _ => s8,
    }
}

/// Builds the platform-neutral node for an element. A password field's value
/// never crosses this boundary.
pub fn build_accessible_node(input: UiaSemanticInput<'_>) -> (node: AccessibleNode)
    ensures
        node.process_id == input.process_id as i64,
        node.platform_id@ == input.platform_id@,
        node.role == adapter_role_spec(input.control_type_id),
        node.native_role@ == input.native_role@,
        node.name@ == input.name@,
        node.description@ == input.description@,
        node.value@ == (if input.is_password {
            Seq::<char>::empty()
        } else {
            input.value@
        }),
        node.states@ == uia_states(input),
{
    let role = role_from_control_type_id(input.control_type_id);
    let mut states: Vec<State> = Vec::new();

    if input.has_keyboard_focus {
        push_state(&mut states, State::Focused);
    }
    if input.is_keyboard_focusable {
        push_state(&mut states, State::Focusable);
    }
    if input.is_enabled {
        push_state(&mut states, State::Enabled);
    } else {
        push_state(&mut states, State::Disabled);
    }
    if input.is_offscreen {
        push_state(&mut states, State::Offscreen);
    }
    if input.is_password {
        push_state(&mut states, State::Password);
    }
    if role == Role::EditableText {
        push_state(&mut states, State::Editable);
    }
    if input.is_selected == Some(true) {
        push_state(&mut states, State::Selected);
    }
    match input.toggle_state {
        Some(1) => push_state(&mut states, State::Checked),
        Some(2) => push_state(&mut states, State::Mixed),
        _ => {},
    }
    match input.expand_collapse_state {
        Some(0) => push_state(&mut states, State::Collapsed),
        Some(1) | Some(2) => push_state(&mut states, State::Expanded),
        _ => {},
    }

    AccessibleNode {
        process_id: input.process_id as i64,
        platform_id: owned(input.platform_id),
        role,
        native_role: owned(input.native_role),
        name: owned(input.name),
        description: owned(input.description),
        value: if input.is_password {
            owned(empty_str())
        } else {
            owned(input.value)
        },
        states,
    }
}

proof fn lemma_push_state_distinct(states: Seq<State>, state: State)
    requires
        states.no_duplicates(),
    ensures
        push_state_spec(states, state).no_duplicates(),
        forall|s: State| #[trigger] push_state_spec(states, state).contains(s) <==> (states.contains(s) || s == state),
{
    if !states.contains(state) {
        let r = states.push(state);
        assert(r[r.len() - 1] == state);
        assert forall|s: State| #[trigger] r.contains(s) <==> (states.contains(s) || s == state) by {
            if r.contains(s) {
                let k = choose|k: int| 0 <= k < r.len() && r[k] == s;
                if k < states.len() {
                    assert(states[k] == s);
                }
            }
            if states.contains(s) {
                let k = choose|k: int| 0 <= k < states.len() && states[k] == s;
                assert(r[k] == s);
            }
        }
    }
}

/// The adapter lists every state at most once, marks an element either
/// enabled or disabled but never both, and always flags a password field.
#[verifier::rlimit(50)]
pub proof fn adapter_states_are_consistent(input: UiaSemanticInput)
    ensures
        uia_states(input).no_duplicates(),
        uia_states(input).contains(State::Enabled) != uia_states(input).contains(State::Disabled),
        input.is_password ==> uia_states(input).contains(State::Password),
        adapter_role_spec(input.control_type_id) == Role::EditableText ==> uia_states(input).contains(State::Editable),
{
    let s0 = Seq::<State>::empty();
    let s1 = if input.has_keyboard_focus { push_state_spec(s0, State::Focused) } else { s0 };
    lemma_push_state_distinct(s0, State::Focused);
    let s2 = if input.is_keyboard_focusable { push_state_spec(s1, State::Focusable) } else { s1 };
    lemma_push_state_distinct(s1, State::Focusable);
    let s3 = if input.is_enabled { push_state_spec(s2, State::Enabled) } else { push_state_spec(s2, State::Disabled) };
    lemma_push_state_distinct(s2, State::Enabled);
    lemma_push_state_distinct(s2, State::Disabled);
    assert(!s2.contains(State::Enabled) && !s2.contains(State::Disabled));
    let s4 = if input.is_offscreen { push_state_spec(s3, State::Offscreen) } else { s3 };
    lemma_push_state_distinct(s3, State::Offscreen);
    let s5 = if input.is_password { push_state_spec(s4, State::Password) } else { s4 };
    lemma_push_state_distinct(s4, State::Password);
    let s6 = if adapter_role_spec(input.control_type_id) == Role::EditableText { push_state_spec(s5, State::Editable) } else { s5 };
    lemma_push_state_distinct(s5, State::Editable);
    let s7 = if input.is_selected == Some(true) { push_state_spec(s6, State::Selected) } else { s6 };
    lemma_push_state_distinct(s6, State::Selected);
    let s8 = match input.toggle_state {
        Some(1) => push_state_spec(s7, State::Checked),
        Some(2) => push_state_spec(s7, State::Mixed),
        _ => s7,
    };
    lemma_push_state_distinct(s7, State::Checked);
    lemma_push_state_distinct(s7, State::Mixed);
    lemma_push_state_distinct(s8, State::Collapsed);
    lemma_push_state_distinct(s8, State::Expanded);
}

/// The place of a state kind in the adapter's listing order; states of equal
/// place exclude each other.
pub open spec fn adapter_state_rank(state: State) -> int {
    match state {
        State::Focused => 0,
        State::Focusable => 1,
        State::Enabled | State::Disabled => 2,
        State::Offscreen => 3,
        State::Password => 4,
        State::Editable => 5,
        State::Selected => 6,
        State::Checked | State::Mixed => 7,
        State::Collapsed | State::Expanded => 8,
        _ => 9,
    }
}

/// Whether the states are listed in strictly increasing place.
pub open spec fn listed_in_rank_order(states: Seq<State>) -> bool {
    forall|i: int, j: int|
        0 <= i < j < states.len() ==> adapter_state_rank(#[trigger] states[i]) < adapter_state_rank(
            #[trigger] states[j],
        )
}

/// The intermediate state lists of `uia_states`, after each property.
spec fn uia_state_steps(input: UiaSemanticInput) -> Seq<Seq<State>> {
    let s0 = Seq::<State>::empty();
    let s1 = if input.has_keyboard_focus { push_state_spec(s0, State::Focused) } else { s0 };
    let s2 = if input.is_keyboard_focusable { push_state_spec(s1, State::Focusable) } else { s1 };
    let s3 = if input.is_enabled { push_state_spec(s2, State::Enabled) } else { push_state_spec(s2, State::Disabled) };
    let s4 = if input.is_offscreen { push_state_spec(s3, State::Offscreen) } else { s3 };
    let s5 = if input.is_password { push_state_spec(s4, State::Password) } else { s4 };
    let s6 = if adapter_role_spec(input.control_type_id) == Role::EditableText { push_state_spec(s5, State::Editable) } else { s5 };
    let s7 = if input.is_selected == Some(true) { push_state_spec(s6, State::Selected) } else { s6 };
    let s8 = match input.toggle_state {
        Some(1) => push_state_spec(s7, State::Checked),
        Some(2) => push_state_spec(s7, State::Mixed),
        _ => s7,
    };
    seq![s0, s1, s2, s3, s4, s5, s6, s7, s8]
}

/// Whether a state is present by the UIA properties.
spec fn uia_state_present(input: UiaSemanticInput, s: State) -> bool {
    match s {
        State::Focused => input.has_keyboard_focus,
        State::Focusable => input.is_keyboard_focusable,
        State::Enabled => input.is_enabled,
        State::Disabled => !input.is_enabled,
        State::Offscreen => input.is_offscreen,
        State::Password => input.is_password,
        State::Editable => input.control_type_id == 50004,
        State::Selected => input.is_selected == Some(true),
        State::Checked => input.toggle_state == Some(1i32),
        State::Mixed => input.toggle_state == Some(2i32),
        State::Collapsed => input.expand_collapse_state == Some(0i32),
        State::Expanded => input.expand_collapse_state == Some(1i32) || input.expand_collapse_state
            == Some(2i32),
        _ => false,
    }
}

proof fn lemma_uia_listing(input: UiaSemanticInput)
    ensures
        listing_invariant(uia_states(input), |s: State| adapter_state_rank(s), |s: State| uia_state_present(input, s), 9),
{
    let rank = |s: State| adapter_state_rank(s);
    let p = |s: State| uia_state_present(input, s);
    let st = uia_state_steps(input);
    assert(listing_invariant(st[0], rank, p, 0));
    lemma_listing_step(st[0], rank, p, 0, if input.has_keyboard_focus { Some(State::Focused) } else { None });
    lemma_listing_step(st[1], rank, p, 1, if input.is_keyboard_focusable { Some(State::Focusable) } else { None });
    lemma_listing_step(st[2], rank, p, 2, if input.is_enabled { Some(State::Enabled) } else { Some(State::Disabled) });
    lemma_listing_step(st[3], rank, p, 3, if input.is_offscreen { Some(State::Offscreen) } else { None });
    lemma_listing_step(st[4], rank, p, 4, if input.is_password { Some(State::Password) } else { None });
    assert(adapter_role_spec(input.control_type_id) == Role::EditableText <==> input.control_type_id == 50004);
    lemma_listing_step(st[5], rank, p, 5, if input.control_type_id == 50004 { Some(State::Editable) } else { None });
    lemma_listing_step(st[6], rank, p, 6, if input.is_selected == Some(true) { Some(State::Selected) } else { None });
    lemma_listing_step(
        st[7],
        rank,
        p,
        7,
        match input.toggle_state {
            Some(1) => Some(State::Checked),
            Some(2) => Some(State::Mixed),
            _ => None,
        },
    );
    lemma_listing_step(
        st[8],
        rank,
        p,
        8,
        match input.expand_collapse_state {
            Some(0) => Some(State::Collapsed),
            Some(1) | Some(2) => Some(State::Expanded),
            _ => None,
        },
    );
    assert forall|s: State| #[trigger] uia_states(input).contains(s) <==> (rank(s) < 9 && p(s)) by {
        assert(rank(s) == 9 ==> !p(s));
    }
}

/// Each state of a UIA element follows from its properties alone: focus,
/// focusability, enabled or disabled, off-screen, password, an edit control
/// for editable, `IsSelected`, ToggleState on (checked) or indeterminate
/// (mixed), and ExpandCollapseState collapsed (collapsed) or expanded and
/// partially expanded (expanded); no other state is ever reported. The states
/// are listed in that order, so the list is fixed by the properties.
pub proof fn adapter_states_follow_uia_properties(input: UiaSemanticInput)
    ensures
        uia_states(input).contains(State::Focused) == input.has_keyboard_focus,
        uia_states(input).contains(State::Focusable) == input.is_keyboard_focusable,
        uia_states(input).contains(State::Enabled) == input.is_enabled,
        uia_states(input).contains(State::Disabled) == !input.is_enabled,
        uia_states(input).contains(State::Offscreen) == input.is_offscreen,
        uia_states(input).contains(State::Password) == input.is_password,
        uia_states(input).contains(State::Editable) == (input.control_type_id == 50004),
        uia_states(input).contains(State::Selected) == (input.is_selected == Some(true)),
        uia_states(input).contains(State::Checked) == (input.toggle_state == Some(1i32)),
        uia_states(input).contains(State::Mixed) == (input.toggle_state == Some(2i32)),
        uia_states(input).contains(State::Collapsed) == (input.expand_collapse_state == Some(0i32)),
        uia_states(input).contains(State::Expanded) == (input.expand_collapse_state == Some(1i32)
            || input.expand_collapse_state == Some(2i32)),
        !uia_states(input).contains(State::ReadOnly),
        !uia_states(input).contains(State::Required),
        !uia_states(input).contains(State::Invalid),
        !uia_states(input).contains(State::Busy),
        !uia_states(input).contains(State::Multiline),
        listed_in_rank_order(uia_states(input)),
{
    lemma_uia_listing(input);
    let f = uia_states(input);
    assert(listed_in_rank_order(f));
    assert(f.contains(State::Focused) == uia_state_present(input, State::Focused));
    assert(f.contains(State::Focusable) == uia_state_present(input, State::Focusable));
    assert(f.contains(State::Enabled) == uia_state_present(input, State::Enabled));
    assert(f.contains(State::Disabled) == uia_state_present(input, State::Disabled));
    assert(f.contains(State::Offscreen) == uia_state_present(input, State::Offscreen));
    assert(f.contains(State::Password) == uia_state_present(input, State::Password));
    assert(f.contains(State::Editable) == uia_state_present(input, State::Editable));
    assert(f.contains(State::Selected) == uia_state_present(input, State::Selected));
    assert(f.contains(State::Checked) == uia_state_present(input, State::Checked));
    assert(f.contains(State::Mixed) == uia_state_present(input, State::Mixed));
    assert(f.contains(State::Collapsed) == uia_state_present(input, State::Collapsed));
    assert(f.contains(State::Expanded) == uia_state_present(input, State::Expanded));
    assert(f.contains(State::ReadOnly) == uia_state_present(input, State::ReadOnly));
    assert(f.contains(State::Required) == uia_state_present(input, State::Required));
    assert(f.contains(State::Invalid) == uia_state_present(input, State::Invalid));
    assert(f.contains(State::Busy) == uia_state_present(input, State::Busy));
    assert(f.contains(State::Multiline) == uia_state_present(input, State::Multiline));
}

/// Where the basic UIA mapping knows a control type, the adapter maps it to
/// the same role; the adapter only adds roles for ids the basic mapping
/// leaves unknown.
pub proof fn adapter_mapping_refines_basic_mapping(control_type_id: i32)
    ensures
        crate::uia::uia_role_spec(control_type_id) != Role::Unknown ==> adapter_role_spec(control_type_id)
            == crate::uia::uia_role_spec(control_type_id),
{
}

/// The adapter's role table: each UIA control type id maps to its role, and
/// every other id to the unknown role.
pub proof fn adapter_role_table(control_type_id: i32)
    ensures
        adapter_role_spec(50000i32) == Role::Button,
        adapter_role_spec(50031i32) == Role::Button,
        adapter_role_spec(50002i32) == Role::CheckBox,
        adapter_role_spec(50003i32) == Role::ComboBox,
        adapter_role_spec(50004i32) == Role::EditableText,
        adapter_role_spec(50005i32) == Role::Link,
        adapter_role_spec(50006i32) == Role::Image,
        adapter_role_spec(50007i32) == Role::ListItem,
        adapter_role_spec(50008i32) == Role::List,
        adapter_role_spec(50009i32) == Role::Menu,
        adapter_role_spec(50010i32) == Role::Menu,
        adapter_role_spec(50011i32) == Role::MenuItem,
        adapter_role_spec(50012i32) == Role::ProgressBar,
        adapter_role_spec(50013i32) == Role::RadioButton,
        adapter_role_spec(50015i32) == Role::Slider,
        adapter_role_spec(50017i32) == Role::StaticText,
        adapter_role_spec(50020i32) == Role::StaticText,
        adapter_role_spec(50022i32) == Role::StaticText,
        adapter_role_spec(50037i32) == Role::StaticText,
        adapter_role_spec(50018i32) == Role::TabPanel,
        adapter_role_spec(50019i32) == Role::Tab,
        adapter_role_spec(50021i32) == Role::Toolbar,
        adapter_role_spec(50040i32) == Role::Toolbar,
        adapter_role_spec(50023i32) == Role::Tree,
        adapter_role_spec(50024i32) == Role::TreeItem,
        adapter_role_spec(50028i32) == Role::Table,
        adapter_role_spec(50036i32) == Role::Table,
        adapter_role_spec(50029i32) == Role::Row,
        adapter_role_spec(50034i32) == Role::Row,
        adapter_role_spec(50035i32) == Role::Cell,
        adapter_role_spec(50030i32) == Role::Document,
        adapter_role_spec(50032i32) == Role::Window,
        !(control_type_id == 50000 || control_type_id == 50031 || control_type_id == 50002 || control_type_id == 50003 || control_type_id == 50004 || control_type_id == 50005 || control_type_id == 50006 || control_type_id == 50007 || control_type_id == 50008 || control_type_id == 50009 || control_type_id == 50010 || control_type_id == 50011 || control_type_id == 50012 || control_type_id == 50013 || control_type_id == 50015 || control_type_id == 50017 || control_type_id == 50020 || control_type_id == 50022 || control_type_id == 50037 || control_type_id == 50018 || control_type_id == 50019 || control_type_id == 50021 || control_type_id == 50040 || control_type_id == 50023 || control_type_id == 50024 || control_type_id == 50028 || control_type_id == 50036 || control_type_id == 50029 || control_type_id == 50034 || control_type_id == 50035 || control_type_id == 50030 || control_type_id == 50032) ==> adapter_role_spec(control_type_id) == Role::Unknown,
{
}

} // verus!
