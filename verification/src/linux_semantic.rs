//! Mapping of AT-SPI2 roles and state sets (Linux) to normalized roles and
//! states. Roles are AT-SPI role numbers and state sets are the AT-SPI state
//! bit set, as they travel over D-Bus.
use vstd::prelude::*;

use crate::semantic::{lemma_listing_step, listing_invariant, State};
use crate::semantic::Role;

verus! {
pub const ATSPI_ROLE_ALERT: u32 = 2;
pub const ATSPI_ROLE_CHECK_BOX: u32 = 7;
pub const ATSPI_ROLE_CHECK_MENU_ITEM: u32 = 8;
pub const ATSPI_ROLE_COMBO_BOX: u32 = 11;
pub const ATSPI_ROLE_DIALOG: u32 = 16;
pub const ATSPI_ROLE_FRAME: u32 = 23;
pub const ATSPI_ROLE_IMAGE: u32 = 27;
pub const ATSPI_ROLE_LABEL: u32 = 29;
pub const ATSPI_ROLE_LIST: u32 = 31;
pub const ATSPI_ROLE_LIST_ITEM: u32 = 32;
pub const ATSPI_ROLE_MENU_BAR: u32 = 34;
pub const ATSPI_ROLE_MENU_ITEM: u32 = 35;
pub const ATSPI_ROLE_PAGE_TAB: u32 = 37;
pub const ATSPI_ROLE_PAGE_TAB_LIST: u32 = 38;
pub const ATSPI_ROLE_PASSWORD_TEXT: u32 = 40;
pub const ATSPI_ROLE_POPUP_MENU: u32 = 41;
pub const ATSPI_ROLE_PROGRESS_BAR: u32 = 42;
pub const ATSPI_ROLE_BUTTON: u32 = 43;
pub const ATSPI_ROLE_RADIO_BUTTON: u32 = 44;
pub const ATSPI_ROLE_RADIO_MENU_ITEM: u32 = 45;
pub const ATSPI_ROLE_SLIDER: u32 = 51;
pub const ATSPI_ROLE_SPIN_BUTTON: u32 = 52;
pub const ATSPI_ROLE_TABLE: u32 = 55;
pub const ATSPI_ROLE_TABLE_CELL: u32 = 56;
pub const ATSPI_ROLE_TABLE_COLUMN_HEADER: u32 = 57;
pub const ATSPI_ROLE_TABLE_ROW_HEADER: u32 = 58;
pub const ATSPI_ROLE_TEAROFF_MENU_ITEM: u32 = 59;
pub const ATSPI_ROLE_TERMINAL: u32 = 60;
pub const ATSPI_ROLE_TEXT: u32 = 61;
pub const ATSPI_ROLE_TOGGLE_BUTTON: u32 = 62;
pub const ATSPI_ROLE_TOOL_BAR: u32 = 63;
pub const ATSPI_ROLE_TREE: u32 = 65;
pub const ATSPI_ROLE_TREE_TABLE: u32 = 66;
pub const ATSPI_ROLE_WINDOW: u32 = 69;
pub const ATSPI_ROLE_PARAGRAPH: u32 = 73;
pub const ATSPI_ROLE_APPLICATION: u32 = 75;
pub const ATSPI_ROLE_EDITBAR: u32 = 77;
pub const ATSPI_ROLE_ENTRY: u32 = 79;
pub const ATSPI_ROLE_DOCUMENT_FRAME: u32 = 82;
pub const ATSPI_ROLE_HEADING: u32 = 83;
pub const ATSPI_ROLE_LINK: u32 = 88;
pub const ATSPI_ROLE_TABLE_ROW: u32 = 90;
pub const ATSPI_ROLE_TREE_ITEM: u32 = 91;
pub const ATSPI_ROLE_DOCUMENT_SPREADSHEET: u32 = 92;
pub const ATSPI_ROLE_DOCUMENT_PRESENTATION: u32 = 93;
pub const ATSPI_ROLE_DOCUMENT_TEXT: u32 = 94;
pub const ATSPI_ROLE_DOCUMENT_WEB: u32 = 95;
pub const ATSPI_ROLE_DOCUMENT_EMAIL: u32 = 96;
pub const ATSPI_ROLE_LIST_BOX: u32 = 98;
pub const ATSPI_ROLE_IMAGE_MAP: u32 = 100;
pub const ATSPI_ROLE_LEVEL_BAR: u32 = 103;
pub const ATSPI_ROLE_STATIC: u32 = 116;
pub const ATSPI_ROLE_PUSH_BUTTON_MENU: u32 = 129;

pub const ATSPI_STATE_INVALID: u64 = 0;
pub const ATSPI_STATE_BUSY: u64 = 3;
pub const ATSPI_STATE_CHECKED: u64 = 4;
pub const ATSPI_STATE_COLLAPSED: u64 = 5;
pub const ATSPI_STATE_EDITABLE: u64 = 7;
pub const ATSPI_STATE_ENABLED: u64 = 8;
pub const ATSPI_STATE_EXPANDED: u64 = 10;
pub const ATSPI_STATE_FOCUSABLE: u64 = 11;
pub const ATSPI_STATE_FOCUSED: u64 = 12;
pub const ATSPI_STATE_MULTI_LINE: u64 = 17;
pub const ATSPI_STATE_SELECTED: u64 = 23;
pub const ATSPI_STATE_INDETERMINATE: u64 = 32;
pub const ATSPI_STATE_REQUIRED: u64 = 33;
pub const ATSPI_STATE_INVALID_ENTRY: u64 = 36;
pub const ATSPI_STATE_READ_ONLY: u64 = 43;

/// Whether the AT-SPI state numbered `state` is in the bit set `states`.
pub open spec fn has_atspi_state(states: u64, state: u64) -> bool {
    (states >> state) & 1u64 == 1u64
}

/// `StateSet::contains` for a single state.
pub fn atspi_states_contain(states: u64, state: u64) -> (r: bool)
    requires
        state < 64,
    ensures
        r == has_atspi_state(states, state),
{
    (states >> state) & 1u64 == 1u64
}

/// The normalized role of an AT-SPI role; a text object counts as editable
/// when its state set says so.
pub open spec fn atspi_role_spec(role: u32, states: u64) -> Role {
    if role == ATSPI_ROLE_APPLICATION {
        Role::Application
    } else if role == ATSPI_ROLE_WINDOW || role == ATSPI_ROLE_FRAME {
        Role::Window
    } else if role == ATSPI_ROLE_DIALOG || role == ATSPI_ROLE_ALERT {
        Role::Dialog
    } else if role == ATSPI_ROLE_DOCUMENT_FRAME || role == ATSPI_ROLE_DOCUMENT_TEXT || role == ATSPI_ROLE_DOCUMENT_WEB || role == ATSPI_ROLE_DOCUMENT_EMAIL || role == ATSPI_ROLE_DOCUMENT_PRESENTATION || role == ATSPI_ROLE_DOCUMENT_SPREADSHEET {
        Role::Document
    } else if role == ATSPI_ROLE_HEADING {
        Role::Heading
    } else if role == ATSPI_ROLE_PARAGRAPH {
        Role::Paragraph
    } else if role == ATSPI_ROLE_STATIC || role == ATSPI_ROLE_LABEL {
        Role::StaticText
    } else if role == ATSPI_ROLE_ENTRY || role == ATSPI_ROLE_EDITBAR || role == ATSPI_ROLE_PASSWORD_TEXT {
        Role::EditableText
    } else if role == ATSPI_ROLE_TEXT && has_atspi_state(states, ATSPI_STATE_EDITABLE) {
        Role::EditableText
    } else if role == ATSPI_ROLE_TEXT {
        Role::StaticText
    } else if role == ATSPI_ROLE_BUTTON || role == ATSPI_ROLE_TOGGLE_BUTTON || role == ATSPI_ROLE_PUSH_BUTTON_MENU {
        Role::Button
    } else if role == ATSPI_ROLE_CHECK_BOX {
        Role::CheckBox
    } else if role == ATSPI_ROLE_RADIO_BUTTON {
        Role::RadioButton
    } else if role == ATSPI_ROLE_COMBO_BOX || role == ATSPI_ROLE_SPIN_BUTTON {
        Role::ComboBox
    } else if role == ATSPI_ROLE_LIST || role == ATSPI_ROLE_LIST_BOX {
        Role::List
    } else if role == ATSPI_ROLE_LIST_ITEM {
        Role::ListItem
    } else if role == ATSPI_ROLE_TREE {
        Role::Tree
    } else if role == ATSPI_ROLE_TREE_ITEM {
        Role::TreeItem
    } else if role == ATSPI_ROLE_TABLE || role == ATSPI_ROLE_TREE_TABLE {
        Role::Table
    } else if role == ATSPI_ROLE_TABLE_ROW {
        Role::Row
    } else if role == ATSPI_ROLE_TABLE_CELL || role == ATSPI_ROLE_TABLE_COLUMN_HEADER || role == ATSPI_ROLE_TABLE_ROW_HEADER {
        Role::Cell
    } else if role == ATSPI_ROLE_LINK {
        Role::Link
    } else if role == ATSPI_ROLE_IMAGE || role == ATSPI_ROLE_IMAGE_MAP {
        Role::Image
    } else if role == ATSPI_ROLE_SLIDER {
        Role::Slider
    } else if role == ATSPI_ROLE_PROGRESS_BAR || role == ATSPI_ROLE_LEVEL_BAR {
        Role::ProgressBar
    } else if role == ATSPI_ROLE_MENU_BAR || role == ATSPI_ROLE_POPUP_MENU {
        Role::Menu
    } else if role == ATSPI_ROLE_MENU_ITEM || role == ATSPI_ROLE_CHECK_MENU_ITEM || role == ATSPI_ROLE_RADIO_MENU_ITEM || role == ATSPI_ROLE_TEAROFF_MENU_ITEM {
        Role::MenuItem
    } else if role == ATSPI_ROLE_PAGE_TAB {
        Role::Tab
    } else if role == ATSPI_ROLE_PAGE_TAB_LIST {
        Role::TabPanel
    } else if role == ATSPI_ROLE_TOOL_BAR {
        Role::Toolbar
    } else if role == ATSPI_ROLE_TERMINAL {
        Role::Terminal
    } else {
        Role::Unknown
    }
}

pub fn role_from_atspi(role: u32, states: u64) -> (r: Role)
    ensures
        r == atspi_role_spec(role, states),
{
    if role == ATSPI_ROLE_APPLICATION {
        Role::Application
    } else if role == ATSPI_ROLE_WINDOW || role == ATSPI_ROLE_FRAME {
        Role::Window
    } else if role == ATSPI_ROLE_DIALOG || role == ATSPI_ROLE_ALERT {
        Role::Dialog
    } else if role == ATSPI_ROLE_DOCUMENT_FRAME || role == ATSPI_ROLE_DOCUMENT_TEXT || role == ATSPI_ROLE_DOCUMENT_WEB || role == ATSPI_ROLE_DOCUMENT_EMAIL || role == ATSPI_ROLE_DOCUMENT_PRESENTATION || role == ATSPI_ROLE_DOCUMENT_SPREADSHEET {
        Role::Document
    } else if role == ATSPI_ROLE_HEADING {
        Role::Heading
    } else if role == ATSPI_ROLE_PARAGRAPH {
        Role::Paragraph
    } else if role == ATSPI_ROLE_STATIC || role == ATSPI_ROLE_LABEL {
        Role::StaticText
    } else if role == ATSPI_ROLE_ENTRY || role == ATSPI_ROLE_EDITBAR || role == ATSPI_ROLE_PASSWORD_TEXT {
        Role::EditableText
    } else if role == ATSPI_ROLE_TEXT && atspi_states_contain(states, ATSPI_STATE_EDITABLE) {
        Role::EditableText
    } else if role == ATSPI_ROLE_TEXT {
        Role::StaticText
    } else if role == ATSPI_ROLE_BUTTON || role == ATSPI_ROLE_TOGGLE_BUTTON || role == ATSPI_ROLE_PUSH_BUTTON_MENU {
        Role::Button
    } else if role == ATSPI_ROLE_CHECK_BOX {
        Role::CheckBox
    } else if role == ATSPI_ROLE_RADIO_BUTTON {
        Role::RadioButton
    } else if role == ATSPI_ROLE_COMBO_BOX || role == ATSPI_ROLE_SPIN_BUTTON {
        Role::ComboBox
    } else if role == ATSPI_ROLE_LIST || role == ATSPI_ROLE_LIST_BOX {
        Role::List
    } else if role == ATSPI_ROLE_LIST_ITEM {
        Role::ListItem
    } else if role == ATSPI_ROLE_TREE {
        Role::Tree
    } else if role == ATSPI_ROLE_TREE_ITEM {
        Role::TreeItem
    } else if role == ATSPI_ROLE_TABLE || role == ATSPI_ROLE_TREE_TABLE {
        Role::Table
    } else if role == ATSPI_ROLE_TABLE_ROW {
        Role::Row
    } else if role == ATSPI_ROLE_TABLE_CELL || role == ATSPI_ROLE_TABLE_COLUMN_HEADER || role == ATSPI_ROLE_TABLE_ROW_HEADER {
        Role::Cell
    } else if role == ATSPI_ROLE_LINK {
        Role::Link
    } else if role == ATSPI_ROLE_IMAGE || role == ATSPI_ROLE_IMAGE_MAP {
        Role::Image
    } else if role == ATSPI_ROLE_SLIDER {
        Role::Slider
    } else if role == ATSPI_ROLE_PROGRESS_BAR || role == ATSPI_ROLE_LEVEL_BAR {
        Role::ProgressBar
    } else if role == ATSPI_ROLE_MENU_BAR || role == ATSPI_ROLE_POPUP_MENU {
        Role::Menu
    } else if role == ATSPI_ROLE_MENU_ITEM || role == ATSPI_ROLE_CHECK_MENU_ITEM || role == ATSPI_ROLE_RADIO_MENU_ITEM || role == ATSPI_ROLE_TEAROFF_MENU_ITEM {
        Role::MenuItem
    } else if role == ATSPI_ROLE_PAGE_TAB {
        Role::Tab
    } else if role == ATSPI_ROLE_PAGE_TAB_LIST {
        Role::TabPanel
    } else if role == ATSPI_ROLE_TOOL_BAR {
        Role::Toolbar
    } else if role == ATSPI_ROLE_TERMINAL {
        Role::Terminal
    } else {
        Role::Unknown
    }
}

/// The AT-SPI role table: each listed AT-SPI role maps to its normalized role,
/// whatever the state set, and a text object is editable text exactly when its
/// state set says editable.
pub proof fn atspi_role_table(states: u64)
    ensures
        atspi_role_spec(ATSPI_ROLE_APPLICATION, states) == Role::Application,
        atspi_role_spec(ATSPI_ROLE_WINDOW, states) == Role::Window,
        atspi_role_spec(ATSPI_ROLE_FRAME, states) == Role::Window,
        atspi_role_spec(ATSPI_ROLE_DIALOG, states) == Role::Dialog,
        atspi_role_spec(ATSPI_ROLE_ALERT, states) == Role::Dialog,
        atspi_role_spec(ATSPI_ROLE_DOCUMENT_FRAME, states) == Role::Document,
        atspi_role_spec(ATSPI_ROLE_DOCUMENT_TEXT, states) == Role::Document,
        atspi_role_spec(ATSPI_ROLE_DOCUMENT_WEB, states) == Role::Document,
        atspi_role_spec(ATSPI_ROLE_DOCUMENT_EMAIL, states) == Role::Document,
        atspi_role_spec(ATSPI_ROLE_DOCUMENT_PRESENTATION, states) == Role::Document,
        atspi_role_spec(ATSPI_ROLE_DOCUMENT_SPREADSHEET, states) == Role::Document,
        atspi_role_spec(ATSPI_ROLE_HEADING, states) == Role::Heading,
        atspi_role_spec(ATSPI_ROLE_PARAGRAPH, states) == Role::Paragraph,
        atspi_role_spec(ATSPI_ROLE_STATIC, states) == Role::StaticText,
        atspi_role_spec(ATSPI_ROLE_LABEL, states) == Role::StaticText,
        atspi_role_spec(ATSPI_ROLE_ENTRY, states) == Role::EditableText,
        atspi_role_spec(ATSPI_ROLE_EDITBAR, states) == Role::EditableText,
        atspi_role_spec(ATSPI_ROLE_PASSWORD_TEXT, states) == Role::EditableText,
        atspi_role_spec(ATSPI_ROLE_BUTTON, states) == Role::Button,
        atspi_role_spec(ATSPI_ROLE_TOGGLE_BUTTON, states) == Role::Button,
        atspi_role_spec(ATSPI_ROLE_PUSH_BUTTON_MENU, states) == Role::Button,
        atspi_role_spec(ATSPI_ROLE_CHECK_BOX, states) == Role::CheckBox,
        atspi_role_spec(ATSPI_ROLE_RADIO_BUTTON, states) == Role::RadioButton,
        atspi_role_spec(ATSPI_ROLE_COMBO_BOX, states) == Role::ComboBox,
        atspi_role_spec(ATSPI_ROLE_SPIN_BUTTON, states) == Role::ComboBox,
        atspi_role_spec(ATSPI_ROLE_LIST, states) == Role::List,
        atspi_role_spec(ATSPI_ROLE_LIST_BOX, states) == Role::List,
        atspi_role_spec(ATSPI_ROLE_LIST_ITEM, states) == Role::ListItem,
        atspi_role_spec(ATSPI_ROLE_TREE, states) == Role::Tree,
        atspi_role_spec(ATSPI_ROLE_TREE_ITEM, states) == Role::TreeItem,
        atspi_role_spec(ATSPI_ROLE_TABLE, states) == Role::Table,
        atspi_role_spec(ATSPI_ROLE_TREE_TABLE, states) == Role::Table,
        atspi_role_spec(ATSPI_ROLE_TABLE_ROW, states) == Role::Row,
        atspi_role_spec(ATSPI_ROLE_TABLE_CELL, states) == Role::Cell,
        atspi_role_spec(ATSPI_ROLE_TABLE_COLUMN_HEADER, states) == Role::Cell,
        atspi_role_spec(ATSPI_ROLE_TABLE_ROW_HEADER, states) == Role::Cell,
        atspi_role_spec(ATSPI_ROLE_LINK, states) == Role::Link,
        atspi_role_spec(ATSPI_ROLE_IMAGE, states) == Role::Image,
        atspi_role_spec(ATSPI_ROLE_IMAGE_MAP, states) == Role::Image,
        atspi_role_spec(ATSPI_ROLE_SLIDER, states) == Role::Slider,
        atspi_role_spec(ATSPI_ROLE_PROGRESS_BAR, states) == Role::ProgressBar,
        atspi_role_spec(ATSPI_ROLE_LEVEL_BAR, states) == Role::ProgressBar,
        atspi_role_spec(ATSPI_ROLE_MENU_BAR, states) == Role::Menu,
        atspi_role_spec(ATSPI_ROLE_POPUP_MENU, states) == Role::Menu,
        atspi_role_spec(ATSPI_ROLE_MENU_ITEM, states) == Role::MenuItem,
        atspi_role_spec(ATSPI_ROLE_CHECK_MENU_ITEM, states) == Role::MenuItem,
        atspi_role_spec(ATSPI_ROLE_RADIO_MENU_ITEM, states) == Role::MenuItem,
        atspi_role_spec(ATSPI_ROLE_TEAROFF_MENU_ITEM, states) == Role::MenuItem,
        atspi_role_spec(ATSPI_ROLE_PAGE_TAB, states) == Role::Tab,
        atspi_role_spec(ATSPI_ROLE_PAGE_TAB_LIST, states) == Role::TabPanel,
        atspi_role_spec(ATSPI_ROLE_TOOL_BAR, states) == Role::Toolbar,
        atspi_role_spec(ATSPI_ROLE_TERMINAL, states) == Role::Terminal,
        atspi_role_spec(ATSPI_ROLE_TEXT, states) == (if has_atspi_state(states, ATSPI_STATE_EDITABLE) {
            Role::EditableText
        } else {
            Role::StaticText
        }),
{
}

/// Roles outside the table are unknown.
pub proof fn atspi_unlisted_roles_are_unknown(role: u32, states: u64)
    requires
        role != ATSPI_ROLE_APPLICATION,
        role != ATSPI_ROLE_WINDOW,
        role != ATSPI_ROLE_FRAME,
        role != ATSPI_ROLE_DIALOG,
        role != ATSPI_ROLE_ALERT,
        role != ATSPI_ROLE_DOCUMENT_FRAME,
        role != ATSPI_ROLE_DOCUMENT_TEXT,
        role != ATSPI_ROLE_DOCUMENT_WEB,
        role != ATSPI_ROLE_DOCUMENT_EMAIL,
        role != ATSPI_ROLE_DOCUMENT_PRESENTATION,
        role != ATSPI_ROLE_DOCUMENT_SPREADSHEET,
        role != ATSPI_ROLE_HEADING,
        role != ATSPI_ROLE_PARAGRAPH,
        role != ATSPI_ROLE_STATIC,
        role != ATSPI_ROLE_LABEL,
        role != ATSPI_ROLE_ENTRY,
        role != ATSPI_ROLE_EDITBAR,
        role != ATSPI_ROLE_PASSWORD_TEXT,
        role != ATSPI_ROLE_BUTTON,
        role != ATSPI_ROLE_TOGGLE_BUTTON,
        role != ATSPI_ROLE_PUSH_BUTTON_MENU,
        role != ATSPI_ROLE_CHECK_BOX,
        role != ATSPI_ROLE_RADIO_BUTTON,
        role != ATSPI_ROLE_COMBO_BOX,
        role != ATSPI_ROLE_SPIN_BUTTON,
        role != ATSPI_ROLE_LIST,
        role != ATSPI_ROLE_LIST_BOX,
        role != ATSPI_ROLE_LIST_ITEM,
        role != ATSPI_ROLE_TREE,
        role != ATSPI_ROLE_TREE_ITEM,
        role != ATSPI_ROLE_TABLE,
        role != ATSPI_ROLE_TREE_TABLE,
        role != ATSPI_ROLE_TABLE_ROW,
        role != ATSPI_ROLE_TABLE_CELL,
        role != ATSPI_ROLE_TABLE_COLUMN_HEADER,
        role != ATSPI_ROLE_TABLE_ROW_HEADER,
        role != ATSPI_ROLE_LINK,
        role != ATSPI_ROLE_IMAGE,
        role != ATSPI_ROLE_IMAGE_MAP,
        role != ATSPI_ROLE_SLIDER,
        role != ATSPI_ROLE_PROGRESS_BAR,
        role != ATSPI_ROLE_LEVEL_BAR,
        role != ATSPI_ROLE_MENU_BAR,
        role != ATSPI_ROLE_POPUP_MENU,
        role != ATSPI_ROLE_MENU_ITEM,
        role != ATSPI_ROLE_CHECK_MENU_ITEM,
        role != ATSPI_ROLE_RADIO_MENU_ITEM,
        role != ATSPI_ROLE_TEAROFF_MENU_ITEM,
        role != ATSPI_ROLE_PAGE_TAB,
        role != ATSPI_ROLE_PAGE_TAB_LIST,
        role != ATSPI_ROLE_TOOL_BAR,
        role != ATSPI_ROLE_TERMINAL,
        role != ATSPI_ROLE_TEXT,
    ensures
        atspi_role_spec(role, states) == Role::Unknown,
{
}

/// Distinct AT-SPI widget roles stay distinct: check boxes, radio buttons,
/// buttons, combo boxes, sliders, links, menu items, tabs, list items and
/// tree items each keep a role of their own.
pub proof fn atspi_widget_roles_are_distinct(states: u64, a: u32, b: u32)
    requires
        seq![ATSPI_ROLE_CHECK_BOX, ATSPI_ROLE_RADIO_BUTTON, ATSPI_ROLE_BUTTON, ATSPI_ROLE_COMBO_BOX,
            ATSPI_ROLE_SLIDER, ATSPI_ROLE_LINK, ATSPI_ROLE_MENU_ITEM, ATSPI_ROLE_PAGE_TAB,
            ATSPI_ROLE_LIST_ITEM, ATSPI_ROLE_TREE_ITEM].contains(a),
        seq![ATSPI_ROLE_CHECK_BOX, ATSPI_ROLE_RADIO_BUTTON, ATSPI_ROLE_BUTTON, ATSPI_ROLE_COMBO_BOX,
            ATSPI_ROLE_SLIDER, ATSPI_ROLE_LINK, ATSPI_ROLE_MENU_ITEM, ATSPI_ROLE_PAGE_TAB,
            ATSPI_ROLE_LIST_ITEM, ATSPI_ROLE_TREE_ITEM].contains(b),
        a != b,
    ensures
        atspi_role_spec(a, states) != atspi_role_spec(b, states),
        atspi_role_spec(a, states) != Role::Unknown,
{
}

/// The normalized states of an AT-SPI object, in the order they are listed.
pub open spec fn atspi_states_spec(role: u32, states: u64) -> Seq<State> {
    let s0 = Seq::<State>::empty();
    let s1 = if has_atspi_state(states, ATSPI_STATE_FOCUSED) { s0.push(State::Focused) } else { s0 };
    let s2 = if has_atspi_state(states, ATSPI_STATE_FOCUSABLE) { s1.push(State::Focusable) } else { s1 };
    let s3 = if has_atspi_state(states, ATSPI_STATE_ENABLED) { s2.push(State::Enabled) } else { s2.push(State::Disabled) };
    let s4 = if has_atspi_state(states, ATSPI_STATE_SELECTED) { s3.push(State::Selected) } else { s3 };
    let s5 = if has_atspi_state(states, ATSPI_STATE_CHECKED) { s4.push(State::Checked) } else { s4 };
    let s6 = if has_atspi_state(states, ATSPI_STATE_INDETERMINATE) { s5.push(State::Mixed) } else { s5 };
    let s7 = if has_atspi_state(states, ATSPI_STATE_EXPANDED) {
        s6.push(State::Expanded)
    } else if has_atspi_state(states, ATSPI_STATE_COLLAPSED) {
        s6.push(State::Collapsed)
    } else {
        s6
    };
    let s8 = if has_atspi_state(states, ATSPI_STATE_READ_ONLY) { s7.push(State::ReadOnly) } else { s7 };
    let s9 = if has_atspi_state(states, ATSPI_STATE_EDITABLE) { s8.push(State::Editable) } else { s8 };
    let s10 = if has_atspi_state(states, ATSPI_STATE_REQUIRED) { s9.push(State::Required) } else { s9 };
    let s11 = if has_atspi_state(states, ATSPI_STATE_INVALID) || has_atspi_state(states, ATSPI_STATE_INVALID_ENTRY) {
        s10.push(State::Invalid)
    } else {
        s10
    };
    let s12 = if has_atspi_state(states, ATSPI_STATE_BUSY) { s11.push(State::Busy) } else { s11 };
    let s13 = if has_atspi_state(states, ATSPI_STATE_MULTI_LINE) { s12.push(State::Multiline) } else { s12 };
    if role == ATSPI_ROLE_PASSWORD_TEXT { s13.push(State::Password) } else { s13 }
}

/// The place of a state kind in the AT-SPI listing order; expanded and
/// collapsed share a place.
pub open spec fn atspi_state_rank(state: State) -> int {
    match state {
        State::Focused => 0,
        State::Focusable => 1,
        State::Enabled | State::Disabled => 2,
        State::Selected => 3,
        State::Checked => 4,
        State::Mixed => 5,
        State::Expanded | State::Collapsed => 6,
        State::ReadOnly => 7,
        State::Editable => 8,
        State::Required => 9,
        State::Invalid => 10,
        State::Busy => 11,
        State::Multiline => 12,
        State::Password => 13,
        State::Offscreen => 14,
    }
}

/// Whether a normalized state is present by the AT-SPI role and state set.
pub open spec fn atspi_state_present(role: u32, states: u64, s: State) -> bool {
    match s {
        State::Focused => has_atspi_state(states, 12),
        State::Focusable => has_atspi_state(states, 11),
        State::Enabled => has_atspi_state(states, 8),
        State::Disabled => !has_atspi_state(states, 8),
        State::Selected => has_atspi_state(states, 23),
        State::Checked => has_atspi_state(states, 4),
        State::Mixed => has_atspi_state(states, 32),
        State::Expanded => has_atspi_state(states, 10),
        State::Collapsed => has_atspi_state(states, 5) && !has_atspi_state(states, 10),
        State::ReadOnly => has_atspi_state(states, 43),
        State::Editable => has_atspi_state(states, 7),
        State::Required => has_atspi_state(states, 33),
        State::Invalid => has_atspi_state(states, 0) || has_atspi_state(states, 36),
        State::Busy => has_atspi_state(states, 3),
        State::Multiline => has_atspi_state(states, 17),
        State::Password => role == 40,
        State::Offscreen => false,
    }
}

spec fn atspi_state_steps(role: u32, states: u64) -> Seq<Seq<State>> {
    let s0 = Seq::<State>::empty();
    let s1 = if has_atspi_state(states, ATSPI_STATE_FOCUSED) { s0.push(State::Focused) } else { s0 };
    let s2 = if has_atspi_state(states, ATSPI_STATE_FOCUSABLE) { s1.push(State::Focusable) } else { s1 };
    let s3 = if has_atspi_state(states, ATSPI_STATE_ENABLED) { s2.push(State::Enabled) } else { s2.push(State::Disabled) };
    let s4 = if has_atspi_state(states, ATSPI_STATE_SELECTED) { s3.push(State::Selected) } else { s3 };
    let s5 = if has_atspi_state(states, ATSPI_STATE_CHECKED) { s4.push(State::Checked) } else { s4 };
    let s6 = if has_atspi_state(states, ATSPI_STATE_INDETERMINATE) { s5.push(State::Mixed) } else { s5 };
    let s7 = if has_atspi_state(states, ATSPI_STATE_EXPANDED) {
        s6.push(State::Expanded)
    } else if has_atspi_state(states, ATSPI_STATE_COLLAPSED) {
        s6.push(State::Collapsed)
    } else {
        s6
    };
    let s8 = if has_atspi_state(states, ATSPI_STATE_READ_ONLY) { s7.push(State::ReadOnly) } else { s7 };
    let s9 = if has_atspi_state(states, ATSPI_STATE_EDITABLE) { s8.push(State::Editable) } else { s8 };
    let s10 = if has_atspi_state(states, ATSPI_STATE_REQUIRED) { s9.push(State::Required) } else { s9 };
    let s11 = if has_atspi_state(states, ATSPI_STATE_INVALID) || has_atspi_state(states, ATSPI_STATE_INVALID_ENTRY) {
        s10.push(State::Invalid)
    } else {
        s10
    };
    let s12 = if has_atspi_state(states, ATSPI_STATE_BUSY) { s11.push(State::Busy) } else { s11 };
    let s13 = if has_atspi_state(states, ATSPI_STATE_MULTI_LINE) { s12.push(State::Multiline) } else { s12 };
    seq![s0, s1, s2, s3, s4, s5, s6, s7, s8, s9, s10, s11, s12, s13]
}

spec fn atspi_rank_fn() -> spec_fn(State) -> int {
    |s: State| atspi_state_rank(s)
}

spec fn atspi_present_fn(role: u32, states: u64) -> spec_fn(State) -> bool {
    |s: State| atspi_state_present(role, states, s)
}

proof fn lemma_atspi_listing_first(role: u32, states: u64)
    ensures
        listing_invariant(atspi_state_steps(role, states)[6], atspi_rank_fn(), atspi_present_fn(role, states), 6),
{
    let rank = atspi_rank_fn();
    let p = atspi_present_fn(role, states);
    let st = atspi_state_steps(role, states);
    let b = |k: u64| has_atspi_state(states, k);
    assert(listing_invariant(st[0], rank, p, 0));
    lemma_listing_step(st[0], rank, p, 0, if b(12) { Some(State::Focused) } else { None });
    lemma_listing_step(st[1], rank, p, 1, if b(11) { Some(State::Focusable) } else { None });
    lemma_listing_step(st[2], rank, p, 2, if b(8) { Some(State::Enabled) } else { Some(State::Disabled) });
    lemma_listing_step(st[3], rank, p, 3, if b(23) { Some(State::Selected) } else { None });
    lemma_listing_step(st[4], rank, p, 4, if b(4) { Some(State::Checked) } else { None });
    lemma_listing_step(st[5], rank, p, 5, if b(32) { Some(State::Mixed) } else { None });
}

proof fn lemma_atspi_listing_middle(role: u32, states: u64)
    ensures
        listing_invariant(atspi_state_steps(role, states)[10], atspi_rank_fn(), atspi_present_fn(role, states), 10),
{
    lemma_atspi_listing_first(role, states);
    let rank = atspi_rank_fn();
    let p = atspi_present_fn(role, states);
    let st = atspi_state_steps(role, states);
    let b = |k: u64| has_atspi_state(states, k);
    lemma_listing_step(
        st[6],
        rank,
        p,
        6,
        if b(10) {
            Some(State::Expanded)
        } else if b(5) {
            Some(State::Collapsed)
        } else {
            None
        },
    );
    lemma_listing_step(st[7], rank, p, 7, if b(43) { Some(State::ReadOnly) } else { None });
    lemma_listing_step(st[8], rank, p, 8, if b(7) { Some(State::Editable) } else { None });
    lemma_listing_step(st[9], rank, p, 9, if b(33) { Some(State::Required) } else { None });
}

proof fn lemma_atspi_listing(role: u32, states: u64)
    ensures
        listing_invariant(atspi_states_spec(role, states), atspi_rank_fn(), atspi_present_fn(role, states), 14),
{
    lemma_atspi_listing_middle(role, states);
    let rank = atspi_rank_fn();
    let p = atspi_present_fn(role, states);
    let st = atspi_state_steps(role, states);
    let b = |k: u64| has_atspi_state(states, k);
    lemma_listing_step(st[10], rank, p, 10, if b(0) || b(36) { Some(State::Invalid) } else { None });
    lemma_listing_step(st[11], rank, p, 11, if b(3) { Some(State::Busy) } else { None });
    lemma_listing_step(st[12], rank, p, 12, if b(17) { Some(State::Multiline) } else { None });
    lemma_listing_step(st[13], rank, p, 13, if role == 40 { Some(State::Password) } else { None });
}

/// Each normalized state of an AT-SPI object follows from its state bits:
/// focused (12), focusable (11), enabled (8) or else disabled, selected (23),
/// checked (4), indeterminate as mixed (32), expanded (10), collapsed (5) only
/// when not also expanded, read-only (43), editable (7), required (33),
/// invalid (0 or 36), busy (3), multi-line (17); password exactly for the
/// password-text role; never off-screen. Each is listed once, in that order.
pub proof fn atspi_states_follow_state_bits(role: u32, states: u64)
    ensures
        forall|s: State| #[trigger] atspi_states_spec(role, states).contains(s) == atspi_state_present(role, states, s),
        forall|i: int, j: int|
            0 <= i < j < atspi_states_spec(role, states).len() ==> atspi_state_rank(
                #[trigger] atspi_states_spec(role, states)[i],
            ) < atspi_state_rank(#[trigger] atspi_states_spec(role, states)[j]),
{
    lemma_atspi_listing(role, states);
    let rank = atspi_rank_fn();
    let p = atspi_present_fn(role, states);
    let f = atspi_states_spec(role, states);
    assert forall|s: State| #[trigger] f.contains(s) == atspi_state_present(role, states, s) by {
        assert(rank(s) == 14 ==> !p(s));
        assert(f.contains(s) <==> (rank(s) < 14 && p(s)));
    }
    assert forall|i: int, j: int| 0 <= i < j < f.len() implies atspi_state_rank(#[trigger] f[i]) < atspi_state_rank(#[trigger] f[j]) by {
        assert(rank(f[i]) < rank(f[j]));
    }
}

pub fn states_from_atspi(role: u32, states: u64) -> (r: Vec<State>)
    ensures
        r@ == atspi_states_spec(role, states),
{
    let mut result: Vec<State> = Vec::new();
    if atspi_states_contain(states, ATSPI_STATE_FOCUSED) {
        result.push(State::Focused);
    }
    if atspi_states_contain(states, ATSPI_STATE_FOCUSABLE) {
        result.push(State::Focusable);
    }
    if atspi_states_contain(states, ATSPI_STATE_ENABLED) {
        result.push(State::Enabled);
    } else {
        result.push(State::Disabled);
    }
    if atspi_states_contain(states, ATSPI_STATE_SELECTED) {
        result.push(State::Selected);
    }
    if atspi_states_contain(states, ATSPI_STATE_CHECKED) {
        result.push(State::Checked);
    }
    if atspi_states_contain(states, ATSPI_STATE_INDETERMINATE) {
        result.push(State::Mixed);
    }
    if atspi_states_contain(states, ATSPI_STATE_EXPANDED) {
        result.push(State::Expanded);
    } else if atspi_states_contain(states, ATSPI_STATE_COLLAPSED) {
        result.push(State::Collapsed);
    }
    if atspi_states_contain(states, ATSPI_STATE_READ_ONLY) {
        result.push(State::ReadOnly);
    }
    if atspi_states_contain(states, ATSPI_STATE_EDITABLE) {
        result.push(State::Editable);
    }
    if atspi_states_contain(states, ATSPI_STATE_REQUIRED) {
        result.push(State::Required);
    }
    if atspi_states_contain(states, ATSPI_STATE_INVALID) || atspi_states_contain(states, ATSPI_STATE_INVALID_ENTRY) {
        result.push(State::Invalid);
    }
    if atspi_states_contain(states, ATSPI_STATE_BUSY) {
        result.push(State::Busy);
    }
    if atspi_states_contain(states, ATSPI_STATE_MULTI_LINE) {
        result.push(State::Multiline);
    }
    if role == ATSPI_ROLE_PASSWORD_TEXT {
        result.push(State::Password);
    }
    result
}

} // verus!
