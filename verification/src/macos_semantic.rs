//! Mapping of macOS Accessibility (AX) role names to normalized roles.
use vstd::prelude::*;

use crate::semantic::Role;
use crate::text::str_eq;

verus! {

/// The normalized role of an AX role name; names outside the table stay unknown.
pub open spec fn ax_role_spec(native_role: Seq<char>) -> Role {
    if native_role == "AXApplication"@ {
        Role::Application
    } else if native_role == "AXWindow"@ {
        Role::Window
    } else if native_role == "AXDialog"@ {
        Role::Dialog
    } else if native_role == "AXSheet"@ {
        Role::Dialog
    } else if native_role == "AXWebArea"@ {
        Role::Document
    } else if native_role == "AXDocument"@ {
        Role::Document
    } else if native_role == "AXHeading"@ {
        Role::Heading
    } else if native_role == "AXStaticText"@ {
        Role::StaticText
    } else if native_role == "AXTextField"@ {
        Role::EditableText
    } else if native_role == "AXTextArea"@ {
        Role::EditableText
    } else if native_role == "AXButton"@ {
        Role::Button
    } else if native_role == "AXCheckBox"@ {
        Role::CheckBox
    } else if native_role == "AXRadioButton"@ {
        Role::RadioButton
    } else if native_role == "AXComboBox"@ {
        Role::ComboBox
    } else if native_role == "AXPopUpButton"@ {
        Role::ComboBox
    } else if native_role == "AXList"@ {
        Role::List
    } else if native_role == "AXRow"@ {
        Role::Row
    } else if native_role == "AXOutline"@ {
        Role::Tree
    } else if native_role == "AXTable"@ {
        Role::Table
    } else if native_role == "AXGrid"@ {
        Role::Table
    } else if native_role == "AXCell"@ {
        Role::Cell
    } else if native_role == "AXLink"@ {
        Role::Link
    } else if native_role == "AXImage"@ {
        Role::Image
    } else if native_role == "AXSlider"@ {
        Role::Slider
    } else if native_role == "AXProgressIndicator"@ {
        Role::ProgressBar
    } else if native_role == "AXMenu"@ {
        Role::Menu
    } else if native_role == "AXMenuItem"@ {
        Role::MenuItem
    } else if native_role == "AXMenuButton"@ {
        Role::MenuItem
    } else if native_role == "AXTabGroup"@ {
        Role::TabPanel
    } else if native_role == "AXToolbar"@ {
        Role::Toolbar
    } else {
        Role::Unknown
    }
}

pub fn role_from_ax(native_role: &str) -> (r: Role)
    ensures
        r == ax_role_spec(native_role@),
{
    if str_eq(native_role, "AXApplication") {
        Role::Application
    } else if str_eq(native_role, "AXWindow") {
        Role::Window
    } else if str_eq(native_role, "AXDialog") {
        Role::Dialog
    } else if str_eq(native_role, "AXSheet") {
        Role::Dialog
    } else if str_eq(native_role, "AXWebArea") {
        Role::Document
    } else if str_eq(native_role, "AXDocument") {
        Role::Document
    } else if str_eq(native_role, "AXHeading") {
        Role::Heading
    } else if str_eq(native_role, "AXStaticText") {
        Role::StaticText
    } else if str_eq(native_role, "AXTextField") {
        Role::EditableText
    } else if str_eq(native_role, "AXTextArea") {
        Role::EditableText
    } else if str_eq(native_role, "AXButton") {
        Role::Button
    } else if str_eq(native_role, "AXCheckBox") {
        Role::CheckBox
    } else if str_eq(native_role, "AXRadioButton") {
        Role::RadioButton
    } else if str_eq(native_role, "AXComboBox") {
        Role::ComboBox
    } else if str_eq(native_role, "AXPopUpButton") {
        Role::ComboBox
    } else if str_eq(native_role, "AXList") {
        Role::List
    } else if str_eq(native_role, "AXRow") {
        Role::Row
    } else if str_eq(native_role, "AXOutline") {
        Role::Tree
    } else if str_eq(native_role, "AXTable") {
        Role::Table
    } else if str_eq(native_role, "AXGrid") {
        Role::Table
    } else if str_eq(native_role, "AXCell") {
        Role::Cell
    } else if str_eq(native_role, "AXLink") {
        Role::Link
    } else if str_eq(native_role, "AXImage") {
        Role::Image
    } else if str_eq(native_role, "AXSlider") {
        Role::Slider
    } else if str_eq(native_role, "AXProgressIndicator") {
        Role::ProgressBar
    } else if str_eq(native_role, "AXMenu") {
        Role::Menu
    } else if str_eq(native_role, "AXMenuItem") {
        Role::MenuItem
    } else if str_eq(native_role, "AXMenuButton") {
        Role::MenuItem
    } else if str_eq(native_role, "AXTabGroup") {
        Role::TabPanel
    } else if str_eq(native_role, "AXToolbar") {
        Role::Toolbar
    } else {
        Role::Unknown
    }
}

/// The AX role table: each listed AX role name maps to its normalized role.
pub proof fn ax_role_table()
    ensures
        ax_role_spec("AXApplication"@) == Role::Application,
        ax_role_spec("AXWindow"@) == Role::Window,
        ax_role_spec("AXDialog"@) == Role::Dialog,
        ax_role_spec("AXSheet"@) == Role::Dialog,
        ax_role_spec("AXWebArea"@) == Role::Document,
        ax_role_spec("AXDocument"@) == Role::Document,
        ax_role_spec("AXHeading"@) == Role::Heading,
        ax_role_spec("AXStaticText"@) == Role::StaticText,
        ax_role_spec("AXTextField"@) == Role::EditableText,
        ax_role_spec("AXTextArea"@) == Role::EditableText,
        ax_role_spec("AXButton"@) == Role::Button,
        ax_role_spec("AXCheckBox"@) == Role::CheckBox,
        ax_role_spec("AXRadioButton"@) == Role::RadioButton,
        ax_role_spec("AXComboBox"@) == Role::ComboBox,
        ax_role_spec("AXPopUpButton"@) == Role::ComboBox,
        ax_role_spec("AXList"@) == Role::List,
        ax_role_spec("AXRow"@) == Role::Row,
        ax_role_spec("AXOutline"@) == Role::Tree,
        ax_role_spec("AXTable"@) == Role::Table,
        ax_role_spec("AXGrid"@) == Role::Table,
        ax_role_spec("AXCell"@) == Role::Cell,
        ax_role_spec("AXLink"@) == Role::Link,
        ax_role_spec("AXImage"@) == Role::Image,
        ax_role_spec("AXSlider"@) == Role::Slider,
        ax_role_spec("AXProgressIndicator"@) == Role::ProgressBar,
        ax_role_spec("AXMenu"@) == Role::Menu,
        ax_role_spec("AXMenuItem"@) == Role::MenuItem,
        ax_role_spec("AXMenuButton"@) == Role::MenuItem,
        ax_role_spec("AXTabGroup"@) == Role::TabPanel,
        ax_role_spec("AXToolbar"@) == Role::Toolbar,
{
    reveal_strlit("AXApplication");
    reveal_strlit("AXWindow");
    reveal_strlit("AXDialog");
    reveal_strlit("AXSheet");
    reveal_strlit("AXWebArea");
    reveal_strlit("AXDocument");
    reveal_strlit("AXHeading");
    reveal_strlit("AXStaticText");
    reveal_strlit("AXTextField");
    reveal_strlit("AXTextArea");
    reveal_strlit("AXButton");
    reveal_strlit("AXCheckBox");
    reveal_strlit("AXRadioButton");
    reveal_strlit("AXComboBox");
    reveal_strlit("AXPopUpButton");
    reveal_strlit("AXList");
    reveal_strlit("AXRow");
    reveal_strlit("AXOutline");
    reveal_strlit("AXTable");
    reveal_strlit("AXGrid");
    reveal_strlit("AXCell");
    reveal_strlit("AXLink");
    reveal_strlit("AXImage");
    reveal_strlit("AXSlider");
    reveal_strlit("AXProgressIndicator");
    reveal_strlit("AXMenu");
    reveal_strlit("AXMenuItem");
    reveal_strlit("AXMenuButton");
    reveal_strlit("AXTabGroup");
    reveal_strlit("AXToolbar");
    assert("AXApplication"@.len() == 13);
    assert("AXWindow"@.len() == 8);
    assert("AXDialog"@.len() == 8);
    assert("AXSheet"@.len() == 7);
    assert("AXWebArea"@.len() == 9);
    assert("AXDocument"@.len() == 10);
    assert("AXHeading"@.len() == 9);
    assert("AXStaticText"@.len() == 12);
    assert("AXTextField"@.len() == 11);
    assert("AXTextArea"@.len() == 10);
    assert("AXButton"@.len() == 8);
    assert("AXCheckBox"@.len() == 10);
    assert("AXRadioButton"@.len() == 13);
    assert("AXComboBox"@.len() == 10);
    assert("AXPopUpButton"@.len() == 13);
    assert("AXList"@.len() == 6);
    assert("AXRow"@.len() == 5);
    assert("AXOutline"@.len() == 9);
    assert("AXTable"@.len() == 7);
    assert("AXGrid"@.len() == 6);
    assert("AXCell"@.len() == 6);
    assert("AXLink"@.len() == 6);
    assert("AXImage"@.len() == 7);
    assert("AXSlider"@.len() == 8);
    assert("AXProgressIndicator"@.len() == 19);
    assert("AXMenu"@.len() == 6);
    assert("AXMenuItem"@.len() == 10);
    assert("AXMenuButton"@.len() == 12);
    assert("AXTabGroup"@.len() == 10);
    assert("AXToolbar"@.len() == 9);
    assert("AXDialog"@[2] != "AXWindow"@[2]);
    assert("AXHeading"@[2] != "AXWebArea"@[2]);
    assert("AXTextArea"@[2] != "AXDocument"@[2]);
    assert("AXButton"@[2] != "AXWindow"@[2]);
    assert("AXButton"@[2] != "AXDialog"@[2]);
    assert("AXCheckBox"@[2] != "AXDocument"@[2]);
    assert("AXCheckBox"@[2] != "AXTextArea"@[2]);
    assert("AXRadioButton"@[2] != "AXApplication"@[2]);
    assert("AXComboBox"@[2] != "AXDocument"@[2]);
    assert("AXComboBox"@[2] != "AXTextArea"@[2]);
    assert("AXComboBox"@[3] != "AXCheckBox"@[3]);
    assert("AXPopUpButton"@[2] != "AXApplication"@[2]);
    assert("AXPopUpButton"@[2] != "AXRadioButton"@[2]);
    assert("AXOutline"@[2] != "AXWebArea"@[2]);
    assert("AXOutline"@[2] != "AXHeading"@[2]);
    assert("AXTable"@[2] != "AXSheet"@[2]);
    assert("AXGrid"@[2] != "AXList"@[2]);
    assert("AXCell"@[2] != "AXList"@[2]);
    assert("AXCell"@[2] != "AXGrid"@[2]);
    assert("AXLink"@[4] != "AXList"@[4]);
    assert("AXLink"@[2] != "AXGrid"@[2]);
    assert("AXLink"@[2] != "AXCell"@[2]);
    assert("AXImage"@[2] != "AXSheet"@[2]);
    assert("AXImage"@[2] != "AXTable"@[2]);
    assert("AXSlider"@[2] != "AXWindow"@[2]);
    assert("AXSlider"@[2] != "AXDialog"@[2]);
    assert("AXSlider"@[2] != "AXButton"@[2]);
    assert("AXMenu"@[2] != "AXList"@[2]);
    assert("AXMenu"@[2] != "AXGrid"@[2]);
    assert("AXMenu"@[2] != "AXCell"@[2]);
    assert("AXMenu"@[2] != "AXLink"@[2]);
    assert("AXMenuItem"@[2] != "AXDocument"@[2]);
    assert("AXMenuItem"@[2] != "AXTextArea"@[2]);
    assert("AXMenuItem"@[2] != "AXCheckBox"@[2]);
    assert("AXMenuItem"@[2] != "AXComboBox"@[2]);
    assert("AXMenuButton"@[2] != "AXStaticText"@[2]);
    assert("AXTabGroup"@[2] != "AXDocument"@[2]);
    assert("AXTabGroup"@[3] != "AXTextArea"@[3]);
    assert("AXTabGroup"@[2] != "AXCheckBox"@[2]);
    assert("AXTabGroup"@[2] != "AXComboBox"@[2]);
    assert("AXTabGroup"@[2] != "AXMenuItem"@[2]);
    assert("AXToolbar"@[2] != "AXWebArea"@[2]);
    assert("AXToolbar"@[2] != "AXHeading"@[2]);
    assert("AXToolbar"@[2] != "AXOutline"@[2]);
}

/// Only AX role names are known: a name that does not begin with `AX` maps
/// to the unknown role.
pub proof fn non_ax_names_are_unknown(native_role: Seq<char>)
    requires
        !(native_role.len() >= 2 && native_role[0] == 'A' && native_role[1] == 'X'),
    ensures
        ax_role_spec(native_role) == Role::Unknown,
{
    reveal_strlit("AXApplication");
    reveal_strlit("AXWindow");
    reveal_strlit("AXDialog");
    reveal_strlit("AXSheet");
    reveal_strlit("AXWebArea");
    reveal_strlit("AXDocument");
    reveal_strlit("AXHeading");
    reveal_strlit("AXStaticText");
    reveal_strlit("AXTextField");
    reveal_strlit("AXTextArea");
    reveal_strlit("AXButton");
    reveal_strlit("AXCheckBox");
    reveal_strlit("AXRadioButton");
    reveal_strlit("AXComboBox");
    reveal_strlit("AXPopUpButton");
    reveal_strlit("AXList");
    reveal_strlit("AXRow");
    reveal_strlit("AXOutline");
    reveal_strlit("AXTable");
    reveal_strlit("AXGrid");
    reveal_strlit("AXCell");
    reveal_strlit("AXLink");
    reveal_strlit("AXImage");
    reveal_strlit("AXSlider");
    reveal_strlit("AXProgressIndicator");
    reveal_strlit("AXMenu");
    reveal_strlit("AXMenuItem");
    reveal_strlit("AXMenuButton");
    reveal_strlit("AXTabGroup");
    reveal_strlit("AXToolbar");
}

} // verus!
