//! Mapping of Microsoft UI Automation control type ids to normalized roles.
use vstd::prelude::*;

use crate::semantic::Role;

verus! {

/// UI Automation control type ids are stable integers; keeping the mapping in
/// the portable core avoids using the localized control type as semantic data.
pub open spec fn uia_role_spec(control_type_id: i32) -> Role {
    match control_type_id {
        50000 => Role::Button,
        50002 => Role::CheckBox,
        50003 => Role::ComboBox,
        50004 => Role::EditableText,
        50005 => Role::Link,
        50006 => Role::Image,
        50007 => Role::ListItem,
        50008 => Role::List,
        50009 | 50010 => Role::Menu,
        50011 => Role::MenuItem,
        50012 => Role::ProgressBar,
        50013 => Role::RadioButton,
        50015 => Role::Slider,
        50018 => Role::TabPanel,
        50019 => Role::Tab,
        50020 => Role::StaticText,
        50021 | 50040 => Role::Toolbar,
        50023 => Role::Tree,
        50024 => Role::TreeItem,
        50028 | 50036 => Role::Table,
        50029 => Role::Row,
        50030 => Role::Document,
        50031 => Role::Button,
        50032 => Role::Window,
        50035 => Role::Cell,
        _ => Role::Unknown,
    }
}

pub fn role_from_control_type_id(control_type_id: i32) -> (r: Role)
    ensures
        r == uia_role_spec(control_type_id),
{
    match control_type_id {
        50000 => Role::Button,  // Button
        50002 => Role::CheckBox,  // CheckBox
        50003 => Role::ComboBox,  // ComboBox
        50004 => Role::EditableText,  // Edit
        50005 => Role::Link,  // Hyperlink
        50006 => Role::Image,  // Image
        50007 => Role::ListItem,  // ListItem
        50008 => Role::List,  // List
        50009 | 50010 => Role::Menu,  // Menu / MenuBar
        50011 => Role::MenuItem,  // MenuItem
        50012 => Role::ProgressBar,  // ProgressBar
        50013 => Role::RadioButton,  // RadioButton
        50015 => Role::Slider,  // Slider
        50018 => Role::TabPanel,  // Tab
        50019 => Role::Tab,  // TabItem
        50020 => Role::StaticText,  // Text
        50021 | 50040 => Role::Toolbar,  // ToolBar / AppBar
        50023 => Role::Tree,  // Tree
        50024 => Role::TreeItem,  // TreeItem
        50028 | 50036 => Role::Table,  // DataGrid / Table
        50029 => Role::Row,  // DataItem
        50030 => Role::Document,  // Document
        50031 => Role::Button,  // SplitButton
        50032 => Role::Window,  // Window
        50035 => Role::Cell,  // HeaderItem
        _ => Role::Unknown,
    }
}

/// The basic UIA role table: each UIA control type id maps to its role, and
/// every other id to the unknown role.
pub proof fn uia_role_table(control_type_id: i32)
    ensures
        uia_role_spec(50000i32) == Role::Button,
        uia_role_spec(50002i32) == Role::CheckBox,
        uia_role_spec(50003i32) == Role::ComboBox,
        uia_role_spec(50004i32) == Role::EditableText,
        uia_role_spec(50005i32) == Role::Link,
        uia_role_spec(50006i32) == Role::Image,
        uia_role_spec(50007i32) == Role::ListItem,
        uia_role_spec(50008i32) == Role::List,
        uia_role_spec(50009i32) == Role::Menu,
        uia_role_spec(50010i32) == Role::Menu,
        uia_role_spec(50011i32) == Role::MenuItem,
        uia_role_spec(50012i32) == Role::ProgressBar,
        uia_role_spec(50013i32) == Role::RadioButton,
        uia_role_spec(50015i32) == Role::Slider,
        uia_role_spec(50018i32) == Role::TabPanel,
        uia_role_spec(50019i32) == Role::Tab,
        uia_role_spec(50020i32) == Role::StaticText,
        uia_role_spec(50021i32) == Role::Toolbar,
        uia_role_spec(50040i32) == Role::Toolbar,
        uia_role_spec(50023i32) == Role::Tree,
        uia_role_spec(50024i32) == Role::TreeItem,
        uia_role_spec(50028i32) == Role::Table,
        uia_role_spec(50036i32) == Role::Table,
        uia_role_spec(50029i32) == Role::Row,
        uia_role_spec(50030i32) == Role::Document,
        uia_role_spec(50031i32) == Role::Button,
        uia_role_spec(50032i32) == Role::Window,
        uia_role_spec(50035i32) == Role::Cell,
        !(control_type_id == 50000 || control_type_id == 50002 || control_type_id == 50003 || control_type_id == 50004 || control_type_id == 50005 || control_type_id == 50006 || control_type_id == 50007 || control_type_id == 50008 || control_type_id == 50009 || control_type_id == 50010 || control_type_id == 50011 || control_type_id == 50012 || control_type_id == 50013 || control_type_id == 50015 || control_type_id == 50018 || control_type_id == 50019 || control_type_id == 50020 || control_type_id == 50021 || control_type_id == 50040 || control_type_id == 50023 || control_type_id == 50024 || control_type_id == 50028 || control_type_id == 50036 || control_type_id == 50029 || control_type_id == 50030 || control_type_id == 50031 || control_type_id == 50032 || control_type_id == 50035) ==> uia_role_spec(control_type_id) == Role::Unknown,
{
}

} // verus!
