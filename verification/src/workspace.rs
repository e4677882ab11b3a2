//! The name and the colour of a workspace.

use vstd::prelude::*;
use vstd::string::StringExecFns;
use crate::display::decimal;
use crate::display::decimal_text;

verus! {

/// The name that the compositor gives a workspace.
#[derive(Debug, Clone, PartialEq, Eq)]
pub enum WorkspaceName {
    /// A workspace with a name of its own.
    Regular(String),
    /// The special workspace, which may have a name.
    Special(Option<String>),
}

/// A number in decimal, with a minus sign in front where it is negative.
pub open spec fn signed_decimal(n: int) -> Seq<char> {
    if n < 0 {
        "-"@ + decimal((-n) as nat)
    } else {
        decimal(n as nat)
    }
}

/// What the bar shows for a workspace of this name and number: the name
/// behind the word `Workspace`, or the number where the name is empty.
pub open spec fn workspace_label(name: Seq<char>, id: int) -> Seq<char> {
    if name.len() == 0 {
        "Workspace "@ + signed_decimal(id)
    } else {
        "Workspace "@ + name
    }
}

/// What the bar shows for a workspace: for one with a name of its own its
/// label; for the special one its name behind `Special: `, or its number
/// behind `Special ` where it has no name or an empty one.
pub open spec fn workspace_title(name: WorkspaceName, id: int) -> Seq<char> {
    match name {
        WorkspaceName::Regular(own) => workspace_label(own@, id),
        WorkspaceName::Special(Some(own)) => if own@.len() > 0 {
            "Special: "@ + own@
        } else {
            "Special "@ + signed_decimal(id)
        },
        WorkspaceName::Special(None) => "Special "@ + signed_decimal(id),
    }
}

/// The colour behind the title for the workspace of this number.
pub open spec fn workspace_color(id: int) -> Seq<char> {
    if id == 1 {
        "rgba(122, 162, 247, 0.5)"@
    } else if id == 2 {
        "rgba(125, 207, 255, 0.5)"@
    } else if id == 3 {
        "rgba(158, 206, 106, 0.5)"@
    } else if id == 4 {
        "rgba(187, 154, 247, 0.5)"@
    } else if id == 5 {
        "rgba(247, 118, 142, 0.5)"@
    } else if id == 6 {
        "rgba(255, 158, 102, 0.5)"@
    } else if id == 7 {
        "rgba(157, 124, 216, 0.5)"@
    } else if id == 8 {
        "rgba(224, 175, 104, 0.5)"@
    } else if id == 9 {
        "rgba(42, 195, 222, 0.5)"@
    } else if id == 10 {
        "rgba(13, 185, 215, 0.5)"@
    } else {
        "rgba(67, 233, 123, 0.5)"@
    }
}

/// The style rule that gives the title the colour of a workspace.
pub open spec fn title_style(id: int) -> Seq<char> {
    ".title-widget { background-color: "@ + workspace_color(id) + "; }"@
}

/// Writes a number in decimal, with its sign.
pub fn signed_decimal_text(n: i32) -> (text: String)
    ensures
        text@ == signed_decimal(n as int),
{
    let wide: i64 = n as i64;
    if wide < 0 {
        let mut text = String::from_str("-");
        let digits = decimal_text((-wide) as u64);
        text.append(digits.as_str());
        text
    } else {
        decimal_text(wide as u64)
    }
}

/// Names a workspace by its name, or by its number where the name is empty.
pub fn format_workspace_name_from_string(name: &str, id: i32) -> (label: String)
    ensures
        label@ == workspace_label(name@, id as int),
{
    let mut label = String::from_str("Workspace ");
    if name.is_empty() {
        let number = signed_decimal_text(id);
        label.append(number.as_str());
    } else {
        label.append(name);
    }
    label
}

/// Names a workspace as the compositor reports it.
pub fn format_workspace_name_from_type(name: &WorkspaceName, id: i32) -> (label: String)
    ensures
        label@ == workspace_title(*name, id as int),
{
    match name {
        WorkspaceName::Regular(own) => format_workspace_name_from_string(own.as_str(), id),
        WorkspaceName::Special(Some(own)) => {
            if !own.as_str().is_empty() {
                let mut label = String::from_str("Special: ");
                label.append(own.as_str());
                label
            } else {
                let mut label = String::from_str("Special ");
                let number = signed_decimal_text(id);
                label.append(number.as_str());
                label
            }
        },
        WorkspaceName::Special(None) => {
            let mut label = String::from_str("Special ");
            let number = signed_decimal_text(id);
            label.append(number.as_str());
            label
        },
    }
}

/// The colour behind the title for the workspace of this number.
pub fn get_workspace_color(workspace_id: i32) -> (color: &'static str)
    ensures
        color@ == workspace_color(workspace_id as int),
{
    match workspace_id {
        1 => "rgba(122, 162, 247, 0.5)",
        2 => "rgba(125, 207, 255, 0.5)",
        3 => "rgba(158, 206, 106, 0.5)",
        4 => "rgba(187, 154, 247, 0.5)",
        5 => "rgba(247, 118, 142, 0.5)",
        6 => "rgba(255, 158, 102, 0.5)",
        7 => "rgba(157, 124, 216, 0.5)",
        8 => "rgba(224, 175, 104, 0.5)",
        9 => "rgba(42, 195, 222, 0.5)",
        10 => "rgba(13, 185, 215, 0.5)",
        _ => "rgba(67, 233, 123, 0.5)",
    }
}

/// Writes the style rule that gives the title the colour of a workspace.
pub fn title_style_text(workspace_id: i32) -> (style: String)
    ensures
        style@ == title_style(workspace_id as int),
{
    let mut style = String::from_str(".title-widget { background-color: ");
    style.append(get_workspace_color(workspace_id));
    style.append("; }");
    style
}

} // verus!
