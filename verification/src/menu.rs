//! The application menu's stable identifiers and the dispatch from a
//! triggered identifier to the action it requests. Drawing the menu is
//! the presentation layer's concern; which identifier means which
//! action is the library's, so a renamed or unknown entry can never be
//! mistaken for another action.

use vstd::prelude::*;

verus! {

/// What a menu entry asks the application to do.
#[derive(Clone, Copy, PartialEq, Eq, Structural, Debug)]
pub enum MenuAction {
    OpenSettings,
    OpenLogsFolder,
    OpenSidecarLog,
}

/// The identifier of the settings entry in the file menu.
pub open spec fn spec_menu_settings_id() -> Seq<char> {
    "file.settings"@
}

/// The identifier of the open-logs-folder entry in the debug menu.
pub open spec fn spec_menu_open_logs_id() -> Seq<char> {
    "debug.open_logs"@
}

/// The identifier of the open-sidecar-log entry in the debug menu.
pub open spec fn spec_menu_open_sidecar_log_id() -> Seq<char> {
    "debug.open_sidecar_log"@
}

/// The action a menu identifier requests, if it is one of ours.
pub open spec fn spec_menu_action(id: Seq<char>) -> Option<MenuAction> {
    if id == spec_menu_settings_id() {
        Some(MenuAction::OpenSettings)
    } else if id == spec_menu_open_logs_id() {
        Some(MenuAction::OpenLogsFolder)
    } else if id == spec_menu_open_sidecar_log_id() {
        Some(MenuAction::OpenSidecarLog)
    } else {
        None
    }
}

/// The settings entry's identifier, for building the menu.
pub fn menu_settings_id() -> (r: String)
    ensures
        r@ == spec_menu_settings_id(),
{
    String::from_str("file.settings")
}

/// The open-logs-folder entry's identifier, for building the menu.
pub fn menu_open_logs_id() -> (r: String)
    ensures
        r@ == spec_menu_open_logs_id(),
{
    String::from_str("debug.open_logs")
}

/// The open-sidecar-log entry's identifier, for building the menu.
pub fn menu_open_sidecar_log_id() -> (r: String)
    ensures
        r@ == spec_menu_open_sidecar_log_id(),
{
    String::from_str("debug.open_sidecar_log")
}

/// Dispatches a triggered menu identifier: exactly the three known
/// identifiers map to their action; every other identifier is ignored.
pub fn menu_action_for_id(id: &str) -> (r: Option<MenuAction>)
    ensures
        r == spec_menu_action(id@),
{
    let owned = id.to_owned();
    if owned == menu_settings_id() {
        Some(MenuAction::OpenSettings)
    } else if owned == menu_open_logs_id() {
        Some(MenuAction::OpenLogsFolder)
    } else if owned == menu_open_sidecar_log_id() {
        Some(MenuAction::OpenSidecarLog)
    } else {
        None
    }
}

} // verus!
