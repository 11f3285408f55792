use world_monitor::menu::{
    menu_action_for_id, menu_open_logs_id, menu_open_sidecar_log_id, menu_settings_id,
    MenuAction,
};

#[test]
fn known_identifiers_dispatch_to_their_action() {
    assert_eq!(menu_action_for_id("file.settings"), Some(MenuAction::OpenSettings));
    assert_eq!(menu_action_for_id("debug.open_logs"), Some(MenuAction::OpenLogsFolder));
    assert_eq!(
        menu_action_for_id("debug.open_sidecar_log"),
        Some(MenuAction::OpenSidecarLog)
    );
}

#[test]
fn unknown_identifiers_are_ignored() {
    assert_eq!(menu_action_for_id(""), None);
    assert_eq!(menu_action_for_id("file.quit"), None);
    assert_eq!(menu_action_for_id("file.settings2"), None);
}

#[test]
fn builder_ids_round_trip_through_dispatch() {
    assert_eq!(
        menu_action_for_id(menu_settings_id().as_str()),
        Some(MenuAction::OpenSettings)
    );
    assert_eq!(
        menu_action_for_id(menu_open_logs_id().as_str()),
        Some(MenuAction::OpenLogsFolder)
    );
    assert_eq!(
        menu_action_for_id(menu_open_sidecar_log_id().as_str()),
        Some(MenuAction::OpenSidecarLog)
    );
}
