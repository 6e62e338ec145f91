use nvmd_tray::tray::{MenuAction, Tray, TrayError};

fn s(x: &str) -> String {
    x.to_string()
}

#[test]
fn global_version_routes_to_global_switch() {
    assert_eq!(Tray::on_menu_event("global_version_18.2.0"), MenuAction::SetGlobalVersion(s("18.2.0")));
}

#[test]
fn group_entry_routes_to_project_group_switch() {
    assert_eq!(Tray::on_menu_event("myapp_group_lts"), MenuAction::SetProjectGroup(s("myapp"), s("lts")));
}

#[test]
fn project_version_routes_to_project_switch() {
    assert_eq!(
        Tray::on_menu_event("myapp_version_20.0.0"),
        MenuAction::SetProjectVersion(s("myapp"), s("20.0.0"))
    );
}

#[test]
fn reserved_literals_route_to_fixed_actions() {
    assert_eq!(Tray::on_menu_event("open_window"), MenuAction::OpenWindow);
    assert_eq!(Tray::on_menu_event("quit"), MenuAction::Quit);
    assert_eq!(Tray::on_menu_event("open_data_dir"), MenuAction::OpenDataDir);
    assert_eq!(Tray::on_menu_event("open_logs_dir"), MenuAction::OpenLogsDir);
    assert_eq!(Tray::on_menu_event("open_dev_tools"), MenuAction::OpenDevTools);
}

#[test]
fn unknown_identifiers_are_ignored() {
    assert_eq!(Tray::on_menu_event("tray_menu"), MenuAction::Ignore);
    assert_eq!(Tray::on_menu_event("global"), MenuAction::Ignore);
    assert_eq!(Tray::on_menu_event(""), MenuAction::Ignore);
    assert_eq!(Tray::on_menu_event("a_version_b_version_c"), MenuAction::Ignore);
    assert_eq!(Tray::on_menu_event("QUIT"), MenuAction::Ignore);
}

#[test]
fn dispatch_keeps_working_after_each_selection() {
    let ids = ["global_version_18.2.0", "bogus", "myapp_group_lts", "global_version_18.2.0"];
    let actions: Vec<MenuAction> = ids.iter().map(|id| Tray::on_menu_event(id)).collect();
    assert_eq!(actions[0], actions[3]);
    assert_eq!(actions[1], MenuAction::Ignore);
    assert_eq!(actions[2], MenuAction::SetProjectGroup(s("myapp"), s("lts")));
}

#[test]
fn not_initialized_message() {
    assert_eq!(TrayError::NotInitialized.message(), "The system tray menu has not been initialized");
}
