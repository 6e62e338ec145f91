use nvmd_tray::menu::{Group, MenuItem, MenuNode, Project, Snapshot, TrayMenu};
use nvmd_tray::tray::{Tray, TrayError};

fn strings(v: &[&str]) -> Vec<String> {
    v.iter().map(|x| x.to_string()).collect()
}

fn snapshot(installed: &[&str], current: Option<&str>) -> Snapshot {
    Snapshot {
        locale: None,
        projects: vec![],
        groups: vec![],
        installed: strings(installed),
        current: current.map(|c| c.to_string()),
    }
}

fn project(name: &str, version: Option<&str>) -> Project {
    Project { name: name.to_string(), version: version.map(|v| v.to_string()) }
}

fn submenu(menu: &TrayMenu, i: usize) -> (&String, &Vec<MenuItem>) {
    match &menu.nodes[i] {
        MenuNode::Submenu { id, items, .. } => (id, items),
        other => panic!("expected a submenu, got {:?}", other),
    }
}

fn checks(items: &[MenuItem]) -> Vec<(String, String, bool)> {
    items
        .iter()
        .filter_map(|i| match i {
            MenuItem::Check { id, label, checked } => Some((id.clone(), label.clone(), *checked)),
            _ => None,
        })
        .collect()
}

#[test]
fn only_current_global_version_is_checked() {
    let m = Tray::create_tray_menu(&snapshot(&["16.0.0", "18.2.0", "20.0.0"], Some("18.2.0")));
    let (id, items) = submenu(&m, 2);
    assert_eq!(id, "global");
    assert_eq!(
        checks(items),
        vec![
            ("global_version_16.0.0".to_string(), "v16.0.0".to_string(), false),
            ("global_version_18.2.0".to_string(), "v18.2.0".to_string(), true),
            ("global_version_20.0.0".to_string(), "v20.0.0".to_string(), false),
        ]
    );
}

#[test]
fn no_current_global_version_checks_nothing() {
    let m = Tray::create_tray_menu(&snapshot(&["16.0.0", "18.2.0"], None));
    let (_, items) = submenu(&m, 2);
    assert!(checks(items).iter().all(|c| !c.2));
}

#[test]
fn only_first_five_projects_get_submenus() {
    let mut s = snapshot(&["18.2.0"], None);
    s.projects = (1..=7).map(|i| project(&format!("p{}", i), None)).collect();
    let m = Tray::create_tray_menu(&s);
    assert_eq!(m.nodes.len(), 13);
    for i in 0..5 {
        let (id, _) = submenu(&m, 3 + i);
        assert_eq!(id, &format!("p{}", i + 1));
    }
    assert_eq!(m.nodes[8], MenuNode::Item(MenuItem::Separator));
}

#[test]
fn group_bound_project_checks_the_group_only() {
    let mut s = snapshot(&["16.0.0", "18.2.0"], None);
    s.projects = vec![project("P", Some("lts"))];
    s.groups = vec![Group { name: "lts".to_string() }, Group { name: "current".to_string() }];
    let m = Tray::create_tray_menu(&s);
    let (id, items) = submenu(&m, 3);
    assert_eq!(id, "P");
    assert_eq!(items.len(), 5);
    assert_eq!(items[2], MenuItem::Separator);
    assert_eq!(
        checks(items),
        vec![
            ("P_version_16.0.0".to_string(), "v16.0.0".to_string(), false),
            ("P_version_18.2.0".to_string(), "v18.2.0".to_string(), false),
            ("P_group_lts".to_string(), "lts".to_string(), true),
            ("P_group_current".to_string(), "current".to_string(), false),
        ]
    );
}

#[test]
fn project_version_is_checked_in_its_submenu() {
    let mut s = snapshot(&["16.0.0", "18.2.0"], Some("16.0.0"));
    s.projects = vec![project("web", Some("18.2.0"))];
    let m = Tray::create_tray_menu(&s);
    let (_, items) = submenu(&m, 3);
    let c = checks(items);
    assert_eq!(c[0].2, false);
    assert_eq!(c[1], ("web_version_18.2.0".to_string(), "v18.2.0".to_string(), true));
}

#[test]
fn empty_snapshot_has_fixed_layout() {
    let m = Tray::create_tray_menu(&snapshot(&[], None));
    assert_eq!(m.nodes.len(), 8);
    assert_eq!(
        m.nodes[0],
        MenuNode::Item(MenuItem::Action {
            id: "open_window".to_string(),
            label: "NVM-Desktop".to_string(),
            accelerator: None
        })
    );
    assert_eq!(m.nodes[1], MenuNode::Item(MenuItem::Separator));
    assert_eq!(submenu(&m, 2).1.len(), 0);
    assert_eq!(m.nodes[3], MenuNode::Item(MenuItem::Separator));
    let (dirs, dir_items) = submenu(&m, 4);
    assert_eq!(dirs, "open_dirs");
    assert_eq!(
        dir_items,
        &vec![
            MenuItem::Action { id: "open_data_dir".to_string(), label: "Data Dir".to_string(), accelerator: None },
            MenuItem::Action { id: "open_logs_dir".to_string(), label: "Logs Dir".to_string(), accelerator: None },
        ]
    );
    assert_eq!(m.nodes[6], MenuNode::About { label: "About NVM-Desktop".to_string() });
    assert_eq!(
        m.nodes[7],
        MenuNode::Item(MenuItem::Action {
            id: "quit".to_string(),
            label: "Quit NVM-Desktop".to_string(),
            accelerator: Some("CmdOrCtrl+Q".to_string())
        })
    );
}

#[test]
fn chinese_locale_translates_labels() {
    let mut s = snapshot(&[], None);
    s.locale = Some("zh-CN".to_string());
    let m = Tray::create_tray_menu(&s);
    assert_eq!(
        m.nodes[5],
        MenuNode::Item(MenuItem::Action {
            id: "open_dev_tools".to_string(),
            label: "开发者工具".to_string(),
            accelerator: None
        })
    );
    assert_eq!(m.nodes[6], MenuNode::About { label: "关于 NVM-Desktop".to_string() });
    s.locale = Some("en-US".to_string());
    let m = Tray::create_tray_menu(&s);
    assert_eq!(m.nodes[6], MenuNode::About { label: "About NVM-Desktop".to_string() });
}

#[test]
fn building_twice_gives_the_same_menu() {
    let mut s = snapshot(&["16.0.0", "18.2.0"], Some("18.2.0"));
    s.projects = vec![project("a", Some("lts")), project("b", None)];
    s.groups = vec![Group { name: "lts".to_string() }];
    assert_eq!(Tray::create_tray_menu(&s), Tray::create_tray_menu(&s));
}

#[test]
fn refresh_without_tray_is_not_initialized() {
    let s = snapshot(&["18.2.0"], None);
    assert_eq!(Tray::update_part(false, &s), Err(TrayError::NotInitialized));
    assert_eq!(Tray::update_part_with_emit(false, true, &s, "ev", "18.2.0"), Err(TrayError::NotInitialized));
}

#[test]
fn refresh_installs_the_rebuilt_menu() {
    let s = snapshot(&["18.2.0"], Some("18.2.0"));
    assert_eq!(Tray::update_part(true, &s), Ok(Tray::create_tray_menu(&s)));
}

#[test]
fn refresh_with_emit_notifies_only_an_open_window() {
    let s = snapshot(&["18.2.0"], None);
    let r = Tray::update_part_with_emit(true, true, &s, "node:current", "18.2.0").unwrap();
    assert_eq!(r.menu, Tray::create_tray_menu(&s));
    let n = r.notify.unwrap();
    assert_eq!((n.event.as_str(), n.payload.as_str()), ("node:current", "18.2.0"));
    let r = Tray::update_part_with_emit(true, false, &s, "node:current", "18.2.0").unwrap();
    assert!(r.notify.is_none());
}
