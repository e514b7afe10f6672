use pkgbuild_manager::settings_gui::config::{
    action_label, all_actions, catalogue_msgids, config_dir_for, default_menu, is_known, load,
    load_with_diagnostics, MenuGroup, MenuItem,
};
use pkgbuild_manager::settings_gui::layout::{
    add_group, add_item, move_buttons, move_group_down, move_group_up, move_item_down, move_item_up, remove_group,
    remove_item, rename_group, rename_item, set_item_enabled,
};

fn item(id: &str, label: &str) -> MenuItem {
    MenuItem { id: id.to_string(), label: label.to_string(), enabled: true }
}

fn none() -> Vec<(String, String)> {
    vec![]
}

fn names(gs: &[MenuGroup]) -> Vec<String> {
    gs.iter().map(|g| g.group.clone()).collect()
}

#[test]
fn every_action_is_listed_once() {
    let all = all_actions(&none());
    assert_eq!(all.len(), 21);
    assert_eq!(all[0], ("00_Full Workflow".to_string(), "Full Workflow".to_string()));
    assert_eq!(all[20], ("07b_Clean Everything".to_string(), "Clean Everything".to_string()));
    for (id, _) in &all {
        assert!(is_known(id));
    }
    assert!(!is_known("99_Other"));
}

#[test]
fn labels_hide_the_order_prefix() {
    assert_eq!(action_label("13_Install RmDeps", &none()), "Install RmDeps");
    assert_eq!(action_label("unknown-id", &none()), "unknown-id");
}

#[test]
fn default_menu_layout() {
    let m = default_menu(&none());
    assert_eq!(names(&m), vec!["Actions", "Metadata", "Audit", "Git / AUR", "Clean"]);
    let ids: Vec<&str> = m[0].items.iter().map(|i| i.id.as_str()).collect();
    assert_eq!(ids, vec!["00_Full Workflow", "02_Install", "01_Build", "02b_Build and Clean"]);
    assert!(m.iter().all(|g| g.items.iter().all(|i| i.enabled && i.label == action_label(&i.id, &none()))));
}

#[test]
fn missing_layout_gives_the_default() {
    let r = load_with_diagnostics(None, &none());
    assert!(r.unknown_ids.is_empty());
    assert_eq!(names(&r.groups), names(&default_menu(&none())));
    assert_eq!(load(None, &none()).len(), 5);
}

#[test]
fn unknown_items_are_dropped_and_reported() {
    let parsed = vec![
        MenuGroup { group: "Mine".into(), items: vec![item("01_Build", "My build"), item("99_Future", "x")] },
        MenuGroup { group: "Other".into(), items: vec![item("98_Gone", "y")] },
    ];
    let r = load_with_diagnostics(Some(parsed), &none());
    assert_eq!(r.unknown_ids, vec!["99_Future".to_string(), "98_Gone".to_string()]);
    assert_eq!(r.groups.len(), 2);
    assert_eq!(r.groups[0].items.len(), 1);
    assert_eq!(r.groups[0].items[0].label, "My build");
    assert!(r.groups[1].items.is_empty());
}

#[test]
fn labels_equal_to_the_id_are_replaced() {
    let parsed = vec![MenuGroup { group: "G".into(), items: vec![item("02_Install", "02_Install")] }];
    let r = load(Some(parsed), &none());
    assert_eq!(r[0].items[0].label, "Install");
}

#[test]
fn configuration_directory() {
    assert_eq!(config_dir_for(Some("/x".into()), Some("/h".into())), "/x/pkgbuild-manager");
    assert_eq!(config_dir_for(None, Some("/h".into())), "/h/.config/pkgbuild-manager");
    assert_eq!(config_dir_for(None, None), "/tmp/.config/pkgbuild-manager");
}

#[test]
fn group_moves_undo_each_other() {
    let mut m = default_menu(&none());
    let before = names(&m);
    move_group_down(&mut m, 1);
    assert_eq!(names(&m)[1], "Audit");
    assert_eq!(names(&m)[2], "Metadata");
    move_group_up(&mut m, 2);
    assert_eq!(names(&m), before);
}

#[test]
fn moves_at_the_edges_change_nothing() {
    let mut m = default_menu(&none());
    let before = names(&m);
    move_group_up(&mut m, 0);
    move_group_down(&mut m, 4);
    assert_eq!(names(&m), before);
}

#[test]
fn group_edits() {
    let mut m = default_menu(&none());
    add_group(&mut m, "New".into());
    assert_eq!(m.len(), 6);
    assert!(m[5].items.is_empty());
    rename_group(&mut m, 5, "Renamed".into());
    assert_eq!(m[5].group, "Renamed");
    remove_group(&mut m, 0);
    assert_eq!(m[0].group, "Metadata");
    assert_eq!(m.len(), 5);
}

#[test]
fn item_edits() {
    let mut m = default_menu(&none());
    set_item_enabled(&mut m, 0, 1, false);
    assert!(!m[0].items[1].enabled);
    rename_item(&mut m, 0, 1, "Setup".into());
    assert_eq!(m[0].items[1].label, "Setup");
    move_item_up(&mut m, 0, 1);
    assert_eq!(m[0].items[0].id, "02_Install");
    move_item_down(&mut m, 0, 0);
    assert_eq!(m[0].items[1].id, "02_Install");
    remove_item(&mut m, 0, 1);
    assert_eq!(m[0].items.len(), 3);
    add_item(&mut m, 3, "17_Push AUR Tag".into(), "Push AUR Tag".into());
    assert_eq!(m[3].items.last().unwrap().id, "17_Push AUR Tag");
    assert!(m[3].items.last().unwrap().enabled);
}

#[test]
fn row_buttons() {
    assert_eq!(move_buttons(0, 3), (false, true));
    assert_eq!(move_buttons(2, 3), (true, false));
    assert_eq!(move_buttons(0, 1), (false, false));
}

#[test]
fn default_labels_are_the_documented_ones() {
    let all = all_actions(&none());
    let expect = [
        ("00_Full Workflow", "Full Workflow"), ("01_Build", "Build"), ("02b_Build and Clean", "Build and Clean"),
        ("08_Build Force", "Build Force"), ("09_Build NoCheck", "Build NoCheck"), ("10_Build NoGPG", "Build NoGPG"),
        ("11_Fetch Sources", "Fetch Sources"), ("02_Install", "Install"), ("12_Install Force", "Install Force"),
        ("13_Install RmDeps", "Install RmDeps"), ("14_Install NoCheck", "Install NoCheck"),
        ("15_Install NoGPG", "Install NoGPG"), ("03_Update Checksums", "Update Checksums"),
        ("04_Update .SRCINFO", "Update .SRCINFO"), ("16_Gen Checksums", "Gen Checksums"), ("05_Namcap", "Namcap"),
        ("05b_ShellCheck", "ShellCheck"), ("06_Push AUR", "Push AUR"), ("17_Push AUR Tag", "Push AUR Tag"),
        ("07_Clean srcdir", "Clean srcdir"), ("07b_Clean Everything", "Clean Everything"),
    ];
    for (k, (id, label)) in expect.iter().enumerate() {
        assert_eq!(all[k], (id.to_string(), label.to_string()));
        let prefix = &id[..=id.find('_').unwrap()];
        assert!(!all[k].1.starts_with(prefix));
    }
}

#[test]
fn labels_come_from_the_catalogue() {
    let cat = vec![("Build".to_string(), "Compilar".to_string()), ("Clean".to_string(), "Limpar".to_string())];
    assert_eq!(action_label("01_Build", &cat), "Compilar");
    assert_eq!(action_label("02_Install", &cat), "Install");
    let m = default_menu(&cat);
    assert_eq!(m[4].group, "Limpar");
    assert_eq!(m[0].items[2].label, "Compilar");
    let parsed = vec![MenuGroup { group: "G".into(), items: vec![item("01_Build", "01_Build")] }];
    assert_eq!(load(Some(parsed), &cat)[0].items[0].label, "Compilar");
    assert_eq!(all_actions(&cat)[1].1, "Compilar");
}

#[test]
fn every_shown_message_id_is_in_the_catalogue_list() {
    let ids = catalogue_msgids();
    assert_eq!(ids.len(), 26);
    assert!(ids.contains(&"Push AUR"));
    assert!(ids.contains(&"Git / AUR"));
}

#[test]
fn missing_layout_equals_the_default_menu() {
    let a = load(None, &none());
    let b = default_menu(&none());
    assert_eq!(a.len(), b.len());
    for (x, y) in a.iter().zip(b.iter()) {
        assert_eq!(x.group, y.group);
        let xi: Vec<(String, String, bool)> = x.items.iter().map(|i| (i.id.clone(), i.label.clone(), i.enabled)).collect();
        let yi: Vec<(String, String, bool)> = y.items.iter().map(|i| (i.id.clone(), i.label.clone(), i.enabled)).collect();
        assert_eq!(xi, yi);
    }
}
