use pkgbuild_manager::aur_push_gui::repo::RepoMode;
use pkgbuild_manager::clean_gui::{
    candidate_paths, candidate_row, clean_all_args, clean_enabled, cleanup_candidates, is_bare_git_repo,
    resolve_target, sort_names, DirEntry,
};
use pkgbuild_manager::gui::{forced_mode, has_tag_flag, parse_gui_command, target_arg, GuiCommand};
use pkgbuild_manager::host::{host_command, is_flatpak};
use pkgbuild_manager::i18n::{desktop_language, messages_locale};
use pkgbuild_manager::setup::{
    obsolete_scripts_dir, stale_script_names, stale_script_paths, system_extension_paths, user_extension_paths,
};
use pkgbuild_manager::win_state::{load_window_size, save_window_size, window_size, window_state_path_for};

fn strs(v: &[&str]) -> Vec<String> {
    v.iter().map(|s| s.to_string()).collect()
}

fn entry(name: &str, is_file: bool, is_dir: bool, bare: bool) -> DirEntry {
    DirEntry { name: name.to_string(), is_file, is_dir, is_bare_repo: bare }
}

#[test]
fn front_end_commands() {
    assert_eq!(parse_gui_command(&vec![]), GuiCommand::Help);
    assert_eq!(parse_gui_command(&strs(&["push", "."])), GuiCommand::Push);
    assert_eq!(parse_gui_command(&strs(&["release"])), GuiCommand::Release);
    assert_eq!(parse_gui_command(&strs(&["settings"])), GuiCommand::Settings);
    assert_eq!(parse_gui_command(&strs(&["-h"])), GuiCommand::Help);
    assert_eq!(parse_gui_command(&strs(&["open"])), GuiCommand::Unknown);
}

#[test]
fn window_arguments() {
    assert_eq!(target_arg(&strs(&["--tag", "/pkg", "x"])), "/pkg");
    assert_eq!(target_arg(&strs(&["--tag"])), ".");
    assert!(has_tag_flag(&strs(&["/p", "--tag"])));
    assert!(!has_tag_flag(&strs(&["/p"])));
    assert_eq!(forced_mode(&strs(&["/p", "--mode=gitlab", "--mode=aur"])), Some(RepoMode::GitLab));
    assert_eq!(forced_mode(&strs(&["--mode=svn"])), None);
}

#[test]
fn host_commands() {
    assert!(is_flatpak(false, true));
    assert!(!is_flatpak(false, false));
    assert_eq!(host_command("makepkg", true), ("flatpak-spawn".to_string(), strs(&["--host", "makepkg"])));
    assert_eq!(host_command("makepkg", false), ("makepkg".to_string(), vec![]));
}

#[test]
fn desktop_languages() {
    assert_eq!(desktop_language(Some("pt_BR.UTF-8".into()), Some("en".into())), Some("pt_BR.UTF-8".to_string()));
    assert_eq!(desktop_language(Some("  ".into()), Some("de:en".into())), Some("de:en".to_string()));
    assert_eq!(desktop_language(None, Some("".into())), None);
    assert_eq!(messages_locale("pt_BR:pt:en"), "pt_BR");
    assert_eq!(messages_locale("fr"), "fr");
}

#[test]
fn clean_targets() {
    assert_eq!(resolve_target("/a/b/PKGBUILD", true), "/a/b");
    assert_eq!(resolve_target("/a/b", false), "/a/b");
    assert_eq!(resolve_target("/", true), ".");
    assert!(is_bare_git_repo(true, true, true, true));
    assert!(!is_bare_git_repo(true, true, false, true));
}

#[test]
fn clean_candidates_are_chosen_and_sorted() {
    let entries = vec![
        entry("zz.pkg.tar.zst", true, false, false),
        entry(".git", false, true, true),
        entry("src", false, true, false),
        entry("_build", false, true, false),
        entry("cache", false, true, true),
        entry("notes.txt", true, false, false),
    ];
    let names = cleanup_candidates(true, true, false, &entries);
    assert_eq!(names, strs(&[".makepkg.lock", "_build", "cache", "src", "zz.pkg.tar.zst"]));
    assert_eq!(candidate_paths("/p", &strs(&["src"])), strs(&["/p/src"]));
}

#[test]
fn names_sort_by_character() {
    assert_eq!(sort_names(strs(&["b", "B", "a", "ab", ""])), strs(&["", "B", "a", "ab", "b"]));
}

#[test]
fn clean_rows_and_button() {
    assert_eq!(candidate_row(true, true).1, "changes-prevent-symbolic");
    assert_eq!(candidate_row(false, true).0, "Directory and all its contents");
    assert_eq!(candidate_row(false, false).0, "File");
    assert!(clean_enabled(true, 2));
    assert!(!clean_enabled(true, 0));
    assert!(!clean_enabled(false, 2));
    assert_eq!(clean_all_args("/p"), strs(&["clean-all", "/p"]));
}

#[test]
fn window_state() {
    assert_eq!(window_state_path_for(None, Some("/h".into())), "/h/.config/pkgbuild-manager/window-state.json");
    assert_eq!(window_size(Some((Some(800), Some(600))), 1, 2), (800, 600));
    assert_eq!(window_size(Some((Some(800), None)), 1, 2), (1, 2));
    assert_eq!(window_size(None, 1, 2), (1, 2));
    assert_eq!(window_size(Some((Some(4294967296 + 5), Some(-1))), 1, 2), (5, -1));
}

#[test]
fn nautilus_setup_paths() {
    assert_eq!(stale_script_names().len(), 32);
    let paths = stale_script_paths("/home/u");
    assert_eq!(paths[0], "/home/u/.local/share/nautilus/scripts/00_Full Workflow");
    assert_eq!(obsolete_scripts_dir("/home/u"), "/home/u/.local/share/nautilus/scripts/PKGBUILD");
    assert_eq!(system_extension_paths().len(), 2);
    assert_eq!(
        user_extension_paths("/home/u", None),
        strs(&["/home/u/.local/share/nautilus-python/extensions/pkgbuild_manager.py"])
    );
    assert_eq!(
        user_extension_paths("/home/u", Some("/home/u/.local/share".into())),
        strs(&["/home/u/.local/share/nautilus-python/extensions/pkgbuild_manager.py"])
    );
    assert_eq!(user_extension_paths("/home/u", Some("/d".into())).len(), 2);
}

#[test]
fn window_sizes_from_the_state_file() {
    let text = "{\"push\": {\"width\": 800, \"height\": 600}, \"odd\": {\"width\": \"wide\", \"height\": 5}}";
    assert_eq!(load_window_size(Some(text.to_string()), "push", 1, 2), (800, 600));
    assert_eq!(load_window_size(Some(text.to_string()), "odd", 1, 2), (1, 2));
    assert_eq!(load_window_size(Some(text.to_string()), "other", 1, 2), (1, 2));
    assert_eq!(load_window_size(Some("not json".to_string()), "push", 1, 2), (1, 2));
    assert_eq!(load_window_size(None, "push", 1, 2), (1, 2));
}

#[test]
fn window_sizes_are_remembered() {
    let first = save_window_size(None, "push", 640, 480);
    let v: serde_json::Value = serde_json::from_str(&first).unwrap();
    assert_eq!(v["push"]["width"], 640);
    assert_eq!(v["push"]["height"], 480);
    let second = save_window_size(Some(first), "release", 1, 2);
    assert_eq!(load_window_size(Some(second.clone()), "push", 0, 0), (640, 480));
    assert_eq!(load_window_size(Some(second.clone()), "release", 0, 0), (1, 2));
    let replaced = save_window_size(Some(second), "push", 10, 20);
    assert_eq!(load_window_size(Some(replaced), "push", 0, 0), (10, 20));
    assert!(save_window_size(Some("[1, 2]".to_string()), "k", 3, 4).contains("\"k\""));
}
