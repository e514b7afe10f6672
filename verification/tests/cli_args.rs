use pkgbuild_manager::cli::{
    check_tag, makepkg_flags, merge_flags, parse_command, push_message, split_path_and_flags, Command,
    TagError,
};

fn strings(v: &[&str]) -> Vec<String> {
    v.iter().map(|s| s.to_string()).collect()
}

#[test]
fn path_defaults_to_current_directory() {
    let (path, flags) = split_path_and_flags(&strings(&["pm", "build"]));
    assert_eq!(path, ".");
    assert!(flags.is_empty());
}

#[test]
fn third_argument_is_the_path() {
    let (path, flags) = split_path_and_flags(&strings(&["pm", "build", "/pkg", "-f", "--x"]));
    assert_eq!(path, "/pkg");
    assert_eq!(flags, strings(&["-f", "--x"]));
}

#[test]
fn leading_flag_means_no_path() {
    let (path, flags) = split_path_and_flags(&strings(&["pm", "build", "-f", "x"]));
    assert_eq!(path, ".");
    assert_eq!(flags, strings(&["-f", "x"]));
}

#[test]
fn separator_splits_path_and_flags() {
    let (path, flags) = split_path_and_flags(&strings(&["pm", "build", "/some/path", "--", "-f"]));
    assert_eq!(path, "/some/path");
    assert_eq!(flags, strings(&["-f"]));
    let (path, flags) = split_path_and_flags(&strings(&["pm", "build", "--", "-f", "--"]));
    assert_eq!(path, ".");
    assert_eq!(flags, strings(&["-f", "--"]));
}

#[test]
fn merged_flags_keep_order() {
    assert_eq!(merge_flags(&strings(&["-c"]), &strings(&["-f", "-g"])), strings(&["-c", "-f", "-g"]));
}

#[test]
fn commands_are_recognised() {
    assert_eq!(parse_command("build"), Command::Build);
    assert_eq!(parse_command("install-rmdeps"), Command::InstallRmdeps);
    assert_eq!(parse_command("validate-deps"), Command::ValidateDeps);
    assert_eq!(parse_command("clean-all"), Command::CleanAll);
    assert_eq!(parse_command("aur-push-tag"), Command::AurPushTag);
    assert_eq!(parse_command("--version"), Command::Version);
    assert_eq!(parse_command("-h"), Command::Help);
    assert_eq!(parse_command("--help"), Command::Help);
    assert_eq!(parse_command("help"), Command::Help);
    assert_eq!(parse_command("frobnicate"), Command::Unknown);
}

#[test]
fn makepkg_commands_prepend_their_flag() {
    assert_eq!(makepkg_flags(Command::BuildClean, &strings(&["-x"])), Some((false, strings(&["-c", "-x"]))));
    assert_eq!(makepkg_flags(Command::InstallNogpg, &vec![]), Some((true, strings(&["--skippgpcheck"]))));
    assert_eq!(makepkg_flags(Command::FetchSources, &vec![]), Some((false, strings(&["-o"]))));
    assert_eq!(makepkg_flags(Command::BuildCustom, &strings(&["-A"])), Some((false, strings(&["-A"]))));
    assert_eq!(makepkg_flags(Command::Namcap, &vec![]), None);
}

#[test]
fn tag_is_checked() {
    assert!(matches!(check_tag(&vec![]), Err(TagError::Missing)));
    assert!(matches!(check_tag(&strings(&[""])), Err(TagError::Empty)));
    match check_tag(&strings(&["1.2 3"])) {
        Err(TagError::HasSpace(t)) => assert_eq!(t, "1.2 3"),
        _ => panic!("a tag with a space must be refused"),
    }
    assert_eq!(check_tag(&strings(&["1.2.3-1", "x"])).ok(), Some("1.2.3-1".to_string()));
}

#[test]
fn push_message_is_the_first_flag() {
    assert_eq!(push_message(&strings(&["fix build"])), Some("fix build".to_string()));
    assert_eq!(push_message(&vec![]), None);
}

#[test]
fn documented_examples() {
    let (path, flags) = split_path_and_flags(&strings(&["pkgbuild_manager", "build", "-c", "-f"]));
    assert_eq!(path, ".");
    assert_eq!(flags, strings(&["-c", "-f"]));
    let (path, flags) = split_path_and_flags(&strings(&["pkgbuild_manager", "build", "/path/to/pkg", "--", "-c", "-f"]));
    assert_eq!(path, "/path/to/pkg");
    assert_eq!(flags, strings(&["-c", "-f"]));
}
