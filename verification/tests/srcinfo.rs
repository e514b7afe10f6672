use pkgbuild_manager::actions::aur_push::{
    branch_from_symbolic_ref, commit_message_from_srcinfo, parse_pkgbuild_info, reports_nothing_to_commit,
};

const SRCINFO: &str = "pkgbase = demo\n\tpkgdesc = x\n\tpkgver = 1.2.3\n\tpkgrel = 4\n\npkgname = demo\n";

#[test]
fn srcinfo_fields_are_read() {
    assert_eq!(
        parse_pkgbuild_info(SRCINFO),
        ("demo".to_string(), "1.2.3".to_string(), "4".to_string())
    );
}

#[test]
fn missing_fields_have_defaults() {
    assert_eq!(
        parse_pkgbuild_info(""),
        ("unknown".to_string(), "0".to_string(), "1".to_string())
    );
}

#[test]
fn first_occurrence_wins() {
    let text = "pkgname = a\npkgname = b\npkgver = 2\npkgver = 3\n";
    assert_eq!(parse_pkgbuild_info(text).0, "a");
    assert_eq!(parse_pkgbuild_info(text).1, "2");
}

#[test]
fn generated_commit_message() {
    assert_eq!(commit_message_from_srcinfo(SRCINFO), "upgpkg: demo 1.2.3-4");
}

#[test]
fn default_branch_from_symbolic_ref() {
    assert_eq!(branch_from_symbolic_ref("refs/remotes/origin/main\n"), Some("main".to_string()));
    assert_eq!(branch_from_symbolic_ref("refs/remotes/origin/HEAD\n"), None);
    assert_eq!(branch_from_symbolic_ref(""), None);
}

#[test]
fn nothing_to_commit_is_recognised() {
    assert!(reports_nothing_to_commit("On branch main\nnothing to commit, working tree clean\n", ""));
    assert!(reports_nothing_to_commit("", "nothing added to commit but untracked files present"));
    assert!(!reports_nothing_to_commit("", "fatal: not a git repository"));
}

#[test]
fn lines_after_the_fields_do_not_matter() {
    let extra = format!("{}\npkgname = other\npkgver = 9\n", SRCINFO);
    assert_eq!(parse_pkgbuild_info(&extra), parse_pkgbuild_info(SRCINFO));
    let crlf = "pkgname = a\r\npkgver = 1\r\npkgrel = 2\r";
    assert_eq!(parse_pkgbuild_info(&format!("{}\npkgrel = 7", crlf)), parse_pkgbuild_info(crlf));
}
