use pkgbuild_manager::actions::namcap::{namcap_args, namcap_error_count, namcap_verdict, NamcapVerdict};
use pkgbuild_manager::actions::shellcheck::shellcheck_args;
use pkgbuild_manager::actions::validate::{
    check_deps_args, offline_failures, parse_args, syntax_outcome, verify_sources_args,
};

#[test]
fn namcap_runs_on_pkgbuild_and_packages() {
    assert_eq!(
        namcap_args(vec!["a.pkg.tar.zst".to_string()]),
        vec!["PKGBUILD".to_string(), "a.pkg.tar.zst".to_string()]
    );
}

#[test]
fn namcap_error_lines_are_counted() {
    let out = "PKGBUILD (demo) E: Missing license\nPKGBUILD (demo) W: something\n";
    assert_eq!(namcap_error_count(out, "E: broken\n"), 2);
    assert_eq!(namcap_error_count("W: only a warning\n", ""), 0);
}

#[test]
fn namcap_verdicts() {
    assert_eq!(namcap_verdict(2, true), NamcapVerdict::Errors(2));
    assert_eq!(namcap_verdict(0, false), NamcapVerdict::Failed);
    assert_eq!(namcap_verdict(0, true), NamcapVerdict::Clean);
}

#[test]
fn shellcheck_arguments() {
    assert_eq!(
        shellcheck_args(),
        vec!["--shell=bash".to_string(), "--exclude=SC2034,SC2154,SC2164".to_string(), "PKGBUILD".to_string()]
    );
}

#[test]
fn validate_arguments() {
    assert_eq!(parse_args(), vec!["--nobuild".to_string(), "--noextract".to_string()]);
    assert_eq!(verify_sources_args(), vec!["--verifysource".to_string()]);
    assert_eq!(check_deps_args(), vec!["--syncdeps".to_string(), "--nobuild".to_string()]);
}

#[test]
fn syntax_outcomes() {
    assert_eq!(syntax_outcome(true, "warning"), Ok(()));
    assert_eq!(syntax_outcome(false, "  bad line 3 \n"), Err("bad line 3".to_string()));
}

#[test]
fn offline_report() {
    let r = offline_failures(Some("a".into()), None, Some("b".into()), Some("c".into()));
    assert_eq!(
        r,
        vec!["[syntax]    a".to_string(), "[namcap]    b".to_string(), "[shellcheck]c".to_string()]
    );
    assert!(offline_failures(None, None, None, None).is_empty());
}
