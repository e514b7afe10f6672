use pkgbuild_manager::actions::clean::{
    classify_dir, is_pkg_file_name, looks_like_bash_expansion, looks_like_git_head, static_read_pkgname,
    DirCleanup,
};

#[test]
fn scalar_pkgname() {
    assert_eq!(static_read_pkgname("pkgname=demo\npkgver=1\n"), Some("demo".to_string()));
    assert_eq!(static_read_pkgname("  pkgname=\"quoted\"  \n"), Some("quoted".to_string()));
    assert_eq!(static_read_pkgname("pkgname='single'\n"), Some("single".to_string()));
}

#[test]
fn array_pkgname_gives_the_first() {
    assert_eq!(static_read_pkgname("pkgname=('one' 'two')\n"), Some("one".to_string()));
    assert_eq!(static_read_pkgname("pkgname=(meu-pacote)\n"), Some("meu-pacote".to_string()));
}

#[test]
fn no_pkgname() {
    assert_eq!(static_read_pkgname("pkgver=1\n"), None);
    assert_eq!(static_read_pkgname("pkgname=\"\"\npkgname=later\n"), Some("later".to_string()));
}

#[test]
fn bash_expansions() {
    assert!(looks_like_bash_expansion("${_pkgname}-git"));
    assert!(looks_like_bash_expansion("`x`"));
    assert!(looks_like_bash_expansion("a{b"));
    assert!(!looks_like_bash_expansion("plain-name"));
}

#[test]
fn package_files() {
    assert!(is_pkg_file_name("demo-1-1-x86_64.pkg.tar.zst"));
    assert!(!is_pkg_file_name("PKGBUILD"));
    assert!(is_pkg_file_name("other-1-1-any.pkg.tar.xz"));
}

#[test]
fn git_heads() {
    assert!(looks_like_git_head("ref: refs/heads/main\n"));
    assert!(looks_like_git_head("0123456789abcdef0123456789abcdef01234567"));
    assert!(!looks_like_git_head("0123456789abcdef"));
    assert!(!looks_like_git_head("hello"));
}

#[test]
fn directories_to_clean() {
    assert_eq!(classify_dir(".git", true), DirCleanup::Keep);
    assert_eq!(classify_dir("demo", true), DirCleanup::BareRepoCache);
    assert_eq!(classify_dir("_build-x", false), DirCleanup::BuildDir);
    assert_eq!(classify_dir("docs", false), DirCleanup::Keep);
}
