use std::hash::{Hash, Hasher};
use std::path::Path;

use pkgbuild_manager::actions::{choose_cache_root, join, makepkg_build_dir_path};

#[test]
fn makepkg_work_tree_is_outside_the_source_repository() {
    let repository = "/home/user/project";
    let build_dir = makepkg_build_dir_path("/home/user/.cache", repository);

    assert!(Path::new(&build_dir).starts_with("/home/user/.cache/pkgbuild-manager/makepkg"));
    assert!(!Path::new(&build_dir).starts_with(repository));
}

#[test]
fn makepkg_work_trees_are_distinct_per_repository() {
    let cache = "/home/user/.cache";
    let first = makepkg_build_dir_path(cache, "/work/first/package");
    let second = makepkg_build_dir_path(cache, "/work/second/package");

    assert_ne!(first, second);
}

#[test]
fn build_dir_names_the_project_and_a_hash() {
    let dir = makepkg_build_dir_path("/c", "/src/my pkg");
    let leaf = dir.strip_prefix("/c/pkgbuild-manager/makepkg/").unwrap();
    let (name, hash) = leaf.rsplit_once('-').unwrap();
    assert_eq!(name, "my_pkg");
    assert_eq!(hash.len(), 16);
    assert!(hash.chars().all(|c| c.is_ascii_hexdigit() && !c.is_ascii_uppercase()));
}

#[test]
fn build_dir_hash_is_the_default_hasher_of_the_path() {
    let mut h = std::collections::hash_map::DefaultHasher::new();
    Path::new("/work/pkg").hash(&mut h);
    let expected = format!("/c/pkgbuild-manager/makepkg/pkg-{:016x}", h.finish());
    assert_eq!(makepkg_build_dir_path("/c", "/work/pkg"), expected);
}

#[test]
fn build_dir_of_a_root_path_is_named_package() {
    let dir = makepkg_build_dir_path("/c", "/");
    assert!(dir.starts_with("/c/pkgbuild-manager/makepkg/package-"));
}

#[test]
fn cache_root_prefers_xdg_then_home() {
    assert_eq!(choose_cache_root(Some("/x".into()), Some("/h".into())), Some("/x".to_string()));
    assert_eq!(choose_cache_root(None, Some("/h".into())), Some("/h/.cache".to_string()));
    assert_eq!(choose_cache_root(None, None), None);
}

#[test]
fn join_follows_path_join() {
    assert_eq!(join("/a", "b"), "/a/b");
    assert_eq!(join("/a/", "b"), "/a/b");
    assert_eq!(join("/a", "/b"), "/b");
    assert_eq!(join("", "b"), "b");
}
