//! `setup-nautilus`: the file-manager integration. The scripts of earlier
//! layouts are removed, the packaged Python extension is looked for, and
//! per-user copies of it (which would duplicate every menu item) go away.

use vstd::prelude::*;
use crate::actions::{join, join_path};

verus! {

broadcast use vstd::string::group_string_axioms;

/// The names of the scripts that earlier layouts installed, in English and
/// Portuguese.
pub open spec fn stale_names() -> Seq<Seq<char>> {
    seq![
        "00_Full Workflow"@, "01_Build"@, "02_Install"@, "02b_Build and Clean"@,
        "03_Update Checksums"@, "04_Update .SRCINFO"@, "05_Namcap"@, "05b_ShellCheck"@,
        "06_Push AUR"@, "07_Clean srcdir"@, "07b_Clean Everything"@,
        "00_Fluxo completo"@, "01_Compilar"@, "02_Instalar"@, "02b_Compilar e Limpar"@,
        "03_Atualizar checksums"@, "04_Atualizar .SRCINFO"@, "07_Limpar srcdir"@,
        "07b_Clean tudo"@, "07b_Limpar tudo"@,
        "Fluxo Completo"@, "Compilar"@, "Instalar"@, "Compilar e Limpar"@,
        "Atualizar Checksums"@, "Atualizar .SRCINFO"@, "Namcap"@, "ShellCheck"@,
        "Enviar para AUR"@, "Limpar srcdir"@, "Limpar Tudo"@,
        "_run_in_terminal"@,
    ]
}

/// The names of the stale scripts.
pub fn stale_script_names() -> (r: Vec<String>)
    ensures
        r.deep_view() == stale_names(),
{
    let r = vec![
        "00_Full Workflow".to_string(), "01_Build".to_string(), "02_Install".to_string(),
        "02b_Build and Clean".to_string(), "03_Update Checksums".to_string(),
        "04_Update .SRCINFO".to_string(), "05_Namcap".to_string(), "05b_ShellCheck".to_string(),
        "06_Push AUR".to_string(), "07_Clean srcdir".to_string(), "07b_Clean Everything".to_string(),
        "00_Fluxo completo".to_string(), "01_Compilar".to_string(), "02_Instalar".to_string(),
        "02b_Compilar e Limpar".to_string(), "03_Atualizar checksums".to_string(),
        "04_Atualizar .SRCINFO".to_string(), "07_Limpar srcdir".to_string(),
        "07b_Clean tudo".to_string(), "07b_Limpar tudo".to_string(),
        "Fluxo Completo".to_string(), "Compilar".to_string(), "Instalar".to_string(),
        "Compilar e Limpar".to_string(), "Atualizar Checksums".to_string(),
        "Atualizar .SRCINFO".to_string(), "Namcap".to_string(), "ShellCheck".to_string(),
        "Enviar para AUR".to_string(), "Limpar srcdir".to_string(), "Limpar Tudo".to_string(),
        "_run_in_terminal".to_string(),
    ];
    assert(r.deep_view() =~= stale_names());
    r
}

/// The directory of Nautilus scripts in `home`.
pub open spec fn scripts_dir(home: Seq<char>) -> Seq<char> {
    join_path(home, ".local/share/nautilus/scripts"@)
}

/// The stale scripts to remove, in `home`'s Nautilus scripts directory.
pub fn stale_script_paths(home: &str) -> (r: Vec<String>)
    ensures
        r.deep_view() == stale_names().map_values(|n: Seq<char>| join_path(scripts_dir(home@), n)),
{
    let root = join(home, ".local/share/nautilus/scripts");
    let names = stale_script_names();
    let mut r: Vec<String> = Vec::new();
    let mut i: usize = 0;
    while i < names.len()
        invariant
            i <= names.len(),
            root@ == scripts_dir(home@),
            names.deep_view() == stale_names(),
            r.deep_view() == stale_names().take(i as int).map_values(
                |n: Seq<char>| join_path(scripts_dir(home@), n),
            ),
        decreases names.len() - i,
    {
        let ghost before = r.deep_view();
        let p = join(root.as_str(), names[i].as_str());
        r.push(p);
        assert(r.deep_view() =~= before.push(p@));
        assert(names.deep_view()[i as int] == names[i as int]@);
        assert(stale_names().take(i + 1).drop_last() =~= stale_names().take(i as int));
        assert(r.deep_view() =~= stale_names().take(i + 1).map_values(
            |n: Seq<char>| join_path(scripts_dir(home@), n),
        ));
        i += 1;
    }
    assert(stale_names().take(names.len() as int) =~= stale_names());
    r
}

/// The `PKGBUILD` scripts directory of an earlier layout, removed whole.
pub fn obsolete_scripts_dir(home: &str) -> (r: String)
    ensures
        r@ == join_path(scripts_dir(home@), "PKGBUILD"@),
{
    let root = join(home, ".local/share/nautilus/scripts");
    join(root.as_str(), "PKGBUILD")
}

/// Where the packaged extension may be installed, in the order looked at.
pub fn system_extension_paths() -> (r: Vec<String>)
    ensures
        r.deep_view() == seq![
            "/usr/share/nautilus-python/extensions/pkgbuild_manager.py"@,
            "/usr/local/share/nautilus-python/extensions/pkgbuild_manager.py"@,
        ],
{
    let r = vec![
        "/usr/share/nautilus-python/extensions/pkgbuild_manager.py".to_string(),
        "/usr/local/share/nautilus-python/extensions/pkgbuild_manager.py".to_string(),
    ];
    assert(r.deep_view() =~= seq![
        "/usr/share/nautilus-python/extensions/pkgbuild_manager.py"@,
        "/usr/local/share/nautilus-python/extensions/pkgbuild_manager.py"@,
    ]);
    r
}

/// Whether `Path::new(a) == Path::new(b)` (equal component by component).
pub uninterp spec fn spec_same_path(a: Seq<char>, b: Seq<char>) -> bool;

/// `<Path as PartialEq>::eq` on two paths given as text.
/// Trusted: the result is `spec_same_path` of the two paths.
#[verifier::external_body]
fn same_path(a: &str, b: &str) -> (r: bool)
    ensures
        r == spec_same_path(a@, b@),
{
    std::path::Path::new(a) == std::path::Path::new(b)
}

/// The per-user copies of the extension: the one under `home`, and the one
/// under `$XDG_DATA_HOME` when that is set and names another path.
pub open spec fn user_extensions(home: Seq<char>, xdg_data_home: Option<Seq<char>>) -> Seq<Seq<char>> {
    let first = join_path(home, ".local/share/nautilus-python/extensions/pkgbuild_manager.py"@);
    match xdg_data_home {
        Some(d) => {
            let x = join_path(d, "nautilus-python/extensions/pkgbuild_manager.py"@);
            if spec_same_path(first, x) {
                seq![first]
            } else {
                seq![first, x]
            }
        },
        None => seq![first],
    }
}

/// The per-user extension copies to remove when the packaged one exists.
pub fn user_extension_paths(home: &str, xdg_data_home: Option<String>) -> (r: Vec<String>)
    ensures
        r.deep_view() == user_extensions(home@, xdg_data_home.deep_view()),
{
    let first = join(home, ".local/share/nautilus-python/extensions/pkgbuild_manager.py");
    let mut r = vec![first.clone()];
    if let Some(d) = xdg_data_home {
        let x = join(d.as_str(), "nautilus-python/extensions/pkgbuild_manager.py");
        if !same_path(first.as_str(), x.as_str()) {
            r.push(x);
        }
    }
    assert(r.deep_view() =~= user_extensions(home@, xdg_data_home.deep_view()));
    r
}

} // verus!
