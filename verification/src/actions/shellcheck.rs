//! `shellcheck` on the PKGBUILD, as bash, without the rules that fire on
//! valid PKGBUILD patterns (SC2034 unused variables, SC2154 variables set by
//! makepkg, SC2164 `cd` without a check).

use vstd::prelude::*;

verus! {

broadcast use vstd::string::group_string_axioms;

/// `shellcheck --shell=bash --exclude=SC2034,SC2154,SC2164 PKGBUILD`.
pub fn shellcheck_args() -> (r: Vec<String>)
    ensures
        r.deep_view() == seq!["--shell=bash"@, "--exclude=SC2034,SC2154,SC2164"@, "PKGBUILD"@],
{
    let r = vec![
        "--shell=bash".to_string(),
        "--exclude=SC2034,SC2154,SC2164".to_string(),
        "PKGBUILD".to_string(),
    ];
    assert(r.deep_view() =~= seq![
        "--shell=bash"@,
        "--exclude=SC2034,SC2154,SC2164"@,
        "PKGBUILD"@,
    ]);
    r
}

} // verus!
