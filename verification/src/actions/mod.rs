//! The packaging actions: what each one runs, in which order, and how it
//! reads the tools' answers. Shared here: where makepkg's work tree goes.

pub mod aur_push;
pub mod flow;
pub mod compile;
pub mod install;
pub mod srcinfo;
pub mod error_log;
pub mod clean;
pub mod namcap;
pub mod validate;
pub mod shellcheck;

use std::hash::{Hash, Hasher};
use vstd::prelude::*;
use crate::format::{digit_char, fixed_digits, hex16};
use crate::text::{chars_of, string_of};

verus! {

broadcast use vstd::string::group_string_axioms;

// ── Paths ─────────────────────────────────────────────────────────────────────

/// `Path::join` on Unix: an absolute `rel` replaces `base`; otherwise `rel`
/// is appended, with a `/` between unless `base` is empty or already ends in one.
pub open spec fn join_path(base: Seq<char>, rel: Seq<char>) -> Seq<char> {
    if rel.len() > 0 && rel[0] == '/' {
        rel
    } else if base.len() == 0 || base.last() == '/' {
        base + rel
    } else {
        base + seq!['/'] + rel
    }
}

/// `Path::join` on Unix.
pub fn join(base: &str, rel: &str) -> (r: String)
    ensures
        r@ == join_path(base@, rel@),
{
    let b = chars_of(base);
    let r = chars_of(rel);
    if r.len() > 0 && r[0] == '/' {
        return rel.to_string();
    }
    let mut out = base.to_string();
    if !(b.len() == 0 || b[b.len() - 1] == '/') {
        out.append("/");
        proof {
            reveal_strlit("/");
        }
    }
    out.append(rel);
    out
}

/// What `Path::file_name` gives for a path (its final component, when that
/// is a normal component).
pub uninterp spec fn spec_file_name(path: Seq<char>) -> Option<Seq<char>>;

/// `Path::file_name`, read back as text.
/// Trusted: the result is `spec_file_name` of the path; a path that comes from
/// a `&str` is valid UTF-8, so its components are too.
#[verifier::external_body]
fn file_name(path: &str) -> (r: Option<String>)
    ensures
        r.deep_view() == spec_file_name(path@),
{
    std::path::Path::new(path).file_name().and_then(|n| n.to_str()).map(|n| n.to_string())
}

/// The value `std::collections::hash_map::DefaultHasher::new()` reaches after
/// hashing the path `path` (`<Path as Hash>::hash`, then `finish`).
pub uninterp spec fn spec_path_hash(path: Seq<char>) -> u64;

/// Hashes a path with a fresh `DefaultHasher` (whose keys are fixed, not
/// seeded per process).
/// Trusted: the result is `spec_path_hash` of the path.
#[verifier::external_body]
fn path_hash(path: &str) -> (h: u64)
    ensures
        h == spec_path_hash(path@),
{
    let mut hasher = std::collections::hash_map::DefaultHasher::new();
    std::path::Path::new(path).hash(&mut hasher);
    hasher.finish()
}

// ── makepkg work tree ─────────────────────────────────────────────────────────

/// Characters kept in a project name: ASCII letters and digits, `-`, `_`, `.`.
pub open spec fn keeps_char(c: char) -> bool {
    ('a' <= c && c <= 'z') || ('A' <= c && c <= 'Z') || ('0' <= c && c <= '9') || c == '-' || c
        == '_' || c == '.'
}

/// `name` with every other character replaced by `_`.
pub open spec fn sanitize_name(name: Seq<char>) -> Seq<char> {
    name.map_values(|c: char| if keeps_char(c) { c } else { '_' })
}

/// The project part of the work-tree name: the target's file name, or
/// `package` when it has none.
pub open spec fn project_name(target_dir: Seq<char>) -> Seq<char> {
    sanitize_name(
        match spec_file_name(target_dir) {
            Some(n) => n,
            None => "package"@,
        },
    )
}

/// `<cache_root>/pkgbuild-manager/makepkg/<project>-<16 hex digits of the path hash>`.
pub open spec fn build_dir_path(cache_root: Seq<char>, target_dir: Seq<char>) -> Seq<char> {
    join_path(
        join_path(cache_root, "pkgbuild-manager/makepkg"@),
        project_name(target_dir) + "-"@ + fixed_digits(spec_path_hash(target_dir) as nat, 16, 16),
    )
}

fn sanitize(name: &str) -> (r: String)
    ensures
        r@ == sanitize_name(name@),
{
    let v = chars_of(name);
    let mut out: Vec<char> = Vec::new();
    let mut i: usize = 0;
    while i < v.len()
        invariant
            i <= v.len(),
            out@ == sanitize_name(v@.take(i as int)),
        decreases v.len() - i,
    {
        let c = v[i];
        let keep = ('a' <= c && c <= 'z') || ('A' <= c && c <= 'Z') || ('0' <= c && c <= '9') || c
            == '-' || c == '_' || c == '.';
        out.push(if keep { c } else { '_' });
        assert(sanitize_name(v@.take(i + 1)) =~= sanitize_name(v@.take(i as int)).push(
            if keeps_char(c) { c } else { '_' },
        ));
        i += 1;
    }
    assert(v@.take(v.len() as int) =~= v@);
    string_of(&out)
}

/// The directory makepkg builds in for the package at `target_dir`: kept
/// under the cache root, outside the package's own directory, so that makepkg
/// never creates or cleans a `src/` inside the source repository. The name
/// joins the directory's file name (sanitized) with a hash of its whole path,
/// so two packages with the same directory name get different work trees.
pub fn makepkg_build_dir_path(cache_root: &str, target_dir: &str) -> (r: String)
    ensures
        r@ == build_dir_path(cache_root@, target_dir@),
{
    let hash = path_hash(target_dir);
    let name = match file_name(target_dir) {
        Some(n) => n,
        None => "package".to_string(),
    };
    let mut leaf = sanitize(name.as_str());
    leaf.append("-");
    let digits = string_of(&hex16(hash));
    leaf.append(digits.as_str());
    let base = join(cache_root, "pkgbuild-manager/makepkg");
    join(base.as_str(), leaf.as_str())
}

/// Where makepkg work trees are kept: `$XDG_CACHE_HOME` when it is set (even
/// to an empty value), else `$HOME/.cache`, else nowhere.
pub open spec fn cache_root(xdg_cache_home: Option<Seq<char>>, home: Option<Seq<char>>) -> Option<
    Seq<char>,
> {
    match xdg_cache_home {
        Some(x) => Some(x),
        None => match home {
            Some(h) => Some(join_path(h, ".cache"@)),
            None => None,
        },
    }
}

/// Chooses the cache root from the two environment variables.
pub fn choose_cache_root(xdg_cache_home: Option<String>, home: Option<String>) -> (r: Option<String>)
    ensures
        r.deep_view() == cache_root(xdg_cache_home.deep_view(), home.deep_view()),
{
    match xdg_cache_home {
        Some(x) => Some(x),
        None => match home {
            Some(h) => Some(join(h.as_str(), ".cache")),
            None => None,
        },
    }
}

/// The last component of the work-tree path: `<project>-<hash digits>`.
pub open spec fn build_dir_leaf(target_dir: Seq<char>) -> Seq<char> {
    project_name(target_dir) + "-"@ + fixed_digits(spec_path_hash(target_dir) as nat, 16, 16)
}

proof fn lemma_digits_no_slash(n: nat, count: nat)
    ensures
        forall|i: int| 0 <= i < fixed_digits(n, count, 16).len() ==> #[trigger] fixed_digits(
            n,
            count,
            16,
        )[i] != '/',
    decreases count,
{
    if count > 0 {
        lemma_digits_no_slash(n / 16, (count - 1) as nat);
        let prev = fixed_digits(n / 16, (count - 1) as nat, 16);
        let d = digit_char(n % 16);
        assert(d != '/') by {
            assert(n % 16 < 16);
            assert(d as int == (if n % 16 < 10 { n % 16 + 48 } else { n % 16 + 87 }));
        }
        assert forall|i: int| 0 <= i < fixed_digits(n, count, 16).len() implies #[trigger] fixed_digits(
            n,
            count,
            16,
        )[i] != '/' by {
            if i < prev.len() {
                assert(fixed_digits(n, count, 16)[i] == prev[i]);
            }
        }
    }
}

/// makepkg's work tree is always a direct child of
/// `<cache_root>/pkgbuild-manager/makepkg`: whatever the package directory,
/// the work tree lies under the cache root and never inside the package.
pub proof fn lemma_build_dir_under_cache(cache_root: Seq<char>, target_dir: Seq<char>)
    ensures
        build_dir_path(cache_root, target_dir) == join_path(cache_root, "pkgbuild-manager/makepkg"@)
            + seq!['/'] + build_dir_leaf(target_dir),
        forall|i: int|
            0 <= i < build_dir_leaf(target_dir).len() ==> #[trigger] build_dir_leaf(
                target_dir,
            )[i] != '/',
{
    reveal_strlit("pkgbuild-manager/makepkg");
    reveal_strlit("-");
    reveal_strlit("package");
    let base = join_path(cache_root, "pkgbuild-manager/makepkg"@);
    assert(base.len() > 0 && base.last() == 'g');
    let p = project_name(target_dir);
    let d = fixed_digits(spec_path_hash(target_dir) as nat, 16, 16);
    let leaf = build_dir_leaf(target_dir);
    lemma_digits_no_slash(spec_path_hash(target_dir) as nat, 16);
    assert forall|i: int| 0 <= i < leaf.len() implies #[trigger] leaf[i] != '/' by {
        if i < p.len() {
            assert(leaf[i] == p[i]);
        } else if i == p.len() {
            assert(leaf[i] == '-');
        } else {
            assert(leaf[i] == d[i - p.len() - 1]);
        }
    }
    assert(leaf.len() > 0);
}

/// `16^count`: the number of values `count` hexadecimal digits tell apart.
pub open spec fn hex_bound(count: nat) -> nat
    decreases count,
{
    if count == 0 {
        1
    } else {
        16 * hex_bound((count - 1) as nat)
    }
}

proof fn lemma_fixed_digits_len(n: nat, count: nat)
    ensures
        fixed_digits(n, count, 16).len() == count,
    decreases count,
{
    if count > 0 {
        lemma_fixed_digits_len(n / 16, (count - 1) as nat);
    }
}

/// Below `16^count`, different numbers have different digits.
proof fn lemma_fixed_digits_injective(n: nat, m: nat, count: nat)
    requires
        n < hex_bound(count),
        m < hex_bound(count),
        fixed_digits(n, count, 16) == fixed_digits(m, count, 16),
    ensures
        n == m,
    decreases count,
{
    if count > 0 {
        let c1 = (count - 1) as nat;
        let a = fixed_digits(n / 16, c1, 16);
        let b = fixed_digits(m / 16, c1, 16);
        lemma_fixed_digits_len(n / 16, c1);
        lemma_fixed_digits_len(m / 16, c1);
        assert(fixed_digits(n, count, 16) == a.push(digit_char(n % 16)));
        assert(fixed_digits(m, count, 16) == b.push(digit_char(m % 16)));
        assert(a == fixed_digits(n, count, 16).drop_last());
        assert(b == fixed_digits(m, count, 16).drop_last());
        assert(digit_char(n % 16) == fixed_digits(n, count, 16).last());
        assert(digit_char(m % 16) == fixed_digits(m, count, 16).last());
        assert(n % 16 == m % 16) by {
            assert(n % 16 < 16 && m % 16 < 16);
            assert(digit_char(n % 16) as int == (if n % 16 < 10 { n % 16 + 48 } else { n % 16 + 87 }));
            assert(digit_char(m % 16) as int == (if m % 16 < 10 { m % 16 + 48 } else { m % 16 + 87 }));
        }
        let hb = hex_bound(c1);
        assert(n / 16 < hb && m / 16 < hb) by (nonlinear_arith)
            requires
                n < 16 * hb,
                m < 16 * hb,
        ;
        lemma_fixed_digits_injective(n / 16, m / 16, c1);
        assert(n == 16 * (n / 16) + n % 16) by (nonlinear_arith);
        assert(m == 16 * (m / 16) + m % 16) by (nonlinear_arith);
    }
}

/// Two package directories whose paths hash differently get different
/// makepkg work trees under the same cache root (their names end in the
/// 16 hexadecimal digits of the hash).
pub proof fn lemma_build_dirs_distinct(cache_root: Seq<char>, a: Seq<char>, b: Seq<char>)
    requires
        spec_path_hash(a) != spec_path_hash(b),
    ensures
        build_dir_path(cache_root, a) != build_dir_path(cache_root, b),
{
    lemma_build_dir_under_cache(cache_root, a);
    lemma_build_dir_under_cache(cache_root, b);
    let base = join_path(cache_root, "pkgbuild-manager/makepkg"@) + seq!['/'];
    let la = build_dir_leaf(a);
    let lb = build_dir_leaf(b);
    let da = fixed_digits(spec_path_hash(a) as nat, 16, 16);
    let db = fixed_digits(spec_path_hash(b) as nat, 16, 16);
    lemma_fixed_digits_len(spec_path_hash(a) as nat, 16);
    lemma_fixed_digits_len(spec_path_hash(b) as nat, 16);
    if build_dir_path(cache_root, a) == build_dir_path(cache_root, b) {
        assert(base + la == base + lb);
        assert(la == (base + la).skip(base.len() as int));
        assert(lb == (base + lb).skip(base.len() as int));
        assert(da == la.skip(la.len() - 16));
        assert(db == lb.skip(lb.len() - 16));
        assert(hex_bound(16) == 18446744073709551616) by {
            reveal_with_fuel(hex_bound, 17);
        }
        lemma_fixed_digits_injective(spec_path_hash(a) as nat, spec_path_hash(b) as nat, 16);
    }
}

} // verus!
