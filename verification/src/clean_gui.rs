//! The preview of "Clean Everything": which entries of the package directory
//! would be removed, in the order they are listed, and how each is shown.

use vstd::prelude::*;
use crate::actions::{join, join_path};
use crate::text::{chars_of, contains_chars, contains_seq, has_prefix, starts_with};

verus! {

broadcast use vstd::string::group_string_axioms;

// ── The directory to clean ────────────────────────────────────────────────────

/// What `Path::parent` gives for a path: none for a root or an empty path.
pub uninterp spec fn spec_parent(path: Seq<char>) -> Option<Seq<char>>;

/// `Path::parent`, read back as text.
/// Trusted: the result is `spec_parent` of the path; the parent of a path that
/// comes from a `&str` is valid UTF-8.
#[verifier::external_body]
fn parent(path: &str) -> (r: Option<String>)
    ensures
        r.deep_view() == spec_parent(path@),
{
    std::path::Path::new(path).parent().and_then(|p| p.to_str()).map(|p| p.to_string())
}

/// The directory to clean for a chosen path: the parent of a file (the
/// current directory when it has none), the path itself otherwise.
pub open spec fn clean_target(path: Seq<char>, is_file: bool) -> Seq<char> {
    if is_file {
        match spec_parent(path) {
            Some(p) => p,
            None => "."@,
        }
    } else {
        path
    }
}

/// The directory to clean; `is_file` tells whether `path` is a file.
pub fn resolve_target(path: &str, is_file: bool) -> (r: String)
    ensures
        r@ == clean_target(path@, is_file),
{
    if is_file {
        match parent(path) {
            Some(p) => p,
            None => ".".to_string(),
        }
    } else {
        path.to_string()
    }
}

// ── Candidates ────────────────────────────────────────────────────────────────

/// An entry of the package directory, as the preview reads it.
pub struct DirEntry {
    pub name: String,
    pub is_file: bool,
    pub is_dir: bool,
    /// A directory laid out as a bare git repository (`HEAD`, `config`,
    /// `objects/`, `refs/`).
    pub is_bare_repo: bool,
}

/// A bare repository has the files `HEAD` and `config` and the directories
/// `objects` and `refs`.
pub fn is_bare_git_repo(head_is_file: bool, config_is_file: bool, objects_is_dir: bool, refs_is_dir: bool) -> (b: bool)
    ensures
        b == (head_is_file && config_is_file && objects_is_dir && refs_is_dir),
{
    head_is_file && config_is_file && objects_is_dir && refs_is_dir
}

/// An entry to remove: a built package file (`*.pkg.tar.*`), or a
/// `_build*` directory or bare repository; never `.git`.
pub open spec fn is_candidate(name: Seq<char>, is_file: bool, is_dir: bool, is_bare_repo: bool) -> bool {
    name != ".git"@ && ((is_file && contains_seq(name, ".pkg.tar."@)) || (is_dir && (starts_with(
        name,
        "_build"@,
    ) || is_bare_repo)))
}

pub open spec fn entry_view(e: DirEntry) -> (Seq<char>, bool, bool, bool) {
    (e.name@, e.is_file, e.is_dir, e.is_bare_repo)
}

/// The fixed names whose entry exists, in order.
pub open spec fn fixed_present(lock: bool, src: bool, pkg: bool) -> Seq<Seq<char>> {
    (if lock {
        seq![".makepkg.lock"@]
    } else {
        seq![]
    }) + (if src {
        seq!["src"@]
    } else {
        seq![]
    }) + (if pkg {
        seq!["pkg"@]
    } else {
        seq![]
    })
}

/// The names chosen, in order: `base`, then each entry that is a candidate
/// and not chosen already.
pub open spec fn chosen(base: Seq<Seq<char>>, entries: Seq<(Seq<char>, bool, bool, bool)>) -> Seq<
    Seq<char>,
>
    decreases entries.len(),
{
    if entries.len() == 0 {
        base
    } else {
        let before = chosen(base, entries.drop_last());
        let e = entries.last();
        if !before.contains(e.0) && is_candidate(e.0, e.1, e.2, e.3) {
            before.push(e.0)
        } else {
            before
        }
    }
}

/// Each name is chosen once.
proof fn lemma_chosen_distinct(base: Seq<Seq<char>>, entries: Seq<(Seq<char>, bool, bool, bool)>)
    requires
        base.no_duplicates(),
    ensures
        chosen(base, entries).no_duplicates(),
    decreases entries.len(),
{
    if entries.len() > 0 {
        lemma_chosen_distinct(base, entries.drop_last());
        let before = chosen(base, entries.drop_last());
        let e = entries.last();
        if !before.contains(e.0) && is_candidate(e.0, e.1, e.2, e.3) {
            let after = before.push(e.0);
            assert forall|i: int, j: int| 0 <= i < after.len() && 0 <= j < after.len() && i != j implies after[i]
                != after[j] by {
                if i == before.len() {
                    assert(before[j] == after[j]);
                } else if j == before.len() {
                    assert(before[i] == after[i]);
                } else {
                    assert(before[i] == after[i] && before[j] == after[j]);
                }
            }
        }
    }
}

proof fn lemma_fixed_present_distinct(lock: bool, src: bool, pkg: bool)
    ensures
        fixed_present(lock, src, pkg).no_duplicates(),
{
    reveal_strlit(".makepkg.lock");
    reveal_strlit("src");
    reveal_strlit("pkg");
    let s = fixed_present(lock, src, pkg);
    assert(".makepkg.lock"@ != "src"@ && ".makepkg.lock"@ != "pkg"@ && "src"@ != "pkg"@) by {
        assert(".makepkg.lock"@.len() != "src"@.len());
        assert(".makepkg.lock"@.len() != "pkg"@.len());
        assert("src"@[0] != "pkg"@[0]);
    }
    assert forall|i: int, j: int| 0 <= i < s.len() && 0 <= j < s.len() && i != j implies s[i] != s[j] by {
        assert(s.len() <= 3);
    }
}

fn contains_text(v: &Vec<String>, s: &String) -> (b: bool)
    ensures
        b == v.deep_view().contains(s@),
{
    let mut i: usize = 0;
    while i < v.len()
        invariant
            i <= v.len(),
            forall|j: int| 0 <= j < i ==> v.deep_view()[j] != s@,
        decreases v.len() - i,
    {
        if v[i] == *s {
            assert(v.deep_view()[i as int] == s@);
            return true;
        }
        i += 1;
    }
    false
}

fn candidate_entry(e: &DirEntry) -> (b: bool)
    ensures
        b == is_candidate(e.name@, e.is_file, e.is_dir, e.is_bare_repo),
{
    let n = chars_of(e.name.as_str());
    e.name != ".git".to_string() && ((e.is_file && contains_chars(&n, &chars_of(".pkg.tar.")))
        || (e.is_dir && (has_prefix(&n, &chars_of("_build")) || e.is_bare_repo)))
}

/// The names of the entries "Clean Everything" removes, in order: makepkg's
/// `.makepkg.lock`, `src` and `pkg` where they exist (`lock`, `src`, `pkg`),
/// then the listed entries that are candidates, each name once; sorted.
pub fn cleanup_candidates(lock: bool, src: bool, pkg: bool, entries: &Vec<DirEntry>) -> (r: Vec<String>)
    ensures
        sorted(r.deep_view()),
        r.deep_view().no_duplicates(),
        r.deep_view().to_multiset() == chosen(
            fixed_present(lock, src, pkg),
            entries@.map_values(|e: DirEntry| entry_view(e)),
        ).to_multiset(),
{
    let mut names: Vec<String> = Vec::new();
    if lock {
        names.push(".makepkg.lock".to_string());
    }
    if src {
        names.push("src".to_string());
    }
    if pkg {
        names.push("pkg".to_string());
    }
    assert(names.deep_view() =~= fixed_present(lock, src, pkg));
    let ghost base = names.deep_view();
    let ghost es = entries@.map_values(|e: DirEntry| entry_view(e));
    let mut i: usize = 0;
    assert(es.take(0) =~= Seq::<(Seq<char>, bool, bool, bool)>::empty());
    while i < entries.len()
        invariant
            i <= entries.len(),
            es == entries@.map_values(|e: DirEntry| entry_view(e)),
            names.deep_view() == chosen(base, es.take(i as int)),
        decreases entries.len() - i,
    {
        let e = &entries[i];
        assert(es.take(i + 1).drop_last() =~= es.take(i as int));
        assert(es.take(i + 1).last() == entry_view(*e));
        if !contains_text(&names, &e.name) && candidate_entry(e) {
            names.push(e.name.clone());
            assert(names.deep_view() =~= chosen(base, es.take(i as int)).push(e.name@));
        }
        i += 1;
    }
    assert(es.take(entries.len() as int) =~= es);
    let r = sort_names(names);
    proof {
        lemma_fixed_present_distinct(lock, src, pkg);
        lemma_chosen_distinct(base, es);
        let c = chosen(base, es);
        c.lemma_multiset_has_no_duplicates();
        r.deep_view().lemma_multiset_has_no_duplicates_conv();
    }
    r
}

/// The paths of `names` in `target`.
pub fn candidate_paths(target: &str, names: &Vec<String>) -> (r: Vec<String>)
    ensures
        r.deep_view() == names.deep_view().map_values(|n: Seq<char>| join_path(target@, n)),
{
    let mut r: Vec<String> = Vec::new();
    let mut i: usize = 0;
    while i < names.len()
        invariant
            i <= names.len(),
            r.deep_view() == names.deep_view().take(i as int).map_values(
                |n: Seq<char>| join_path(target@, n),
            ),
        decreases names.len() - i,
    {
        let ghost before = r.deep_view();
        let p = join(target, names[i].as_str());
        r.push(p);
        assert(r.deep_view() =~= before.push(p@));
        assert(names.deep_view()[i as int] == names[i as int]@);
        assert(names.deep_view().take(i + 1).drop_last() =~= names.deep_view().take(i as int));
        assert(r.deep_view() =~= names.deep_view().take(i + 1).map_values(
            |n: Seq<char>| join_path(target@, n),
        ));
        i += 1;
    }
    assert(names.deep_view().take(names.len() as int) =~= names.deep_view());
    r
}

/// How a candidate is listed: protected content is flagged (its permissions
/// are unlocked before removal), directories and files are told apart.
pub fn candidate_row(locked: bool, is_dir: bool) -> (r: (&'static str, &'static str))
    ensures
        locked ==> r.0@ == "Contains protected files — permissions will be unlocked"@
            && r.1@ == "changes-prevent-symbolic"@,
        !locked && is_dir ==> r.0@ == "Directory and all its contents"@ && r.1@ == "edit-delete-symbolic"@,
        !locked && !is_dir ==> r.0@ == "File"@ && r.1@ == "edit-delete-symbolic"@,
{
    if locked {
        ("Contains protected files — permissions will be unlocked", "changes-prevent-symbolic")
    } else if is_dir {
        ("Directory and all its contents", "edit-delete-symbolic")
    } else {
        ("File", "edit-delete-symbolic")
    }
}

/// The clean button works only once the user unlocked it, and only when
/// there is something to clean.
pub fn clean_enabled(unlocked: bool, candidates: usize) -> (b: bool)
    ensures
        b == (unlocked && candidates > 0),
{
    unlocked && candidates > 0
}

/// The arguments of the command-line call that cleans `target`.
pub fn clean_all_args(target: &str) -> (r: Vec<String>)
    ensures
        r.deep_view() == seq!["clean-all"@, target@],
{
    let r = vec!["clean-all".to_string(), target.to_string()];
    assert(r.deep_view() =~= seq!["clean-all"@, target@]);
    r
}

// ── Order ─────────────────────────────────────────────────────────────────────

/// Lexicographic order of texts by character code (the order of paths that
/// share their directory).
pub open spec fn lex_le(a: Seq<char>, b: Seq<char>) -> bool
    decreases a.len(),
{
    if a.len() == 0 {
        true
    } else if b.len() == 0 {
        false
    } else if a[0] < b[0] {
        true
    } else if a[0] > b[0] {
        false
    } else {
        lex_le(a.drop_first(), b.drop_first())
    }
}

proof fn lemma_lex_total(a: Seq<char>, b: Seq<char>)
    ensures
        lex_le(a, b) || lex_le(b, a),
    decreases a.len(),
{
    if a.len() > 0 && b.len() > 0 && a[0] == b[0] {
        lemma_lex_total(a.drop_first(), b.drop_first());
    }
}

proof fn lemma_lex_trans(a: Seq<char>, b: Seq<char>, c: Seq<char>)
    requires
        lex_le(a, b),
        lex_le(b, c),
    ensures
        lex_le(a, c),
    decreases a.len(),
{
    if a.len() > 0 && b.len() > 0 && c.len() > 0 && a[0] == b[0] && b[0] == c[0] {
        lemma_lex_trans(a.drop_first(), b.drop_first(), c.drop_first());
    }
}

pub open spec fn sorted(s: Seq<Seq<char>>) -> bool {
    forall|i: int, j: int| 0 <= i < j < s.len() ==> lex_le(#[trigger] s[i], #[trigger] s[j])
}

fn text_le(a: &Vec<char>, b: &Vec<char>) -> (r: bool)
    ensures
        r == lex_le(a@, b@),
{
    assert(a@.skip(0) =~= a@);
    assert(b@.skip(0) =~= b@);
    let mut i: usize = 0;
    while i < a.len()
        invariant
            i <= a.len(),
            i <= b.len(),
            a@.take(i as int) == b@.take(i as int),
            lex_le(a@, b@) == lex_le(a@.skip(i as int), b@.skip(i as int)),
        decreases a.len() - i,
    {
        assert(a@.skip(i as int)[0] == a@[i as int]);
        if i >= b.len() {
            return false;
        }
        assert(b@.skip(i as int)[0] == b@[i as int]);
        let x = a[i];
        let y = b[i];
        if x < y {
            return true;
        }
        if x > y {
            return false;
        }
        assert(a@.skip(i as int).drop_first() =~= a@.skip(i + 1));
        assert(b@.skip(i as int).drop_first() =~= b@.skip(i + 1));
        assert(a@[i as int] == b@[i as int]);
        assert(a@.take(i + 1) =~= a@.take(i as int).push(a@[i as int]));
        assert(b@.take(i + 1) =~= b@.take(i as int).push(b@[i as int]));
        i += 1;
    }
    true
}

/// The names in order.
pub fn sort_names(names: Vec<String>) -> (r: Vec<String>)
    ensures
        sorted(r.deep_view()),
        r.deep_view().to_multiset() == names.deep_view().to_multiset(),
{
    broadcast use vstd::seq_lib::group_to_multiset_ensures;
    let mut r: Vec<String> = Vec::new();
    let mut k: usize = 0;
    assert(names.deep_view().take(0) =~= Seq::<Seq<char>>::empty());
    while k < names.len()
        invariant
            k <= names.len(),
            sorted(r.deep_view()),
            r.deep_view().to_multiset() == names.deep_view().take(k as int).to_multiset(),
        decreases names.len() - k,
    {
        let x = names[k].clone();
        let xc = chars_of(x.as_str());
        let mut pos: usize = 0;
        let mut stop = false;
        while !stop && pos < r.len()
            invariant
                pos <= r.len(),
                xc@ == x@,
                forall|i: int| 0 <= i < pos ==> lex_le(#[trigger] r.deep_view()[i], x@),
                stop ==> pos < r.len() && !lex_le(r.deep_view()[pos as int], x@),
            decreases r.len() - pos + if stop { 0int } else { 1int },
        {
            if text_le(&chars_of(r[pos].as_str()), &xc) {
                pos += 1;
            } else {
                stop = true;
            }
        }
        let ghost old_r = r.deep_view();
        proof {
            if pos < r.len() {
                lemma_lex_total(old_r[pos as int], x@);
            }
        }
        r.insert(pos, x);
        proof {
            assert(r.deep_view() =~= old_r.insert(pos as int, x@));
            let s = r.deep_view();
            assert forall|i: int, j: int| 0 <= i < j < s.len() implies lex_le(#[trigger] s[i], #[trigger] s[j]) by {
                if j < pos {
                    assert(s[i] == old_r[i] && s[j] == old_r[j]);
                } else if j == pos {
                    assert(s[i] == old_r[i]);
                } else if i == pos {
                    assert(s[j] == old_r[j - 1]);
                    if j - 1 > pos {
                        lemma_lex_trans(x@, old_r[pos as int], old_r[j - 1]);
                    }
                } else if i < pos {
                    assert(s[i] == old_r[i] && s[j] == old_r[j - 1]);
                } else {
                    assert(s[i] == old_r[i - 1] && s[j] == old_r[j - 1]);
                }
            }
            assert(names.deep_view().take(k + 1) =~= names.deep_view().take(k as int).push(x@));
            assert(old_r.len() == r.len() - 1);
            vstd::seq_lib::to_multiset_insert(old_r, pos as int, x@);
            vstd::seq_lib::to_multiset_build(names.deep_view().take(k as int), x@);
        }
        k += 1;
    }
    assert(names.deep_view().take(names.len() as int) =~= names.deep_view());
    r
}

} // verus!
