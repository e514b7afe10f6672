//! `clean-all`: which files and directories of a package directory are build
//! output (every built package file among them), and how a PKGBUILD names
//! its package.

use vstd::prelude::*;
use crate::text::{
    CharClass, chars_eq, chars_of, contains_char, contains_chars, contains_seq, has_prefix,
    in_class, lines, skip_trail, slice_chars, split_lines, split_words,
    starts_with, string_of, strip_prefix, strip_prefix_chars, trim, trim_chars, trim_class,
    trim_ws, words,
};

verus! {

broadcast use vstd::string::group_string_axioms;

pub type Text = Seq<char>;

// ── pkgname ───────────────────────────────────────────────────────────────────

/// Text holding `$`, `` ` `` or `{` is an unexpanded bash expression, which
/// can never match a real package file name.
pub open spec fn is_bash_expansion(s: Text) -> bool {
    s.contains('$') || s.contains('`') || s.contains('{')
}

/// Does `s` look like an unexpanded bash expression?
pub fn looks_like_bash_expansion(s: &str) -> (b: bool)
    ensures
        b == is_bash_expansion(s@),
{
    let v = chars_of(s);
    contains_char(&v, '$') || contains_char(&v, '`') || contains_char(&v, '{')
}

/// The package name a PKGBUILD line assigns, if it assigns one: for a trimmed
/// line `pkgname=<value>`, with `<value>` trimmed, either the array form
/// `(first second …)` — the first word inside the parentheses — or the scalar
/// form; quotes around the name are removed, and an empty name counts as none.
pub open spec fn line_pkgname(line: Text) -> Option<Text> {
    match strip_prefix(trim(line), "pkgname="@) {
        None => None,
        Some(rest) => {
            let val = trim(rest);
            if val.len() > 0 && val[0] == '(' {
                let inner = trim(skip_trail(val.skip(1), CharClass::CloseParen));
                if words(inner).len() > 0 {
                    let name = trim_class(words(inner)[0], CharClass::Quote);
                    if name.len() > 0 {
                        Some(name)
                    } else {
                        None
                    }
                } else {
                    None
                }
            } else {
                let name = trim_class(val, CharClass::Quote);
                if name.len() > 0 {
                    Some(name)
                } else {
                    None
                }
            }
        },
    }
}

/// The name assigned by the first line of `ls` that assigns one.
pub open spec fn first_pkgname(ls: Seq<Text>) -> Option<Text>
    decreases ls.len(),
{
    if ls.len() == 0 {
        None
    } else if line_pkgname(ls[0]) is Some {
        line_pkgname(ls[0])
    } else {
        first_pkgname(ls.drop_first())
    }
}

fn pkgname_of_line(line: &Vec<char>) -> (r: Option<Vec<char>>)
    ensures
        r matches Some(n) ==> line_pkgname(line@) == Some(n@),
        r is None ==> line_pkgname(line@) is None,
{
    let t = trim_ws(line);
    let rest = match strip_prefix_chars(&t, &chars_of("pkgname=")) {
        None => {
            return None;
        },
        Some(r) => r,
    };
    let val = trim_ws(&rest);
    if val.len() > 0 && val[0] == '(' {
        let after = slice_chars(&val, 1, val.len());
        assert(after@ =~= val@.skip(1));
        let mut hi = after.len();
        while hi > 0 && after[hi - 1] == ')'
            invariant
                hi <= after.len(),
                forall|j: int| hi <= j < after.len() ==> in_class(CharClass::CloseParen, #[trigger] after@[j]),
            decreases hi,
        {
            hi -= 1;
        }
        proof {
            crate::text::lemma_skip_trail_at(after@, CharClass::CloseParen, hi as int);
        }
        let stripped = slice_chars(&after, 0, hi);
        assert(stripped@ =~= after@.take(hi as int));
        let inner = trim_ws(&stripped);
        let ws = split_words(&inner);
        if ws.len() > 0 {
            let name = trim_chars(&ws[0], CharClass::Quote);
            if name.len() > 0 {
                Some(name)
            } else {
                None
            }
        } else {
            None
        }
    } else {
        let name = trim_chars(&val, CharClass::Quote);
        if name.len() > 0 {
            Some(name)
        } else {
            None
        }
    }
}

/// Fast static scan of PKGBUILD text for a literal `pkgname=` value: the name
/// assigned by the first line that assigns one (see `line_pkgname`).
pub fn static_read_pkgname(text: &str) -> (r: Option<String>)
    ensures
        r.deep_view() == first_pkgname(lines(text@)),
{
    let ls = split_lines(&chars_of(text));
    let ghost lv = lines(text@);
    let mut i: usize = 0;
    assert(lv.skip(0) =~= lv);
    while i < ls.len()
        invariant
            i <= ls.len(),
            ls.len() == lv.len(),
            forall|j: int| 0 <= j < ls.len() ==> #[trigger] ls[j]@ == lv[j],
            lv == lines(text@),
            first_pkgname(lv) == first_pkgname(lv.skip(i as int)),
        decreases ls.len() - i,
    {
        assert(lv.skip(i as int)[0] == lv[i as int]);
        assert(lv.skip(i as int).drop_first() =~= lv.skip(i + 1));
        assert(ls[i as int]@ == lv[i as int]);
        match pkgname_of_line(&ls[i]) {
            Some(n) => {
                return Some(string_of(&n));
            },
            None => {},
        }
        i += 1;
    }
    assert(lv.skip(i as int) =~= Seq::<Text>::empty());
    None
}

// ── Build output ──────────────────────────────────────────────────────────────

/// A built package file: its name holds `.pkg.tar.`.
pub open spec fn is_pkg_file(name: Text) -> bool {
    contains_seq(name, ".pkg.tar."@)
}

/// Is `name` the name of a built package file (`*.pkg.tar.*`)? `clean-all`
/// removes every such file.
pub fn is_pkg_file_name(name: &str) -> (b: bool)
    ensures
        b == is_pkg_file(name@),
{
    contains_chars(&chars_of(name), &chars_of(".pkg.tar."))
}

/// A hexadecimal digit, either case (`char::is_ascii_hexdigit`).
pub open spec fn is_hex(c: char) -> bool {
    ('0' <= c && c <= '9') || ('a' <= c && c <= 'f') || ('A' <= c && c <= 'F')
}

/// The content of a git `HEAD` file, trimmed: a symbolic ref (`ref: refs/…`)
/// or a detached commit (exactly 40 hexadecimal digits).
pub open spec fn is_git_head(content: Text) -> bool {
    let t = trim(content);
    starts_with(t, "ref: refs/"@) || (t.len() == 40 && forall|i: int| 0 <= i < 40 ==> is_hex(
        #[trigger] t[i],
    ))
}

/// Does `content` read like a git `HEAD` file?
pub fn looks_like_git_head(content: &str) -> (b: bool)
    ensures
        b == is_git_head(content@),
{
    let t = trim_ws(&chars_of(content));
    if has_prefix(&t, &chars_of("ref: refs/")) {
        return true;
    }
    if t.len() != 40 {
        return false;
    }
    let mut i: usize = 0;
    while i < 40
        invariant
            t.len() == 40,
            t@ == trim(content@),
            !starts_with(t@, "ref: refs/"@),
            i <= 40,
            forall|j: int| 0 <= j < i ==> is_hex(#[trigger] t@[j]),
        decreases 40 - i,
    {
        let c = t[i];
        if !(('0' <= c && c <= '9') || ('a' <= c && c <= 'f') || ('A' <= c && c <= 'F')) {
            assert(!is_hex(t@[i as int]));
            return false;
        }
        i += 1;
    }
    true
}

/// What `clean-all` does with a subdirectory of the package directory.
#[derive(Clone, Copy, Debug, PartialEq, Eq, Structural)]
pub enum DirCleanup {
    /// A bare git repository left by makepkg for a VCS source: removed.
    BareRepoCache,
    /// An out-of-tree build directory (`_build*`): removed.
    BuildDir,
    /// Anything else, the project's own `.git` first of all: kept.
    Keep,
}

/// `.git` is always kept; a bare repository cache goes; then `_build*`.
pub open spec fn dir_cleanup(name: Text, is_bare_repo: bool) -> DirCleanup {
    if name == ".git"@ {
        DirCleanup::Keep
    } else if is_bare_repo {
        DirCleanup::BareRepoCache
    } else if starts_with(name, "_build"@) {
        DirCleanup::BuildDir
    } else {
        DirCleanup::Keep
    }
}

/// Decides the fate of subdirectory `name` (`is_bare_repo`: it holds the
/// objects/, refs/, config and HEAD of a bare git repository).
pub fn classify_dir(name: &str, is_bare_repo: bool) -> (r: DirCleanup)
    ensures
        r == dir_cleanup(name@, is_bare_repo),
{
    let n = chars_of(name);
    if chars_eq(&n, &chars_of(".git")) {
        DirCleanup::Keep
    } else if is_bare_repo {
        DirCleanup::BareRepoCache
    } else if has_prefix(&n, &chars_of("_build")) {
        DirCleanup::BuildDir
    } else {
        DirCleanup::Keep
    }
}

/// `clean-all` removes exactly the out-of-tree build directories among the
/// ordinary subdirectories: a directory that is not a bare repository is
/// removed as a build directory if and only if its name is `_build` followed
/// by anything (`_build` itself, `_build-x`, `_build_x`, ...); the project's
/// `.git` is never removed.
pub proof fn lemma_build_dirs_are_removed(name: Text, rest: Text, is_bare_repo: bool)
    ensures
        dir_cleanup("_build"@ + rest, false) == DirCleanup::BuildDir,
        (dir_cleanup(name, false) == DirCleanup::BuildDir) <==> exists|r: Text| name == "_build"@ + r,
        dir_cleanup(".git"@, is_bare_repo) == DirCleanup::Keep,
{
    reveal_strlit("_build");
    reveal_strlit(".git");
    let n = "_build"@ + rest;
    assert(n.take(6) =~= "_build"@);
    assert(n != ".git"@) by {
        assert(n[0] != ".git"@[0]);
    }
    if dir_cleanup(name, false) == DirCleanup::BuildDir {
        assert(name == "_build"@ + name.skip(6));
    }
    if exists|r: Text| name == "_build"@ + r {
        let r = choose|r: Text| name == "_build"@ + r;
        assert(name.take(6) =~= "_build"@);
        assert(name != ".git"@) by {
            assert(name[0] != ".git"@[0]);
        }
    }
}

} // verus!
