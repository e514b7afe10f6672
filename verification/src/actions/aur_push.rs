//! Publishing to the AUR: the commit message read from `.SRCINFO`, the
//! remote's default branch, and the stage → commit → push (→ tag) sequence.

use vstd::prelude::*;
use crate::actions::flow::{Stage, StageV, Step, StepV};
use crate::text::{lemma_lines_prefix, slice_chars, chars_eq, chars_of, contains_chars, contains_seq, lines, split_lines, starts_with, string_of, strip_prefix_chars, trim, trim_ws};

verus! {

broadcast use vstd::string::group_string_axioms;

/// The value of the first line of `ls` that, trimmed, starts with `key`
/// (the rest of that trimmed line).
pub open spec fn first_value(ls: Seq<Seq<char>>, key: Seq<char>) -> Option<Seq<char>>
    decreases ls.len(),
{
    if ls.len() == 0 {
        None
    } else if starts_with(trim(ls[0]), key) {
        Some(trim(ls[0]).skip(key.len() as int))
    } else {
        first_value(ls.drop_first(), key)
    }
}

/// The `.SRCINFO` field `key` of `text`, or `default` when no line has it.
pub open spec fn srcinfo_field(text: Seq<char>, key: Seq<char>, default: Seq<char>) -> Seq<char> {
    match first_value(lines(text), key) {
        Some(v) => v,
        None => default,
    }
}

/// `first_value` of a list, seen from an index: the first match lies either
/// in the prefix or in the rest.
proof fn lemma_first_value_step(ls: Seq<Seq<char>>, key: Seq<char>, i: int)
    requires
        0 <= i < ls.len(),
    ensures
        first_value(ls.skip(i), key) == (if starts_with(trim(ls[i]), key) {
            Some(trim(ls[i]).skip(key.len() as int))
        } else {
            first_value(ls.skip(i + 1), key)
        }),
{
    assert(ls.skip(i)[0] == ls[i]);
    assert(ls.skip(i).drop_first() =~= ls.skip(i + 1));
}

/// Looks for the first line of `lines` (trimmed) that starts with `key`,
/// from line `i` on; the value after the key.
fn find_from(ls: &Vec<Vec<char>>, key: &Vec<char>, i: usize) -> (r: Option<Vec<char>>)
    requires
        i <= ls.len(),
    ensures
        r matches Some(v) ==> first_value(ls@.map_values(|l: Vec<char>| l@).skip(i as int), key@)
            == Some(v@),
        r is None ==> first_value(ls@.map_values(|l: Vec<char>| l@).skip(i as int), key@) is None,
    decreases ls.len() - i,
{
    let ghost vs = ls@.map_values(|l: Vec<char>| l@);
    if i == ls.len() {
        assert(vs.skip(i as int) =~= Seq::<Seq<char>>::empty());
        return None;
    }
    proof {
        lemma_first_value_step(vs, key@, i as int);
    }
    let t = trim_ws(&ls[i]);
    match strip_prefix_chars(&t, key) {
        Some(v) => Some(v),
        None => find_from(ls, key, i + 1),
    }
}

/// Reads `pkgname`, `pkgver` and `pkgrel` from already generated `.SRCINFO`
/// text: each is taken from the first line that, trimmed, starts with
/// `"<key> = "`; a missing field reads `unknown`, `0` and `1` respectively.
pub fn parse_pkgbuild_info(content: &str) -> (r: (String, String, String))
    ensures
        r.0@ == srcinfo_field(content@, "pkgname = "@, "unknown"@),
        r.1@ == srcinfo_field(content@, "pkgver = "@, "0"@),
        r.2@ == srcinfo_field(content@, "pkgrel = "@, "1"@),
{
    let text = chars_of(content);
    let ls = split_lines(&text);
    assert(ls@.map_values(|l: Vec<char>| l@) =~= lines(text@));
    assert(ls@.map_values(|l: Vec<char>| l@).skip(0) =~= lines(text@));
    let name = match find_from(&ls, &chars_of("pkgname = "), 0) {
        Some(v) => string_of(&v),
        None => "unknown".to_string(),
    };
    let ver = match find_from(&ls, &chars_of("pkgver = "), 0) {
        Some(v) => string_of(&v),
        None => "0".to_string(),
    };
    let rel = match find_from(&ls, &chars_of("pkgrel = "), 0) {
        Some(v) => string_of(&v),
        None => "1".to_string(),
    };
    (name, ver, rel)
}

/// `first_value` looks at the lines only through their trimmed text, and
/// once it has found a value, later lines do not matter.
proof fn lemma_first_value_prefix(a: Seq<Seq<char>>, b: Seq<Seq<char>>, key: Seq<char>)
    requires
        a.len() <= b.len(),
        forall|i: int| 0 <= i < a.len() ==> trim(#[trigger] b[i]) == trim(a[i]),
        first_value(a, key) is Some,
    ensures
        first_value(b, key) == first_value(a, key),
    decreases a.len(),
{
    if !starts_with(trim(a[0]), key) {
        assert forall|i: int| 0 <= i < a.drop_first().len() implies trim(
            #[trigger] b.drop_first()[i],
        ) == trim(a.drop_first()[i]) by {
            assert(b.drop_first()[i] == b[i + 1]);
            assert(a.drop_first()[i] == a[i + 1]);
        }
        lemma_first_value_prefix(a.drop_first(), b.drop_first(), key);
    } else {
        assert(trim(b[0]) == trim(a[0]));
    }
}

/// Lines after those that hold `pkgname`, `pkgver` and `pkgrel` never change
/// what is read: appending a newline and any text to `.SRCINFO` text that
/// has all three keeps the three fields.
pub proof fn lemma_later_lines_ignored(c: Seq<char>, s: Seq<char>)
    requires
        first_value(lines(c), "pkgname = "@) is Some,
        first_value(lines(c), "pkgver = "@) is Some,
        first_value(lines(c), "pkgrel = "@) is Some,
    ensures
        srcinfo_field(c + seq!['\n'] + s, "pkgname = "@, "unknown"@) == srcinfo_field(
            c,
            "pkgname = "@,
            "unknown"@,
        ),
        srcinfo_field(c + seq!['\n'] + s, "pkgver = "@, "0"@) == srcinfo_field(c, "pkgver = "@, "0"@),
        srcinfo_field(c + seq!['\n'] + s, "pkgrel = "@, "1"@) == srcinfo_field(c, "pkgrel = "@, "1"@),
{
    let t = c + seq!['\n'] + s;
    lemma_lines_prefix(c, s);
    lemma_first_value_prefix(lines(c), lines(t), "pkgname = "@);
    lemma_first_value_prefix(lines(c), lines(t), "pkgver = "@);
    lemma_first_value_prefix(lines(c), lines(t), "pkgrel = "@);
}

/// `upgpkg: <name> <ver>-<rel>`, the conventional AUR commit message.
pub open spec fn commit_message(name: Seq<char>, ver: Seq<char>, rel: Seq<char>) -> Seq<char> {
    "upgpkg: "@ + name + " "@ + ver + "-"@ + rel
}

/// The commit message generated from `.SRCINFO` text.
pub open spec fn auto_commit_message(srcinfo: Seq<char>) -> Seq<char> {
    commit_message(
        srcinfo_field(srcinfo, "pkgname = "@, "unknown"@),
        srcinfo_field(srcinfo, "pkgver = "@, "0"@),
        srcinfo_field(srcinfo, "pkgrel = "@, "1"@),
    )
}

/// Builds `upgpkg: <pkgname> <pkgver>-<pkgrel>` from `.SRCINFO` text.
pub fn commit_message_from_srcinfo(srcinfo: &str) -> (m: String)
    ensures
        m@ == auto_commit_message(srcinfo@),
{
    let (name, ver, rel) = parse_pkgbuild_info(srcinfo);
    let mut m = "upgpkg: ".to_string();
    m.append(name.as_str());
    m.append(" ");
    m.append(ver.as_str());
    m.append("-");
    m.append(rel.as_str());
    m
}

/// The part of `s` after its last `c` (all of `s` when it has none):
/// the first item of `str::rsplit(c)`.
pub open spec fn after_last(s: Seq<char>, c: char) -> Seq<char>
    decreases s.len(),
{
    if s.len() == 0 {
        s
    } else if s.last() == c {
        seq![]
    } else {
        after_last(s.drop_last(), c).push(s.last())
    }
}

proof fn lemma_after_last_at(s: Seq<char>, c: char, k: int)
    requires
        0 <= k <= s.len(),
        forall|j: int| k <= j < s.len() ==> #[trigger] s[j] != c,
        k == 0 || s[k - 1] == c,
    ensures
        after_last(s, c) == s.skip(k),
    decreases s.len() - k,
{
    if k == s.len() {
        if s.len() > 0 {
            assert(s.skip(k) =~= Seq::<char>::empty());
        }
    } else {
        assert forall|j: int| k <= j < s.drop_last().len() implies #[trigger] s.drop_last()[j]
            != c by {
            assert(s.drop_last()[j] == s[j]);
        }
        lemma_after_last_at(s.drop_last(), c, k);
        assert(s.drop_last().skip(k).push(s.last()) =~= s.skip(k));
    }
}

/// The branch named by the output of `git symbolic-ref refs/remotes/origin/HEAD`
/// (e.g. `refs/remotes/origin/main` → `main`): the text after the last `/` of
/// the trimmed output, trimmed, unless it is empty or `HEAD`.
pub open spec fn head_branch(stdout: Seq<char>) -> Option<Seq<char>> {
    let b = trim(after_last(trim(stdout), '/'));
    if b.len() > 0 && b != "HEAD"@ {
        Some(b)
    } else {
        None
    }
}

/// Reads the default branch from `git symbolic-ref refs/remotes/origin/HEAD` output.
pub fn branch_from_symbolic_ref(stdout: &str) -> (r: Option<String>)
    ensures
        r matches Some(b) ==> head_branch(stdout@) == Some(b@),
        r is None ==> head_branch(stdout@) is None,
{
    let t = trim_ws(&chars_of(stdout));
    let mut k = t.len();
    while k > 0 && t[k - 1] != '/'
        invariant
            k <= t.len(),
            forall|j: int| k <= j < t.len() ==> #[trigger] t@[j] != '/',
        decreases k,
    {
        k -= 1;
    }
    proof {
        lemma_after_last_at(t@, '/', k as int);
    }
    let seg = slice_chars(&t, k, t.len());
    assert(seg@ =~= t@.skip(k as int));
    let b = trim_ws(&seg);
    if b.len() > 0 && !chars_eq(&b, &chars_of("HEAD")) {
        Some(string_of(&b))
    } else {
        None
    }
}

/// git's report that there was nothing to commit.
pub open spec fn nothing_to_commit(output: Seq<char>) -> bool {
    contains_seq(output, "nothing to commit"@) || contains_seq(output, "nothing added to commit"@)
}

/// Did a failed `git commit` only find nothing to commit (stdout then stderr)?
pub fn reports_nothing_to_commit(stdout: &str, stderr: &str) -> (b: bool)
    ensures
        b == nothing_to_commit(stdout@ + stderr@),
{
    let mut all = chars_of(stdout);
    let mut rest = chars_of(stderr);
    all.append(&mut rest);
    contains_chars(&all, &chars_of("nothing to commit")) || contains_chars(
        &all,
        &chars_of("nothing added to commit"),
    )
}

/// Stages every change (`git add -A`, the regenerated `.SRCINFO` included),
/// commits with the conventional AUR message, and pushes to origin. `.SRCINFO` is regenerated first; when
/// `message` is `None` the commit message is `upgpkg: <name> <ver>-<rel>` read
/// from the regenerated `.SRCINFO`. The first step resolves `path`; the
/// action goes on through `flow::step`.
pub fn run(path: String, message: Option<String>) -> (r: (Stage, Step))
    ensures
        r.0@ == (StageV::PushResolving { message: message.deep_view(), tag: None }),
        r.1@ == (StepV::ResolveTarget { path: path@ }),
{
    (Stage::PushResolving { message, tag: None }, Step::ResolveTarget { path })
}

/// Same as `run` with the generated commit message, then creates the
/// annotated tag `tag` with that same `upgpkg:` message and pushes the tags
/// (`git push --tags`).
pub fn run_with_tag(path: String, tag: String) -> (r: (Stage, Step))
    ensures
        r.0@ == (StageV::PushResolving { message: None, tag: Some(tag@) }),
        r.1@ == (StepV::ResolveTarget { path: path@ }),
{
    (Stage::PushResolving { message: None, tag: Some(tag) }, Step::ResolveTarget { path })
}

} // verus!
