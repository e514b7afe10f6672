//! What the push and release windows learn about a repository: its kind, its
//! hosting platform, how its remote authenticates, and the git output they
//! read (current branch, branch and tag lists, remote URLs).

use vstd::prelude::*;
use crate::text::{
    chars_of, contains_char, contains_chars, contains_seq, find_char, has_prefix, index_of,
    lemma_index_of_found,
    lines, slice_chars, split_lines, split_words, starts_with, string_of, strip_all_prefix,
    strip_all_prefix_chars, strip_all_suffix, strip_all_suffix_chars, strip_prefix,
    strip_prefix_chars, trim, trim_ws, words,
};

verus! {

broadcast use vstd::string::group_string_axioms;

// ── Repository kind ───────────────────────────────────────────────────────────

/// The kind of repository a push goes to.
#[derive(Clone, Copy, Debug, PartialEq, Eq, Structural)]
pub enum RepoMode {
    /// AUR repository (PKGBUILD, and a remote on aur.archlinux.org).
    Aur,
    /// GitHub repository.
    Git,
    /// GitLab repository (remote on gitlab.com).
    GitLab,
    /// Codeberg repository (remote on codeberg.org).
    Codeberg,
    /// Any other git remote (self-hosted, Gitea, Forgejo, ...).
    Generic,
    /// Not a git repository.
    Unknown,
}

/// The kind of a directory that has (or lacks) `.git` and `PKGBUILD`, whose
/// `.git/config` reads `config`.
pub open spec fn repo_mode_of(has_git: bool, has_pkgbuild: bool, config: Seq<char>) -> RepoMode {
    if !has_git {
        RepoMode::Unknown
    } else if has_pkgbuild && contains_seq(config, "aur.archlinux.org"@) {
        RepoMode::Aur
    } else if contains_seq(config, "gitlab.com"@) {
        RepoMode::GitLab
    } else if contains_seq(config, "codeberg.org"@) {
        RepoMode::Codeberg
    } else if contains_seq(config, "github.com"@) {
        RepoMode::Git
    } else {
        RepoMode::Generic
    }
}

impl RepoMode {
    /// The kind of a directory, from whether it has `.git` and `PKGBUILD` and
    /// from the text of its `.git/config` (empty when unreadable).
    pub fn detect(has_git_dir: bool, has_pkgbuild: bool, git_config: &str) -> (m: RepoMode)
        ensures
            m == repo_mode_of(has_git_dir, has_pkgbuild, git_config@),
    {
        if !has_git_dir {
            return RepoMode::Unknown;
        }
        let text = chars_of(git_config);
        if has_pkgbuild && contains_chars(&text, &chars_of("aur.archlinux.org")) {
            RepoMode::Aur
        } else if contains_chars(&text, &chars_of("gitlab.com")) {
            RepoMode::GitLab
        } else if contains_chars(&text, &chars_of("codeberg.org")) {
            RepoMode::Codeberg
        } else if contains_chars(&text, &chars_of("github.com")) {
            RepoMode::Git
        } else {
            RepoMode::Generic
        }
    }
}

// ── Hosting platform (release window) ─────────────────────────────────────────

/// Where a repository's `origin` is hosted.
#[derive(Clone, Copy, Debug, PartialEq, Eq, Structural)]
pub enum Platform {
    GitHub,
    GitLab,
    Codeberg,
    Generic,
}

/// The platform of a remote URL.
pub open spec fn platform_of(url: Seq<char>) -> Platform {
    if contains_seq(url, "github.com"@) {
        Platform::GitHub
    } else if contains_seq(url, "gitlab.com"@) {
        Platform::GitLab
    } else if contains_seq(url, "codeberg.org"@) {
        Platform::Codeberg
    } else {
        Platform::Generic
    }
}

pub open spec fn platform_label(p: Platform) -> Seq<char> {
    match p {
        Platform::GitHub => "GitHub"@,
        Platform::GitLab => "GitLab"@,
        Platform::Codeberg => "Codeberg"@,
        Platform::Generic => "Git"@,
    }
}

pub open spec fn platform_badge_class(p: Platform) -> Seq<char> {
    match p {
        Platform::GitHub => "mode-badge-git"@,
        Platform::GitLab => "mode-badge-gitlab"@,
        Platform::Codeberg => "mode-badge-codeberg"@,
        Platform::Generic => "mode-badge-generic"@,
    }
}

impl Platform {
    /// The platform of the `origin` URL (empty when there is none).
    pub fn detect(remote_url: &str) -> (p: Platform)
        ensures
            p == platform_of(remote_url@),
    {
        let url = chars_of(remote_url);
        if contains_chars(&url, &chars_of("github.com")) {
            Platform::GitHub
        } else if contains_chars(&url, &chars_of("gitlab.com")) {
            Platform::GitLab
        } else if contains_chars(&url, &chars_of("codeberg.org")) {
            Platform::Codeberg
        } else {
            Platform::Generic
        }
    }

    /// The name shown for the platform.
    pub fn label(self) -> (r: &'static str)
        ensures
            r@ == platform_label(self),
    {
        match self {
            Platform::GitHub => "GitHub",
            Platform::GitLab => "GitLab",
            Platform::Codeberg => "Codeberg",
            Platform::Generic => "Git",
        }
    }

    /// The style class of the platform's badge.
    pub fn badge_class(self) -> (r: &'static str)
        ensures
            r@ == platform_badge_class(self),
    {
        match self {
            Platform::GitHub => "mode-badge-git",
            Platform::GitLab => "mode-badge-gitlab",
            Platform::Codeberg => "mode-badge-codeberg",
            Platform::Generic => "mode-badge-generic",
        }
    }

    /// Whether the platform has a release CLI or API.
    pub fn supports_releases(self) -> (b: bool)
        ensures
            b == !(self is Generic),
    {
        !matches!(self, Platform::Generic)
    }
}

// ── Authentication ────────────────────────────────────────────────────────────

/// How the `origin` remote authenticates.
#[derive(Clone, Copy, Debug, PartialEq, Eq, Structural)]
pub enum AuthMethod {
    Ssh,
    Https,
}

/// SSH for `ssh://...`, `git@...`, `aur@...` and any `user@host:path` that is
/// not an `http` URL; HTTPS otherwise. The URL is trimmed first.
pub open spec fn auth_method_of(url: Seq<char>) -> AuthMethod {
    let u = trim(url);
    if starts_with(u, "ssh://"@) || starts_with(u, "git@"@) || starts_with(u, "aur@"@) || (
    u.contains('@') && !starts_with(u, "http"@)) {
        AuthMethod::Ssh
    } else {
        AuthMethod::Https
    }
}

/// The authentication of the remote whose URL `git remote get-url origin`
/// printed (empty when it failed).
pub fn detect_auth_method(origin_url: &str) -> (m: AuthMethod)
    ensures
        m == auth_method_of(origin_url@),
{
    let u = trim_ws(&chars_of(origin_url));
    if has_prefix(&u, &chars_of("ssh://")) || has_prefix(&u, &chars_of("git@")) || has_prefix(
        &u,
        &chars_of("aur@"),
    ) || (contains_char(&u, '@') && !has_prefix(&u, &chars_of("http"))) {
        AuthMethod::Ssh
    } else {
        AuthMethod::Https
    }
}

impl AuthMethod {
    /// `"SSH"` or `"HTTPS"`.
    pub fn label(self) -> (r: &'static str)
        ensures
            r@ == (if self is Ssh { "SSH"@ } else { "HTTPS"@ }),
    {
        match self {
            AuthMethod::Ssh => "SSH",
            AuthMethod::Https => "HTTPS",
        }
    }

    /// The style class of the authentication badge.
    pub fn badge_class(self) -> (r: &'static str)
        ensures
            r@ == (if self is Ssh { "auth-badge-ssh"@ } else { "auth-badge-https"@ }),
    {
        match self {
            AuthMethod::Ssh => "auth-badge-ssh",
            AuthMethod::Https => "auth-badge-https",
        }
    }
}

/// A command whose success shows that a push can authenticate without a prompt.
pub struct AuthProbe {
    pub program: String,
    pub args: Vec<String>,
    /// Run it inside the repository.
    pub in_repo: bool,
    /// It only counts when it also printed something.
    pub needs_output: bool,
}

/// The probes for `method`, tried in order; the push is ready when one passes.
/// SSH: `ssh-add -l` (the agent runs and holds a key). HTTPS: a
/// `credential.helper` set in the repository's git config, then in the global one.
pub fn auth_probes(method: AuthMethod) -> (r: Vec<AuthProbe>)
    ensures
        method is Ssh ==> {
            &&& r.len() == 1
            &&& r[0].program@ == "ssh-add"@
            &&& r[0].args.deep_view() == seq!["-l"@]
            &&& !r[0].in_repo
            &&& !r[0].needs_output
        },
        method is Https ==> {
            &&& r.len() == 2
            &&& r[0].program@ == "git"@
            &&& r[0].args.deep_view() == seq!["config"@, "--local"@, "credential.helper"@]
            &&& r[0].in_repo
            &&& r[0].needs_output
            &&& r[1].program@ == "git"@
            &&& r[1].args.deep_view() == seq!["config"@, "--global"@, "credential.helper"@]
            &&& !r[1].in_repo
            &&& r[1].needs_output
        },
{
    match method {
        AuthMethod::Ssh => {
            let args = vec!["-l".to_string()];
            assert(args.deep_view() =~= seq!["-l"@]);
            vec![AuthProbe { program: "ssh-add".to_string(), args, in_repo: false, needs_output: false }]
        },
        AuthMethod::Https => {
            let local = vec!["config".to_string(), "--local".to_string(), "credential.helper".to_string()];
            assert(local.deep_view() =~= seq!["config"@, "--local"@, "credential.helper"@]);
            let global = vec!["config".to_string(), "--global".to_string(), "credential.helper".to_string()];
            assert(global.deep_view() =~= seq!["config"@, "--global"@, "credential.helper"@]);
            vec![
                AuthProbe { program: "git".to_string(), args: local, in_repo: true, needs_output: true },
                AuthProbe { program: "git".to_string(), args: global, in_repo: false, needs_output: true },
            ]
        },
    }
}

/// Whether a probe passed: it exited successfully and, where that is asked
/// for, printed something.
pub fn probe_passed(probe: &AuthProbe, success: bool, stdout_len: usize) -> (b: bool)
    ensures
        b == (success && (!probe.needs_output || stdout_len > 0)),
{
    success && (!probe.needs_output || stdout_len > 0)
}

/// Ready to push when any probe passed.
pub fn auth_ready(passed: &Vec<bool>) -> (b: bool)
    ensures
        b == passed@.contains(true),
{
    let mut i: usize = 0;
    while i < passed.len()
        invariant
            i <= passed.len(),
            forall|j: int| 0 <= j < i ==> !passed@[j],
        decreases passed.len() - i,
    {
        if passed[i] {
            assert(passed@[i as int] == true);
            return true;
        }
        i += 1;
    }
    false
}

// ── Git queries and their output ──────────────────────────────────────────────

/// The git commands the windows read the repository with.
#[derive(Clone, Copy, Debug, PartialEq, Eq, Structural)]
pub enum GitQuery {
    /// `git rev-parse --abbrev-ref HEAD`
    CurrentBranch,
    /// `git branch --format=%(refname:short)`
    Branches,
    /// `git tag --sort=-creatordate`
    Tags,
    /// `git remote get-url origin`
    OriginUrl,
    /// `git remote -v`
    Remotes,
}

pub open spec fn git_query_args(q: GitQuery) -> Seq<Seq<char>> {
    match q {
        GitQuery::CurrentBranch => seq!["rev-parse"@, "--abbrev-ref"@, "HEAD"@],
        GitQuery::Branches => seq!["branch"@, "--format=%(refname:short)"@],
        GitQuery::Tags => seq!["tag"@, "--sort=-creatordate"@],
        GitQuery::OriginUrl => seq!["remote"@, "get-url"@, "origin"@],
        GitQuery::Remotes => seq!["remote"@, "-v"@],
    }
}

impl GitQuery {
    /// The arguments of the `git` command.
    pub fn args(self) -> (r: Vec<String>)
        ensures
            r.deep_view() == git_query_args(self),
    {
        match self {
            GitQuery::CurrentBranch => {
                let r = vec!["rev-parse".to_string(), "--abbrev-ref".to_string(), "HEAD".to_string()];
                assert(r.deep_view() =~= git_query_args(self));
                r
            },
            GitQuery::Branches => {
                let r = vec!["branch".to_string(), "--format=%(refname:short)".to_string()];
                assert(r.deep_view() =~= git_query_args(self));
                r
            },
            GitQuery::Tags => {
                let r = vec!["tag".to_string(), "--sort=-creatordate".to_string()];
                assert(r.deep_view() =~= git_query_args(self));
                r
            },
            GitQuery::OriginUrl => {
                let r = vec!["remote".to_string(), "get-url".to_string(), "origin".to_string()];
                assert(r.deep_view() =~= git_query_args(self));
                r
            },
            GitQuery::Remotes => {
                let r = vec!["remote".to_string(), "-v".to_string()];
                assert(r.deep_view() =~= git_query_args(self));
                r
            },
        }
    }
}

/// The branch `git rev-parse --abbrev-ref HEAD` printed, trimmed; `main` when
/// it printed nothing.
pub open spec fn branch_or_main(stdout: Seq<char>) -> Seq<char> {
    if trim(stdout).len() == 0 {
        "main"@
    } else {
        trim(stdout)
    }
}

/// The current branch from the output of `git rev-parse --abbrev-ref HEAD`
/// (empty when the command could not run).
pub fn current_branch(stdout: &str) -> (r: String)
    ensures
        r@ == branch_or_main(stdout@),
{
    let t = trim_ws(&chars_of(stdout));
    if t.len() == 0 {
        "main".to_string()
    } else {
        string_of(&t)
    }
}

/// The lines of `ls`, trimmed, without the blank ones.
pub open spec fn trimmed_lines(ls: Seq<Seq<char>>) -> Seq<Seq<char>>
    decreases ls.len(),
{
    if ls.len() == 0 {
        seq![]
    } else if trim(ls.last()).len() == 0 {
        trimmed_lines(ls.drop_last())
    } else {
        trimmed_lines(ls.drop_last()).push(trim(ls.last()))
    }
}

/// The non-blank lines of a git listing (branches, tags), trimmed, in order.
pub fn output_lines(stdout: &str) -> (r: Vec<String>)
    ensures
        r.deep_view() == trimmed_lines(lines(stdout@)),
{
    let ls = split_lines(&chars_of(stdout));
    let ghost all = lines(stdout@);
    let mut r: Vec<String> = Vec::new();
    let mut i: usize = 0;
    assert(all.take(0) =~= Seq::<Seq<char>>::empty());
    while i < ls.len()
        invariant
            i <= ls.len(),
            ls.len() == all.len(),
            forall|j: int| 0 <= j < ls.len() ==> #[trigger] ls[j]@ == all[j],
            r.deep_view() == trimmed_lines(all.take(i as int)),
        decreases ls.len() - i,
    {
        let t = trim_ws(&ls[i]);
        assert(all.take(i + 1).drop_last() =~= all.take(i as int));
        assert(all.take(i + 1).last() == ls[i as int]@);
        if t.len() > 0 {
            let s = string_of(&t);
            r.push(s);
            assert(r.deep_view() =~= trimmed_lines(all.take(i as int)).push(t@));
        }
        i += 1;
    }
    assert(all.take(ls.len() as int) =~= all);
    r
}

/// The `origin` URL printed by `git remote get-url origin`, trimmed; none
/// when it printed nothing.
pub fn origin_url(stdout: &str) -> (r: Option<String>)
    ensures
        r matches Some(u) ==> u@ == trim(stdout@) && u@.len() > 0,
        r is None <==> trim(stdout@).len() == 0,
{
    let t = trim_ws(&chars_of(stdout));
    if t.len() == 0 {
        None
    } else {
        Some(string_of(&t))
    }
}

/// The URL on the first line of `git remote -v` (its second word), or empty.
pub open spec fn first_remote(stdout: Seq<char>) -> Seq<char> {
    let ls = lines(stdout);
    if ls.len() > 0 && words(ls[0]).len() > 1 {
        words(ls[0])[1]
    } else {
        seq![]
    }
}

/// The URL of the first remote listed by `git remote -v`; empty when there is none.
pub fn first_remote_url(stdout: &str) -> (r: String)
    ensures
        r@ == first_remote(stdout@),
{
    let ls = split_lines(&chars_of(stdout));
    if ls.len() == 0 {
        return String::new();
    }
    let ws = split_words(&ls[0]);
    if ws.len() > 1 {
        string_of(&ws[1])
    } else {
        String::new()
    }
}

// ── owner/repo of a remote URL (Codeberg API) ────────────────────────────────

/// What follows the first `c` of `s` (`splitn(2, c).nth(1)`), or empty.
pub open spec fn after_char(s: Seq<char>, c: char) -> Seq<char> {
    match index_of(s, c) {
        Some(i) => s.skip(i + 1),
        None => seq![],
    }
}

/// What precedes the first `c` of `s` (`splitn(2, c).next()`), or all of `s`.
pub open spec fn before_char(s: Seq<char>, c: char) -> Seq<char> {
    match index_of(s, c) {
        Some(i) => s.take(i),
        None => s,
    }
}

/// The repository path of a remote URL: after the `:` of `git@host:path`,
/// or after the host of an `https://` or `http://` URL; `.git` endings removed.
pub open spec fn repo_path(url: Seq<char>) -> Seq<char> {
    let p = match strip_prefix(url, "git@"@) {
        Some(rest) => after_char(rest, ':'),
        None => after_char(strip_all_prefix(strip_all_prefix(url, "https://"@), "http://"@), '/'),
    };
    strip_all_suffix(p, ".git"@)
}

/// `(owner, repo)` of a remote URL: the repository path split at its first `/`.
pub open spec fn owner_repo(url: Seq<char>) -> (Seq<char>, Seq<char>) {
    (before_char(repo_path(url), '/'), after_char(repo_path(url), '/'))
}

fn after_first(v: &Vec<char>, c: char) -> (r: Vec<char>)
    ensures
        r@ == after_char(v@, c),
{
    proof {
        lemma_index_of_found(v@, c);
    }
    match find_char(v, c) {
        Some(i) => {
            assert(i < v.len());
            slice_chars(v, i + 1, v.len())
        },
        None => Vec::new(),
    }
}

fn before_first(v: &Vec<char>, c: char) -> (r: Vec<char>)
    ensures
        r@ == before_char(v@, c),
{
    proof {
        lemma_index_of_found(v@, c);
    }
    match find_char(v, c) {
        Some(i) => slice_chars(v, 0, i),
        None => v.clone(),
    }
}

/// Owner and repository name from a remote URL (`git@host:owner/repo.git`,
/// `https://host/owner/repo`); either is empty when the URL does not have it.
pub fn parse_owner_repo(url: &str) -> (r: (String, String))
    ensures
        (r.0@, r.1@) == owner_repo(url@),
{
    let u = chars_of(url);
    let p = match strip_prefix_chars(&u, &chars_of("git@")) {
        Some(rest) => after_first(&rest, ':'),
        None => {
            let a = strip_all_prefix_chars(&u, &chars_of("https://"));
            let b = strip_all_prefix_chars(&a, &chars_of("http://"));
            after_first(&b, '/')
        },
    };
    let path = strip_all_suffix_chars(&p, &chars_of(".git"));
    (string_of(&before_first(&path, '/')), string_of(&after_first(&path, '/')))
}

} // verus!
