//! The actions as state machines. Each action is a sequence of outside steps
//! (resolve a directory, run a tool, read the environment, ...) separated by
//! decisions. The library takes the decisions: given the current stage and
//! what the last step reported, `step` says what to do next. The program
//! around the library performs each step and reports back, until `Finish`.

use vstd::prelude::*;
use crate::actions::aur_push::{
    auto_commit_message, branch_from_symbolic_ref, commit_message_from_srcinfo, head_branch,
    nothing_to_commit, reports_nothing_to_commit,
};
use crate::actions::{build_dir_path, cache_root, choose_cache_root, makepkg_build_dir_path};
use crate::text::{trim, trim_ws, chars_of, string_of};

verus! {

broadcast use vstd::string::group_string_axioms;

// ── Executable types ──────────────────────────────────────────────────────────

/// What a captured tool run produced.
pub struct Captured {
    pub success: bool,
    pub stdout: String,
    pub stderr: String,
}

/// What the program reports after performing a step.
pub enum Event {
    /// `ResolveTarget` done: the package directory, or why there is none.
    Target(Result<String, String>),
    /// `RegenerateSrcinfo` done: the new `.SRCINFO` text, or the failure.
    Srcinfo(Result<String, String>),
    /// `ReadCacheEnv` done: `$XDG_CACHE_HOME` and `$HOME`.
    CacheEnv { xdg_cache_home: Option<String>, home: Option<String> },
    /// `Run` or `CreateDir` done: success, or the failure's description.
    Done(Result<(), String>),
    /// `Capture` done: the output, or why the tool could not be started.
    Output(Result<Captured, String>),
    /// `Probe` done: did the tool exit successfully.
    Probed(bool),
    /// `Notify` done.
    Ack,
}

/// Something to tell the user along the way.
pub enum Notice {
    /// `git commit` found nothing to commit; the push goes on.
    NothingToCommit,
    /// Pushing to the default branch failed (`error`); a plain `git push` follows.
    PushFallback { error: String },
}

/// Why an action failed.
pub enum ActionError {
    /// The path holds no package directory (the description says why).
    Target(String),
    /// `.SRCINFO` could not be regenerated.
    Srcinfo(String),
    /// Neither `$XDG_CACHE_HOME` nor `$HOME` is set.
    NoHome,
    /// The makepkg work tree could not be created.
    BuildDir { path: String, error: String },
    /// A tool run failed.
    Command(String),
    /// `git commit` could not be started.
    CommitSpawn(String),
    /// `git commit` failed for a reason other than an empty commit (its trimmed stderr).
    CommitFailed { stderr: String },
    /// The commit reached the AUR but the tag did not: it exists locally only.
    /// `hint` is the command that pushes it once the cause is gone.
    TagNotPushed { tag: String, hint: String, cause: String },
    /// The reported event does not answer the step that was asked for.
    UnexpectedEvent,
}

/// The next thing the program must do.
pub enum Step {
    /// Resolve `path` to the directory that holds its PKGBUILD; answer `Target`.
    ResolveTarget { path: String },
    /// Regenerate `.SRCINFO` in `dir` (`makepkg --printsrcinfo`); answer `Srcinfo`.
    RegenerateSrcinfo { dir: String },
    /// Read `$XDG_CACHE_HOME` and `$HOME`; answer `CacheEnv`.
    ReadCacheEnv,
    /// Create directory `path` and its parents; answer `Done`.
    CreateDir { path: String },
    /// Run `program args` in `dir` on the host, with the terminal attached and
    /// `BUILDDIR` set when `build_dir` is given; answer `Done`.
    Run { program: String, args: Vec<String>, dir: String, build_dir: Option<String> },
    /// Run `program args` in `dir` and capture its output; answer `Output`.
    Capture { program: String, args: Vec<String>, dir: String },
    /// Run `program args` in `dir` silently; answer `Probed`.
    Probe { program: String, args: Vec<String>, dir: String },
    /// Tell the user; answer `Ack`.
    Notify(Notice),
    /// The action is over.
    Finish(Result<(), ActionError>),
}

/// Where an action stands.
pub enum Stage {
    PushResolving { message: Option<String>, tag: Option<String> },
    PushRegenerating { dir: String, message: Option<String>, tag: Option<String> },
    PushStaging { dir: String, message: Option<String>, tag: Option<String>, srcinfo: String },
    PushCommitting { dir: String, tag: Option<(String, String)> },
    PushNotedNothing { dir: String, tag: Option<(String, String)> },
    PushReadingHead { dir: String, tag: Option<(String, String)> },
    PushProbingMain { dir: String, tag: Option<(String, String)> },
    PushProbingMaster { dir: String, tag: Option<(String, String)> },
    PushPushing { dir: String, tag: Option<(String, String)> },
    PushNotedFallback { dir: String, tag: Option<(String, String)> },
    PushFallingBack { dir: String, tag: Option<(String, String)> },
    TagCreating { dir: String, tag: String },
    TagPushing { dir: String, tag: String },
    SrcinfoResolving,
    SrcinfoRegenerating,
    MakepkgResolving { args: Vec<String> },
    MakepkgLocatingCache { dir: String, args: Vec<String> },
    MakepkgCreatingDir { dir: String, args: Vec<String>, build_dir: String },
    MakepkgRunning,
    Finished,
}

// ── Mathematical views ────────────────────────────────────────────────────────

pub type Text = Seq<char>;

pub ghost struct CapturedV {
    pub success: bool,
    pub stdout: Text,
    pub stderr: Text,
}

pub ghost enum EventV {
    Target(Result<Text, Text>),
    Srcinfo(Result<Text, Text>),
    CacheEnv { xdg_cache_home: Option<Text>, home: Option<Text> },
    Done(Result<(), Text>),
    Output(Result<CapturedV, Text>),
    Probed(bool),
    Ack,
}

pub ghost enum NoticeV {
    NothingToCommit,
    PushFallback { error: Text },
}

pub ghost enum ErrorV {
    Target(Text),
    Srcinfo(Text),
    NoHome,
    BuildDir { path: Text, error: Text },
    Command(Text),
    CommitSpawn(Text),
    CommitFailed { stderr: Text },
    TagNotPushed { tag: Text, hint: Text, cause: Text },
    UnexpectedEvent,
}

pub ghost enum StepV {
    ResolveTarget { path: Text },
    RegenerateSrcinfo { dir: Text },
    ReadCacheEnv,
    CreateDir { path: Text },
    Run { program: Text, args: Seq<Text>, dir: Text, build_dir: Option<Text> },
    Capture { program: Text, args: Seq<Text>, dir: Text },
    Probe { program: Text, args: Seq<Text>, dir: Text },
    Notify(NoticeV),
    Finish(Result<(), ErrorV>),
}

pub ghost enum StageV {
    PushResolving { message: Option<Text>, tag: Option<Text> },
    PushRegenerating { dir: Text, message: Option<Text>, tag: Option<Text> },
    PushStaging { dir: Text, message: Option<Text>, tag: Option<Text>, srcinfo: Text },
    PushCommitting { dir: Text, tag: Option<(Text, Text)> },
    PushNotedNothing { dir: Text, tag: Option<(Text, Text)> },
    PushReadingHead { dir: Text, tag: Option<(Text, Text)> },
    PushProbingMain { dir: Text, tag: Option<(Text, Text)> },
    PushProbingMaster { dir: Text, tag: Option<(Text, Text)> },
    PushPushing { dir: Text, tag: Option<(Text, Text)> },
    PushNotedFallback { dir: Text, tag: Option<(Text, Text)> },
    PushFallingBack { dir: Text, tag: Option<(Text, Text)> },
    TagCreating { dir: Text, tag: Text },
    TagPushing { dir: Text, tag: Text },
    SrcinfoResolving,
    SrcinfoRegenerating,
    MakepkgResolving { args: Seq<Text> },
    MakepkgLocatingCache { dir: Text, args: Seq<Text> },
    MakepkgCreatingDir { dir: Text, args: Seq<Text>, build_dir: Text },
    MakepkgRunning,
    Finished,
}

impl View for Captured {
    type V = CapturedV;

    open spec fn view(&self) -> CapturedV {
        CapturedV { success: self.success, stdout: self.stdout@, stderr: self.stderr@ }
    }
}

pub open spec fn text_result(r: Result<String, String>) -> Result<Text, Text> {
    match r {
        Ok(v) => Ok(v@),
        Err(e) => Err(e@),
    }
}

impl View for Event {
    type V = EventV;

    open spec fn view(&self) -> EventV {
        match self {
            Event::Target(r) => EventV::Target(text_result(*r)),
            Event::Srcinfo(r) => EventV::Srcinfo(text_result(*r)),
            Event::CacheEnv { xdg_cache_home, home } => EventV::CacheEnv {
                xdg_cache_home: xdg_cache_home.deep_view(),
                home: home.deep_view(),
            },
            Event::Done(r) => EventV::Done(
                match r {
                    Ok(()) => Ok(()),
                    Err(e) => Err(e@),
                },
            ),
            Event::Output(r) => EventV::Output(
                match r {
                    Ok(c) => Ok(c@),
                    Err(e) => Err(e@),
                },
            ),
            Event::Probed(b) => EventV::Probed(*b),
            Event::Ack => EventV::Ack,
        }
    }
}

impl View for Notice {
    type V = NoticeV;

    open spec fn view(&self) -> NoticeV {
        match self {
            Notice::NothingToCommit => NoticeV::NothingToCommit,
            Notice::PushFallback { error } => NoticeV::PushFallback { error: error@ },
        }
    }
}

impl View for ActionError {
    type V = ErrorV;

    open spec fn view(&self) -> ErrorV {
        match self {
            ActionError::Target(m) => ErrorV::Target(m@),
            ActionError::Srcinfo(m) => ErrorV::Srcinfo(m@),
            ActionError::NoHome => ErrorV::NoHome,
            ActionError::BuildDir { path, error } => ErrorV::BuildDir { path: path@, error: error@ },
            ActionError::Command(m) => ErrorV::Command(m@),
            ActionError::CommitSpawn(m) => ErrorV::CommitSpawn(m@),
            ActionError::CommitFailed { stderr } => ErrorV::CommitFailed { stderr: stderr@ },
            ActionError::TagNotPushed { tag, hint, cause } => ErrorV::TagNotPushed {
                tag: tag@,
                hint: hint@,
                cause: cause@,
            },
            ActionError::UnexpectedEvent => ErrorV::UnexpectedEvent,
        }
    }
}

impl View for Step {
    type V = StepV;

    open spec fn view(&self) -> StepV {
        match self {
            Step::ResolveTarget { path } => StepV::ResolveTarget { path: path@ },
            Step::RegenerateSrcinfo { dir } => StepV::RegenerateSrcinfo { dir: dir@ },
            Step::ReadCacheEnv => StepV::ReadCacheEnv,
            Step::CreateDir { path } => StepV::CreateDir { path: path@ },
            Step::Run { program, args, dir, build_dir } => StepV::Run {
                program: program@,
                args: args.deep_view(),
                dir: dir@,
                build_dir: build_dir.deep_view(),
            },
            Step::Capture { program, args, dir } => StepV::Capture {
                program: program@,
                args: args.deep_view(),
                dir: dir@,
            },
            Step::Probe { program, args, dir } => StepV::Probe {
                program: program@,
                args: args.deep_view(),
                dir: dir@,
            },
            Step::Notify(n) => StepV::Notify(n@),
            Step::Finish(r) => StepV::Finish(
                match r {
                    Ok(()) => Ok(()),
                    Err(e) => Err(e@),
                },
            ),
        }
    }
}

impl View for Stage {
    type V = StageV;

    open spec fn view(&self) -> StageV {
        match self {
            Stage::PushResolving { message, tag } => StageV::PushResolving {
                message: message.deep_view(),
                tag: tag.deep_view(),
            },
            Stage::PushRegenerating { dir, message, tag } => StageV::PushRegenerating {
                dir: dir@,
                message: message.deep_view(),
                tag: tag.deep_view(),
            },
            Stage::PushStaging { dir, message, tag, srcinfo } => StageV::PushStaging {
                dir: dir@,
                message: message.deep_view(),
                tag: tag.deep_view(),
                srcinfo: srcinfo@,
            },
            Stage::PushCommitting { dir, tag } => StageV::PushCommitting {
                dir: dir@,
                tag: tag.deep_view(),
            },
            Stage::PushNotedNothing { dir, tag } => StageV::PushNotedNothing {
                dir: dir@,
                tag: tag.deep_view(),
            },
            Stage::PushReadingHead { dir, tag } => StageV::PushReadingHead {
                dir: dir@,
                tag: tag.deep_view(),
            },
            Stage::PushProbingMain { dir, tag } => StageV::PushProbingMain {
                dir: dir@,
                tag: tag.deep_view(),
            },
            Stage::PushProbingMaster { dir, tag } => StageV::PushProbingMaster {
                dir: dir@,
                tag: tag.deep_view(),
            },
            Stage::PushPushing { dir, tag } => StageV::PushPushing {
                dir: dir@,
                tag: tag.deep_view(),
            },
            Stage::PushNotedFallback { dir, tag } => StageV::PushNotedFallback {
                dir: dir@,
                tag: tag.deep_view(),
            },
            Stage::PushFallingBack { dir, tag } => StageV::PushFallingBack {
                dir: dir@,
                tag: tag.deep_view(),
            },
            Stage::TagCreating { dir, tag } => StageV::TagCreating { dir: dir@, tag: tag@ },
            Stage::TagPushing { dir, tag } => StageV::TagPushing { dir: dir@, tag: tag@ },
            Stage::SrcinfoResolving => StageV::SrcinfoResolving,
            Stage::SrcinfoRegenerating => StageV::SrcinfoRegenerating,
            Stage::MakepkgResolving { args } => StageV::MakepkgResolving { args: args.deep_view() },
            Stage::MakepkgLocatingCache { dir, args } => StageV::MakepkgLocatingCache {
                dir: dir@,
                args: args.deep_view(),
            },
            Stage::MakepkgCreatingDir { dir, args, build_dir } => StageV::MakepkgCreatingDir {
                dir: dir@,
                args: args.deep_view(),
                build_dir: build_dir@,
            },
            Stage::MakepkgRunning => StageV::MakepkgRunning,
            Stage::Finished => StageV::Finished,
        }
    }
}

// ── The transition table ──────────────────────────────────────────────────────

pub open spec fn finish_err(e: ErrorV) -> (StageV, StepV) {
    (StageV::Finished, StepV::Finish(Err(e)))
}

pub open spec fn finish_ok() -> (StageV, StepV) {
    (StageV::Finished, StepV::Finish(Ok(())))
}

pub open spec fn unexpected() -> (StageV, StepV) {
    finish_err(ErrorV::UnexpectedEvent)
}

/// `git <args>` in `dir`, on the host, terminal attached.
pub open spec fn git_run(args: Seq<Text>, dir: Text) -> StepV {
    StepV::Run { program: "git"@, args, dir, build_dir: None }
}

/// Ask git for the remote's HEAD (`git symbolic-ref refs/remotes/origin/HEAD`).
pub open spec fn read_head(dir: Text, tag: Option<(Text, Text)>) -> (StageV, StepV) {
    (
        StageV::PushReadingHead { dir, tag },
        StepV::Capture {
            program: "git"@,
            args: seq!["symbolic-ref"@, "refs/remotes/origin/HEAD"@],
            dir,
        },
    )
}

/// Check whether `refs/remotes/origin/<branch>` exists locally.
pub open spec fn probe_ref(branch: Text, dir: Text) -> StepV {
    StepV::Probe {
        program: "git"@,
        args: seq!["rev-parse"@, "--verify"@, "refs/remotes/origin/"@ + branch],
        dir,
    }
}

/// `git push origin <branch>`.
pub open spec fn push_to(dir: Text, tag: Option<(Text, Text)>, branch: Text) -> (StageV, StepV) {
    (StageV::PushPushing { dir, tag }, git_run(seq!["push"@, "origin"@, branch], dir))
}

/// After the commit reached the remote: done, or create the annotated tag
/// `t` with message `m`.
pub open spec fn after_push(dir: Text, tag: Option<(Text, Text)>) -> (StageV, StepV) {
    match tag {
        None => finish_ok(),
        Some((t, m)) => (
            StageV::TagCreating { dir, tag: t },
            git_run(seq!["tag"@, "-a"@, t, "-m"@, m], dir),
        ),
    }
}

/// The tag to create, with its message: the generated `upgpkg:` message of
/// the regenerated `.SRCINFO`.
pub open spec fn tag_with_message(tag: Option<Text>, srcinfo: Text) -> Option<(Text, Text)> {
    match tag {
        Some(t) => Some((t, auto_commit_message(srcinfo))),
        None => None,
    }
}

/// The commit message: the one given, or the one generated from `.SRCINFO`.
pub open spec fn chosen_message(message: Option<Text>, srcinfo: Text) -> Text {
    match message {
        Some(m) => m,
        None => auto_commit_message(srcinfo),
    }
}

/// What to do next, given where the action stands and what the last step reported.
pub open spec fn transition(s: StageV, e: EventV) -> (StageV, StepV) {
    match s {
        StageV::PushResolving { message, tag } => match e {
            EventV::Target(Ok(dir)) => (
                StageV::PushRegenerating { dir, message, tag },
                StepV::RegenerateSrcinfo { dir },
            ),
            EventV::Target(Err(m)) => finish_err(ErrorV::Target(m)),
            _ => unexpected(),
        },
        StageV::PushRegenerating { dir, message, tag } => match e {
            EventV::Srcinfo(Ok(text)) => (
                StageV::PushStaging { dir, message, tag, srcinfo: text },
                git_run(seq!["add"@, "-A"@], dir),
            ),
            EventV::Srcinfo(Err(m)) => finish_err(ErrorV::Srcinfo(m)),
            _ => unexpected(),
        },
        StageV::PushStaging { dir, message, tag, srcinfo } => match e {
            EventV::Done(Ok(())) => (
                StageV::PushCommitting { dir, tag: tag_with_message(tag, srcinfo) },
                StepV::Capture {
                    program: "git"@,
                    args: seq!["commit"@, "-m"@, chosen_message(message, srcinfo)],
                    dir,
                },
            ),
            EventV::Done(Err(m)) => finish_err(ErrorV::Command(m)),
            _ => unexpected(),
        },
        StageV::PushCommitting { dir, tag } => match e {
            EventV::Output(Ok(c)) => if c.success {
                read_head(dir, tag)
            } else if nothing_to_commit(c.stdout + c.stderr) {
                (StageV::PushNotedNothing { dir, tag }, StepV::Notify(NoticeV::NothingToCommit))
            } else {
                finish_err(ErrorV::CommitFailed { stderr: trim(c.stderr) })
            },
            EventV::Output(Err(m)) => finish_err(ErrorV::CommitSpawn(m)),
            _ => unexpected(),
        },
        StageV::PushNotedNothing { dir, tag } => match e {
            EventV::Ack => read_head(dir, tag),
            _ => unexpected(),
        },
        StageV::PushReadingHead { dir, tag } => match e {
            EventV::Output(Ok(c)) => if c.success && head_branch(c.stdout) is Some {
                push_to(dir, tag, head_branch(c.stdout)->0)
            } else {
                (StageV::PushProbingMain { dir, tag }, probe_ref("main"@, dir))
            },
            EventV::Output(Err(_)) => push_to(dir, tag, "master"@),
            _ => unexpected(),
        },
        StageV::PushProbingMain { dir, tag } => match e {
            EventV::Probed(true) => push_to(dir, tag, "main"@),
            EventV::Probed(false) => (StageV::PushProbingMaster { dir, tag }, probe_ref("master"@, dir)),
            _ => unexpected(),
        },
        StageV::PushProbingMaster { dir, tag } => match e {
            EventV::Probed(_) => push_to(dir, tag, "master"@),
            _ => unexpected(),
        },
        StageV::PushPushing { dir, tag } => match e {
            EventV::Done(Ok(())) => after_push(dir, tag),
            EventV::Done(Err(m)) => (
                StageV::PushNotedFallback { dir, tag },
                StepV::Notify(NoticeV::PushFallback { error: m }),
            ),
            _ => unexpected(),
        },
        StageV::PushNotedFallback { dir, tag } => match e {
            EventV::Ack => (StageV::PushFallingBack { dir, tag }, git_run(seq!["push"@], dir)),
            _ => unexpected(),
        },
        StageV::PushFallingBack { dir, tag } => match e {
            EventV::Done(Ok(())) => after_push(dir, tag),
            EventV::Done(Err(m)) => finish_err(ErrorV::Command(m)),
            _ => unexpected(),
        },
        StageV::TagCreating { dir, tag } => match e {
            EventV::Done(Ok(())) => (
                StageV::TagPushing { dir, tag },
                git_run(seq!["push"@, "--tags"@], dir),
            ),
            EventV::Done(Err(m)) => finish_err(ErrorV::Command(m)),
            _ => unexpected(),
        },
        StageV::TagPushing { dir, tag } => match e {
            EventV::Done(Ok(())) => finish_ok(),
            EventV::Done(Err(m)) => finish_err(
                ErrorV::TagNotPushed { tag, hint: "git push --tags"@, cause: m },
            ),
            _ => unexpected(),
        },
        StageV::SrcinfoResolving => match e {
            EventV::Target(Ok(dir)) => (StageV::SrcinfoRegenerating, StepV::RegenerateSrcinfo { dir }),
            EventV::Target(Err(m)) => finish_err(ErrorV::Target(m)),
            _ => unexpected(),
        },
        StageV::SrcinfoRegenerating => match e {
            EventV::Srcinfo(Ok(_)) => finish_ok(),
            EventV::Srcinfo(Err(m)) => finish_err(ErrorV::Srcinfo(m)),
            _ => unexpected(),
        },
        StageV::MakepkgResolving { args } => match e {
            EventV::Target(Ok(dir)) => (StageV::MakepkgLocatingCache { dir, args }, StepV::ReadCacheEnv),
            EventV::Target(Err(m)) => finish_err(ErrorV::Target(m)),
            _ => unexpected(),
        },
        StageV::MakepkgLocatingCache { dir, args } => match e {
            EventV::CacheEnv { xdg_cache_home, home } => match cache_root(xdg_cache_home, home) {
                Some(root) => (
                    StageV::MakepkgCreatingDir { dir, args, build_dir: build_dir_path(root, dir) },
                    StepV::CreateDir { path: build_dir_path(root, dir) },
                ),
                None => finish_err(ErrorV::NoHome),
            },
            _ => unexpected(),
        },
        StageV::MakepkgCreatingDir { dir, args, build_dir } => match e {
            EventV::Done(Ok(())) => (
                StageV::MakepkgRunning,
                StepV::Run { program: "makepkg"@, args, dir, build_dir: Some(build_dir) },
            ),
            EventV::Done(Err(m)) => finish_err(ErrorV::BuildDir { path: build_dir, error: m }),
            _ => unexpected(),
        },
        StageV::MakepkgRunning => match e {
            EventV::Done(Ok(())) => finish_ok(),
            EventV::Done(Err(m)) => finish_err(ErrorV::Command(m)),
            _ => unexpected(),
        },
        StageV::Finished => unexpected(),
    }
}

// ── Executable transitions ────────────────────────────────────────────────────

fn text(s: &str) -> (r: String)
    ensures
        r@ == s@,
{
    s.to_string()
}

fn fail(e: ActionError) -> (r: (Stage, Step))
    ensures
        (r.0@, r.1@) == finish_err(e@),
{
    (Stage::Finished, Step::Finish(Err(e)))
}

fn git(args: Vec<String>, dir: String) -> (r: Step)
    ensures
        r@ == git_run(args.deep_view(), dir@),
{
    Step::Run { program: text("git"), args, dir, build_dir: None }
}

fn read_head_step(dir: String, tag: Option<(String, String)>) -> (r: (Stage, Step))
    ensures
        (r.0@, r.1@) == read_head(dir@, tag.deep_view()),
{
    let args = vec![text("symbolic-ref"), text("refs/remotes/origin/HEAD")];
    assert(args.deep_view() =~= seq!["symbolic-ref"@, "refs/remotes/origin/HEAD"@]);
    (
        Stage::PushReadingHead { dir: dir.clone(), tag },
        Step::Capture { program: text("git"), args, dir },
    )
}

fn probe_step(branch: &str, dir: String) -> (r: Step)
    ensures
        r@ == probe_ref(branch@, dir@),
{
    let mut r = text("refs/remotes/origin/");
    r.append(branch);
    let args = vec![text("rev-parse"), text("--verify"), r];
    assert(args.deep_view() =~= seq!["rev-parse"@, "--verify"@, "refs/remotes/origin/"@ + branch@]);
    Step::Probe { program: text("git"), args, dir }
}

fn push_step(dir: String, tag: Option<(String, String)>, branch: String) -> (r: (Stage, Step))
    ensures
        (r.0@, r.1@) == push_to(dir@, tag.deep_view(), branch@),
{
    let args = vec![text("push"), text("origin"), branch];
    assert(args.deep_view() =~= seq!["push"@, "origin"@, branch@]);
    (Stage::PushPushing { dir: dir.clone(), tag }, git(args, dir))
}

fn after_push_step(dir: String, tag: Option<(String, String)>) -> (r: (Stage, Step))
    ensures
        (r.0@, r.1@) == after_push(dir@, tag.deep_view()),
{
    match tag {
        None => (Stage::Finished, Step::Finish(Ok(()))),
        Some((t, m)) => {
            let args = vec![text("tag"), text("-a"), t.clone(), text("-m"), m];
            assert(args.deep_view() =~= seq!["tag"@, "-a"@, t@, "-m"@, m@]);
            (Stage::TagCreating { dir: dir.clone(), tag: t }, git(args, dir))
        },
    }
}

fn unexpected_step() -> (r: (Stage, Step))
    ensures
        (r.0@, r.1@) == unexpected(),
{
    fail(ActionError::UnexpectedEvent)
}

/// Decides the next step of an action: from the stage it stands at and what
/// the program reports of the last step, the new stage and the step to perform.
pub fn step(stage: Stage, event: Event) -> (r: (Stage, Step))
    ensures
        (r.0@, r.1@) == transition(stage@, event@),
{
    match stage {
        Stage::PushResolving { message, tag } => match event {
            Event::Target(Ok(dir)) => (
                Stage::PushRegenerating { dir: dir.clone(), message, tag },
                Step::RegenerateSrcinfo { dir },
            ),
            Event::Target(Err(m)) => fail(ActionError::Target(m)),
            _ => unexpected_step(),
        },
        Stage::PushRegenerating { dir, message, tag } => match event {
            Event::Srcinfo(Ok(t)) => {
                let args = vec![text("add"), text("-A")];
                assert(args.deep_view() =~= seq!["add"@, "-A"@]);
                (Stage::PushStaging { dir: dir.clone(), message, tag, srcinfo: t }, git(args, dir))
            },
            Event::Srcinfo(Err(m)) => fail(ActionError::Srcinfo(m)),
            _ => unexpected_step(),
        },
        Stage::PushStaging { dir, message, tag, srcinfo } => match event {
            Event::Done(Ok(())) => {
                let tagged = match tag {
                    Some(t) => Some((t, commit_message_from_srcinfo(srcinfo.as_str()))),
                    None => None,
                };
                let msg = match message {
                    Some(m) => m,
                    None => commit_message_from_srcinfo(srcinfo.as_str()),
                };
                let args = vec![text("commit"), text("-m"), msg];
                assert(args.deep_view() =~= seq!["commit"@, "-m"@, msg@]);
                (
                    Stage::PushCommitting { dir: dir.clone(), tag: tagged },
                    Step::Capture { program: text("git"), args, dir },
                )
            },
            Event::Done(Err(m)) => fail(ActionError::Command(m)),
            _ => unexpected_step(),
        },
        Stage::PushCommitting { dir, tag } => match event {
            Event::Output(Ok(c)) => {
                if c.success {
                    read_head_step(dir, tag)
                } else if reports_nothing_to_commit(c.stdout.as_str(), c.stderr.as_str()) {
                    (Stage::PushNotedNothing { dir, tag }, Step::Notify(Notice::NothingToCommit))
                } else {
                    let t = string_of(&trim_ws(&chars_of(c.stderr.as_str())));
                    fail(ActionError::CommitFailed { stderr: t })
                }
            },
            Event::Output(Err(m)) => fail(ActionError::CommitSpawn(m)),
            _ => unexpected_step(),
        },
        Stage::PushNotedNothing { dir, tag } => match event {
            Event::Ack => read_head_step(dir, tag),
            _ => unexpected_step(),
        },
        Stage::PushReadingHead { dir, tag } => match event {
            Event::Output(Ok(c)) => {
                let b = if c.success {
                    branch_from_symbolic_ref(c.stdout.as_str())
                } else {
                    None
                };
                match b {
                    Some(b) => push_step(dir, tag, b),
                    None => {
                        let p = probe_step("main", dir.clone());
                        (Stage::PushProbingMain { dir, tag }, p)
                    },
                }
            },
            Event::Output(Err(_)) => push_step(dir, tag, text("master")),
            _ => unexpected_step(),
        },
        Stage::PushProbingMain { dir, tag } => match event {
            Event::Probed(true) => push_step(dir, tag, text("main")),
            Event::Probed(false) => {
                let p = probe_step("master", dir.clone());
                (Stage::PushProbingMaster { dir, tag }, p)
            },
            _ => unexpected_step(),
        },
        Stage::PushProbingMaster { dir, tag } => match event {
            Event::Probed(_) => push_step(dir, tag, text("master")),
            _ => unexpected_step(),
        },
        Stage::PushPushing { dir, tag } => match event {
            Event::Done(Ok(())) => after_push_step(dir, tag),
            Event::Done(Err(m)) => (
                Stage::PushNotedFallback { dir, tag },
                Step::Notify(Notice::PushFallback { error: m }),
            ),
            _ => unexpected_step(),
        },
        Stage::PushNotedFallback { dir, tag } => match event {
            Event::Ack => {
                let args = vec![text("push")];
                assert(args.deep_view() =~= seq!["push"@]);
                (Stage::PushFallingBack { dir: dir.clone(), tag }, git(args, dir))
            },
            _ => unexpected_step(),
        },
        Stage::PushFallingBack { dir, tag } => match event {
            Event::Done(Ok(())) => after_push_step(dir, tag),
            Event::Done(Err(m)) => fail(ActionError::Command(m)),
            _ => unexpected_step(),
        },
        Stage::TagCreating { dir, tag } => match event {
            Event::Done(Ok(())) => {
                let args = vec![text("push"), text("--tags")];
                assert(args.deep_view() =~= seq!["push"@, "--tags"@]);
                (Stage::TagPushing { dir: dir.clone(), tag }, git(args, dir))
            },
            Event::Done(Err(m)) => fail(ActionError::Command(m)),
            _ => unexpected_step(),
        },
        Stage::TagPushing { dir, tag } => match event {
            Event::Done(Ok(())) => (Stage::Finished, Step::Finish(Ok(()))),
            Event::Done(Err(m)) => {
                let hint = text("git push --tags");
                fail(ActionError::TagNotPushed { tag, hint, cause: m })
            },
            _ => unexpected_step(),
        },
        Stage::SrcinfoResolving => match event {
            Event::Target(Ok(dir)) => (Stage::SrcinfoRegenerating, Step::RegenerateSrcinfo { dir }),
            Event::Target(Err(m)) => fail(ActionError::Target(m)),
            _ => unexpected_step(),
        },
        Stage::SrcinfoRegenerating => match event {
            Event::Srcinfo(Ok(_)) => (Stage::Finished, Step::Finish(Ok(()))),
            Event::Srcinfo(Err(m)) => fail(ActionError::Srcinfo(m)),
            _ => unexpected_step(),
        },
        Stage::MakepkgResolving { args } => match event {
            Event::Target(Ok(dir)) => (Stage::MakepkgLocatingCache { dir, args }, Step::ReadCacheEnv),
            Event::Target(Err(m)) => fail(ActionError::Target(m)),
            _ => unexpected_step(),
        },
        Stage::MakepkgLocatingCache { dir, args } => match event {
            Event::CacheEnv { xdg_cache_home, home } => match choose_cache_root(
                xdg_cache_home,
                home,
            ) {
                Some(root) => {
                    let b = makepkg_build_dir_path(root.as_str(), dir.as_str());
                    (
                        Stage::MakepkgCreatingDir { dir, args, build_dir: b.clone() },
                        Step::CreateDir { path: b },
                    )
                },
                None => fail(ActionError::NoHome),
            },
            _ => unexpected_step(),
        },
        Stage::MakepkgCreatingDir { dir, args, build_dir } => match event {
            Event::Done(Ok(())) => (
                Stage::MakepkgRunning,
                Step::Run { program: text("makepkg"), args, dir, build_dir: Some(build_dir) },
            ),
            Event::Done(Err(m)) => fail(ActionError::BuildDir { path: build_dir, error: m }),
            _ => unexpected_step(),
        },
        Stage::MakepkgRunning => match event {
            Event::Done(Ok(())) => (Stage::Finished, Step::Finish(Ok(()))),
            Event::Done(Err(m)) => fail(ActionError::Command(m)),
            _ => unexpected_step(),
        },
        Stage::Finished => unexpected_step(),
    }
}

// ── Laws ──────────────────────────────────────────────────────────────────────

/// How far an action has come: every stage of an action has a larger rank
/// than the stages before it.
pub open spec fn rank(s: StageV) -> nat {
    match s {
        StageV::PushResolving { .. } => 0,
        StageV::PushRegenerating { .. } => 1,
        StageV::PushStaging { .. } => 2,
        StageV::PushCommitting { .. } => 3,
        StageV::PushNotedNothing { .. } => 4,
        StageV::PushReadingHead { .. } => 5,
        StageV::PushProbingMain { .. } => 6,
        StageV::PushProbingMaster { .. } => 7,
        StageV::PushPushing { .. } => 8,
        StageV::PushNotedFallback { .. } => 9,
        StageV::PushFallingBack { .. } => 10,
        StageV::TagCreating { .. } => 11,
        StageV::TagPushing { .. } => 12,
        StageV::SrcinfoResolving => 0,
        StageV::SrcinfoRegenerating => 1,
        StageV::MakepkgResolving { .. } => 0,
        StageV::MakepkgLocatingCache { .. } => 1,
        StageV::MakepkgCreatingDir { .. } => 2,
        StageV::MakepkgRunning => 3,
        StageV::Finished => 13,
    }
}

/// Every step either ends the action (and only then is the action finished)
/// or moves it strictly forward; no action ever repeats a stage, so each ends
/// after at most 13 steps, whatever the tools report.
pub proof fn lemma_step_moves_forward(s: StageV, e: EventV)
    requires
        !(s is Finished),
    ensures
        transition(s, e).1 is Finish <==> transition(s, e).0 is Finished,
        rank(transition(s, e).0) > rank(s),
{
}

/// A tag is created only once the commit has reached the remote: the tag
/// stage is entered only from a push (to the default branch or the plain
/// fallback) that succeeded.
pub proof fn lemma_tag_follows_successful_push(s: StageV, e: EventV)
    requires
        transition(s, e).0 is TagCreating,
    ensures
        s is PushPushing || s is PushFallingBack,
        e matches EventV::Done(Ok(_)),
{
}

/// A push to the default branch that fails is always retried once as a plain
/// `git push`, after telling the user why.
pub proof fn lemma_push_failure_falls_back(dir: Text, tag: Option<(Text, Text)>, error: Text)
    ensures
        transition(StageV::PushPushing { dir, tag }, EventV::Done(Err(error))) == (
            StageV::PushNotedFallback { dir, tag },
            StepV::Notify(NoticeV::PushFallback { error }),
        ),
        transition(StageV::PushNotedFallback { dir, tag }, EventV::Ack) == (
            StageV::PushFallingBack { dir, tag },
            git_run(seq!["push"@], dir),
        ),
{
}

/// An empty commit does not stop the publication: after `git commit` reports
/// nothing to commit, the action still goes on to push.
pub proof fn lemma_empty_commit_still_pushes(dir: Text, tag: Option<(Text, Text)>, c: CapturedV)
    requires
        !c.success,
        nothing_to_commit(c.stdout + c.stderr),
    ensures
        transition(StageV::PushCommitting { dir, tag }, EventV::Output(Ok(c))).1
            == StepV::Notify(NoticeV::NothingToCommit),
        transition(
            transition(StageV::PushCommitting { dir, tag }, EventV::Output(Ok(c))).0,
            EventV::Ack,
        ) == read_head(dir, tag),
{
}

/// Without a remote HEAD, the push goes to the branch the clone tracks: git
/// is asked for `refs/remotes/origin/main`; when it exists the commit is
/// pushed to `main`, otherwise `refs/remotes/origin/master` is asked for and
/// the commit is pushed to `master` (also when that is missing). A successful
/// probe always pushes the very branch whose remote ref was probed.
pub proof fn lemma_push_goes_to_tracked_branch(dir: Text, tag: Option<(Text, Text)>, c: CapturedV)
    requires
        !c.success,
    ensures
        transition(StageV::PushReadingHead { dir, tag }, EventV::Output(Ok(c))) == (
            StageV::PushProbingMain { dir, tag },
            StepV::Probe {
                program: "git"@,
                args: seq!["rev-parse"@, "--verify"@, "refs/remotes/origin/main"@],
                dir,
            },
        ),
        transition(StageV::PushProbingMain { dir, tag }, EventV::Probed(true)) == (
            StageV::PushPushing { dir, tag },
            StepV::Run { program: "git"@, args: seq!["push"@, "origin"@, "main"@], dir, build_dir: None },
        ),
        transition(StageV::PushProbingMain { dir, tag }, EventV::Probed(false)) == (
            StageV::PushProbingMaster { dir, tag },
            StepV::Probe {
                program: "git"@,
                args: seq!["rev-parse"@, "--verify"@, "refs/remotes/origin/master"@],
                dir,
            },
        ),
        forall|found: bool|
            #[trigger] transition(StageV::PushProbingMaster { dir, tag }, EventV::Probed(found)) == (
                StageV::PushPushing { dir, tag },
                StepV::Run {
                    program: "git"@,
                    args: seq!["push"@, "origin"@, "master"@],
                    dir,
                    build_dir: None,
                },
            ),
        ({
            let probed = transition(StageV::PushReadingHead { dir, tag }, EventV::Output(Ok(c))).1;
            let pushed = transition(StageV::PushProbingMain { dir, tag }, EventV::Probed(true)).1;
            probed matches StepV::Probe { args: pa, .. } && pushed matches StepV::Run { args: ra, .. }
                && pa.len() == 3 && ra.len() == 3 && pa[2] == "refs/remotes/origin/"@ + ra[2]
        }),
{
    reveal_strlit("refs/remotes/origin/");
    reveal_strlit("refs/remotes/origin/main");
    reveal_strlit("refs/remotes/origin/master");
    reveal_strlit("main");
    reveal_strlit("master");
    assert("refs/remotes/origin/"@ + "main"@ =~= "refs/remotes/origin/main"@);
    assert("refs/remotes/origin/"@ + "master"@ =~= "refs/remotes/origin/master"@);
}

/// The git commands of a publication: the regenerated `.SRCINFO` is followed
/// by staging the whole work tree (`git add -A`), the commit carries the
/// given message or else the generated `upgpkg:` one, a branch read from the
/// remote HEAD is the branch pushed, and once the commit is on the remote
/// the tag is created as an annotated tag with the `upgpkg:` message and
/// pushed with `git push --tags`.
pub proof fn lemma_publication_commands(
    dir: Text,
    message: Option<Text>,
    tag: Option<Text>,
    srcinfo: Text,
    head: CapturedV,
    t: Text,
    m: Text,
)
    ensures
        transition(StageV::PushRegenerating { dir, message, tag }, EventV::Srcinfo(Ok(srcinfo))).1
            == (StepV::Run { program: "git"@, args: seq!["add"@, "-A"@], dir, build_dir: None }),
        transition(StageV::PushStaging { dir, message, tag, srcinfo }, EventV::Done(Ok(()))).1
            == (StepV::Capture {
            program: "git"@,
            args: seq!["commit"@, "-m"@, if message is Some { message->0 } else { auto_commit_message(srcinfo) }],
            dir,
        }),
        transition(StageV::PushStaging { dir, message, tag, srcinfo }, EventV::Done(Ok(()))).0
            == (StageV::PushCommitting {
            dir,
            tag: if tag is Some { Some((tag->0, auto_commit_message(srcinfo))) } else { None },
        }),
        head.success && head_branch(head.stdout) is Some ==> transition(
            StageV::PushReadingHead { dir, tag: None },
            EventV::Output(Ok(head)),
        ).1 == (StepV::Run {
            program: "git"@,
            args: seq!["push"@, "origin"@, head_branch(head.stdout)->0],
            dir,
            build_dir: None,
        }),
        transition(StageV::PushPushing { dir, tag: Some((t, m)) }, EventV::Done(Ok(()))) == (
            StageV::TagCreating { dir, tag: t },
            StepV::Run { program: "git"@, args: seq!["tag"@, "-a"@, t, "-m"@, m], dir, build_dir: None },
        ),
        transition(StageV::PushPushing { dir, tag: None }, EventV::Done(Ok(()))) == (
            StageV::Finished,
            StepV::Finish(Ok(())),
        ),
        transition(StageV::TagCreating { dir, tag: t }, EventV::Done(Ok(()))) == (
            StageV::TagPushing { dir, tag: t },
            StepV::Run { program: "git"@, args: seq!["push"@, "--tags"@], dir, build_dir: None },
        ),
{
}

} // verus!
