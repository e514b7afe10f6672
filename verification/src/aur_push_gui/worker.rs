//! The background workers of the push and release windows. A worker runs a
//! plan: a list of tasks, each reported to the window as a step that starts
//! and then succeeds or fails. The library builds the plans and decides, after
//! each task, what the window is told and what runs next; the program around
//! it runs the commands.

use vstd::prelude::*;
use crate::aur_push_gui::repo::{owner_repo, parse_owner_repo, Platform};
use crate::format::digit_char;
use crate::text::{
    chars_of, chars_eq, find_char, lemma_index_of_found, index_of, slice_chars,
    string_of, strip_all_prefix, strip_all_prefix_chars, strip_prefix, strip_prefix_chars,
};

verus! {

broadcast use vstd::string::group_string_axioms;

// ── Messages to the window ────────────────────────────────────────────────────

/// The state a step reports.
#[derive(Clone, Copy, Debug, PartialEq, Eq, Structural)]
pub enum StepState {
    Start,
    Succeeded,
    Error,
}

/// What a worker tells its window.
pub enum WorkerMsg {
    /// Step `key` changed state; `detail` explains an error.
    Step { key: String, state: StepState, detail: String },
    /// A line of tool output for the error area.
    Log(String),
    /// The worker ended, successfully or not.
    Done(bool),
}

pub ghost enum WorkerMsgV {
    Step { key: Seq<char>, state: StepState, detail: Seq<char> },
    Log(Seq<char>),
    Done(bool),
}

impl View for WorkerMsg {
    type V = WorkerMsgV;

    open spec fn view(&self) -> WorkerMsgV {
        match self {
            WorkerMsg::Step { key, state, detail } => WorkerMsgV::Step {
                key: key@,
                state: *state,
                detail: detail@,
            },
            WorkerMsg::Log(l) => WorkerMsgV::Log(l@),
            WorkerMsg::Done(ok) => WorkerMsgV::Done(*ok),
        }
    }
}

pub open spec fn msgs_view(m: Seq<WorkerMsg>) -> Seq<WorkerMsgV> {
    m.map_values(|x: WorkerMsg| x@)
}

pub open spec fn step_msg(key: Seq<char>, state: StepState, detail: Seq<char>) -> WorkerMsgV {
    WorkerMsgV::Step { key, state, detail }
}

// ── Plans ─────────────────────────────────────────────────────────────────────

/// A command: program and arguments.
pub struct Invocation {
    pub program: String,
    pub args: Vec<String>,
}

/// One task of a plan.
pub struct Task {
    /// The key of the step it is reported as.
    pub key: String,
    /// The command to run; none for a task that succeeds by itself.
    pub run: Option<Invocation>,
    /// Whether a failure of the command ends the worker.
    pub required: bool,
    /// The error detail reported when the command fails.
    pub failure: String,
    /// A line to log when the task starts.
    pub note: Option<String>,
}

pub ghost struct TaskV {
    pub key: Seq<char>,
    pub run: Option<(Seq<char>, Seq<Seq<char>>)>,
    pub required: bool,
    pub failure: Seq<char>,
    pub note: Option<Seq<char>>,
}

impl View for Task {
    type V = TaskV;

    open spec fn view(&self) -> TaskV {
        TaskV {
            key: self.key@,
            run: match self.run {
                Some(inv) => Some((inv.program@, inv.args.deep_view())),
                None => None,
            },
            required: self.required,
            failure: self.failure@,
            note: match self.note {
                Some(n) => Some(n@),
                None => None,
            },
        }
    }
}

pub open spec fn plan_view(p: Seq<Task>) -> Seq<TaskV> {
    p.map_values(|t: Task| t@)
}

pub open spec fn git_task_v(
    key: Seq<char>,
    args: Seq<Seq<char>>,
    required: bool,
    failure: Seq<char>,
) -> TaskV {
    TaskV { key, run: Some(("git"@, args)), required, failure, note: None }
}

fn git_task(key: &str, args: Vec<String>, required: bool, failure: String) -> (t: Task)
    ensures
        t@ == git_task_v(key@, args.deep_view(), required, failure@),
{
    Task {
        key: key.to_string(),
        run: Some(Invocation { program: "git".to_string(), args }),
        required,
        failure,
        note: None,
    }
}

fn text(s: &str) -> (r: String)
    ensures
        r@ == s@,
{
    s.to_string()
}

/// `Some` of a non-empty text, `None` of an empty one (an empty form field).
pub fn non_empty(s: String) -> (r: Option<String>)
    ensures
        s@.len() == 0 ==> r is None,
        s@.len() > 0 ==> r == Some(s),
{
    if s.as_str().is_empty() {
        None
    } else {
        Some(s)
    }
}

/// The commit message: the one given when it is not empty, else `Update`.
pub open spec fn commit_text(message: Option<Seq<char>>) -> Seq<char> {
    match message {
        Some(m) => if m.len() > 0 {
            m
        } else {
            "Update"@
        },
        None => "Update"@,
    }
}

/// A version as a tag name: prefixed with `v` unless it starts with one.
pub open spec fn tag_name_of(ver: Seq<char>) -> Seq<char> {
    if ver.len() > 0 && ver[0] == 'v' {
        ver
    } else {
        "v"@ + ver
    }
}

fn commit_message_text(message: &Option<String>) -> (r: String)
    ensures
        r@ == commit_text(match message {
            Some(m) => Some(m@),
            None => None,
        }),
{
    match message {
        Some(m) => if !m.as_str().is_empty() {
            m.clone()
        } else {
            text("Update")
        },
        None => text("Update"),
    }
}

/// The tag name for `ver`.
pub fn tag_name(ver: &str) -> (r: String)
    ensures
        r@ == tag_name_of(ver@),
{
    let v = chars_of(ver);
    if v.len() > 0 && v[0] == 'v' {
        ver.to_string()
    } else {
        let mut r = text("v");
        r.append(ver);
        r
    }
}

pub open spec fn opt_view(o: Option<String>) -> Option<Seq<char>> {
    match o {
        Some(s) => Some(s@),
        None => None,
    }
}

/// Status, stage everything, commit, push the branch; `commit_failure` is the
/// detail of a failed commit and `push_failure_end` ends that of a failed push.
pub open spec fn commit_push_tasks(
    message: Option<Seq<char>>,
    branch: Seq<char>,
    commit_failure: Seq<char>,
    push_failure_end: Seq<char>,
) -> Seq<TaskV> {
    seq![
        git_task_v("git-status"@, seq!["status"@, "--short"@], false, seq![]),
        git_task_v("git-add"@, seq!["add"@, "."@], true, "git add failed"@),
        git_task_v("git-commit"@, seq!["commit"@, "-m"@, commit_text(message)], true, commit_failure),
        git_task_v(
            "git-push"@,
            seq!["push"@, "origin"@, branch],
            true,
            "git push origin "@ + branch + push_failure_end,
        ),
    ]
}

fn commit_push_plan(
    message: &Option<String>,
    branch: &String,
    commit_failure: &str,
    push_failure_end: &str,
) -> (r: Vec<Task>)
    ensures
        plan_view(r@) == commit_push_tasks(opt_view(*message), branch@, commit_failure@, push_failure_end@),
{
    let status = vec![text("status"), text("--short")];
    let add = vec![text("add"), text(".")];
    let commit = vec![text("commit"), text("-m"), commit_message_text(message)];
    let push = vec![text("push"), text("origin"), branch.clone()];
    let mut push_failure = text("git push origin ");
    push_failure.append(branch.as_str());
    push_failure.append(push_failure_end);
    let r = vec![
        git_task("git-status", status, false, String::new()),
        git_task("git-add", add, true, text("git add failed")),
        git_task("git-commit", commit, true, commit_failure.to_string()),
        git_task("git-push", push, true, push_failure),
    ];
    assert(status.deep_view() =~= seq!["status"@, "--short"@]);
    assert(add.deep_view() =~= seq!["add"@, "."@]);
    assert(commit.deep_view() =~= seq!["commit"@, "-m"@, commit_text(opt_view(*message))]);
    assert(push.deep_view() =~= seq!["push"@, "origin"@, branch@]);
    assert(plan_view(r@) =~= commit_push_tasks(
        opt_view(*message),
        branch@,
        commit_failure@,
        push_failure_end@,
    ));
    r
}

/// The push window's git worker: commit and push `branch`, then, with a
/// version, an annotated tag `v<version>` ("Version <version>") and `push --tags`.
pub open spec fn git_push_tasks(
    message: Option<Seq<char>>,
    tag: Option<Seq<char>>,
    branch: Seq<char>,
) -> Seq<TaskV> {
    let base = commit_push_tasks(
        message,
        branch,
        "git commit failed (nothing to commit?)"@,
        " failed"@,
    );
    match tag {
        None => base,
        Some(ver) => base + seq![
            git_task_v(
                "git-tag"@,
                seq!["tag"@, "-a"@, tag_name_of(ver), "-m"@, "Version "@ + ver],
                true,
                "git tag failed"@,
            ),
            git_task_v("git-push-tags"@, seq!["push"@, "--tags"@], true, "git push --tags failed"@),
        ],
    }
}

/// The plan of the push window's worker for GitHub, GitLab, Codeberg and
/// other git remotes.
pub fn git_push_plan(message: &Option<String>, tag: &Option<String>, branch: &String) -> (r: Vec<
    Task,
>)
    ensures
        plan_view(r@) == git_push_tasks(opt_view(*message), opt_view(*tag), branch@),
{
    let mut r = commit_push_plan(message, branch, "git commit failed (nothing to commit?)", " failed");
    if let Some(ver) = tag {
        let name = tag_name(ver.as_str());
        let mut msg = text("Version ");
        msg.append(ver.as_str());
        let targs = vec![text("tag"), text("-a"), name, text("-m"), msg];
        assert(targs.deep_view() =~= seq!["tag"@, "-a"@, tag_name_of(ver@), "-m"@, "Version "@ + ver@]);
        let pargs = vec![text("push"), text("--tags")];
        assert(pargs.deep_view() =~= seq!["push"@, "--tags"@]);
        let ghost before = r@;
        r.push(git_task("git-tag", targs, true, text("git tag failed")));
        r.push(git_task("git-push-tags", pargs, true, text("git push --tags failed")));
        assert(plan_view(r@) =~= plan_view(before) + seq![
            git_task_v(
                "git-tag"@,
                seq!["tag"@, "-a"@, tag_name_of(ver@), "-m"@, "Version "@ + ver@],
                true,
                "git tag failed"@,
            ),
            git_task_v("git-push-tags"@, seq!["push"@, "--tags"@], true, "git push --tags failed"@),
        ]);
    }
    r
}

/// The release window's push worker: commit and push `branch`.
pub open spec fn release_push_tasks(message: Option<Seq<char>>, branch: Seq<char>) -> Seq<TaskV> {
    commit_push_tasks(message, branch, "nothing to commit?"@, " failed"@)
}

/// The plan of the release window's push worker.
pub fn release_push_plan(message: &Option<String>, branch: &String) -> (r: Vec<Task>)
    ensures
        plan_view(r@) == release_push_tasks(opt_view(*message), branch@),
{
    commit_push_plan(message, branch, "nothing to commit?", " failed")
}

/// The message of a new tag: the one given, else `Version <name>` with the
/// name's leading `v`s removed.
pub open spec fn tag_message(name: Seq<char>, msg: Seq<char>) -> Seq<char> {
    if msg.len() == 0 {
        "Version "@ + strip_all_prefix(name, "v"@)
    } else {
        msg
    }
}

/// The release window's tag worker: an annotated tag, pushed alone or with
/// all tags (`push_all`).
pub open spec fn tag_tasks(name: Seq<char>, msg: Seq<char>, push_all: bool) -> Seq<TaskV> {
    seq![
        git_task_v(
            "git-tag"@,
            seq!["tag"@, "-a"@, tag_name_of(name), "-m"@, tag_message(name, msg)],
            true,
            "git tag failed"@,
        ),
        git_task_v(
            "git-push-tag"@,
            if push_all {
                seq!["push"@, "--tags"@]
            } else {
                seq!["push"@, "origin"@, tag_name_of(name)]
            },
            true,
            "git push tag failed"@,
        ),
    ]
}

/// The plan of the release window's tag worker.
pub fn tag_plan(name: &str, msg: &str, push_all: bool) -> (r: Vec<Task>)
    ensures
        plan_view(r@) == tag_tasks(name@, msg@, push_all),
{
    let tname = tag_name(name);
    let message = if msg.is_empty() {
        let stripped = string_of(&strip_all_prefix_chars(&chars_of(name), &chars_of("v")));
        let mut m = text("Version ");
        m.append(stripped.as_str());
        m
    } else {
        msg.to_string()
    };
    let targs = vec![text("tag"), text("-a"), tname.clone(), text("-m"), message];
    assert(targs.deep_view() =~= seq!["tag"@, "-a"@, tag_name_of(name@), "-m"@, tag_message(name@, msg@)]);
    let pargs = if push_all {
        let p = vec![text("push"), text("--tags")];
        assert(p.deep_view() =~= seq!["push"@, "--tags"@]);
        p
    } else {
        let p = vec![text("push"), text("origin"), tname];
        assert(p.deep_view() =~= seq!["push"@, "origin"@, tag_name_of(name@)]);
        p
    };
    let r = vec![
        git_task("git-tag", targs, true, text("git tag failed")),
        git_task("git-push-tag", pargs, true, text("git push tag failed")),
    ];
    assert(plan_view(r@) =~= tag_tasks(name@, msg@, push_all));
    r
}

// ── Release worker ────────────────────────────────────────────────────────────

/// How serde_json writes a character inside a JSON string: `"` and `\`
/// behind a backslash, the short escapes `\b \t \n \f \r`, the other control
/// characters below U+0020 as `\u00XX` (lower-case hex), anything else as is.
pub open spec fn json_escape_char(c: char) -> Seq<char> {
    if c == '"' {
        seq!['\\', '"']
    } else if c == '\\' {
        seq!['\\', '\\']
    } else if c == '\u{8}' {
        seq!['\\', 'b']
    } else if c == '\t' {
        seq!['\\', 't']
    } else if c == '\n' {
        seq!['\\', 'n']
    } else if c == '\u{c}' {
        seq!['\\', 'f']
    } else if c == '\r' {
        seq!['\\', 'r']
    } else if (c as u32) < 0x20 {
        seq!['\\', 'u', '0', '0', digit_char((c as u32 / 16) as nat), digit_char((c as u32 % 16) as nat)]
    } else {
        seq![c]
    }
}

/// The characters of `s`, each escaped.
pub open spec fn json_escaped(s: Seq<char>) -> Seq<char>
    decreases s.len(),
{
    if s.len() == 0 {
        seq![]
    } else {
        json_escaped(s.drop_last()) + json_escape_char(s.last())
    }
}

/// The JSON string literal of `s`: its escaped characters between quotes.
pub open spec fn json_quoted(s: Seq<char>) -> Seq<char> {
    seq!['"'] + json_escaped(s) + seq!['"']
}

/// `serde_json::to_string` on a `&str`: the text as a quoted, escaped JSON
/// string. Trusted: the result is `json_quoted` of the argument, as serde_json's
/// escape table writes it. Serializing a
/// string into memory cannot fail, so the `Err` arm is never taken.
#[verifier::external_body]
fn json_string(s: &str) -> (r: String)
    ensures
        r@ == json_quoted(s@),
{
    match serde_json::to_string(s) {
        Ok(j) => j,
        Err(_) => String::new(),
    }
}

/// The release title: the one given, else the tag name.
pub open spec fn release_title(tag_name: Seq<char>, title: Seq<char>) -> Seq<char> {
    if title.len() == 0 {
        tag_name
    } else {
        title
    }
}

/// The JSON body of a Codeberg release, with its keys in serde_json's
/// (sorted) order: the release is published at once, not as a prerelease.
pub open spec fn codeberg_body(
    tag_name: Seq<char>,
    title: Seq<char>,
    notes: Seq<char>,
    branch: Seq<char>,
) -> Seq<char> {
    "{\"body\":"@ + json_quoted(notes) + ",\"draft\":false,\"name\":"@ + json_quoted(title)
        + ",\"prerelease\":false,\"tag_name\":"@ + json_quoted(tag_name)
        + ",\"target_commitish\":"@ + json_quoted(branch) + "}"@
}

/// The Codeberg API endpoint for the releases of `owner/repo`.
pub open spec fn codeberg_release_url(owner: Seq<char>, repo: Seq<char>) -> Seq<char> {
    "https://codeberg.org/api/v1/repos/"@ + owner + "/"@ + repo + "/releases"@
}

/// `--assets-links <file>` for each attachment.
pub open spec fn assets_links(files: Seq<Seq<char>>) -> Seq<Seq<char>>
    decreases files.len(),
{
    if files.len() == 0 {
        seq![]
    } else {
        assets_links(files.drop_last()) + seq!["--assets-links"@, files.last()]
    }
}

pub open spec fn gh_args(
    tag_name: Seq<char>,
    title: Seq<char>,
    notes: Seq<char>,
    branch: Seq<char>,
    files: Seq<Seq<char>>,
) -> Seq<Seq<char>> {
    seq![
        "release"@,
        "create"@,
        tag_name,
        "--title"@,
        title,
        "--notes"@,
        notes,
        "--target"@,
        branch,
    ] + files
}

pub open spec fn glab_args(
    tag_name: Seq<char>,
    title: Seq<char>,
    notes: Seq<char>,
    branch: Seq<char>,
    files: Seq<Seq<char>>,
) -> Seq<Seq<char>> {
    seq!["release"@, "create"@, tag_name, "--name"@, title, "--notes"@, notes, "--ref"@, branch]
        + assets_links(files)
}

pub open spec fn curl_args(body: Seq<char>, url: Seq<char>) -> Seq<Seq<char>> {
    seq![
        "-s"@,
        "-o"@,
        "/dev/null"@,
        "-w"@,
        "%{http_code}"@,
        "-X"@,
        "POST"@,
        "-H"@,
        "Content-Type: application/json"@,
        "-H"@,
        "Authorization: token $CODEBERG_TOKEN"@,
        "-d"@,
        body,
        url,
    ]
}

pub open spec fn codeberg_assets_note() -> Seq<char> {
    "Note: asset upload for Codeberg requires CODEBERG_TOKEN env var and release ID.\nAssets must be uploaded manually via the web UI or a dedicated upload step."@
}

/// The release task of each platform: `gh release create`, `glab release
/// create`, a `curl` POST to the Codeberg API, or nothing for a plain git remote.
pub open spec fn create_release_task(
    platform: Platform,
    tag_name: Seq<char>,
    title: Seq<char>,
    notes: Seq<char>,
    branch: Seq<char>,
    files: Seq<Seq<char>>,
    remote: Seq<char>,
) -> TaskV {
    let run = match platform {
        Platform::GitHub => Some(("gh"@, gh_args(tag_name, title, notes, branch, files))),
        Platform::GitLab => Some(("glab"@, glab_args(tag_name, title, notes, branch, files))),
        Platform::Codeberg => Some(
            (
                "curl"@,
                curl_args(
                    codeberg_body(tag_name, title, notes, branch),
                    codeberg_release_url(owner_repo(remote).0, owner_repo(remote).1),
                ),
            ),
        ),
        Platform::Generic => None,
    };
    TaskV { key: "create-release"@, run, required: true, failure: "Release creation failed"@, note: None }
}

/// The release worker: with no tag, nothing runs (a log line says why); on
/// Codeberg, a remote without owner and repo stops it after the release step
/// started. Otherwise the release task, then, with attachments, an
/// `upload-assets` step (on Codeberg a note that assets are uploaded by hand).
pub open spec fn release_run(
    platform: Platform,
    tag: Seq<char>,
    title: Seq<char>,
    notes: Seq<char>,
    branch: Seq<char>,
    files: Seq<Seq<char>>,
    remote: Seq<char>,
) -> Result<Seq<TaskV>, Seq<WorkerMsgV>> {
    let name = tag_name_of(tag);
    if tag.len() == 0 {
        Err(seq![WorkerMsgV::Log("Tag is required to publish a release."@), WorkerMsgV::Done(false)])
    } else if platform is Codeberg && (owner_repo(remote).0.len() == 0 || owner_repo(remote).1.len()
        == 0) {
        Err(
            seq![
                step_msg("create-release"@, StepState::Start, seq![]),
                WorkerMsgV::Log("Could not parse owner/repo from remote URL."@),
                WorkerMsgV::Done(false),
            ],
        )
    } else {
        let create = create_release_task(
            platform,
            name,
            release_title(name, title),
            notes,
            branch,
            files,
            remote,
        );
        let upload = TaskV {
            key: "upload-assets"@,
            run: None,
            required: true,
            failure: seq![],
            note: if platform is Codeberg {
                Some(codeberg_assets_note())
            } else {
                None
            },
        };
        if files.len() > 0 {
            Ok(seq![create, upload])
        } else {
            Ok(seq![create])
        }
    }
}

pub open spec fn release_plan_view(r: Result<Vec<Task>, Vec<WorkerMsg>>) -> Result<
    Seq<TaskV>,
    Seq<WorkerMsgV>,
> {
    match r {
        Ok(p) => Ok(plan_view(p@)),
        Err(m) => Err(msgs_view(m@)),
    }
}

fn assets_link_args(files: &Vec<String>) -> (r: Vec<String>)
    ensures
        r.deep_view() == assets_links(files.deep_view()),
{
    let mut r: Vec<String> = Vec::new();
    let mut i: usize = 0;
    assert(files.deep_view().take(0) =~= Seq::<Seq<char>>::empty());
    while i < files.len()
        invariant
            i <= files.len(),
            r.deep_view() == assets_links(files.deep_view().take(i as int)),
        decreases files.len() - i,
    {
        let ghost before = r.deep_view();
        r.push(text("--assets-links"));
        r.push(files[i].clone());
        assert(files.deep_view().take(i + 1).drop_last() =~= files.deep_view().take(i as int));
        assert(r.deep_view() =~= before + seq!["--assets-links"@, files.deep_view()[i as int]]);
        i += 1;
    }
    assert(files.deep_view().take(files.len() as int) =~= files.deep_view());
    r
}

fn append_all(r: &mut Vec<String>, files: &Vec<String>)
    ensures
        final(r).deep_view() == old(r).deep_view() + files.deep_view(),
{
    let mut i: usize = 0;
    while i < files.len()
        invariant
            i <= files.len(),
            r.deep_view() == old(r).deep_view() + files.deep_view().take(i as int),
        decreases files.len() - i,
    {
        let ghost before = r.deep_view();
        r.push(files[i].clone());
        assert(r.deep_view() =~= before.push(files.deep_view()[i as int]));
        assert(r.deep_view() =~= old(r).deep_view() + files.deep_view().take(i + 1));
        i += 1;
    }
    assert(files.deep_view().take(files.len() as int) =~= files.deep_view());
}

fn codeberg_body_text(tag_name: &str, title: &str, notes: &str, branch: &str) -> (r: String)
    ensures
        r@ == codeberg_body(tag_name@, title@, notes@, branch@),
{
    let mut b = text("{\"body\":");
    b.append(json_string(notes).as_str());
    b.append(",\"draft\":false,\"name\":");
    b.append(json_string(title).as_str());
    b.append(",\"prerelease\":false,\"tag_name\":");
    b.append(json_string(tag_name).as_str());
    b.append(",\"target_commitish\":");
    b.append(json_string(branch).as_str());
    b.append("}");
    b
}

/// The plan of the release worker, or the messages that end it at once.
/// `remote` is the `origin` URL (only Codeberg needs it).
pub fn release_plan(
    platform: Platform,
    tag: &str,
    title: &str,
    notes: &str,
    branch: &str,
    attachments: &Vec<String>,
    remote: &str,
) -> (r: Result<Vec<Task>, Vec<WorkerMsg>>)
    ensures
        release_plan_view(r) == release_run(
            platform,
            tag@,
            title@,
            notes@,
            branch@,
            attachments.deep_view(),
            remote@,
        ),
{
    if tag.is_empty() {
        proof {
            assert(tag@.len() == 0);
        }
        let m = vec![WorkerMsg::Log(text("Tag is required to publish a release.")), WorkerMsg::Done(false)];
        assert(msgs_view(m@) =~= seq![
            WorkerMsgV::Log("Tag is required to publish a release."@),
            WorkerMsgV::Done(false),
        ]);
        return Err(m);
    }
    let (owner, repo) = parse_owner_repo(remote);
    if matches!(platform, Platform::Codeberg) && (owner.as_str().is_empty() || repo.as_str().is_empty()) {
        let m = vec![
            WorkerMsg::Step { key: text("create-release"), state: StepState::Start, detail: String::new() },
            WorkerMsg::Log(text("Could not parse owner/repo from remote URL.")),
            WorkerMsg::Done(false),
        ];
        assert(msgs_view(m@) =~= seq![
            step_msg("create-release"@, StepState::Start, seq![]),
            WorkerMsgV::Log("Could not parse owner/repo from remote URL."@),
            WorkerMsgV::Done(false),
        ]);
        return Err(m);
    }
    let name = tag_name(tag);
    let rel_title = if title.is_empty() {
        name.clone()
    } else {
        title.to_string()
    };
    let run = match platform {
        Platform::GitHub => {
            let mut args = vec![
                text("release"),
                text("create"),
                name.clone(),
                text("--title"),
                rel_title.clone(),
                text("--notes"),
                notes.to_string(),
                text("--target"),
                branch.to_string(),
            ];
            assert(args.deep_view() =~= seq![
                "release"@,
                "create"@,
                name@,
                "--title"@,
                rel_title@,
                "--notes"@,
                notes@,
                "--target"@,
                branch@,
            ]);
            append_all(&mut args, attachments);
            Some(Invocation { program: text("gh"), args })
        },
        Platform::GitLab => {
            let mut args = vec![
                text("release"),
                text("create"),
                name.clone(),
                text("--name"),
                rel_title.clone(),
                text("--notes"),
                notes.to_string(),
                text("--ref"),
                branch.to_string(),
            ];
            assert(args.deep_view() =~= seq![
                "release"@,
                "create"@,
                name@,
                "--name"@,
                rel_title@,
                "--notes"@,
                notes@,
                "--ref"@,
                branch@,
            ]);
            let links = assets_link_args(attachments);
            append_all(&mut args, &links);
            Some(Invocation { program: text("glab"), args })
        },
        Platform::Codeberg => {
            let body = codeberg_body_text(name.as_str(), rel_title.as_str(), notes, branch);
            let mut url = text("https://codeberg.org/api/v1/repos/");
            url.append(owner.as_str());
            url.append("/");
            url.append(repo.as_str());
            url.append("/releases");
            let args = vec![
                text("-s"),
                text("-o"),
                text("/dev/null"),
                text("-w"),
                text("%{http_code}"),
                text("-X"),
                text("POST"),
                text("-H"),
                text("Content-Type: application/json"),
                text("-H"),
                text("Authorization: token $CODEBERG_TOKEN"),
                text("-d"),
                body,
                url,
            ];
            assert(args.deep_view() =~= curl_args(
                codeberg_body(name@, rel_title@, notes@, branch@),
                codeberg_release_url(owner@, repo@),
            ));
            Some(Invocation { program: text("curl"), args })
        },
        Platform::Generic => None,
    };
    let create = Task {
        key: text("create-release"),
        run,
        required: true,
        failure: text("Release creation failed"),
        note: None,
    };
    assert(create@ == create_release_task(
        platform,
        name@,
        release_title(name@, title@),
        notes@,
        branch@,
        attachments.deep_view(),
        remote@,
    ));
    let mut plan = vec![create];
    if attachments.len() > 0 {
        let note = if matches!(platform, Platform::Codeberg) {
            Some(
                text(
                    "Note: asset upload for Codeberg requires CODEBERG_TOKEN env var and release ID.\nAssets must be uploaded manually via the web UI or a dedicated upload step.",
                ),
            )
        } else {
            None
        };
        plan.push(Task { key: text("upload-assets"), run: None, required: true, failure: String::new(), note });
    }
    proof {
        assert(attachments.deep_view().len() == attachments.len());
    }
    assert(plan_view(plan@) =~= match release_run(
        platform,
        tag@,
        title@,
        notes@,
        branch@,
        attachments.deep_view(),
        remote@,
    ) {
        Ok(p) => p,
        Err(_) => seq![],
    });
    Ok(plan)
}

// ── Running a plan ────────────────────────────────────────────────────────────

/// What the window is told when a task starts: the step starts, and its note
/// (if any) is logged.
pub open spec fn start_msgs(t: TaskV) -> Seq<WorkerMsgV> {
    seq![step_msg(t.key, StepState::Start, seq![])] + match t.note {
        Some(n) => seq![WorkerMsgV::Log(n)],
        None => seq![],
    }
}

/// What the window is told before the first task: its start, or, for an empty
/// plan, that the worker succeeded.
pub open spec fn opening(plan: Seq<TaskV>) -> Seq<WorkerMsgV> {
    if plan.len() == 0 {
        seq![WorkerMsgV::Done(true)]
    } else {
        start_msgs(plan[0])
    }
}

/// After task `i` ran (`ok`: its command succeeded, or it had none): the
/// messages, and the next task. A task that succeeded, or need not, is
/// reported ok and the next starts (or the worker succeeds after the last);
/// a required task that failed is reported with its failure and the worker fails.
pub open spec fn after_task(plan: Seq<TaskV>, i: int, ok: bool) -> (Seq<WorkerMsgV>, Option<int>) {
    if ok || !plan[i].required {
        if i + 1 < plan.len() {
            (
                seq![step_msg(plan[i].key, StepState::Succeeded, seq![])] + start_msgs(plan[i + 1]),
                Some(i + 1),
            )
        } else {
            (seq![step_msg(plan[i].key, StepState::Succeeded, seq![]), WorkerMsgV::Done(true)], None)
        }
    } else {
        (seq![step_msg(plan[i].key, StepState::Error, plan[i].failure), WorkerMsgV::Done(false)], None)
    }
}

fn start_messages(t: &Task) -> (r: Vec<WorkerMsg>)
    ensures
        msgs_view(r@) == start_msgs(t@),
{
    let mut r = vec![WorkerMsg::Step { key: t.key.clone(), state: StepState::Start, detail: String::new() }];
    if let Some(n) = &t.note {
        r.push(WorkerMsg::Log(n.clone()));
    }
    assert(msgs_view(r@) =~= start_msgs(t@));
    r
}

/// The messages before the first task.
pub fn begin(plan: &Vec<Task>) -> (r: Vec<WorkerMsg>)
    ensures
        msgs_view(r@) == opening(plan_view(plan@)),
{
    if plan.len() == 0 {
        let r = vec![WorkerMsg::Done(true)];
        assert(msgs_view(r@) =~= seq![WorkerMsgV::Done(true)]);
        r
    } else {
        start_messages(&plan[0])
    }
}

/// The messages after task `i` ran, and the index of the next task.
pub fn finish_task(plan: &Vec<Task>, i: usize, ok: bool) -> (r: (Vec<WorkerMsg>, Option<usize>))
    requires
        i < plan.len(),
    ensures
        msgs_view(r.0@) == after_task(plan_view(plan@), i as int, ok).0,
        r.1 matches Some(j) ==> after_task(plan_view(plan@), i as int, ok).1 == Some(j as int),
        r.1 is None ==> after_task(plan_view(plan@), i as int, ok).1 is None,
{
    let t = &plan[i];
    if ok || !t.required {
        let done = WorkerMsg::Step { key: t.key.clone(), state: StepState::Succeeded, detail: String::new() };
        if i + 1 < plan.len() {
            let mut r = vec![done];
            let mut next = start_messages(&plan[i + 1]);
            r.append(&mut next);
            assert(msgs_view(r@) =~= after_task(plan_view(plan@), i as int, ok).0);
            (r, Some(i + 1))
        } else {
            let r = vec![done, WorkerMsg::Done(true)];
            assert(msgs_view(r@) =~= after_task(plan_view(plan@), i as int, ok).0);
            (r, None)
        }
    } else {
        let r = vec![
            WorkerMsg::Step { key: t.key.clone(), state: StepState::Error, detail: t.failure.clone() },
            WorkerMsg::Done(false),
        ];
        assert(msgs_view(r@) =~= after_task(plan_view(plan@), i as int, ok).0);
        (r, None)
    }
}

// ── Whole runs ────────────────────────────────────────────────────────────────

/// The messages of a run from task `i` on, when the command of task `j`
/// succeeds exactly when `results[j]`.
pub open spec fn trace_from(plan: Seq<TaskV>, results: Seq<bool>, i: int) -> Seq<WorkerMsgV>
    decreases plan.len() - i,
{
    if i < 0 || i >= plan.len() {
        seq![]
    } else if after_task(plan, i, results[i]).1 is Some {
        after_task(plan, i, results[i]).0 + trace_from(plan, results, i + 1)
    } else {
        after_task(plan, i, results[i]).0
    }
}

/// All the messages of a run of `plan`.
pub open spec fn run_msgs(plan: Seq<TaskV>, results: Seq<bool>) -> Seq<WorkerMsgV> {
    opening(plan) + trace_from(plan, results, 0)
}

/// Every required task from `i` on succeeded.
pub open spec fn all_required_ok(plan: Seq<TaskV>, results: Seq<bool>, i: int) -> bool {
    forall|j: int| i <= j < plan.len() ==> results[j] || !(#[trigger] plan[j]).required
}

proof fn lemma_trace_from(plan: Seq<TaskV>, results: Seq<bool>, i: int)
    requires
        0 <= i < plan.len(),
        results.len() == plan.len(),
    ensures
        trace_from(plan, results, i).len() > 0,
        trace_from(plan, results, i).last() == WorkerMsgV::Done(all_required_ok(plan, results, i)),
        forall|k: int|
            0 <= k < trace_from(plan, results, i).len() - 1 ==> !(#[trigger] trace_from(
                plan,
                results,
                i,
            )[k] is Done),
    decreases plan.len() - i,
{
    let t = trace_from(plan, results, i);
    let m = after_task(plan, i, results[i]).0;
    if after_task(plan, i, results[i]).1 is Some {
        lemma_trace_from(plan, results, i + 1);
        let rest = trace_from(plan, results, i + 1);
        assert(t == m + rest);
        assert(t.last() == rest.last());
        assert(all_required_ok(plan, results, i) == all_required_ok(plan, results, i + 1)) by {
            if all_required_ok(plan, results, i + 1) {
                assert forall|j: int| i <= j < plan.len() implies results[j] || !(
                #[trigger] plan[j]).required by {
                    if j > i {
                        assert(results[j] || !plan[j].required);
                    }
                }
            }
        }
        assert forall|k: int| 0 <= k < t.len() - 1 implies !(#[trigger] t[k] is Done) by {
            if k < m.len() {
                assert(t[k] == m[k]);
            } else {
                assert(t[k] == rest[k - m.len()]);
            }
        }
    } else {
        assert(t == m);
        if results[i] || !plan[i].required {
            assert(i + 1 == plan.len());
        } else {
            assert(!all_required_ok(plan, results, i));
        }
    }
}

/// A worker reports success exactly when every required task succeeded, and
/// it reports its end once, as its last message.
pub proof fn lemma_run_ends_once(plan: Seq<TaskV>, results: Seq<bool>)
    requires
        results.len() == plan.len(),
    ensures
        run_msgs(plan, results).len() > 0,
        run_msgs(plan, results).last() == WorkerMsgV::Done(all_required_ok(plan, results, 0)),
        forall|k: int|
            0 <= k < run_msgs(plan, results).len() - 1 ==> !(#[trigger] run_msgs(plan, results)[k] is Done),
{
    let r = run_msgs(plan, results);
    if plan.len() == 0 {
        assert(r =~= seq![WorkerMsgV::Done(true)]);
    } else {
        lemma_trace_from(plan, results, 0);
        let o = opening(plan);
        let t = trace_from(plan, results, 0);
        assert(r == o + t);
        assert(r.last() == t.last());
        assert forall|k: int| 0 <= k < r.len() - 1 implies !(#[trigger] r[k] is Done) by {
            if k < o.len() {
                assert(r[k] == o[k]);
                assert(o == start_msgs(plan[0]));
            } else {
                assert(r[k] == t[k - o.len()]);
            }
        }
    }
}

proof fn lemma_trace_stops(plan: Seq<TaskV>, results: Seq<bool>, i: int, k: int)
    requires
        results.len() == plan.len(),
        0 <= k <= i < plan.len(),
        plan[i].required,
        !results[i],
    ensures
        trace_from(plan, results, k) == trace_from(plan.take(i + 1), results.take(i + 1), k),
    decreases i - k,
{
    let p2 = plan.take(i + 1);
    let r2 = results.take(i + 1);
    assert(p2[k] == plan[k]);
    assert(r2[k] == results[k]);
    if k < i {
        assert(p2[k + 1] == plan[k + 1]);
        assert(after_task(plan, k, results[k]) == after_task(p2, k, r2[k]));
        lemma_trace_stops(plan, results, i, k + 1);
    } else {
        assert(after_task(plan, k, results[k]) == after_task(p2, k, r2[k]));
    }
}

/// Once a required task fails, no later task runs: the run is that of the
/// plan cut after the failed task.
pub proof fn lemma_failure_stops_run(plan: Seq<TaskV>, results: Seq<bool>, i: int)
    requires
        results.len() == plan.len(),
        0 <= i < plan.len(),
        plan[i].required,
        !results[i],
    ensures
        run_msgs(plan, results) == run_msgs(plan.take(i + 1), results.take(i + 1)),
{
    lemma_trace_stops(plan, results, i, 0);
    assert(plan.take(i + 1)[0] == plan[0]);
}

// ── AUR worker ────────────────────────────────────────────────────────────────

/// The arguments of the `pkgbuild_manager` call of the AUR worker:
/// `aur-push-tag <target> <tag>` with a tag, else `aur-push <target>`,
/// followed by the message when there is one; none for an empty target.
pub open spec fn aur_worker_call(
    target: Seq<char>,
    message: Option<Seq<char>>,
    tag: Option<Seq<char>>,
) -> Option<Seq<Seq<char>>> {
    if target.len() == 0 {
        None
    } else {
        match tag {
            Some(t) => Some(seq!["aur-push-tag"@, target, t]),
            None => match message {
                Some(m) => Some(seq!["aur-push"@, target, m]),
                None => Some(seq!["aur-push"@, target]),
            },
        }
    }
}

/// The arguments of the AUR worker's call of the command-line tool.
pub fn aur_worker_args(target: &str, message: &Option<String>, tag: &Option<String>) -> (r: Option<
    Vec<String>,
>)
    ensures
        match r {
            Some(v) => aur_worker_call(target@, opt_view(*message), opt_view(*tag)) == Some(
                v.deep_view(),
            ),
            None => aur_worker_call(target@, opt_view(*message), opt_view(*tag)) is None,
        },
{
    if target.is_empty() {
        return None;
    }
    let r = match tag {
        Some(t) => vec![text("aur-push-tag"), target.to_string(), t.clone()],
        None => match message {
            Some(m) => vec![text("aur-push"), target.to_string(), m.clone()],
            None => vec![text("aur-push"), target.to_string()],
        },
    };
    assert(Some(r.deep_view()) =~= aur_worker_call(target@, opt_view(*message), opt_view(*tag)));
    Some(r)
}

/// A `[STEP] <key> start|ok|error: <detail>` line of the command-line tool,
/// as a step message; other lines are none.
pub open spec fn step_line(line: Seq<char>) -> Option<WorkerMsgV> {
    match strip_prefix(line, "[STEP] "@) {
        None => None,
        Some(rest) => match index_of(rest, ' ') {
            None => None,
            Some(i) => {
                let key = rest.take(i);
                let tail = rest.skip(i + 1);
                match strip_prefix(tail, "error: "@) {
                    Some(d) => Some(step_msg(key, StepState::Error, d)),
                    None => if tail == "ok"@ {
                        Some(step_msg(key, StepState::Succeeded, seq![]))
                    } else if tail == "start"@ {
                        Some(step_msg(key, StepState::Start, seq![]))
                    } else {
                        None
                    },
                }
            },
        },
    }
}

/// Reads a line the command-line tool printed while pushing to the AUR.
pub fn parse_step_line(line: &str) -> (r: Option<WorkerMsg>)
    ensures
        match r {
            Some(m) => step_line(line@) == Some(m@),
            None => step_line(line@) is None,
        },
{
    let l = chars_of(line);
    let rest = match strip_prefix_chars(&l, &chars_of("[STEP] ")) {
        Some(r) => r,
        None => return None,
    };
    proof {
        lemma_index_of_found(rest@, ' ');
    }
    let i = match find_char(&rest, ' ') {
        Some(i) => i,
        None => return None,
    };
    assert(i < rest.len());
    let key = string_of(&slice_chars(&rest, 0, i));
    let tail = slice_chars(&rest, i + 1, rest.len());
    match strip_prefix_chars(&tail, &chars_of("error: ")) {
        Some(d) => Some(WorkerMsg::Step { key, state: StepState::Error, detail: string_of(&d) }),
        None => if chars_eq(&tail, &chars_of("ok")) {
            Some(WorkerMsg::Step { key, state: StepState::Succeeded, detail: String::new() })
        } else if chars_eq(&tail, &chars_of("start")) {
            Some(WorkerMsg::Step { key, state: StepState::Start, detail: String::new() })
        } else {
            None
        },
    }
}

/// The push window's git worker stages the whole work tree, new files
/// included (`git add .`), before it commits, and a failed staging stops the
/// run; the commit is then pushed to `origin` on the chosen branch. The same
/// holds of the release window's push worker.
pub proof fn lemma_push_stages_every_file(message: Option<Seq<char>>, tag: Option<Seq<char>>, branch: Seq<char>)
    ensures
        ({
            let plans = seq![git_push_tasks(message, tag, branch), release_push_tasks(message, branch)];
            forall|k: int|
                0 <= k < 2 ==> {
                    let plan = #[trigger] plans[k];
                    &&& plan.len() >= 4
                    &&& plan[1].run == Some(("git"@, seq!["add"@, "."@]))
                    &&& plan[1].required
                    &&& plan[2].run matches Some((prog, args)) && prog == "git"@ && args.len() == 3
                        && args[0] == "commit"@
                    &&& plan[3].run == Some(("git"@, seq!["push"@, "origin"@, branch]))
                }
        }),
{
    let plans = seq![git_push_tasks(message, tag, branch), release_push_tasks(message, branch)];
    assert(plans[0] == git_push_tasks(message, tag, branch));
    assert(plans[1] == release_push_tasks(message, branch));
    let base = commit_push_tasks(message, branch, "git commit failed (nothing to commit?)"@, " failed"@);
    match tag {
        None => {},
        Some(ver) => {
            let extra = seq![
                git_task_v(
                    "git-tag"@,
                    seq!["tag"@, "-a"@, tag_name_of(ver), "-m"@, "Version "@ + ver],
                    true,
                    "git tag failed"@,
                ),
                git_task_v("git-push-tags"@, seq!["push"@, "--tags"@], true, "git push --tags failed"@),
            ];
            assert((base + extra)[1] == base[1]);
            assert((base + extra)[2] == base[2]);
            assert((base + extra)[3] == base[3]);
        },
    }
}

} // verus!
