//! The texts of the push and release windows that depend on the repository:
//! titles, badges, captions, button labels and the rows of their step lists.
//! They are message ids, translated where they are shown.

use vstd::prelude::*;
use crate::aur_push_gui::repo::{platform_label, AuthMethod, Platform, RepoMode};

verus! {

broadcast use vstd::string::group_string_axioms;

// ── Push window ───────────────────────────────────────────────────────────────

pub open spec fn push_title(mode: RepoMode) -> Seq<char> {
    match mode {
        RepoMode::Aur => "Push to AUR"@,
        RepoMode::Git => "Push to GitHub"@,
        RepoMode::GitLab => "Push to GitLab"@,
        RepoMode::Codeberg => "Push to Codeberg"@,
        RepoMode::Generic => "Push to Git Remote"@,
        RepoMode::Unknown => "Push — Unknown Repository"@,
    }
}

pub open spec fn mode_badge(mode: RepoMode) -> Seq<char> {
    match mode {
        RepoMode::Aur => "AUR"@,
        RepoMode::Git => "GitHub"@,
        RepoMode::GitLab => "GitLab"@,
        RepoMode::Codeberg => "Codeberg"@,
        RepoMode::Generic => "Git"@,
        RepoMode::Unknown => "?"@,
    }
}

pub open spec fn mode_badge_class(mode: RepoMode) -> Seq<char> {
    match mode {
        RepoMode::Aur => "mode-badge-aur"@,
        RepoMode::Git => "mode-badge-git"@,
        RepoMode::GitLab => "mode-badge-gitlab"@,
        RepoMode::Codeberg => "mode-badge-codeberg"@,
        _ => "mode-badge-generic"@,
    }
}

pub open spec fn progress_caption(mode: RepoMode) -> Seq<char> {
    match mode {
        RepoMode::Aur => "Step 2 of 2 — Sending changes to AUR"@,
        RepoMode::Git => "Step 2 of 2 — Sending changes to GitHub"@,
        RepoMode::GitLab => "Step 2 of 2 — Sending changes to GitLab"@,
        RepoMode::Codeberg => "Step 2 of 2 — Sending changes to Codeberg"@,
        RepoMode::Generic => "Step 2 of 2 — Sending changes to remote"@,
        RepoMode::Unknown => ""@,
    }
}

pub open spec fn push_run_label(mode: RepoMode, with_tag: bool) -> Seq<char> {
    match mode {
        RepoMode::Aur => if with_tag {
            "Push + Tag to AUR"@
        } else {
            "Push to AUR"@
        },
        RepoMode::Git => if with_tag {
            "Commit + Tag → GitHub"@
        } else {
            "Commit & Push → GitHub"@
        },
        RepoMode::GitLab => if with_tag {
            "Commit + Tag → GitLab"@
        } else {
            "Commit & Push → GitLab"@
        },
        RepoMode::Codeberg => if with_tag {
            "Commit + Tag → Codeberg"@
        } else {
            "Commit & Push → Codeberg"@
        },
        RepoMode::Generic => if with_tag {
            "Commit + Tag + Push"@
        } else {
            "Commit & Push"@
        },
        RepoMode::Unknown => "Push"@,
    }
}

pub open spec fn push_done_label(mode: RepoMode) -> Seq<char> {
    match mode {
        RepoMode::Aur => "Pushed to AUR!"@,
        RepoMode::Git => "Pushed to GitHub!"@,
        RepoMode::GitLab => "Pushed to GitLab!"@,
        RepoMode::Codeberg => "Pushed to Codeberg!"@,
        RepoMode::Generic => "Pushed to remote!"@,
        RepoMode::Unknown => ""@,
    }
}

/// The texts of the push window for a kind of repository.
pub struct PushTexts {
    pub title: &'static str,
    pub badge: &'static str,
    pub badge_class: &'static str,
    pub form_caption: &'static str,
    pub progress_caption: &'static str,
    pub run: &'static str,
    pub done: &'static str,
}

/// The push window's texts for `mode`, with or without a version tag.
pub fn push_texts(mode: RepoMode, with_tag: bool) -> (t: PushTexts)
    ensures
        t.title@ == push_title(mode),
        t.badge@ == mode_badge(mode),
        t.badge_class@ == mode_badge_class(mode),
        t.form_caption@ == (if mode is Unknown {
            ""@
        } else {
            "Step 1 of 2 — Review commit information"@
        }),
        t.progress_caption@ == progress_caption(mode),
        t.run@ == push_run_label(mode, with_tag),
        t.done@ == push_done_label(mode),
{
    let form = "Step 1 of 2 — Review commit information";
    match mode {
        RepoMode::Aur => PushTexts {
            title: "Push to AUR",
            badge: "AUR",
            badge_class: "mode-badge-aur",
            form_caption: form,
            progress_caption: "Step 2 of 2 — Sending changes to AUR",
            run: if with_tag {
                "Push + Tag to AUR"
            } else {
                "Push to AUR"
            },
            done: "Pushed to AUR!",
        },
        RepoMode::Git => PushTexts {
            title: "Push to GitHub",
            badge: "GitHub",
            badge_class: "mode-badge-git",
            form_caption: form,
            progress_caption: "Step 2 of 2 — Sending changes to GitHub",
            run: if with_tag {
                "Commit + Tag → GitHub"
            } else {
                "Commit & Push → GitHub"
            },
            done: "Pushed to GitHub!",
        },
        RepoMode::GitLab => PushTexts {
            title: "Push to GitLab",
            badge: "GitLab",
            badge_class: "mode-badge-gitlab",
            form_caption: form,
            progress_caption: "Step 2 of 2 — Sending changes to GitLab",
            run: if with_tag {
                "Commit + Tag → GitLab"
            } else {
                "Commit & Push → GitLab"
            },
            done: "Pushed to GitLab!",
        },
        RepoMode::Codeberg => PushTexts {
            title: "Push to Codeberg",
            badge: "Codeberg",
            badge_class: "mode-badge-codeberg",
            form_caption: form,
            progress_caption: "Step 2 of 2 — Sending changes to Codeberg",
            run: if with_tag {
                "Commit + Tag → Codeberg"
            } else {
                "Commit & Push → Codeberg"
            },
            done: "Pushed to Codeberg!",
        },
        RepoMode::Generic => PushTexts {
            title: "Push to Git Remote",
            badge: "Git",
            badge_class: "mode-badge-generic",
            form_caption: form,
            progress_caption: "Step 2 of 2 — Sending changes to remote",
            run: if with_tag {
                "Commit + Tag + Push"
            } else {
                "Commit & Push"
            },
            done: "Pushed to remote!",
        },
        RepoMode::Unknown => PushTexts {
            title: "Push — Unknown Repository",
            badge: "?",
            badge_class: "mode-badge-generic",
            form_caption: "",
            progress_caption: "",
            run: "Push",
            done: "",
        },
    }
}

/// The authentication texts of the push window: the banner's title and body
/// when a push would prompt for credentials, the banner when it would not,
/// and the tooltip of the disabled button.
pub struct AuthTexts {
    pub warning_title: &'static str,
    pub warning_body: &'static str,
    pub ready: &'static str,
    pub tooltip: &'static str,
}

pub open spec fn ssh_warning_body() -> Seq<char> {
    "No SSH key was found in ssh-agent for this remote.\nRun the command below before pushing:\n\nssh-add ~/.ssh/id_ed25519\n\nIf you use a different key, replace the path accordingly.\nYou can also start the agent with: eval $(ssh-agent -s)"@
}

pub open spec fn https_warning_body() -> Seq<char> {
    "No Git credential helper is configured for HTTPS authentication.\nTo store credentials, run one of the following commands:\n\ngit config --global credential.helper store\ngit config --global credential.helper cache\n\nOr use libsecret (GNOME Keyring):\ngit config --global credential.helper /usr/lib/git-core/git-credential-libsecret"@
}

/// The authentication texts for `method`.
pub fn auth_texts(method: AuthMethod) -> (t: AuthTexts)
    ensures
        method is Ssh ==> {
            &&& t.warning_title@ == "⚠ SSH key not loaded"@
            &&& t.warning_body@ == ssh_warning_body()
            &&& t.ready@ == "SSH key loaded — ready to push"@
            &&& t.tooltip@ == "Configure SSH authentication before pushing"@
        },
        method is Https ==> {
            &&& t.warning_title@ == "⚠ HTTPS credentials not configured"@
            &&& t.warning_body@ == https_warning_body()
            &&& t.ready@ == "HTTPS credentials configured — ready to push"@
            &&& t.tooltip@ == "Configure HTTPS credentials before pushing"@
        },
{
    match method {
        AuthMethod::Ssh => AuthTexts {
            warning_title: "⚠ SSH key not loaded",
            warning_body: "No SSH key was found in ssh-agent for this remote.\nRun the command below before pushing:\n\nssh-add ~/.ssh/id_ed25519\n\nIf you use a different key, replace the path accordingly.\nYou can also start the agent with: eval $(ssh-agent -s)",
            ready: "SSH key loaded — ready to push",
            tooltip: "Configure SSH authentication before pushing",
        },
        AuthMethod::Https => AuthTexts {
            warning_title: "⚠ HTTPS credentials not configured",
            warning_body: "No Git credential helper is configured for HTTPS authentication.\nTo store credentials, run one of the following commands:\n\ngit config --global credential.helper store\ngit config --global credential.helper cache\n\nOr use libsecret (GNOME Keyring):\ngit config --global credential.helper /usr/lib/git-core/git-credential-libsecret",
            ready: "HTTPS credentials configured — ready to push",
            tooltip: "Configure HTTPS credentials before pushing",
        },
    }
}

/// The run button's label after a run: the push window offers to push again,
/// the release window's panels to run again; after a failure both offer to try again.
pub fn run_again_label(push_window: bool, ok: bool) -> (r: &'static str)
    ensures
        r@ == (if !ok {
            "Try again"@
        } else if push_window {
            "Push again"@
        } else {
            "Run again"@
        }),
{
    if !ok {
        "Try again"
    } else if push_window {
        "Push again"
    } else {
        "Run again"
    }
}

// ── What the windows show and run ─────────────────────────────────────────────

/// The worker the push window's run button starts.
#[derive(Clone, Copy, Debug, PartialEq, Eq, Structural)]
pub enum PushWorker {
    /// The command-line tool's `aur-push` / `aur-push-tag`.
    Aur,
    /// The git worker (status, add, commit, push, tag).
    Git,
}

/// The parts of the push window for a kind of repository.
pub struct PushWindowPlan {
    /// The commit form and the progress page; without them only the
    /// "not a recognised repository" page shows.
    pub form: bool,
    /// The SSH / HTTPS badge and the authentication banner.
    pub auth: bool,
    /// The branch picker and the remote row (git remotes other than the AUR).
    pub branch_picker: bool,
    /// The worker a run starts.
    pub worker: Option<PushWorker>,
}

/// An unknown repository shows only its notice page; every other kind shows
/// the form, the authentication state and a worker; the AUR pushes through the
/// command-line tool, the other remotes through the git worker, which also
/// lets the branch be chosen.
pub fn push_window_plan(mode: RepoMode) -> (p: PushWindowPlan)
    ensures
        p.form == !(mode is Unknown),
        p.auth == !(mode is Unknown),
        p.branch_picker == (!(mode is Unknown) && !(mode is Aur)),
        p.worker == (match mode {
            RepoMode::Unknown => None,
            RepoMode::Aur => Some(PushWorker::Aur),
            _ => Some(PushWorker::Git),
        }),
{
    match mode {
        RepoMode::Unknown => PushWindowPlan { form: false, auth: false, branch_picker: false, worker: None },
        RepoMode::Aur => PushWindowPlan {
            form: true,
            auth: true,
            branch_picker: false,
            worker: Some(PushWorker::Aur),
        },
        _ => PushWindowPlan { form: true, auth: true, branch_picker: true, worker: Some(PushWorker::Git) },
    }
}

/// The tabs of the release window: push and tags always, the release tab
/// exactly when the platform has a release CLI or API.
pub fn release_window_tabs(platform: Platform) -> (r: (bool, bool, bool))
    ensures
        r == (true, true, !(platform is Generic)),
{
    (true, true, platform.supports_releases())
}

// ── Step lists ────────────────────────────────────────────────────────────────

/// A row of a step list: the step's key, its title, and whether it is shown.
pub struct StepRow {
    pub key: &'static str,
    pub title: &'static str,
    pub visible: bool,
}

pub open spec fn row_view(r: StepRow) -> (Seq<char>, Seq<char>, bool) {
    (r.key@, r.title@, r.visible)
}

pub open spec fn rows_view(rows: Seq<StepRow>) -> Seq<(Seq<char>, Seq<char>, bool)> {
    rows.map_values(|r: StepRow| row_view(r))
}

/// The step list of the push window. AUR pushes regenerate `.SRCINFO` and
/// stage only the package files; the tag rows are shown only with a tag.
pub open spec fn push_rows(mode: RepoMode, with_tag: bool) -> Seq<(Seq<char>, Seq<char>, bool)> {
    if mode is Aur {
        seq![
            ("regen-srcinfo"@, "Regenerating .SRCINFO"@, true),
            ("git-status"@, "Checking repository status"@, true),
            ("git-add"@, "Staging PKGBUILD and .SRCINFO"@, true),
            ("git-commit"@, "Creating commit"@, true),
            ("git-push"@, "Pushing to AUR"@, true),
            ("git-tag"@, "Creating version tag"@, with_tag),
            ("git-push-tags"@, "Pushing tags"@, with_tag),
        ]
    } else {
        seq![
            ("git-status"@, "Checking repository status"@, true),
            ("git-add"@, "Staging all changes"@, true),
            ("git-commit"@, "Creating commit"@, true),
            ("git-push"@, "Pushing to remote"@, true),
            ("git-tag"@, "Creating version tag"@, with_tag),
            ("git-push-tags"@, "Pushing tags to remote"@, with_tag),
        ]
    }
}

fn row(key: &'static str, title: &'static str, visible: bool) -> (r: StepRow)
    ensures
        row_view(r) == (key@, title@, visible),
{
    StepRow { key, title, visible }
}

/// The rows of the push window's step list.
pub fn push_step_rows(mode: RepoMode, with_tag: bool) -> (r: Vec<StepRow>)
    ensures
        rows_view(r@) == push_rows(mode, with_tag),
{
    let r = if matches!(mode, RepoMode::Aur) {
        vec![
            row("regen-srcinfo", "Regenerating .SRCINFO", true),
            row("git-status", "Checking repository status", true),
            row("git-add", "Staging PKGBUILD and .SRCINFO", true),
            row("git-commit", "Creating commit", true),
            row("git-push", "Pushing to AUR", true),
            row("git-tag", "Creating version tag", with_tag),
            row("git-push-tags", "Pushing tags", with_tag),
        ]
    } else {
        vec![
            row("git-status", "Checking repository status", true),
            row("git-add", "Staging all changes", true),
            row("git-commit", "Creating commit", true),
            row("git-push", "Pushing to remote", true),
            row("git-tag", "Creating version tag", with_tag),
            row("git-push-tags", "Pushing tags to remote", with_tag),
        ]
    };
    assert(rows_view(r@) =~= push_rows(mode, with_tag));
    r
}

// ── Release window ────────────────────────────────────────────────────────────

pub open spec fn release_window_title(p: Platform) -> Seq<char> {
    match p {
        Platform::GitHub => "Push · Tags · Releases — GitHub"@,
        Platform::GitLab => "Push · Tags · Releases — GitLab"@,
        Platform::Codeberg => "Push · Tags · Releases — Codeberg"@,
        Platform::Generic => "Push · Tags — Git Remote"@,
    }
}

pub open spec fn release_caption(p: Platform) -> Seq<char> {
    match p {
        Platform::GitHub => "Step 2 of 2 — Publishing release via GitHub CLI"@,
        Platform::GitLab => "Step 2 of 2 — Publishing release via GitLab CLI"@,
        Platform::Codeberg => "Step 2 of 2 — Publishing release via Codeberg API"@,
        Platform::Generic => ""@,
    }
}

pub open spec fn release_run_label(p: Platform) -> Seq<char> {
    match p {
        Platform::GitHub => "Publish Release → GitHub"@,
        Platform::GitLab => "Publish Release → GitLab"@,
        Platform::Codeberg => "Publish Release → Codeberg"@,
        Platform::Generic => "Publish Release"@,
    }
}

/// The texts of the release window for a platform.
pub struct ReleaseTexts {
    pub title: &'static str,
    pub release_caption: &'static str,
    pub release_run: &'static str,
}

/// The release window's texts for `platform`.
pub fn release_texts(platform: Platform) -> (t: ReleaseTexts)
    ensures
        t.title@ == release_window_title(platform),
        t.release_caption@ == release_caption(platform),
        t.release_run@ == release_run_label(platform),
{
    match platform {
        Platform::GitHub => ReleaseTexts {
            title: "Push · Tags · Releases — GitHub",
            release_caption: "Step 2 of 2 — Publishing release via GitHub CLI",
            release_run: "Publish Release → GitHub",
        },
        Platform::GitLab => ReleaseTexts {
            title: "Push · Tags · Releases — GitLab",
            release_caption: "Step 2 of 2 — Publishing release via GitLab CLI",
            release_run: "Publish Release → GitLab",
        },
        Platform::Codeberg => ReleaseTexts {
            title: "Push · Tags · Releases — Codeberg",
            release_caption: "Step 2 of 2 — Publishing release via Codeberg API",
            release_run: "Publish Release → Codeberg",
        },
        Platform::Generic => ReleaseTexts {
            title: "Push · Tags — Git Remote",
            release_caption: "",
            release_run: "Publish Release",
        },
    }
}

/// The label of the release window's push button: `Commit & Push → <platform>`.
pub fn release_push_label(platform: Platform) -> (r: String)
    ensures
        r@ == "Commit & Push → "@ + platform_label(platform),
{
    let mut r = "Commit & Push → ".to_string();
    r.append(platform.label());
    r
}

/// The step list of the release window's push panel.
pub open spec fn release_push_rows() -> Seq<(Seq<char>, Seq<char>, bool)> {
    seq![
        ("git-status"@, "git status"@, true),
        ("git-add"@, "git add ."@, true),
        ("git-commit"@, "git commit"@, true),
        ("git-push"@, "git push"@, true),
    ]
}

/// The step list of the release window's tag panel.
pub open spec fn tag_rows() -> Seq<(Seq<char>, Seq<char>, bool)> {
    seq![("git-tag"@, "git tag -a"@, true), ("git-push-tag"@, "git push origin <tag>"@, true)]
}

/// The step list of the release panel: creating the release and uploading
/// assets, by CLI or API; none for a plain git remote.
pub open spec fn release_rows(p: Platform) -> Seq<(Seq<char>, Seq<char>, bool)> {
    match p {
        Platform::GitHub => seq![
            ("create-release"@, "gh release create"@, true),
            ("upload-assets"@, "Upload assets"@, true),
        ],
        Platform::GitLab => seq![
            ("create-release"@, "glab release create"@, true),
            ("upload-assets"@, "Upload assets"@, true),
        ],
        Platform::Codeberg => seq![
            ("create-release"@, "curl: POST /releases"@, true),
            ("upload-assets"@, "curl: POST /assets"@, true),
        ],
        Platform::Generic => seq![],
    }
}

/// The rows of the release window's push panel.
pub fn release_push_step_rows() -> (r: Vec<StepRow>)
    ensures
        rows_view(r@) == release_push_rows(),
{
    let r = vec![
        row("git-status", "git status", true),
        row("git-add", "git add .", true),
        row("git-commit", "git commit", true),
        row("git-push", "git push", true),
    ];
    assert(rows_view(r@) =~= release_push_rows());
    r
}

/// The rows of the release window's tag panel.
pub fn tag_step_rows() -> (r: Vec<StepRow>)
    ensures
        rows_view(r@) == tag_rows(),
{
    let r = vec![row("git-tag", "git tag -a", true), row("git-push-tag", "git push origin <tag>", true)];
    assert(rows_view(r@) =~= tag_rows());
    r
}

/// The rows of the release window's release panel.
pub fn release_step_rows(platform: Platform) -> (r: Vec<StepRow>)
    ensures
        rows_view(r@) == release_rows(platform),
{
    let r = match platform {
        Platform::GitHub => vec![
            row("create-release", "gh release create", true),
            row("upload-assets", "Upload assets", true),
        ],
        Platform::GitLab => vec![
            row("create-release", "glab release create", true),
            row("upload-assets", "Upload assets", true),
        ],
        Platform::Codeberg => vec![
            row("create-release", "curl: POST /releases", true),
            row("upload-assets", "curl: POST /assets", true),
        ],
        Platform::Generic => Vec::new(),
    };
    assert(rows_view(r@) =~= release_rows(platform));
    r
}

} // verus!
