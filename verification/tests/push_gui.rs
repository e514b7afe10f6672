use pkgbuild_manager::aur_push_gui::labels::{
    auth_texts, push_step_rows, push_window_plan, release_window_tabs, run_again_label, PushWorker, push_texts, release_push_label, release_step_rows, release_texts, tag_step_rows,
};
use pkgbuild_manager::aur_push_gui::panel::{Panel, RowState};
use pkgbuild_manager::aur_push_gui::repo::{
    auth_probes, auth_ready, current_branch, detect_auth_method, first_remote_url, origin_url, output_lines,
    parse_owner_repo, probe_passed, AuthMethod, GitQuery, Platform, RepoMode,
};
use pkgbuild_manager::aur_push_gui::worker::{
    aur_worker_args, begin, finish_task, git_push_plan, non_empty, parse_step_line, release_plan,
    release_push_plan, tag_name, tag_plan, StepState, Task, WorkerMsg,
};

fn strs(v: &[&str]) -> Vec<String> {
    v.iter().map(|s| s.to_string()).collect()
}

fn args_of(t: &Task) -> Vec<String> {
    t.run.as_ref().map(|r| r.args.clone()).unwrap_or_default()
}

fn describe(m: &WorkerMsg) -> String {
    match m {
        WorkerMsg::Step { key, state, detail } => format!("{key}:{state:?}:{detail}"),
        WorkerMsg::Log(l) => format!("log:{l}"),
        WorkerMsg::Done(ok) => format!("done:{ok}"),
    }
}

/// Runs a plan with the given command results, collecting the messages.
fn run(plan: &Vec<Task>, results: &[bool]) -> Vec<String> {
    let mut out: Vec<String> = begin(plan).iter().map(describe).collect();
    let mut i = if plan.is_empty() { None } else { Some(0) };
    while let Some(k) = i {
        let ok = if plan[k].run.is_some() { results[k] } else { true };
        let (msgs, next) = finish_task(plan, k, ok);
        out.extend(msgs.iter().map(describe));
        i = next;
    }
    out
}

#[test]
fn repository_kinds() {
    assert_eq!(RepoMode::detect(false, true, "aur.archlinux.org"), RepoMode::Unknown);
    assert_eq!(RepoMode::detect(true, true, "url = ssh://aur@aur.archlinux.org/x.git"), RepoMode::Aur);
    assert_eq!(RepoMode::detect(true, false, "url = ssh://aur@aur.archlinux.org/x.git"), RepoMode::Generic);
    assert_eq!(RepoMode::detect(true, false, "url = git@gitlab.com:a/b.git"), RepoMode::GitLab);
    assert_eq!(RepoMode::detect(true, false, "url = https://codeberg.org/a/b"), RepoMode::Codeberg);
    assert_eq!(RepoMode::detect(true, false, "url = https://github.com/a/b"), RepoMode::Git);
    assert_eq!(RepoMode::detect(true, false, ""), RepoMode::Generic);
}

#[test]
fn platforms() {
    assert_eq!(Platform::detect("git@github.com:a/b.git"), Platform::GitHub);
    assert_eq!(Platform::detect("https://gitlab.com/a/b"), Platform::GitLab);
    assert_eq!(Platform::detect("https://codeberg.org/a/b"), Platform::Codeberg);
    assert_eq!(Platform::detect(""), Platform::Generic);
    assert_eq!(Platform::Generic.label(), "Git");
    assert_eq!(Platform::GitLab.badge_class(), "mode-badge-gitlab");
    assert!(Platform::Codeberg.supports_releases());
    assert!(!Platform::Generic.supports_releases());
}

#[test]
fn authentication_methods() {
    assert_eq!(detect_auth_method("ssh://aur@aur.archlinux.org/x.git\n"), AuthMethod::Ssh);
    assert_eq!(detect_auth_method("git@github.com:a/b.git"), AuthMethod::Ssh);
    assert_eq!(detect_auth_method("me@host:repo"), AuthMethod::Ssh);
    assert_eq!(detect_auth_method("https://user@github.com/a/b"), AuthMethod::Https);
    assert_eq!(detect_auth_method(""), AuthMethod::Https);
    assert_eq!(AuthMethod::Ssh.label(), "SSH");
    assert_eq!(AuthMethod::Https.badge_class(), "auth-badge-https");
}

#[test]
fn authentication_probes() {
    let ssh = auth_probes(AuthMethod::Ssh);
    assert_eq!(ssh.len(), 1);
    assert_eq!(ssh[0].program, "ssh-add");
    assert_eq!(ssh[0].args, strs(&["-l"]));
    assert!(probe_passed(&ssh[0], true, 0));
    let https = auth_probes(AuthMethod::Https);
    assert_eq!(https[0].args, strs(&["config", "--local", "credential.helper"]));
    assert_eq!(https[1].args, strs(&["config", "--global", "credential.helper"]));
    assert!(!probe_passed(&https[0], true, 0));
    assert!(probe_passed(&https[1], true, 6));
    assert!(auth_ready(&vec![false, true]));
    assert!(!auth_ready(&vec![false, false]));
}

#[test]
fn git_queries_and_output() {
    assert_eq!(GitQuery::Tags.args(), strs(&["tag", "--sort=-creatordate"]));
    assert_eq!(GitQuery::CurrentBranch.args(), strs(&["rev-parse", "--abbrev-ref", "HEAD"]));
    assert_eq!(current_branch(" dev \n"), "dev");
    assert_eq!(current_branch(""), "main");
    assert_eq!(output_lines("  main\n\n feature/x \r\n"), strs(&["main", "feature/x"]));
    assert_eq!(origin_url(" https://x/y \n"), Some("https://x/y".to_string()));
    assert_eq!(origin_url("\n"), None);
    assert_eq!(first_remote_url("origin\tgit@h:a/b.git (fetch)\norigin\tgit@h:a/b.git (push)\n"), "git@h:a/b.git");
    assert_eq!(first_remote_url(""), "");
}

#[test]
fn owner_and_repository_of_remotes() {
    assert_eq!(parse_owner_repo("git@codeberg.org:me/tool.git"), ("me".to_string(), "tool".to_string()));
    assert_eq!(parse_owner_repo("https://codeberg.org/me/tool"), ("me".to_string(), "tool".to_string()));
    assert_eq!(parse_owner_repo("http://codeberg.org/me/tool.git"), ("me".to_string(), "tool".to_string()));
    assert_eq!(parse_owner_repo("https://codeberg.org/me"), ("me".to_string(), String::new()));
    assert_eq!(parse_owner_repo(""), (String::new(), String::new()));
}

#[test]
fn window_texts() {
    let t = push_texts(RepoMode::Aur, true);
    assert_eq!(t.title, "Push to AUR");
    assert_eq!(t.run, "Push + Tag to AUR");
    let t = push_texts(RepoMode::Unknown, false);
    assert_eq!(t.badge, "?");
    assert_eq!(t.form_caption, "");
    assert_eq!(push_texts(RepoMode::Generic, false).run, "Commit & Push");
    assert_eq!(auth_texts(AuthMethod::Ssh).ready, "SSH key loaded — ready to push");
    assert_eq!(release_texts(Platform::Generic).title, "Push · Tags — Git Remote");
    assert_eq!(release_push_label(Platform::GitHub), "Commit & Push → GitHub");
}

#[test]
fn step_lists() {
    let rows = push_step_rows(RepoMode::Aur, false);
    assert_eq!(rows.len(), 7);
    assert_eq!(rows[0].key, "regen-srcinfo");
    assert_eq!(rows.iter().filter(|r| r.visible).count(), 5);
    let rows = push_step_rows(RepoMode::Git, true);
    assert_eq!(rows.iter().filter(|r| r.visible).count(), 6);
    assert_eq!(tag_step_rows()[1].title, "git push origin <tag>");
    assert!(release_step_rows(Platform::Generic).is_empty());
    assert_eq!(release_step_rows(Platform::Codeberg)[0].title, "curl: POST /releases");
}

#[test]
fn git_push_plan_commits_pushes_and_tags() {
    let plan = git_push_plan(&None, &Some("1.2.3-1".into()), &"main".into());
    let keys: Vec<&str> = plan.iter().map(|t| t.key.as_str()).collect();
    assert_eq!(keys, vec!["git-status", "git-add", "git-commit", "git-push", "git-tag", "git-push-tags"]);
    assert_eq!(args_of(&plan[2]), strs(&["commit", "-m", "Update"]));
    assert_eq!(args_of(&plan[3]), strs(&["push", "origin", "main"]));
    assert_eq!(plan[3].failure, "git push origin main failed");
    assert_eq!(args_of(&plan[4]), strs(&["tag", "-a", "v1.2.3-1", "-m", "Version 1.2.3-1"]));
    assert!(!plan[0].required);
    let plan = git_push_plan(&Some("msg".into()), &None, &"dev".into());
    assert_eq!(plan.len(), 4);
    assert_eq!(args_of(&plan[2]), strs(&["commit", "-m", "msg"]));
}

#[test]
fn release_push_plan_details() {
    let plan = release_push_plan(&Some(String::new()), &"b".into());
    assert_eq!(args_of(&plan[2]), strs(&["commit", "-m", "Update"]));
    assert_eq!(plan[2].failure, "nothing to commit?");
}

#[test]
fn tag_plans() {
    let plan = tag_plan("vv1.0", "", false);
    assert_eq!(args_of(&plan[0]), strs(&["tag", "-a", "vv1.0", "-m", "Version 1.0"]));
    assert_eq!(args_of(&plan[1]), strs(&["push", "origin", "vv1.0"]));
    let plan = tag_plan("2.0", "note", true);
    assert_eq!(args_of(&plan[0]), strs(&["tag", "-a", "v2.0", "-m", "note"]));
    assert_eq!(args_of(&plan[1]), strs(&["push", "--tags"]));
    assert_eq!(tag_name("v3"), "v3");
}

#[test]
fn a_worker_succeeds_when_every_required_step_does() {
    let plan = git_push_plan(&None, &None, &"main".into());
    let out = run(&plan, &[false, true, true, true]);
    assert_eq!(out.first().unwrap(), "git-status:Start:");
    assert_eq!(out[1], "git-status:Succeeded:");
    assert_eq!(out.last().unwrap(), "done:true");
}

#[test]
fn a_failed_push_stops_the_worker_before_the_tag() {
    let plan = git_push_plan(&None, &Some("1.0".into()), &"main".into());
    let out = run(&plan, &[true, true, true, false, true, true]);
    assert_eq!(out[out.len() - 2], "git-push:Error:git push origin main failed");
    assert_eq!(out.last().unwrap(), "done:false");
    assert!(!out.iter().any(|m| m.starts_with("git-tag")));
    assert_eq!(out.iter().filter(|m| m.starts_with("done")).count(), 1);
}

#[test]
fn empty_plan_succeeds_at_once() {
    assert_eq!(run(&vec![], &[]), vec!["done:true".to_string()]);
}

#[test]
fn release_needs_a_tag() {
    match release_plan(Platform::GitHub, "", "", "", "main", &vec![], "") {
        Err(msgs) => {
            let d: Vec<String> = msgs.iter().map(describe).collect();
            assert_eq!(d, strs(&["log:Tag is required to publish a release.", "done:false"]));
        },
        Ok(_) => panic!("no tag, no release"),
    }
}

#[test]
fn github_release_arguments() {
    let plan = match release_plan(Platform::GitHub, "1.0", "", "notes", "main", &strs(&["a.tar"]), "") {
        Ok(p) => p,
        Err(_) => panic!("expected a plan"),
    };
    assert_eq!(plan[0].run.as_ref().unwrap().program, "gh");
    assert_eq!(
        args_of(&plan[0]),
        strs(&["release", "create", "v1.0", "--title", "v1.0", "--notes", "notes", "--target", "main", "a.tar"])
    );
    assert_eq!(plan[1].key, "upload-assets");
    assert!(plan[1].run.is_none());
}

#[test]
fn gitlab_release_arguments() {
    let plan = match release_plan(Platform::GitLab, "v2", "T", "", "dev", &strs(&["x", "y"]), "") {
        Ok(p) => p,
        Err(_) => panic!("expected a plan"),
    };
    assert_eq!(
        args_of(&plan[0]),
        strs(&[
            "release", "create", "v2", "--name", "T", "--notes", "", "--ref", "dev", "--assets-links", "x",
            "--assets-links", "y",
        ])
    );
}

#[test]
fn codeberg_release_request() {
    let plan = match release_plan(
        Platform::Codeberg,
        "1.0",
        "Title \"q\"",
        "line1\nline2",
        "main",
        &vec![],
        "git@codeberg.org:me/tool.git",
    ) {
        Ok(p) => p,
        Err(_) => panic!("expected a plan"),
    };
    assert_eq!(plan.len(), 1);
    let a = args_of(&plan[0]);
    assert_eq!(a.last().unwrap(), "https://codeberg.org/api/v1/repos/me/tool/releases");
    assert_eq!(a[0..12].to_vec(), strs(&[
        "-s", "-o", "/dev/null", "-w", "%{http_code}", "-X", "POST", "-H", "Content-Type: application/json",
        "-H", "Authorization: token $CODEBERG_TOKEN", "-d",
    ]));
    let body: serde_json::Value = serde_json::from_str(&a[12]).unwrap();
    assert_eq!(body["tag_name"], "v1.0");
    assert_eq!(body["name"], "Title \"q\"");
    assert_eq!(body["body"], "line1\nline2");
    assert_eq!(body["target_commitish"], "main");
    assert_eq!(body["draft"], false);
    assert_eq!(body["prerelease"], false);
    assert!(a[12].starts_with("{\"body\":"));
}

#[test]
fn codeberg_release_needs_owner_and_repo() {
    match release_plan(Platform::Codeberg, "1.0", "", "", "main", &vec![], "https://codeberg.org/me") {
        Err(msgs) => {
            let d: Vec<String> = msgs.iter().map(describe).collect();
            assert_eq!(d[0], "create-release:Start:");
            assert_eq!(d[2], "done:false");
        },
        Ok(_) => panic!("no repository, no release"),
    }
}

#[test]
fn codeberg_assets_are_noted() {
    let plan = match release_plan(Platform::Codeberg, "1", "", "", "m", &strs(&["f"]), "git@c:o/r") {
        Ok(p) => p,
        Err(_) => panic!("expected a plan"),
    };
    let out = run(&plan, &[true, true]);
    assert!(out[3].starts_with("log:Note: asset upload for Codeberg"));
    assert_eq!(out.last().unwrap(), "done:true");
}

#[test]
fn generic_remote_release_runs_nothing() {
    let plan = match release_plan(Platform::Generic, "1", "", "", "m", &vec![], "") {
        Ok(p) => p,
        Err(_) => panic!("expected a plan"),
    };
    assert!(plan[0].run.is_none());
    assert_eq!(run(&plan, &[false]).last().unwrap(), "done:true");
}

#[test]
fn aur_worker_call() {
    assert_eq!(aur_worker_args("", &None, &None), None);
    assert_eq!(aur_worker_args("/p", &Some("m".into()), &None), Some(strs(&["aur-push", "/p", "m"])));
    assert_eq!(aur_worker_args("/p", &None, &None), Some(strs(&["aur-push", "/p"])));
    assert_eq!(aur_worker_args("/p", &Some("m".into()), &Some("1-1".into())), Some(strs(&["aur-push-tag", "/p", "1-1"])));
    assert_eq!(non_empty(String::new()), None);
    assert_eq!(non_empty("x".into()), Some("x".to_string()));
}

#[test]
fn step_lines() {
    let d = |l: &str| parse_step_line(l).map(|m| describe(&m));
    assert_eq!(d("[STEP] git-push start"), Some("git-push:Start:".to_string()));
    assert_eq!(d("[STEP] git-push ok"), Some("git-push:Succeeded:".to_string()));
    assert_eq!(d("[STEP] git-push error: rejected"), Some("git-push:Error:rejected".to_string()));
    assert_eq!(d("[STEP] git-push maybe"), None);
    assert_eq!(d("[STEP] lonely"), None);
    assert_eq!(d("plain output"), None);
}

#[test]
fn progress_panel() {
    let mut p = Panel::new(&push_step_rows(RepoMode::Git, false));
    assert_eq!(p.total, 4);
    assert!(p.start());
    assert!(!p.start());
    assert!(!p.can_go_back());
    p.handle(WorkerMsg::Step { key: "git-add".into(), state: StepState::Start, detail: String::new() });
    assert_eq!(p.rows[1].state, RowState::Running);
    p.handle(WorkerMsg::Step { key: "git-add".into(), state: StepState::Succeeded, detail: String::new() });
    assert_eq!(p.done, 1);
    p.handle(WorkerMsg::Step { key: "nope".into(), state: StepState::Succeeded, detail: String::new() });
    assert_eq!(p.done, 1);
    p.handle(WorkerMsg::Step { key: "git-push".into(), state: StepState::Error, detail: "rejected".into() });
    assert_eq!(p.rows[3].state, RowState::Failed);
    assert_eq!(p.rows[3].detail, "rejected");
    p.handle(WorkerMsg::Log("   ".into()));
    p.handle(WorkerMsg::Log(" fatal: x \n".into()));
    assert_eq!(p.log, strs(&["fatal: x"]));
    p.handle(WorkerMsg::Done(false));
    assert!(!p.running);
    assert_eq!(p.outcome, Some(false));
    assert!(p.start());
    assert_eq!(p.done, 0);
    assert!(p.log.is_empty());
    assert!(p.rows.iter().all(|r| r.state == RowState::Waiting));
}

#[test]
fn run_button_after_a_run() {
    assert_eq!(run_again_label(true, true), "Push again");
    assert_eq!(run_again_label(false, true), "Run again");
    assert_eq!(run_again_label(true, false), "Try again");
}

#[test]
fn json_escapes_control_characters() {
    let plan = match release_plan(Platform::Codeberg, "1", "a\\b", "x\u{1}y\tz", "m", &vec![], "git@c:o/r") {
        Ok(p) => p,
        Err(_) => panic!("expected a plan"),
    };
    let body = &args_of(&plan[0])[12];
    assert_eq!(
        body,
        "{\"body\":\"x\\u0001y\\tz\",\"draft\":false,\"name\":\"a\\\\b\",\"prerelease\":false,\"tag_name\":\"v1\",\"target_commitish\":\"m\"}"
    );
}

#[test]
fn what_the_windows_show_and_run() {
    let p = push_window_plan(RepoMode::Unknown);
    assert!(!p.form && !p.auth && !p.branch_picker && p.worker.is_none());
    let p = push_window_plan(RepoMode::Aur);
    assert!(p.form && p.auth && !p.branch_picker);
    assert_eq!(p.worker, Some(PushWorker::Aur));
    let p = push_window_plan(RepoMode::Codeberg);
    assert!(p.branch_picker);
    assert_eq!(p.worker, Some(PushWorker::Git));
    assert_eq!(release_window_tabs(Platform::Generic), (true, true, false));
    assert_eq!(release_window_tabs(Platform::GitHub), (true, true, true));
}
