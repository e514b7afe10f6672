use pkgbuild_manager::actions::flow::{step, ActionError, Captured, Event, Notice, Stage, Step};
use pkgbuild_manager::actions::{aur_push, compile, install, srcinfo};

fn strs(v: &[&str]) -> Vec<String> {
    v.iter().map(|s| s.to_string()).collect()
}

fn ok_run() -> Event {
    Event::Done(Ok(()))
}

fn captured(success: bool, stdout: &str, stderr: &str) -> Event {
    Event::Output(Ok(Captured { success, stdout: stdout.into(), stderr: stderr.into() }))
}

fn expect_run(s: &Step, program: &str, args: &[&str], dir: &str) {
    match s {
        Step::Run { program: p, args: a, dir: d, build_dir: None } => {
            assert_eq!(p, program);
            assert_eq!(a, &strs(args));
            assert_eq!(d, dir);
        },
        _ => panic!("expected a run of {program}"),
    }
}

const SRCINFO: &str = "pkgbase = demo\n\tpkgver = 1.0\n\tpkgrel = 2\npkgname = demo\n";

/// Drives an AUR push up to the commit; returns the stage and the commit step.
fn to_commit(message: Option<String>, tag: Option<String>) -> (Stage, Step) {
    let (stage, first) = match tag {
        Some(t) => aur_push::run_with_tag("pkg".into(), t),
        None => aur_push::run("pkg".into(), message),
    };
    assert!(matches!(&first, Step::ResolveTarget { path } if path == "pkg"));
    let (stage, s) = step(stage, Event::Target(Ok("/abs/pkg".into())));
    assert!(matches!(&s, Step::RegenerateSrcinfo { dir } if dir == "/abs/pkg"));
    let (stage, s) = step(stage, Event::Srcinfo(Ok(SRCINFO.into())));
    expect_run(&s, "git", &["add", "-A"], "/abs/pkg");
    step(stage, ok_run())
}

#[test]
fn push_commits_with_the_generated_message() {
    let (_, s) = to_commit(None, None);
    match s {
        Step::Capture { program, args, dir } => {
            assert_eq!(program, "git");
            assert_eq!(args, strs(&["commit", "-m", "upgpkg: demo 1.0-2"]));
            assert_eq!(dir, "/abs/pkg");
        },
        _ => panic!("expected the commit"),
    }
}

#[test]
fn push_commits_with_the_given_message() {
    let (_, s) = to_commit(Some("fix".into()), None);
    assert!(matches!(s, Step::Capture { args, .. } if args == strs(&["commit", "-m", "fix"])));
}

#[test]
fn push_goes_to_the_remote_default_branch() {
    let (stage, _) = to_commit(None, None);
    let (stage, s) = step(stage, captured(true, "", ""));
    assert!(matches!(&s, Step::Capture { args, .. } if args == &strs(&["symbolic-ref", "refs/remotes/origin/HEAD"])));
    let (stage, s) = step(stage, captured(true, "refs/remotes/origin/trunk\n", ""));
    expect_run(&s, "git", &["push", "origin", "trunk"], "/abs/pkg");
    let (_, s) = step(stage, ok_run());
    assert!(matches!(s, Step::Finish(Ok(()))));
}

#[test]
fn empty_commit_still_pushes() {
    let (stage, _) = to_commit(None, None);
    let (stage, s) = step(stage, captured(false, "nothing to commit, working tree clean", ""));
    assert!(matches!(s, Step::Notify(Notice::NothingToCommit)));
    let (_, s) = step(stage, Event::Ack);
    assert!(matches!(s, Step::Capture { .. }));
}

#[test]
fn failed_commit_stops_the_push() {
    let (stage, _) = to_commit(None, None);
    let (_, s) = step(stage, captured(false, "", "  fatal: bad \n"));
    assert!(matches!(s, Step::Finish(Err(ActionError::CommitFailed { stderr })) if stderr == "fatal: bad"));
}

#[test]
fn branch_probes_fall_back_to_master() {
    let (stage, _) = to_commit(None, None);
    let (stage, _) = step(stage, captured(true, "", ""));
    let (stage, s) = step(stage, captured(false, "", ""));
    assert!(matches!(&s, Step::Probe { args, .. } if args == &strs(&["rev-parse", "--verify", "refs/remotes/origin/main"])));
    let (stage, s) = step(stage, Event::Probed(false));
    assert!(matches!(&s, Step::Probe { args, .. } if args == &strs(&["rev-parse", "--verify", "refs/remotes/origin/master"])));
    let (_, s) = step(stage, Event::Probed(false));
    expect_run(&s, "git", &["push", "origin", "master"], "/abs/pkg");
}

#[test]
fn failed_push_falls_back_to_plain_push() {
    let (stage, _) = to_commit(None, None);
    let (stage, _) = step(stage, captured(true, "", ""));
    let (stage, _) = step(stage, captured(true, "refs/remotes/origin/main", ""));
    let (stage, s) = step(stage, Event::Done(Err("rejected".into())));
    assert!(matches!(s, Step::Notify(Notice::PushFallback { error }) if error == "rejected"));
    let (stage, s) = step(stage, Event::Ack);
    expect_run(&s, "git", &["push"], "/abs/pkg");
    let (_, s) = step(stage, Event::Done(Err("offline".into())));
    assert!(matches!(s, Step::Finish(Err(ActionError::Command(m))) if m == "offline"));
}

#[test]
fn tag_follows_a_successful_push() {
    let (stage, _) = to_commit(None, Some("1.0-2".into()));
    let (stage, _) = step(stage, captured(true, "", ""));
    let (stage, _) = step(stage, captured(true, "refs/remotes/origin/master", ""));
    let (stage, s) = step(stage, ok_run());
    expect_run(&s, "git", &["tag", "-a", "1.0-2", "-m", "upgpkg: demo 1.0-2"], "/abs/pkg");
    let (stage, s) = step(stage, ok_run());
    expect_run(&s, "git", &["push", "--tags"], "/abs/pkg");
    let (_, s) = step(stage, Event::Done(Err("net".into())));
    match s {
        Step::Finish(Err(ActionError::TagNotPushed { tag, hint, cause })) => {
            assert_eq!(tag, "1.0-2");
            assert_eq!(hint, "git push --tags");
            assert_eq!(cause, "net");
        },
        _ => panic!("expected the unpushed tag"),
    }
}

#[test]
fn unresolved_target_fails() {
    let (stage, _) = srcinfo::run("x".into());
    let (_, s) = step(stage, Event::Target(Err("no PKGBUILD".into())));
    assert!(matches!(s, Step::Finish(Err(ActionError::Target(m))) if m == "no PKGBUILD"));
}

#[test]
fn srcinfo_action() {
    let (stage, _) = srcinfo::run("x".into());
    let (stage, s) = step(stage, Event::Target(Ok("/d".into())));
    assert!(matches!(&s, Step::RegenerateSrcinfo { dir } if dir == "/d"));
    let (_, s) = step(stage, Event::Srcinfo(Ok(String::new())));
    assert!(matches!(s, Step::Finish(Ok(()))));
}

#[test]
fn makepkg_runs_in_a_cache_work_tree() {
    let (stage, _) = install::run("x".into(), strs(&["-c"]));
    let (stage, s) = step(stage, Event::Target(Ok("/work/demo".into())));
    assert!(matches!(s, Step::ReadCacheEnv));
    let (stage, s) = step(stage, Event::CacheEnv { xdg_cache_home: None, home: Some("/home/u".into()) });
    let build_dir = match s {
        Step::CreateDir { path } => path,
        _ => panic!("expected the work tree"),
    };
    assert!(build_dir.starts_with("/home/u/.cache/pkgbuild-manager/makepkg/demo-"));
    let (_, s) = step(stage, ok_run());
    match s {
        Step::Run { program, args, dir, build_dir: Some(b) } => {
            assert_eq!(program, "makepkg");
            assert_eq!(args, strs(&["-si", "-c"]));
            assert_eq!(dir, "/work/demo");
            assert_eq!(b, build_dir);
        },
        _ => panic!("expected makepkg"),
    }
}

#[test]
fn makepkg_without_home_fails() {
    let (stage, _) = compile::run("x".into(), vec![]);
    let (stage, _) = step(stage, Event::Target(Ok("/w".into())));
    let (_, s) = step(stage, Event::CacheEnv { xdg_cache_home: None, home: None });
    assert!(matches!(s, Step::Finish(Err(ActionError::NoHome))));
}

#[test]
fn an_answer_to_another_step_is_refused() {
    let (stage, _) = compile::run("x".into(), vec![]);
    let (_, s) = step(stage, Event::Ack);
    assert!(matches!(s, Step::Finish(Err(ActionError::UnexpectedEvent))));
}
