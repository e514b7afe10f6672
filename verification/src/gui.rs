//! The command line of the desktop front end (`settings`, `push`, `release`).

use vstd::prelude::*;
use crate::aur_push_gui::repo::RepoMode;
use crate::text::{chars_of, starts_with};

verus! {

broadcast use vstd::string::group_string_axioms;

/// What the front end was asked to open.
#[derive(Clone, Copy, Debug, PartialEq, Eq, Structural)]
pub enum GuiCommand {
    Settings,
    Push,
    Release,
    /// `help`, `--help`, `-h`, or no command.
    Help,
    Unknown,
}

pub open spec fn gui_command_of(first: Option<Seq<char>>) -> GuiCommand {
    match first {
        None => GuiCommand::Help,
        Some(c) => if c == "settings"@ {
            GuiCommand::Settings
        } else if c == "push"@ {
            GuiCommand::Push
        } else if c == "release"@ {
            GuiCommand::Release
        } else if c == "help"@ || c == "--help"@ || c == "-h"@ {
            GuiCommand::Help
        } else {
            GuiCommand::Unknown
        },
    }
}

/// The command named by the first argument.
pub fn parse_gui_command(args: &Vec<String>) -> (c: GuiCommand)
    ensures
        c == gui_command_of(if args.len() > 0 {
            Some(args@[0]@)
        } else {
            None
        }),
{
    if args.len() == 0 {
        return GuiCommand::Help;
    }
    let a = &args[0];
    if *a == "settings".to_string() {
        GuiCommand::Settings
    } else if *a == "push".to_string() {
        GuiCommand::Push
    } else if *a == "release".to_string() {
        GuiCommand::Release
    } else if *a == "help".to_string() || *a == "--help".to_string() || *a == "-h".to_string() {
        GuiCommand::Help
    } else {
        GuiCommand::Unknown
    }
}

/// The first argument that is not an option, or `.`.
pub open spec fn target_of(args: Seq<Seq<char>>) -> Seq<char>
    decreases args.len(),
{
    if args.len() == 0 {
        "."@
    } else if !starts_with(args[0], "-"@) {
        args[0]
    } else {
        target_of(args.drop_first())
    }
}

/// The directory a window works on: the first argument that does not start
/// with `-`, else the current directory.
pub fn target_arg(args: &Vec<String>) -> (r: String)
    ensures
        r@ == target_of(args.deep_view()),
{
    proof {
        reveal_strlit("-");
    }
    assert(args.deep_view().skip(0) =~= args.deep_view());
    let mut i: usize = 0;
    while i < args.len()
        invariant
            i <= args.len(),
            "-"@ == seq!['-'],
            target_of(args.deep_view()) == target_of(args.deep_view().skip(i as int)),
        decreases args.len() - i,
    {
        let a = chars_of(args[i].as_str());
        assert(args.deep_view().skip(i as int)[0] == args.deep_view()[i as int]);
        assert(args.deep_view().skip(i as int).drop_first() =~= args.deep_view().skip(i + 1));
        if !(a.len() > 0 && a[0] == '-') {
            assert(a@ == args.deep_view()[i as int]);
            assert(!starts_with(a@, "-"@)) by {
                if starts_with(a@, "-"@) {
                    assert(a@.take(1)[0] == a@[0]);
                }
            }
            return args[i].clone();
        }
        assert(a@ == args.deep_view()[i as int]);
        assert(a@.take(1) =~= "-"@);
        i += 1;
    }
    assert(args.deep_view().skip(i as int) =~= Seq::<Seq<char>>::empty());
    ".".to_string()
}

/// `--tag` among the arguments: the push also creates a version tag.
pub fn has_tag_flag(args: &Vec<String>) -> (b: bool)
    ensures
        b == args.deep_view().contains("--tag"@),
{
    let tag = "--tag".to_string();
    let mut i: usize = 0;
    while i < args.len()
        invariant
            i <= args.len(),
            tag@ == "--tag"@,
            forall|j: int| 0 <= j < i ==> args.deep_view()[j] != "--tag"@,
        decreases args.len() - i,
    {
        if args[i] == tag {
            assert(args.deep_view()[i as int] == "--tag"@);
            return true;
        }
        i += 1;
    }
    false
}

/// The repository kind a `--mode=...` argument forces.
pub open spec fn mode_flag(arg: Seq<char>) -> Option<RepoMode> {
    if arg == "--mode=aur"@ {
        Some(RepoMode::Aur)
    } else if arg == "--mode=git"@ {
        Some(RepoMode::Git)
    } else if arg == "--mode=gitlab"@ {
        Some(RepoMode::GitLab)
    } else if arg == "--mode=codeberg"@ {
        Some(RepoMode::Codeberg)
    } else if arg == "--mode=generic"@ {
        Some(RepoMode::Generic)
    } else {
        None
    }
}

/// The first `--mode=...` argument's kind, if any.
pub open spec fn forced_mode_of(args: Seq<Seq<char>>) -> Option<RepoMode>
    decreases args.len(),
{
    if args.len() == 0 {
        None
    } else if mode_flag(args[0]) is Some {
        mode_flag(args[0])
    } else {
        forced_mode_of(args.drop_first())
    }
}

fn parse_mode_flag(arg: &String) -> (r: Option<RepoMode>)
    ensures
        r == mode_flag(arg@),
{
    if *arg == "--mode=aur".to_string() {
        Some(RepoMode::Aur)
    } else if *arg == "--mode=git".to_string() {
        Some(RepoMode::Git)
    } else if *arg == "--mode=gitlab".to_string() {
        Some(RepoMode::GitLab)
    } else if *arg == "--mode=codeberg".to_string() {
        Some(RepoMode::Codeberg)
    } else if *arg == "--mode=generic".to_string() {
        Some(RepoMode::Generic)
    } else {
        None
    }
}

/// The repository kind forced on the command line, which then replaces the
/// detected one.
pub fn forced_mode(args: &Vec<String>) -> (r: Option<RepoMode>)
    ensures
        r == forced_mode_of(args.deep_view()),
{
    assert(args.deep_view().skip(0) =~= args.deep_view());
    let mut i: usize = 0;
    while i < args.len()
        invariant
            i <= args.len(),
            forced_mode_of(args.deep_view()) == forced_mode_of(args.deep_view().skip(i as int)),
        decreases args.len() - i,
    {
        assert(args.deep_view().skip(i as int)[0] == args.deep_view()[i as int]);
        assert(args.deep_view().skip(i as int).drop_first() =~= args.deep_view().skip(i + 1));
        let m = parse_mode_flag(&args[i]);
        if m.is_some() {
            return m;
        }
        i += 1;
    }
    assert(args.deep_view().skip(i as int) =~= Seq::<Seq<char>>::empty());
    None
}

/// The name a repository kind has on the command line (`--mode=<name>`).
pub open spec fn mode_name(m: RepoMode) -> Seq<char> {
    match m {
        RepoMode::Aur => "aur"@,
        RepoMode::Git => "git"@,
        RepoMode::GitLab => "gitlab"@,
        RepoMode::Codeberg => "codeberg"@,
        RepoMode::Generic => "generic"@,
        RepoMode::Unknown => "unknown"@,
    }
}

/// `--mode=<name>` forces exactly the kind of that name: each of `aur`,
/// `git`, `gitlab`, `codeberg` and `generic` gives its own kind, an argument
/// that forces a kind is `--mode=` and that kind's name, and no argument
/// forces "not a repository".
pub proof fn lemma_mode_flag_names_kind(m: RepoMode, arg: Seq<char>)
    ensures
        !(m is Unknown) ==> mode_flag("--mode="@ + mode_name(m)) == Some(m),
        mode_flag(arg) == Some(m) ==> arg == "--mode="@ + mode_name(m) && !(m is Unknown),
{
    reveal_strlit("--mode=");
    reveal_strlit("aur");
    reveal_strlit("git");
    reveal_strlit("gitlab");
    reveal_strlit("codeberg");
    reveal_strlit("generic");
    reveal_strlit("--mode=aur");
    reveal_strlit("--mode=git");
    reveal_strlit("--mode=gitlab");
    reveal_strlit("--mode=codeberg");
    reveal_strlit("--mode=generic");
    assert("--mode="@ + "aur"@ =~= "--mode=aur"@);
    assert("--mode="@ + "git"@ =~= "--mode=git"@);
    assert("--mode="@ + "gitlab"@ =~= "--mode=gitlab"@);
    assert("--mode="@ + "codeberg"@ =~= "--mode=codeberg"@);
    assert("--mode="@ + "generic"@ =~= "--mode=generic"@);
    assert("--mode=git"@ != "--mode=aur"@) by {
        assert("--mode=git"@[7] != "--mode=aur"@[7]);
    }
    assert("--mode=gitlab"@.len() != "--mode=aur"@.len());
    assert("--mode=gitlab"@.len() != "--mode=git"@.len());
    assert("--mode=codeberg"@.len() != "--mode=aur"@.len());
    assert("--mode=codeberg"@.len() != "--mode=git"@.len());
    assert("--mode=codeberg"@.len() != "--mode=gitlab"@.len());
    assert("--mode=generic"@.len() != "--mode=aur"@.len());
    assert("--mode=generic"@.len() != "--mode=git"@.len());
    assert("--mode=generic"@.len() != "--mode=codeberg"@.len());
    assert("--mode=generic"@ != "--mode=gitlab"@) by {
        assert("--mode=generic"@[8] != "--mode=gitlab"@[8]);
    }
}

} // verus!
