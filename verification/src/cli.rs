//! The command line of `pkgbuild_manager`:
//! `pkgbuild_manager <command> [path] [flags…]` or
//! `pkgbuild_manager <command> [path] -- [flags…]`.

use vstd::prelude::*;
use crate::text::{chars_eq, chars_of, contains_char, has_prefix, starts_with};

verus! {

broadcast use vstd::string::group_string_axioms;

pub type Text = Seq<char>;

/// The index of the first `"--"` in `s`.
pub open spec fn separator_index(s: Seq<Text>) -> Option<int>
    decreases s.len(),
{
    if s.len() == 0 {
        None
    } else if s[0] == "--"@ {
        Some(0)
    } else {
        match separator_index(s.drop_first()) {
            Some(i) => Some(i + 1),
            None => None,
        }
    }
}

/// The package path and the extra flags of a command line `args` (program
/// name first, command second). Everything after a `--` is a flag, and the
/// path is the argument before it when there is one. Without `--`, the third
/// argument is the path unless it starts with `-`, in which case the path is
/// `.` and every remaining argument is a flag.
pub open spec fn path_and_flags(args: Seq<Text>) -> (Text, Seq<Text>) {
    if args.len() <= 2 {
        ("."@, seq![])
    } else {
        match separator_index(args.skip(2)) {
            Some(r) => (if r > 0 { args[2] } else { "."@ }, args.skip(2 + r + 1)),
            None => if starts_with(args[2], "-"@) {
                ("."@, args.skip(2))
            } else {
                (args[2], args.skip(3))
            },
        }
    }
}

fn is_dashdash(s: &String) -> (b: bool)
    ensures
        b == (s@ == "--"@),
{
    chars_eq(&chars_of(s.as_str()), &chars_of("--"))
}

fn clone_from(v: &Vec<String>, from: usize) -> (r: Vec<String>)
    requires
        from <= v.len(),
    ensures
        r.deep_view() == v.deep_view().skip(from as int),
{
    let mut r: Vec<String> = Vec::new();
    let mut i = from;
    while i < v.len()
        invariant
            from <= i <= v.len(),
            r.deep_view() == v.deep_view().subrange(from as int, i as int),
        decreases v.len() - i,
    {
        let s = v[i].clone();
        let ghost before = r.deep_view();
        r.push(s);
        assert(r.deep_view() =~= before.push(s@));
        assert(r.deep_view() =~= v.deep_view().subrange(from as int, i + 1));
        i += 1;
    }
    assert(v.deep_view().subrange(from as int, v.len() as int) =~= v.deep_view().skip(from as int));
    r
}

/// Splits a command line into the package path and the extra flags.
pub fn split_path_and_flags(args: &Vec<String>) -> (r: (String, Vec<String>))
    ensures
        (r.0@, r.1.deep_view()) == path_and_flags(args.deep_view()),
{
    let ghost a = args.deep_view();
    if args.len() <= 2 {
        return (".".to_string(), Vec::new());
    }
    let mut k: usize = 2;
    assert(a.skip(2).skip(0) =~= a.skip(2));
    while k < args.len()
        invariant
            2 <= k <= args.len(),
            a == args.deep_view(),
            separator_index(a.skip(2)) == match separator_index(a.skip(k as int)) {
                Some(i) => Some(i + (k - 2)),
                None => None::<int>,
            },
        decreases args.len() - k,
    {
        assert(a.skip(k as int)[0] == args[k as int]@);
        if is_dashdash(&args[k]) {
            let path = if k > 2 {
                args[2].clone()
            } else {
                ".".to_string()
            };
            let flags = clone_from(args, k + 1);
            return (path, flags);
        }
        assert(a.skip(k as int).drop_first() =~= a.skip(k + 1));
        k += 1;
    }
    assert(a.skip(k as int) =~= Seq::<Text>::empty());
    if has_prefix(&chars_of(args[2].as_str()), &chars_of("-")) {
        (".".to_string(), clone_from(args, 2))
    } else {
        (args[2].clone(), clone_from(args, 3))
    }
}

/// The flags `base` followed by `extra`.
pub fn merge_flags(base: &Vec<String>, extra: &Vec<String>) -> (r: Vec<String>)
    ensures
        r.deep_view() == base.deep_view() + extra.deep_view(),
{
    let mut r = clone_from(base, 0);
    let mut rest = clone_from(extra, 0);
    assert(base.deep_view().skip(0) =~= base.deep_view());
    assert(extra.deep_view().skip(0) =~= extra.deep_view());
    let ghost before = r.deep_view();
    let ghost more = rest.deep_view();
    r.append(&mut rest);
    assert(r.deep_view() =~= before + more);
    r
}

/// A subcommand of the command line.
#[derive(Clone, Copy, Debug, PartialEq, Eq, Structural)]
pub enum Command {
    Build,
    BuildClean,
    BuildForce,
    BuildNocheck,
    BuildNogpg,
    BuildCustom,
    Install,
    InstallClean,
    InstallForce,
    InstallRmdeps,
    InstallNocheck,
    InstallNogpg,
    InstallCustom,
    FetchSources,
    Checksums,
    GenChecksums,
    Srcinfo,
    Namcap,
    Shellcheck,
    Validate,
    ValidateSyntax,
    ValidateParse,
    ValidateSources,
    ValidateDeps,
    Clean,
    CleanAll,
    AurPush,
    AurPushTag,
    SetupNautilus,
    Help,
    Version,
    /// Anything else.
    Unknown,
}

/// The subcommand named `name`.
pub open spec fn command_of(name: Seq<char>) -> Command {
    if name == "build"@ {
        Command::Build
    } else if name == "build-clean"@ {
        Command::BuildClean
    } else if name == "build-force"@ {
        Command::BuildForce
    } else if name == "build-nocheck"@ {
        Command::BuildNocheck
    } else if name == "build-nogpg"@ {
        Command::BuildNogpg
    } else if name == "build-custom"@ {
        Command::BuildCustom
    } else if name == "install"@ {
        Command::Install
    } else if name == "install-clean"@ {
        Command::InstallClean
    } else if name == "install-force"@ {
        Command::InstallForce
    } else if name == "install-rmdeps"@ {
        Command::InstallRmdeps
    } else if name == "install-nocheck"@ {
        Command::InstallNocheck
    } else if name == "install-nogpg"@ {
        Command::InstallNogpg
    } else if name == "install-custom"@ {
        Command::InstallCustom
    } else if name == "fetch-sources"@ {
        Command::FetchSources
    } else if name == "checksums"@ {
        Command::Checksums
    } else if name == "genchecksums"@ {
        Command::GenChecksums
    } else if name == "srcinfo"@ {
        Command::Srcinfo
    } else if name == "namcap"@ {
        Command::Namcap
    } else if name == "shellcheck"@ {
        Command::Shellcheck
    } else if name == "validate"@ {
        Command::Validate
    } else if name == "validate-syntax"@ {
        Command::ValidateSyntax
    } else if name == "validate-parse"@ {
        Command::ValidateParse
    } else if name == "validate-sources"@ {
        Command::ValidateSources
    } else if name == "validate-deps"@ {
        Command::ValidateDeps
    } else if name == "clean"@ {
        Command::Clean
    } else if name == "clean-all"@ {
        Command::CleanAll
    } else if name == "aur-push"@ {
        Command::AurPush
    } else if name == "aur-push-tag"@ {
        Command::AurPushTag
    } else if name == "setup-nautilus"@ {
        Command::SetupNautilus
    } else if name == "help"@ {
        Command::Help
    } else if name == "-h"@ {
        Command::Help
    } else if name == "--help"@ {
        Command::Help
    } else if name == "--version"@ {
        Command::Version
    } else {
        Command::Unknown
    }
}

/// Reads the subcommand name.
pub fn parse_command(name: &str) -> (c: Command)
    ensures
        c == command_of(name@),
{
    let n = chars_of(name);
    if chars_eq(&n, &chars_of("build")) {
        return Command::Build;
    }
    if chars_eq(&n, &chars_of("build-clean")) {
        return Command::BuildClean;
    }
    if chars_eq(&n, &chars_of("build-force")) {
        return Command::BuildForce;
    }
    if chars_eq(&n, &chars_of("build-nocheck")) {
        return Command::BuildNocheck;
    }
    if chars_eq(&n, &chars_of("build-nogpg")) {
        return Command::BuildNogpg;
    }
    if chars_eq(&n, &chars_of("build-custom")) {
        return Command::BuildCustom;
    }
    if chars_eq(&n, &chars_of("install")) {
        return Command::Install;
    }
    if chars_eq(&n, &chars_of("install-clean")) {
        return Command::InstallClean;
    }
    if chars_eq(&n, &chars_of("install-force")) {
        return Command::InstallForce;
    }
    if chars_eq(&n, &chars_of("install-rmdeps")) {
        return Command::InstallRmdeps;
    }
    if chars_eq(&n, &chars_of("install-nocheck")) {
        return Command::InstallNocheck;
    }
    if chars_eq(&n, &chars_of("install-nogpg")) {
        return Command::InstallNogpg;
    }
    if chars_eq(&n, &chars_of("install-custom")) {
        return Command::InstallCustom;
    }
    if chars_eq(&n, &chars_of("fetch-sources")) {
        return Command::FetchSources;
    }
    if chars_eq(&n, &chars_of("checksums")) {
        return Command::Checksums;
    }
    if chars_eq(&n, &chars_of("genchecksums")) {
        return Command::GenChecksums;
    }
    if chars_eq(&n, &chars_of("srcinfo")) {
        return Command::Srcinfo;
    }
    if chars_eq(&n, &chars_of("namcap")) {
        return Command::Namcap;
    }
    if chars_eq(&n, &chars_of("shellcheck")) {
        return Command::Shellcheck;
    }
    if chars_eq(&n, &chars_of("validate")) {
        return Command::Validate;
    }
    if chars_eq(&n, &chars_of("validate-syntax")) {
        return Command::ValidateSyntax;
    }
    if chars_eq(&n, &chars_of("validate-parse")) {
        return Command::ValidateParse;
    }
    if chars_eq(&n, &chars_of("validate-sources")) {
        return Command::ValidateSources;
    }
    if chars_eq(&n, &chars_of("validate-deps")) {
        return Command::ValidateDeps;
    }
    if chars_eq(&n, &chars_of("clean")) {
        return Command::Clean;
    }
    if chars_eq(&n, &chars_of("clean-all")) {
        return Command::CleanAll;
    }
    if chars_eq(&n, &chars_of("aur-push")) {
        return Command::AurPush;
    }
    if chars_eq(&n, &chars_of("aur-push-tag")) {
        return Command::AurPushTag;
    }
    if chars_eq(&n, &chars_of("setup-nautilus")) {
        return Command::SetupNautilus;
    }
    if chars_eq(&n, &chars_of("help")) {
        return Command::Help;
    }
    if chars_eq(&n, &chars_of("-h")) {
        return Command::Help;
    }
    if chars_eq(&n, &chars_of("--help")) {
        return Command::Help;
    }
    if chars_eq(&n, &chars_of("--version")) {
        return Command::Version;
    }
    Command::Unknown
}

/// The makepkg flags a subcommand adds before the user's: `Some((install,
/// flags))` for the build and install commands (`install` selects `makepkg
/// -si`), `None` for the others.
pub open spec fn makepkg_base(c: Command) -> Option<(bool, Seq<Text>)> {
    match c {
        Command::Build | Command::BuildCustom => Some((false, seq![])),
        Command::BuildClean => Some((false, seq!["-c"@])),
        Command::BuildForce => Some((false, seq!["-f"@])),
        Command::BuildNocheck => Some((false, seq!["--nocheck"@])),
        Command::BuildNogpg => Some((false, seq!["--skippgpcheck"@])),
        Command::FetchSources => Some((false, seq!["-o"@])),
        Command::Install | Command::InstallCustom => Some((true, seq![])),
        Command::InstallClean => Some((true, seq!["-c"@])),
        Command::InstallForce => Some((true, seq!["-f"@])),
        Command::InstallRmdeps => Some((true, seq!["-r"@])),
        Command::InstallNocheck => Some((true, seq!["--nocheck"@])),
        Command::InstallNogpg => Some((true, seq!["--skippgpcheck"@])),
        _ => None,
    }
}

fn one(flag: &str) -> (v: Vec<String>)
    ensures
        v.deep_view() == seq![flag@],
{
    let v = vec![flag.to_string()];
    assert(v.deep_view() =~= seq![flag@]);
    v
}

/// For a build or install subcommand, whether it installs and its flags: the
/// command's own flag (if any) followed by `extra`.
pub fn makepkg_flags(c: Command, extra: &Vec<String>) -> (r: Option<(bool, Vec<String>)>)
    ensures
        r is None <==> makepkg_base(c) is None,
        r matches Some((install, flags)) ==> makepkg_base(c) matches Some((i, base)) && install == i
            && flags.deep_view() == base + extra.deep_view(),
{
    let (install, base): (bool, Vec<String>) = match c {
        Command::Build | Command::BuildCustom => (false, Vec::new()),
        Command::BuildClean => (false, one("-c")),
        Command::BuildForce => (false, one("-f")),
        Command::BuildNocheck => (false, one("--nocheck")),
        Command::BuildNogpg => (false, one("--skippgpcheck")),
        Command::FetchSources => (false, one("-o")),
        Command::Install | Command::InstallCustom => (true, Vec::new()),
        Command::InstallClean => (true, one("-c")),
        Command::InstallForce => (true, one("-f")),
        Command::InstallRmdeps => (true, one("-r")),
        Command::InstallNocheck => (true, one("--nocheck")),
        Command::InstallNogpg => (true, one("--skippgpcheck")),
        _ => {
            return None;
        },
    };
    assert(makepkg_base(c) matches Some((i, b)) && i == install && base.deep_view() == b);
    Some((install, merge_flags(&base, extra)))
}

/// Why `aur-push-tag` refuses its argument.
#[derive(Debug)]
pub enum TagError {
    /// No tag was given.
    Missing,
    /// The tag is empty.
    Empty,
    /// The tag holds a space (expected format: pkgver-pkgrel, e.g. 1.2.3-1).
    HasSpace(String),
}

pub ghost enum TagErrorV {
    Missing,
    Empty,
    HasSpace(Text),
}

impl View for TagError {
    type V = TagErrorV;

    open spec fn view(&self) -> TagErrorV {
        match self {
            TagError::Missing => TagErrorV::Missing,
            TagError::Empty => TagErrorV::Empty,
            TagError::HasSpace(t) => TagErrorV::HasSpace(t@),
        }
    }
}

/// The tag of `aur-push-tag`: the first extra flag, which must be non-empty
/// and free of spaces.
pub open spec fn tag_check(flags: Seq<Text>) -> Result<Text, TagErrorV> {
    if flags.len() == 0 {
        Err(TagErrorV::Missing)
    } else if flags[0].len() == 0 {
        Err(TagErrorV::Empty)
    } else if flags[0].contains(' ') {
        Err(TagErrorV::HasSpace(flags[0]))
    } else {
        Ok(flags[0])
    }
}

/// Validates the tag argument of `aur-push-tag`.
pub fn check_tag(flags: &Vec<String>) -> (r: Result<String, TagError>)
    ensures
        match r {
            Ok(t) => tag_check(flags.deep_view()) == Ok::<Text, TagErrorV>(t@),
            Err(e) => tag_check(flags.deep_view()) == Err::<Text, TagErrorV>(e@),
        },
{
    if flags.len() == 0 {
        return Err(TagError::Missing);
    }
    let t = chars_of(flags[0].as_str());
    assert(flags.deep_view()[0] == t@);
    if t.len() == 0 {
        Err(TagError::Empty)
    } else if contains_char(&t, ' ') {
        Err(TagError::HasSpace(flags[0].clone()))
    } else {
        Ok(flags[0].clone())
    }
}

/// The commit message of `aur-push`: the first extra flag, if any.
pub fn push_message(flags: &Vec<String>) -> (r: Option<String>)
    ensures
        r.deep_view() == (if flags.len() > 0 { Some(flags.deep_view()[0]) } else { None }),
{
    if flags.len() > 0 {
        Some(flags[0].clone())
    } else {
        None
    }
}

/// Each build subcommand passes makepkg the flag it is named after, and
/// nothing else before the user's flags: `build-clean` `-c`, `build-force`
/// `-f`, `build-nocheck` `--nocheck`, `build-nogpg` `--skippgpcheck`,
/// `fetch-sources` `-o`; `build` and `build-custom` none. The install
/// subcommands add the same flags as their build twins (`install-rmdeps`
/// adds `-r`) and are the only ones that install.
pub proof fn lemma_subcommand_flags()
    ensures
        makepkg_base(Command::Build) == Some((false, Seq::<Text>::empty())),
        makepkg_base(Command::BuildCustom) == Some((false, Seq::<Text>::empty())),
        makepkg_base(Command::BuildClean) == Some((false, seq!["-c"@])),
        makepkg_base(Command::BuildForce) == Some((false, seq!["-f"@])),
        makepkg_base(Command::BuildNocheck) == Some((false, seq!["--nocheck"@])),
        makepkg_base(Command::BuildNogpg) == Some((false, seq!["--skippgpcheck"@])),
        makepkg_base(Command::FetchSources) == Some((false, seq!["-o"@])),
        makepkg_base(Command::InstallRmdeps) == Some((true, seq!["-r"@])),
        forall|b: Command, i: Command|
            #![trigger makepkg_base(b), makepkg_base(i)]
            (b, i) == (Command::Build, Command::Install) || (b, i) == (Command::BuildCustom, Command::InstallCustom)
                || (b, i) == (Command::BuildClean, Command::InstallClean) || (b, i) == (
                Command::BuildForce,
                Command::InstallForce,
            ) || (b, i) == (Command::BuildNocheck, Command::InstallNocheck) || (b, i) == (
                Command::BuildNogpg,
                Command::InstallNogpg,
            ) ==> (makepkg_base(b) matches Some((installs, flags)) && !installs
                && makepkg_base(i) == Some((true, flags))),
{
}

} // verus!
