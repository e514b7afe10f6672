//! PKGBUILD static analysis without compiling: the offline suite's report.

use vstd::prelude::*;
use crate::text::{chars_of, string_of, trim, trim_ws};

verus! {

broadcast use vstd::string::group_string_axioms;

pub type Text = Seq<char>;

/// The makepkg arguments of the single validation commands.
pub fn parse_args() -> (r: Vec<String>)
    ensures
        r.deep_view() == seq!["--nobuild"@, "--noextract"@],
{
    let r = vec!["--nobuild".to_string(), "--noextract".to_string()];
    assert(r.deep_view() =~= seq!["--nobuild"@, "--noextract"@]);
    r
}

pub fn verify_sources_args() -> (r: Vec<String>)
    ensures
        r.deep_view() == seq!["--verifysource"@],
{
    let r = vec!["--verifysource".to_string()];
    assert(r.deep_view() =~= seq!["--verifysource"@]);
    r
}

pub fn check_deps_args() -> (r: Vec<String>)
    ensures
        r.deep_view() == seq!["--syncdeps"@, "--nobuild"@],
{
    let r = vec!["--syncdeps".to_string(), "--nobuild".to_string()];
    assert(r.deep_view() =~= seq!["--syncdeps"@, "--nobuild"@]);
    r
}

/// The outcome of `makepkg --printsrcinfo` as a syntax check: success, or
/// the trimmed error output as the reason.
pub fn syntax_outcome(success: bool, stderr: &str) -> (r: Result<(), String>)
    ensures
        success ==> r is Ok,
        !success ==> (r matches Err(m) && m@ == trim(stderr@)),
{
    if success {
        Ok(())
    } else {
        Err(string_of(&trim_ws(&chars_of(stderr))))
    }
}

/// The checks of the offline suite, in the order they run.
pub open spec fn check_prefixes() -> Seq<Text> {
    seq!["[syntax]    "@, "[parse]     "@, "[namcap]    "@, "[shellcheck]"@]
}

/// The failures of the offline suite, each prefixed with its check, in order.
pub open spec fn failure_report(results: Seq<Option<Text>>) -> Seq<Text>
    decreases results.len(),
{
    if results.len() == 0 {
        seq![]
    } else {
        let rest = failure_report(results.drop_last());
        match results.last() {
            Some(e) => rest.push(check_prefixes()[results.len() - 1] + e),
            None => rest,
        }
    }
}

/// Collects the failures of syntax → parse → namcap → shellcheck (`None`
/// for a check that passed), each prefixed with its check. The suite passes
/// when the list is empty.
pub fn offline_failures(
    syntax: Option<String>,
    parse: Option<String>,
    namcap: Option<String>,
    shellcheck: Option<String>,
) -> (r: Vec<String>)
    ensures
        r.deep_view() == failure_report(
            seq![syntax.deep_view(), parse.deep_view(), namcap.deep_view(), shellcheck.deep_view()],
        ),
{
    let ghost results = seq![
        syntax.deep_view(),
        parse.deep_view(),
        namcap.deep_view(),
        shellcheck.deep_view(),
    ];
    let mut r: Vec<String> = Vec::new();
    assert(results.take(1).drop_last() =~= Seq::<Option<Text>>::empty());
    assert(failure_report(Seq::<Option<Text>>::empty()) =~= Seq::<Text>::empty());
    assert(results.take(1).last() == syntax.deep_view());
    assert(results.take(2).last() == parse.deep_view());
    assert(results.take(3).last() == namcap.deep_view());
    assert(results.take(4).last() == shellcheck.deep_view());
    if let Some(e) = syntax {
        let mut m = "[syntax]    ".to_string();
        m.append(e.as_str());
        r.push(m);
    }
    assert(r.deep_view() =~= failure_report(results.take(1)));
    if let Some(e) = parse {
        let mut m = "[parse]     ".to_string();
        m.append(e.as_str());
        r.push(m);
    }
    assert(results.take(2).drop_last() =~= results.take(1));
    assert(r.deep_view() =~= failure_report(results.take(2)));
    if let Some(e) = namcap {
        let mut m = "[namcap]    ".to_string();
        m.append(e.as_str());
        r.push(m);
    }
    assert(results.take(3).drop_last() =~= results.take(2));
    assert(r.deep_view() =~= failure_report(results.take(3)));
    if let Some(e) = shellcheck {
        let mut m = "[shellcheck]".to_string();
        m.append(e.as_str());
        r.push(m);
    }
    assert(results.take(4).drop_last() =~= results.take(3));
    assert(results.take(4) =~= results);
    r
}

} // verus!
