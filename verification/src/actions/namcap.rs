//! `namcap PKGBUILD *.pkg.tar.*`: namcap exits with 0 even when it finds
//! errors, so its output is read for error lines.

use vstd::prelude::*;
use crate::text::{chars_of, contains_chars, contains_seq, has_prefix, lines, split_lines, starts_with, trim, trim_ws};

verus! {

broadcast use vstd::string::group_string_axioms;

pub type Text = Seq<char>;

/// The arguments of namcap: the PKGBUILD, then every built package file.
pub fn namcap_args(pkg_files: Vec<String>) -> (r: Vec<String>)
    ensures
        r.deep_view() == seq!["PKGBUILD"@] + pkg_files.deep_view(),
{
    let mut r = vec!["PKGBUILD".to_string()];
    let ghost before = r.deep_view();
    let ghost more = pkg_files.deep_view();
    let mut files = pkg_files;
    r.append(&mut files);
    assert(r.deep_view() =~= before + more);
    r
}

/// A namcap error line: trimmed, it holds ` E: ` (`PKGBUILD (name) E: …`)
/// or starts with `E: `. Warnings (`W:`) are not errors.
pub open spec fn is_error_line(l: Text) -> bool {
    contains_seq(trim(l), " E: "@) || starts_with(trim(l), "E: "@)
}

/// The number of error lines among `ls`.
pub open spec fn error_count(ls: Seq<Text>) -> nat
    decreases ls.len(),
{
    if ls.len() == 0 {
        0
    } else {
        error_count(ls.drop_last()) + if is_error_line(ls.last()) {
            1nat
        } else {
            0nat
        }
    }
}

/// Counts the error lines of namcap's output (stdout followed by stderr).
pub fn namcap_error_count(stdout: &str, stderr: &str) -> (n: usize)
    ensures
        n == error_count(lines(stdout@ + stderr@)),
{
    let mut all = chars_of(stdout);
    let mut rest = chars_of(stderr);
    all.append(&mut rest);
    let ls = split_lines(&all);
    let ghost lv = lines(stdout@ + stderr@);
    let e = chars_of(" E: ");
    let p = chars_of("E: ");
    let mut n: usize = 0;
    let mut i: usize = 0;
    while i < ls.len()
        invariant
            i <= ls.len(),
            lv == lines(stdout@ + stderr@),
            ls.len() == lv.len(),
            forall|j: int| 0 <= j < ls.len() ==> #[trigger] ls[j]@ == lv[j],
            e@ == " E: "@,
            p@ == "E: "@,
            n == error_count(lv.take(i as int)),
            n <= i,
        decreases ls.len() - i,
    {
        assert(lv.take(i + 1).drop_last() =~= lv.take(i as int));
        assert(ls[i as int]@ == lv[i as int]);
        let t = trim_ws(&ls[i]);
        if contains_chars(&t, &e) || has_prefix(&t, &p) {
            n += 1;
        }
        i += 1;
    }
    assert(lv.take(ls.len() as int) =~= lv);
    n
}

/// How a namcap run ended.
#[derive(Clone, Copy, Debug, PartialEq, Eq, Structural)]
pub enum NamcapVerdict {
    /// No error line, successful exit.
    Clean,
    /// This many error lines.
    Errors(usize),
    /// No error line, but an unsuccessful exit status.
    Failed,
}

/// Error lines take precedence; an unsuccessful exit fails the run too.
pub fn namcap_verdict(error_lines: usize, success: bool) -> (v: NamcapVerdict)
    ensures
        v == (if error_lines > 0 {
            NamcapVerdict::Errors(error_lines)
        } else if !success {
            NamcapVerdict::Failed
        } else {
            NamcapVerdict::Clean
        }),
{
    if error_lines > 0 {
        NamcapVerdict::Errors(error_lines)
    } else if !success {
        NamcapVerdict::Failed
    } else {
        NamcapVerdict::Clean
    }
}

} // verus!
