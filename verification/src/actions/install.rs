//! `makepkg -si`: build and install.

use vstd::prelude::*;
use crate::actions::flow::{Stage, StageV, Step, StepV};

verus! {

broadcast use vstd::string::group_string_axioms;

/// Runs `makepkg -si <extra_flags>` in the package directory of `path`, with
/// its work tree under the cache directory. The first step resolves `path`;
/// the action goes on through `flow::step`.
pub fn run(path: String, extra_flags: Vec<String>) -> (r: (Stage, Step))
    ensures
        r.0@ == (StageV::MakepkgResolving { args: seq!["-si"@] + extra_flags.deep_view() }),
        r.1@ == (StepV::ResolveTarget { path: path@ }),
{
    let mut args = vec!["-si".to_string()];
    let mut i: usize = 0;
    while i < extra_flags.len()
        invariant
            i <= extra_flags.len(),
            args.deep_view() == seq!["-si"@] + extra_flags.deep_view().take(i as int),
        decreases extra_flags.len() - i,
    {
        let f = extra_flags[i].clone();
        assert(extra_flags.deep_view()[i as int] == f@);
        let ghost before = args.deep_view();
        args.push(f);
        assert(args.deep_view() =~= before.push(f@));
        assert(extra_flags.deep_view().take(i + 1) =~= extra_flags.deep_view().take(i as int).push(f@));
        assert(args.deep_view() =~= seq!["-si"@] + extra_flags.deep_view().take(i + 1));
        i += 1;
    }
    assert(extra_flags.deep_view().take(extra_flags.len() as int) =~= extra_flags.deep_view());
    (Stage::MakepkgResolving { args }, Step::ResolveTarget { path })
}

} // verus!
