//! `makepkg`: build only.

use vstd::prelude::*;
use crate::actions::flow::{Stage, StageV, Step, StepV};

verus! {

/// Runs `makepkg <extra_flags>` in the package directory of `path`, with its
/// work tree under the cache directory. The first step resolves `path`; the
/// action goes on through `flow::step`.
pub fn run(path: String, extra_flags: Vec<String>) -> (r: (Stage, Step))
    ensures
        r.0@ == (StageV::MakepkgResolving { args: extra_flags.deep_view() }),
        r.1@ == (StepV::ResolveTarget { path: path@ }),
{
    (Stage::MakepkgResolving { args: extra_flags }, Step::ResolveTarget { path })
}

} // verus!
