//! Regenerating `.SRCINFO`.

use vstd::prelude::*;
use crate::actions::flow::{Stage, StageV, Step, StepV};

verus! {

/// Regenerates `.SRCINFO` in the package directory of `path`
/// (`makepkg --printsrcinfo > .SRCINFO`). The first step resolves `path`; the
/// action goes on through `flow::step`.
pub fn run(path: String) -> (r: (Stage, Step))
    ensures
        r.0@ == StageV::SrcinfoResolving,
        r.1@ == (StepV::ResolveTarget { path: path@ }),
{
    (Stage::SrcinfoResolving, Step::ResolveTarget { path })
}

} // verus!
