use vstd::prelude::*;

verus! {

/// The radiance estimator's path-termination and branching policy.
///
/// The estimator itself does floating-point arithmetic and so runs in
/// the application layer, but every discrete decision it takes — when
/// Russian roulette applies, when a surviving path must be rescaled,
/// where the hard recursion ceiling lies, and when a dielectric
/// evaluates both Fresnel branches instead of sampling one — is decided
/// here, against the fixed depth thresholds of the renderer.

/// Russian roulette starts once the bounce depth exceeds this.
pub const ROULETTE_MIN_DEPTH: usize = 5;

/// The hard recursion ceiling: no path survives roulette at or past
/// this depth, whatever the roulette draw said.
pub const MAX_DEPTH: usize = 12;

/// Up to this bounce depth a dielectric surface evaluates both the
/// reflected and the refracted branch, weighted by the Fresnel terms;
/// past it, one branch is sampled stochastically.
pub const FRESNEL_SPLIT_MAX_DEPTH: usize = 2;

/// What the estimator does with the current path at one bounce.
#[derive(Clone, Copy, PartialEq, Eq, Structural, Debug)]
pub enum PathDecision {
    /// Recurse; roulette did not apply at this depth.
    Continue,
    /// Recurse, with the albedo rescaled by the survival probability's
    /// inverse (1 / max channel) to keep the estimator unbiased.
    ContinueRescaled,
    /// Stop here and return the material's emission alone.
    Terminate,
}

/// The roulette policy at bounce depth `new_depth` (the depth of the
/// recursive call about to be made), given whether the uniform draw
/// fell below the material's maximum albedo channel.
pub open spec fn spec_roulette_decision(new_depth: usize, draw_below_max_albedo: bool)
    -> PathDecision {
    if new_depth <= ROULETTE_MIN_DEPTH {
        PathDecision::Continue
    } else if draw_below_max_albedo && new_depth < MAX_DEPTH {
        PathDecision::ContinueRescaled
    } else {
        PathDecision::Terminate
    }
}

pub fn roulette_decision(new_depth: usize, draw_below_max_albedo: bool) -> (d: PathDecision)
    ensures
        d == spec_roulette_decision(new_depth, draw_below_max_albedo),
{
    if new_depth <= ROULETTE_MIN_DEPTH {
        PathDecision::Continue
    } else if draw_below_max_albedo && new_depth < MAX_DEPTH {
        PathDecision::ContinueRescaled
    } else {
        PathDecision::Terminate
    }
}

/// The recursion ceiling is hard: at or past `MAX_DEPTH` the policy
/// terminates the path no matter how the roulette draw came out, so no
/// recursion ever reaches depth `MAX_DEPTH + 1`.
pub proof fn lemma_depth_ceiling_is_hard(new_depth: usize, draw_below_max_albedo: bool)
    ensures
        new_depth >= MAX_DEPTH ==> spec_roulette_decision(new_depth, draw_below_max_albedo)
            == PathDecision::Terminate,
        spec_roulette_decision(new_depth, draw_below_max_albedo) != PathDecision::Terminate
            ==> new_depth < MAX_DEPTH,
{
}

/// Shallow paths are never killed: up to the roulette threshold the
/// policy continues unconditionally, so every primary ray and every
/// early bounce contributes.
pub proof fn lemma_shallow_paths_never_terminated(new_depth: usize, draw: bool)
    ensures
        new_depth <= ROULETTE_MIN_DEPTH ==> spec_roulette_decision(new_depth, draw)
            == PathDecision::Continue,
{
}

/// Whether a dielectric surface at bounce depth `new_depth` evaluates
/// both Fresnel branches deterministically (true) or samples a single
/// branch stochastically (false).
pub fn fresnel_split_is_deterministic(new_depth: usize) -> (deterministic: bool)
    ensures
        deterministic <==> new_depth <= FRESNEL_SPLIT_MAX_DEPTH,
{
    new_depth <= FRESNEL_SPLIT_MAX_DEPTH
}

} // verus!
