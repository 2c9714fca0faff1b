use vstd::prelude::*;

verus! {

/// How a web view takes part in hit testing.
#[derive(Clone, Copy, Debug, PartialEq, Eq, Structural)]
pub enum HitTestMode {
    /// The view answers hit tests as a plain `WKWebView` does.
    Normal,
    /// The view never captures an event: every point passes to what lies below.
    PassThrough,
    /// The view captures a point only inside its frame and inside one of its
    /// interactive regions.
    RegionBased,
}

/// The first step of a hit test, decided from the mode alone.
#[derive(Clone, Copy, Debug, PartialEq, Eq, Structural)]
pub enum HitTestStep {
    /// Answer "no view", so that the event reaches the views below.
    PassThrough,
    /// Let the superclass answer the hit test.
    DelegateToSuper,
    /// The point must be located in the view's frame and regions first.
    CheckRegions,
}

/// The answer of a hit test once everything it depends on is known.
#[derive(Clone, Copy, Debug, PartialEq, Eq, Structural)]
pub enum HitTestOutcome {
    /// Answer "no view", so that the event reaches the views below.
    PassThrough,
    /// Let the superclass answer the hit test.
    DelegateToSuper,
}

/// The step that a hit test in `mode` takes first.
pub open spec fn spec_hit_test_step(mode: HitTestMode) -> HitTestStep {
    match mode {
        HitTestMode::PassThrough => HitTestStep::PassThrough,
        HitTestMode::Normal => HitTestStep::DelegateToSuper,
        HitTestMode::RegionBased => HitTestStep::CheckRegions,
    }
}

/// The outcome of a region-based hit test for a point that lies inside the
/// view's frame or not, and inside one of its interactive regions or not.
pub open spec fn spec_region_hit_outcome(in_bounds: bool, in_active_region: bool) -> HitTestOutcome {
    if in_bounds && in_active_region {
        HitTestOutcome::DelegateToSuper
    } else {
        HitTestOutcome::PassThrough
    }
}

/// The whole hit-test decision: in region-based mode the two facts about the
/// point decide, in the other modes the mode alone does.
pub open spec fn spec_hit_test_outcome(
    mode: HitTestMode,
    in_bounds: bool,
    in_active_region: bool,
) -> HitTestOutcome {
    match mode {
        HitTestMode::PassThrough => HitTestOutcome::PassThrough,
        HitTestMode::Normal => HitTestOutcome::DelegateToSuper,
        HitTestMode::RegionBased => spec_region_hit_outcome(in_bounds, in_active_region),
    }
}

/// Decides the first step of a hit test from the view's mode: pass-through
/// mode never captures, normal mode defers to the superclass, and
/// region-based mode asks for the point's geometry.
pub fn hit_test_step(mode: HitTestMode) -> (step: HitTestStep)
    ensures
        step == spec_hit_test_step(mode),
{
    match mode {
        HitTestMode::PassThrough => HitTestStep::PassThrough,
        HitTestMode::Normal => HitTestStep::DelegateToSuper,
        HitTestMode::RegionBased => HitTestStep::CheckRegions,
    }
}

/// Decides a region-based hit test once the point has been located: the
/// superclass answers only for a point inside the view's frame that lies in
/// one of its interactive regions; every other point passes through.
pub fn region_hit_outcome(in_bounds: bool, in_active_region: bool) -> (outcome: HitTestOutcome)
    ensures
        outcome == spec_region_hit_outcome(in_bounds, in_active_region),
        outcome == HitTestOutcome::DelegateToSuper <==> (in_bounds && in_active_region),
{
    if !in_bounds {
        return HitTestOutcome::PassThrough;
    }
    if in_active_region {
        HitTestOutcome::DelegateToSuper
    } else {
        HitTestOutcome::PassThrough
    }
}

/// The outcome that the two steps give together: the step decided by the
/// mode, then, in region-based mode only, the outcome decided by the point.
pub open spec fn spec_outcome_of_steps(
    step: HitTestStep,
    in_bounds: bool,
    in_active_region: bool,
) -> HitTestOutcome {
    match step {
        HitTestStep::PassThrough => HitTestOutcome::PassThrough,
        HitTestStep::DelegateToSuper => HitTestOutcome::DelegateToSuper,
        HitTestStep::CheckRegions => spec_region_hit_outcome(in_bounds, in_active_region),
    }
}

/// Running the two steps of a hit test gives the whole decision: a view in
/// pass-through mode never captures a point, a view in normal mode always
/// lets its superclass answer, and a region-based view lets its superclass
/// answer exactly for points inside its frame and inside an interactive region.
pub proof fn lemma_hit_test_steps_decide(mode: HitTestMode, in_bounds: bool, in_active_region: bool)
    ensures
        spec_outcome_of_steps(spec_hit_test_step(mode), in_bounds, in_active_region)
            == spec_hit_test_outcome(mode, in_bounds, in_active_region),
        mode == HitTestMode::PassThrough ==> spec_hit_test_outcome(mode, in_bounds, in_active_region)
            == HitTestOutcome::PassThrough,
        mode == HitTestMode::Normal ==> spec_hit_test_outcome(mode, in_bounds, in_active_region)
            == HitTestOutcome::DelegateToSuper,
        mode == HitTestMode::RegionBased ==> (spec_hit_test_outcome(mode, in_bounds, in_active_region)
            == HitTestOutcome::DelegateToSuper <==> in_bounds && in_active_region),
{
}

} // verus!
