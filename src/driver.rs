//! The order in which one frame is driven through the chain.
use vstd::prelude::*;

use crate::stage::STAGE_COUNT;

verus! {

/// One step of driving a frame. Steps that wait on a fence block the host
/// until the GPU work they submitted has completed.
#[derive(Clone, Copy, Debug, PartialEq, Eq, Structural)]
pub enum DriverStep {
    /// Provision pass `i` from the views the previous pass handed on. For the
    /// first pass this includes uploading the raw mosaic and waiting on it.
    Provision(usize),
    /// Record pass `i` into the main command buffer: bind its pipeline, push
    /// its constants, bind its descriptor set, dispatch the shared work groups.
    Record(usize),
    /// Build and submit the main command buffer, then wait on its fence.
    SubmitMain,
    /// Run the last pass's readback copy, then wait on its fence.
    Readback,
    /// Hand the readback staging buffer to the caller.
    Expose,
    /// Nothing is left to do.
    Done,
}

/// The step that follows `s`.
pub open spec fn next_step(s: DriverStep) -> DriverStep {
    match s {
        DriverStep::Provision(i) => DriverStep::Record(i),
        DriverStep::Record(i) => if i + 1 < STAGE_COUNT {
            DriverStep::Provision((i + 1) as usize)
        } else {
            DriverStep::SubmitMain
        },
        DriverStep::SubmitMain => DriverStep::Readback,
        DriverStep::Readback => DriverStep::Expose,
        _ => DriverStep::Done,
    }
}

/// The step reached after `n` steps from the first one.
pub open spec fn step_after(n: int) -> DriverStep
    decreases n,
{
    if n <= 0 {
        DriverStep::Provision(0)
    } else {
        next_step(step_after(n - 1))
    }
}

/// Whether a step blocks on a fence.
pub open spec fn waits_on_fence(s: DriverStep) -> bool {
    s == DriverStep::Provision(0) || s == DriverStep::SubmitMain || s == DriverStep::Readback
}

impl DriverStep {
    /// The first step of every frame: provisioning the first pass.
    pub fn start() -> (r: DriverStep)
        ensures
            r == step_after(0),
    {
        DriverStep::Provision(0)
    }

    /// The step that follows this one.
    pub fn next(self) -> (r: DriverStep)
        ensures
            r == next_step(self),
    {
        match self {
            DriverStep::Provision(i) => DriverStep::Record(i),
            DriverStep::Record(i) => if i < STAGE_COUNT - 1 {
                DriverStep::Provision(i + 1)
            } else {
                DriverStep::SubmitMain
            },
            DriverStep::SubmitMain => DriverStep::Readback,
            DriverStep::Readback => DriverStep::Expose,
            _ => DriverStep::Done,
        }
    }

    /// Whether this step blocks the host on a fence.
    pub fn waits_on_fence(self) -> (r: bool)
        ensures
            r == waits_on_fence(self),
    {
        match self {
            DriverStep::Provision(i) => i == 0,
            DriverStep::SubmitMain | DriverStep::Readback => true,
            _ => false,
        }
    }

    pub fn is_done(self) -> (r: bool)
        ensures
            r == (self == DriverStep::Done),
    {
        matches!(self, DriverStep::Done)
    }
}

/// Every pass is provisioned and then recorded, in chain order, pass `i`
/// at steps `2i` and `2i + 1`; the main submission, the readback and the
/// hand-over follow, and the frame is then done.
pub proof fn lemma_driver_schedule(i: int)
    requires
        0 <= i < STAGE_COUNT,
    ensures
        step_after(2 * i) == DriverStep::Provision(i as usize),
        step_after(2 * i + 1) == DriverStep::Record(i as usize),
        step_after(2 * STAGE_COUNT) == DriverStep::SubmitMain,
        step_after(2 * STAGE_COUNT + 1) == DriverStep::Readback,
        step_after(2 * STAGE_COUNT + 2) == DriverStep::Expose,
        step_after(2 * STAGE_COUNT + 3) == DriverStep::Done,
    decreases i,
{
    if i > 0 {
        lemma_driver_schedule(i - 1);
    } else {
        lemma_driver_schedule_tail();
    }
}

proof fn lemma_driver_schedule_tail()
    ensures
        step_after(2 * STAGE_COUNT) == DriverStep::SubmitMain,
        step_after(2 * STAGE_COUNT + 1) == DriverStep::Readback,
        step_after(2 * STAGE_COUNT + 2) == DriverStep::Expose,
        step_after(2 * STAGE_COUNT + 3) == DriverStep::Done,
{
    reveal_with_fuel(step_after, 16);
}

/// A frame blocks the host exactly three times: after the upload, after
/// the main submission and after the readback.
pub proof fn lemma_three_fence_waits(n: int)
    requires
        0 <= n <= 2 * STAGE_COUNT + 3,
    ensures
        waits_on_fence(step_after(n)) <==> (n == 0 || n == 2 * STAGE_COUNT || n == 2
            * STAGE_COUNT + 1),
{
    reveal_with_fuel(step_after, 16);
}

} // verus!
