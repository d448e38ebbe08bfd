//! The station's control cycle: what the main loop does next after each
//! completed step. The steps themselves are outside work — fetching a report
//! over the network, driving the panel, pausing — so an unverified loop
//! performs them and asks this module for the next step.

use vstd::prelude::*;

verus! {

/// Seconds the station pauses between display updates.
pub const UPDATE_PAUSE_SECS: u64 = 600;

/// One step of the station's cycle.
#[derive(Clone, Copy, Debug, PartialEq, Eq, Structural)]
pub enum StationStep {
    /// Fetch a fresh weather report.
    FetchReport,
    /// Wake the panel from deep sleep.
    WakeDisplay,
    /// Render the report into the framebuffer.
    DrawReport,
    /// Flush the framebuffer and refresh the panel.
    Present,
    /// Put the panel back into deep sleep.
    SleepDisplay,
    /// Pause until the next update is due.
    Pause,
}

/// The step that follows a completed one in the update cycle.
pub open spec fn next_step_spec(step: StationStep) -> StationStep {
    match step {
        StationStep::FetchReport => StationStep::WakeDisplay,
        StationStep::WakeDisplay => StationStep::DrawReport,
        StationStep::DrawReport => StationStep::Present,
        StationStep::Present => StationStep::SleepDisplay,
        StationStep::SleepDisplay => StationStep::Pause,
        StationStep::Pause => StationStep::FetchReport,
    }
}

/// Advances the update cycle: fetch, wake, draw, present, sleep, pause, and
/// around again. A step that fails surfaces its error to the loop's caller;
/// the cycle itself has no retry.
pub fn next_step(step: StationStep) -> (r: StationStep)
    ensures
        r == next_step_spec(step),
{
    match step {
        StationStep::FetchReport => StationStep::WakeDisplay,
        StationStep::WakeDisplay => StationStep::DrawReport,
        StationStep::DrawReport => StationStep::Present,
        StationStep::Present => StationStep::SleepDisplay,
        StationStep::SleepDisplay => StationStep::Pause,
        StationStep::Pause => StationStep::FetchReport,
    }
}

/// The cycle returns to fetching after exactly six steps: no step is skipped
/// and none repeats within a round.
pub proof fn lemma_cycle_returns(step: StationStep)
    ensures
        next_step_spec(
            next_step_spec(
                next_step_spec(next_step_spec(next_step_spec(next_step_spec(step)))),
            ),
        ) == step,
{
}

} // verus!
