//! Synchronization-loop planner: given where a poll cycle stands —
//! connected or not, something displayable or not — it decides the
//! cycle's action and the connected flag afterwards.  Transitions are
//! edge-triggered: display lines are logged only on the
//! disconnected-to-displaying edge, and a clear fires only on the
//! displaying-to-idle edge.

use vstd::prelude::*;

use crate::media::MediaType;

verus! {

/// What one poll cycle does after the display verdict is known.
#[derive(Clone, Copy, Debug, PartialEq, Eq, Structural)]
pub enum CycleAction {
    /// Push a presence update.
    Show {
        /// Announce the display lines — only on the edge into display.
        log_lines: bool,
        /// Resolve the image through the cache first (enabled, and the
        /// content is not live TV, whose posters are not cached).
        resolve_image: bool,
    },
    /// Push an explicit clear — only on the edge out of display.
    ClearPresence,
    /// Nothing to do this cycle.
    Idle,
}

/// The cycle's action: display when something displayable is playing,
/// clear exactly when leaving display, otherwise idle.
pub open spec fn spec_plan_cycle(
    connected: bool,
    displayable: bool,
    images_enabled: bool,
    mt: MediaType,
) -> CycleAction {
    if displayable {
        CycleAction::Show {
            log_lines: !connected,
            resolve_image: images_enabled && !(mt is LiveTv),
        }
    } else if connected {
        CycleAction::ClearPresence
    } else {
        CycleAction::Idle
    }
}

/// The connected flag after the cycle: set while something is
/// displayed, dropped once a clear was due.
pub open spec fn spec_next_connected(connected: bool, displayable: bool) -> bool {
    displayable
}

/// Runtime cycle planner.
pub fn plan_cycle(connected: bool, displayable: bool, images_enabled: bool, mt: MediaType) -> (r:
    CycleAction)
    ensures
        r == spec_plan_cycle(connected, displayable, images_enabled, mt),
{
    if displayable {
        CycleAction::Show {
            log_lines: !connected,
            resolve_image: images_enabled && !matches!(mt, MediaType::LiveTv),
        }
    } else if connected {
        CycleAction::ClearPresence
    } else {
        CycleAction::Idle
    }
}

/// Runtime connected flag after the cycle.
pub fn next_connected(connected: bool, displayable: bool) -> (r: bool)
    ensures
        r == spec_next_connected(connected, displayable),
{
    displayable
}

/// Across two consecutive displayable cycles the display lines are
/// announced at most once: the second cycle, running connected, never
/// logs them again.
pub proof fn lemma_display_logs_once(connected: bool, images_enabled: bool, mt: MediaType)
    ensures
        ({
            let after_first = spec_next_connected(connected, true);
            spec_plan_cycle(after_first, true, images_enabled, mt) matches CycleAction::Show {
                log_lines,
                ..
            } && !log_lines
        }),
{
}

/// Leaving display triggers exactly one clear: the cycle on the edge
/// clears, and the following non-displayable cycle is idle.
pub proof fn lemma_clear_fires_once(images_enabled: bool, mt: MediaType)
    ensures
        spec_plan_cycle(true, false, images_enabled, mt) == CycleAction::ClearPresence,
        spec_plan_cycle(spec_next_connected(true, false), false, images_enabled, mt)
            == CycleAction::Idle,
{
}

/// While nothing is displayable and the presence already stands
/// cleared, no cycle ever clears again.
pub proof fn lemma_no_redundant_clear(images_enabled: bool, mt: MediaType)
    ensures
        spec_plan_cycle(false, false, images_enabled, mt) == CycleAction::Idle,
{
}

} // verus!
