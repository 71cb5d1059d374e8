//! Connection manager: the transport connection's lifecycle as a
//! state machine.  The caller performs the transport calls (handshake,
//! push, clear) and feeds each outcome back in; this module decides
//! the next state, the next action, and the backoff delay before it.
//!
//! Both the initial connect and the recovery after a failed push retry
//! forever with exponential backoff: there is no fallback transport,
//! so giving up has no recovery path.

use vstd::prelude::*;

use crate::presence::ActivityPayload;

verus! {

/// Whether the transport connection is currently established.
#[derive(Clone, Copy, Debug, PartialEq, Eq, Structural)]
pub enum ConnState {
    Disconnected,
    Connected,
}

/// The reconnect delay before attempt `attempt + 1`: one second
/// doubled per failed attempt, saturating at `u64::MAX` milliseconds.
pub open spec fn spec_backoff_ms(attempt: nat) -> u64
    decreases attempt,
{
    if attempt == 0 {
        1000u64
    } else {
        let prev = spec_backoff_ms((attempt - 1) as nat);
        if prev <= u64::MAX / 2 {
            (2 * prev) as u64
        } else {
            u64::MAX
        }
    }
}

/// Computes the backoff delay for the given failed-attempt count.
pub fn backoff_ms(attempt: u32) -> (r: u64)
    ensures
        r == spec_backoff_ms(attempt as nat),
{
    let mut cur: u64 = 1000;
    let mut i: u32 = 0;
    while i < attempt
        invariant
            i <= attempt,
            cur == spec_backoff_ms(i as nat),
        decreases attempt - i,
    {
        if cur <= u64::MAX / 2 {
            cur = cur * 2;
        } else {
            cur = u64::MAX;
        }
        i += 1;
    }
    cur
}

/// Outcome of one handshake attempt: the connection state afterwards,
/// and — on failure — the delay to wait before attempt `attempt + 1`.
/// The state moves to `Connected` only on success.
pub fn connect_step(success: bool, attempt: u32) -> (r: (ConnState, Option<u64>))
    ensures
        success ==> r == (ConnState::Connected, None::<u64>),
        !success ==> r == (ConnState::Disconnected, Some(spec_backoff_ms(attempt as nat))),
{
    if success {
        (ConnState::Connected, None)
    } else {
        (ConnState::Disconnected, Some(backoff_ms(attempt)))
    }
}

/// Where a resilient status push stands: still to be (re)sent,
/// waiting out a reconnect, or applied.
#[derive(Clone, Copy, Debug, PartialEq, Eq, Structural)]
pub enum SetPhase {
    /// The payload is due to be pushed.
    Sending,
    /// The push failed; reconnect attempts are under way.
    Reconnecting { attempt: u32 },
    /// The transport accepted the payload.
    Applied,
}

/// What the caller must do next for a resilient status push.
#[derive(Clone, Copy, Debug, PartialEq, Eq, Structural)]
pub enum SetAction {
    /// Push the task's payload to the transport.
    PushPayload,
    /// Wait out the delay, then attempt a transport reconnect.
    Reconnect { delay_ms: u64 },
    /// The logical push is complete.
    Done,
}

/// Next phase and action once a push came back: success applies the
/// update; failure starts the reconnect sequence at its first delay.
pub open spec fn spec_after_send(ok: bool) -> (SetPhase, SetAction) {
    if ok {
        (SetPhase::Applied, SetAction::Done)
    } else {
        (SetPhase::Reconnecting { attempt: 0 }, SetAction::Reconnect {
            delay_ms: spec_backoff_ms(0),
        })
    }
}

/// Next phase and action once a reconnect attempt came back: success
/// directs an immediate re-push of the same payload; failure schedules
/// the next attempt after a doubled delay.
pub open spec fn spec_after_reconnect(attempt: u32, ok: bool) -> (SetPhase, SetAction) {
    if ok {
        (SetPhase::Sending, SetAction::PushPayload)
    } else {
        let next = if attempt < u32::MAX {
            (attempt + 1) as u32
        } else {
            attempt
        };
        (SetPhase::Reconnecting { attempt: next }, SetAction::Reconnect {
            delay_ms: spec_backoff_ms(next as nat),
        })
    }
}

/// One logical "set status" operation: a fixed payload plus the phase
/// of its delivery.  The payload never changes while the task runs, so
/// an intervening reconnect re-pushes exactly the update that failed.
pub struct SetStatusTask {
    pub payload: ActivityPayload,
    pub phase: SetPhase,
}

impl SetStatusTask {
    /// Starts a push: the payload is due to be sent.
    pub fn begin(payload: ActivityPayload) -> (t: Self)
        ensures
            t.payload == payload,
            t.phase is Sending,
    {
        SetStatusTask { payload, phase: SetPhase::Sending }
    }

    /// Records the transport's answer to a push.
    pub fn after_send(&mut self, ok: bool) -> (a: SetAction)
        requires
            old(self).phase is Sending,
        ensures
            final(self).payload == old(self).payload,
            (final(self).phase, a) == spec_after_send(ok),
    {
        if ok {
            self.phase = SetPhase::Applied;
            SetAction::Done
        } else {
            self.phase = SetPhase::Reconnecting { attempt: 0 };
            SetAction::Reconnect { delay_ms: backoff_ms(0) }
        }
    }

    /// Records the transport's answer to a reconnect attempt.
    pub fn after_reconnect(&mut self, ok: bool) -> (a: SetAction)
        requires
            old(self).phase matches SetPhase::Reconnecting { .. },
        ensures
            final(self).payload == old(self).payload,
            ({
                let attempt = old(self).phase->attempt;
                (final(self).phase, a) == spec_after_reconnect(attempt, ok)
            }),
    {
        let attempt: u32 = match self.phase {
            SetPhase::Reconnecting { attempt } => attempt,
            _ => 0,
        };
        if ok {
            self.phase = SetPhase::Sending;
            SetAction::PushPayload
        } else {
            let next: u32 = if attempt < u32::MAX {
                attempt + 1
            } else {
                attempt
            };
            self.phase = SetPhase::Reconnecting { attempt: next };
            SetAction::Reconnect { delay_ms: backoff_ms(next) }
        }
    }
}

/// A push that fails once and then reconnects is still applied: the
/// failed push starts a reconnect, a successful reconnect directs an
/// immediate re-push, and that push's success completes the update —
/// the payload is never skipped for the cycle.
pub proof fn lemma_reconnect_then_resume()
    ensures
        spec_after_send(false) == (SetPhase::Reconnecting { attempt: 0u32 }, SetAction::Reconnect {
            delay_ms: spec_backoff_ms(0),
        }),
        spec_after_reconnect(0, true) == (SetPhase::Sending, SetAction::PushPayload),
        spec_after_send(true) == (SetPhase::Applied, SetAction::Done),
{
}

} // verus!
