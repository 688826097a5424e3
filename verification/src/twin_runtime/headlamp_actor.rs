//! The front headlamp zone runtime: its context, the test-only mute, and the acknowledgement
//! watchdog that reports a switch the actuator never confirmed.
use vstd::prelude::*;

use crate::digital_twin::ZoneSpontaneousEvent;
use crate::time::Instant;
use crate::twin_runtime::flcm_actor::spec_next_deadline;
use crate::vehicle_physics::{FRONT_HEADLAMP_OFF_ACK_WAIT_MILLIS, FRONT_HEADLAMP_ON_ACK_WAIT_MILLIS};
use crate::vehicle_state::{
    spec_headlamp_next, spec_headlamp_outcomes, FrontHeadlampIncompleteCause,
    FrontHeadlampSwitchDirection, HeadlampContext, HeadlampMessage, HeadlampState,
    HeadlampZoneReply,
};

verus! {

/// What the runtime must do with the acknowledgement watchdog after a tell.
#[derive(Debug, Clone, Copy, PartialEq, Eq)]
pub enum AckTimerAction {
    /// Leave the watchdog as it is.
    Keep,
    /// Abort any running watchdog.
    Cancel,
    /// Abort any running watchdog and start one for `deadline_id`, due after `wait_millis`.
    Arm { deadline_id: u64, wait_millis: u64 },
}

/// What the headlamp zone runtime holds between tells.
#[derive(Debug, Clone, Copy, PartialEq, Eq)]
pub struct HeadlampActorState {
    pub ctx: HeadlampContext,
    /// Test-only mute: a muted zone never tells back.
    pub silent: bool,
    /// Identity of the current acknowledgement deadline; older deadlines are stale.
    pub deadline_id: u64,
}

/// A switch awaits its acknowledgement in state `s`.
pub open spec fn spec_awaiting_ack(s: HeadlampState) -> bool {
    s == HeadlampState::OnRequested || s == HeadlampState::OffRequested
}

impl HeadlampActorState {
    /// A runtime holding `ctx`, muted when `silent`.
    pub fn new(ctx: HeadlampContext, silent: bool) -> (s: HeadlampActorState)
        ensures
            s == (HeadlampActorState { ctx, silent, deadline_id: 0 }),
    {
        HeadlampActorState { ctx, silent, deadline_id: 0 }
    }

    /// One tell at time `now`. A muted zone stays as it is and answers nothing. Otherwise the
    /// message is applied and told back; a new switch request starts the watchdog for its
    /// direction's wait, a resolved request stops it.
    pub fn on_tell(&mut self, message: HeadlampMessage, now: Instant) -> (r: Option<(HeadlampZoneReply, AckTimerAction)>)
        ensures
            old(self).silent ==> r is None && *final(self) == *old(self),
            !old(self).silent ==> (r matches Some((reply, action)) && {
                let before = old(self).ctx.state;
                let after = reply.ctx.state;
                &&& reply.ctx == spec_headlamp_next(old(self).ctx, message, now)
                &&& reply.outcomes.deep_view() == spec_headlamp_outcomes(old(self).ctx, message, now)
                &&& final(self).ctx == reply.ctx
                &&& final(self).silent == old(self).silent
                &&& if spec_awaiting_ack(after) && after != before {
                    &&& final(self).deadline_id == spec_next_deadline(old(self).deadline_id)
                    &&& action == AckTimerAction::Arm {
                        deadline_id: final(self).deadline_id,
                        wait_millis: if after == HeadlampState::OnRequested {
                            FRONT_HEADLAMP_ON_ACK_WAIT_MILLIS
                        } else {
                            FRONT_HEADLAMP_OFF_ACK_WAIT_MILLIS
                        },
                    }
                } else if spec_awaiting_ack(before) && !spec_awaiting_ack(after) {
                    &&& final(self).deadline_id == spec_next_deadline(old(self).deadline_id)
                    &&& action == AckTimerAction::Cancel
                } else {
                    &&& final(self).deadline_id == old(self).deadline_id
                    &&& action == AckTimerAction::Keep
                }
            }),
    {
        if self.silent {
            return None;
        }
        let before = self.ctx.state;
        let reply = self.ctx.on_receiving_message(message, now);
        self.ctx = reply.ctx;
        let after = reply.ctx.state;
        let awaiting_after = matches!(after, HeadlampState::OnRequested | HeadlampState::OffRequested);
        let awaiting_before = matches!(before, HeadlampState::OnRequested | HeadlampState::OffRequested);
        let unchanged = match (before, after) {
            (HeadlampState::OnRequested, HeadlampState::OnRequested) => true,
            (HeadlampState::OffRequested, HeadlampState::OffRequested) => true,
            _ => false,
        };
        let action = if awaiting_after && !unchanged {
            self.deadline_id = self.deadline_id.wrapping_add(1);
            let wait_millis = if matches!(after, HeadlampState::OnRequested) {
                FRONT_HEADLAMP_ON_ACK_WAIT_MILLIS
            } else {
                FRONT_HEADLAMP_OFF_ACK_WAIT_MILLIS
            };
            AckTimerAction::Arm { deadline_id: self.deadline_id, wait_millis }
        } else if awaiting_before && !awaiting_after {
            self.deadline_id = self.deadline_id.wrapping_add(1);
            AckTimerAction::Cancel
        } else {
            AckTimerAction::Keep
        };
        Some((reply, action))
    }

    /// An acknowledgement deadline elapsed at `now`. Only the current deadline of a switch
    /// still awaiting its acknowledgement counts: the switch is reported incomplete (timed out),
    /// reverted, and the event to announce is returned; anything else is ignored.
    pub fn on_ack_deadline(&mut self, deadline_id: u64, now: Instant) -> (r: Option<ZoneSpontaneousEvent>)
        ensures
            (deadline_id != old(self).deadline_id || !spec_awaiting_ack(old(self).ctx.state)) ==> r is None
                && *final(self) == *old(self),
            (deadline_id == old(self).deadline_id && spec_awaiting_ack(old(self).ctx.state)) ==> {
                let direction = if old(self).ctx.state == HeadlampState::OnRequested {
                    FrontHeadlampSwitchDirection::On
                } else {
                    FrontHeadlampSwitchDirection::Off
                };
                let message = HeadlampMessage::ActuationIncomplete {
                    direction,
                    cause: FrontHeadlampIncompleteCause::TimedOut,
                };
                r matches Some(ZoneSpontaneousEvent::Headlamp { direction: d, cause, reply })
                    && d == direction
                    && cause == FrontHeadlampIncompleteCause::TimedOut
                    && reply.ctx == spec_headlamp_next(old(self).ctx, message, now)
                    && reply.outcomes.deep_view() == spec_headlamp_outcomes(old(self).ctx, message, now)
                    && final(self).ctx == reply.ctx
                    && final(self).silent == old(self).silent
                    && final(self).deadline_id == spec_next_deadline(old(self).deadline_id)
            },
    {
        if deadline_id != self.deadline_id {
            return None;
        }
        let direction = match self.ctx.state {
            HeadlampState::OnRequested => FrontHeadlampSwitchDirection::On,
            HeadlampState::OffRequested => FrontHeadlampSwitchDirection::Off,
            _ => {
                return None;
            },
        };
        let cause = FrontHeadlampIncompleteCause::TimedOut;
        let reply = self.ctx.on_receiving_message(HeadlampMessage::ActuationIncomplete { direction, cause }, now);
        self.ctx = reply.ctx;
        self.deadline_id = self.deadline_id.wrapping_add(1);
        Some(ZoneSpontaneousEvent::Headlamp { direction, cause, reply })
    }
}

} // verus!
