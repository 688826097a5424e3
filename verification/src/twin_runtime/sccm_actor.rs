//! The SCCM zone runtime: its context, the test-only mute, and the hazard-button streak.
use vstd::prelude::*;

use crate::twin_runtime::observation_streak::{spec_observe, ObservationStreak};
use crate::vehicle_state::{spec_sccm_on_message, ObservationDisposition, SccmContext, SccmMessage, SccmZoneReply};

verus! {

/// What the SCCM zone runtime holds between tells.
#[derive(Debug, Clone, Copy, PartialEq, Eq)]
pub struct SccmActorState {
    pub ctx: SccmContext,
    /// Test-only mute: a muted zone never tells back.
    pub silent: bool,
    pub hazard_streak: ObservationStreak,
}

/// `new` is `old` after the SCCM runtime applied `message`, answering `reply`.
///
/// Lifecycle messages reset the zone. A hazard-button observation is classified by the streak:
/// a duplicate leaves the context as it was; a first or changed value updates it (toggling
/// the hazard mode on a rising edge).
pub open spec fn spec_sccm_applied(old: SccmActorState, new: SccmActorState, message: SccmMessage, reply: SccmZoneReply) -> bool {
    &&& new.ctx == reply.ctx
    &&& new.silent == old.silent
    &&& match message {
        SccmMessage::HazardButtonObserved(value) => {
            let o = spec_observe(old.hazard_streak.spec_current(), old.hazard_streak.spec_duplicates(), value);
            &&& new.hazard_streak.spec_current() == o.1
            &&& new.hazard_streak.spec_duplicates() == o.2
            &&& reply.disposition == o.0
            &&& reply.ctx == if o.0 is Duplicate { old.ctx } else { spec_sccm_on_message(old.ctx, message).ctx }
        },
        _ => {
            &&& new.hazard_streak == old.hazard_streak
            &&& reply == spec_sccm_on_message(old.ctx, message)
        },
    }
}

impl SccmActorState {
    /// A runtime holding `ctx`, muted when `silent`, with no observation yet.
    pub fn new(ctx: SccmContext, silent: bool) -> (s: SccmActorState)
        ensures
            s.ctx == ctx,
            s.silent == silent,
            s.hazard_streak.spec_current() is None,
    {
        SccmActorState { ctx, silent, hazard_streak: ObservationStreak::default() }
    }

    /// One tell: a muted zone stays as it is and answers nothing; otherwise the message is
    /// applied and its reply is the tell-back.
    pub fn on_tell(&mut self, message: SccmMessage) -> (r: Option<SccmZoneReply>)
        ensures
            old(self).silent ==> r is None && *final(self) == *old(self),
            !old(self).silent ==> (r matches Some(reply) && spec_sccm_applied(*old(self), *final(self), message, reply)),
    {
        if self.silent {
            return None;
        }
        Some(apply_sccm_message(self, message))
    }
}

/// Apply one message to the SCCM runtime.
pub fn apply_sccm_message(state: &mut SccmActorState, message: SccmMessage) -> (reply: SccmZoneReply)
    ensures
        spec_sccm_applied(*old(state), *final(state), message, reply),
{
    match message {
        SccmMessage::BecomeOn | SccmMessage::BecomeOff => {
            let reply = state.ctx.on_receiving_message(message);
            state.ctx = reply.ctx;
            reply
        },
        SccmMessage::HazardButtonObserved(value) => {
            let disposition = state.hazard_streak.observe(value);
            match disposition {
                ObservationDisposition::Duplicate { .. } => SccmZoneReply { ctx: state.ctx, disposition },
                _ => {
                    let reply = state.ctx.on_receiving_message(message);
                    state.ctx = reply.ctx;
                    SccmZoneReply { ctx: reply.ctx, disposition }
                },
            }
        },
    }
}

} // verus!
