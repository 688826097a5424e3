//! The BCM zone runtime: its context, the test-only mute, and one duplicate streak per turn
//! signal.
use vstd::prelude::*;

use crate::twin_runtime::observation_streak::{spec_observe, ObservationStreak};
use crate::vehicle_state::{
    spec_bcm_next, BcmContext, BcmMessage, BcmOutcome, BcmZoneReply, ObservationDisposition,
};

verus! {

/// What the BCM zone runtime holds between tells.
#[derive(Debug, Clone, Copy, PartialEq, Eq)]
pub struct BcmActorState {
    pub ctx: BcmContext,
    /// Test-only mute: a muted zone never tells back.
    pub silent: bool,
    pub left_streak: ObservationStreak,
    pub right_streak: ObservationStreak,
}

/// `new` is `old` after the BCM runtime applied `message`, answering `reply`.
///
/// Lifecycle and hazard messages go straight to the context as lifecycle replies. A turn
/// observation is classified by its own streak: a duplicate leaves the context as it was and
/// is answered as such; a first or changed value updates the context.
pub open spec fn spec_bcm_applied(old: BcmActorState, new: BcmActorState, message: BcmMessage, reply: BcmZoneReply) -> bool {
    &&& reply.outcomes@ == Seq::<BcmOutcome>::empty()
    &&& new.ctx == reply.ctx
    &&& new.silent == old.silent
    &&& match message {
        BcmMessage::LeftTurnRequestObserved(value) => {
            let o = spec_observe(old.left_streak.spec_current(), old.left_streak.spec_duplicates(), value);
            &&& new.left_streak.spec_current() == o.1
            &&& new.left_streak.spec_duplicates() == o.2
            &&& new.right_streak == old.right_streak
            &&& reply.disposition == o.0
            &&& reply.ctx == if o.0 is Duplicate { old.ctx } else { spec_bcm_next(old.ctx, message) }
        },
        BcmMessage::RightTurnRequestObserved(value) => {
            let o = spec_observe(old.right_streak.spec_current(), old.right_streak.spec_duplicates(), value);
            &&& new.right_streak.spec_current() == o.1
            &&& new.right_streak.spec_duplicates() == o.2
            &&& new.left_streak == old.left_streak
            &&& reply.disposition == o.0
            &&& reply.ctx == if o.0 is Duplicate { old.ctx } else { spec_bcm_next(old.ctx, message) }
        },
        _ => {
            &&& new.left_streak == old.left_streak
            &&& new.right_streak == old.right_streak
            &&& reply.disposition == ObservationDisposition::Lifecycle
            &&& reply.ctx == spec_bcm_next(old.ctx, message)
        },
    }
}

impl BcmActorState {
    /// A runtime holding `ctx`, muted when `silent`, with no observation yet.
    pub fn new(ctx: BcmContext, silent: bool) -> (s: BcmActorState)
        ensures
            s.ctx == ctx,
            s.silent == silent,
            s.left_streak.spec_current() is None,
            s.right_streak.spec_current() is None,
    {
        BcmActorState {
            ctx,
            silent,
            left_streak: ObservationStreak::default(),
            right_streak: ObservationStreak::default(),
        }
    }

    /// One tell: a muted zone stays as it is and answers nothing; otherwise the message is
    /// applied and its reply is the tell-back.
    pub fn on_tell(&mut self, message: BcmMessage) -> (r: Option<BcmZoneReply>)
        ensures
            old(self).silent ==> r is None && *final(self) == *old(self),
            !old(self).silent ==> (r matches Some(reply) && spec_bcm_applied(*old(self), *final(self), message, reply)),
    {
        if self.silent {
            return None;
        }
        Some(apply_bcm_message(self, message))
    }
}

/// Apply one message to the BCM runtime.
pub fn apply_bcm_message(state: &mut BcmActorState, message: BcmMessage) -> (reply: BcmZoneReply)
    ensures
        spec_bcm_applied(*old(state), *final(state), message, reply),
{
    match message {
        BcmMessage::BecomeOn | BcmMessage::BecomeOff | BcmMessage::HazardButtonChanged(_) => {
            let mut reply = state.ctx.on_receiving_message(message);
            reply.disposition = ObservationDisposition::Lifecycle;
            state.ctx = reply.ctx;
            reply
        },
        BcmMessage::LeftTurnRequestObserved(value) => observe_bcm_bool(state, message, value, true),
        BcmMessage::RightTurnRequestObserved(value) => observe_bcm_bool(state, message, value, false),
    }
}

/// One turn observation: classify it on its side's streak, then update the context unless
/// it repeats the last value.
pub fn observe_bcm_bool(state: &mut BcmActorState, message: BcmMessage, value: bool, left: bool) -> (reply: BcmZoneReply)
    requires
        left ==> message == BcmMessage::LeftTurnRequestObserved(value),
        !left ==> message == BcmMessage::RightTurnRequestObserved(value),
    ensures
        spec_bcm_applied(*old(state), *final(state), message, reply),
{
    let disposition = if left {
        state.left_streak.observe(value)
    } else {
        state.right_streak.observe(value)
    };
    match disposition {
        ObservationDisposition::Duplicate { .. } => BcmZoneReply {
            ctx: state.ctx,
            outcomes: Vec::new(),
            disposition,
        },
        _ => {
            let mut reply = state.ctx.on_receiving_message(message);
            reply.disposition = disposition;
            state.ctx = reply.ctx;
            reply
        },
    }
}

} // verus!
