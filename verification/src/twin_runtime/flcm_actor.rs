//! The FLCM zone runtime: its context, power, one duplicate streak per lamp, and the liveness
//! watchdog that turns a lapse in lamp reports into a silence verdict.
use vstd::prelude::*;

use crate::time::Duration;
use crate::twin_runtime::observation_streak::{spec_observe, ObservationStreak};
use crate::vehicle_state::{
    spec_flcm_on_message, FlcmContext, FlcmMessage, FlcmZoneReply, ObservationDisposition,
};

verus! {

/// How long the FLCM may stay quiet after a lamp report before it is declared silent, in
/// milliseconds.
pub const FLCM_SILENCE_THRESHOLD_MILLIS: u64 = 500;

/// How long the FLCM may stay quiet after a lamp report before it is declared silent.
pub fn flcm_silence_threshold() -> (d: Duration)
    ensures
        d@ == FLCM_SILENCE_THRESHOLD_MILLIS * 1_000_000,
{
    Duration::from_millis(FLCM_SILENCE_THRESHOLD_MILLIS)
}

/// What the runtime must do with the silence watchdog after a tell.
#[derive(Debug, Clone, Copy, PartialEq, Eq)]
pub enum SilenceTimerAction {
    /// Leave the watchdog as it is.
    Keep,
    /// Abort any running watchdog.
    Cancel,
    /// Abort any running watchdog and start a new one for `deadline_id`.
    Arm { deadline_id: u64 },
}

/// What the FLCM zone runtime holds between tells.
#[derive(Debug, Clone, Copy, PartialEq, Eq)]
pub struct FlcmActorState {
    pub ctx: FlcmContext,
    /// Test-only mute: a muted zone never tells back. Unrelated to the liveness verdict
    /// `ctx.silent`.
    pub silent: bool,
    pub powered: bool,
    pub left_streak: ObservationStreak,
    pub right_streak: ObservationStreak,
    /// Identity of the current watchdog deadline; older deadlines are stale.
    pub deadline_id: u64,
}

/// The deadline identity after one invalidation (wrapping).
pub open spec fn spec_next_deadline(id: u64) -> u64 {
    if id == u64::MAX {
        0
    } else {
        (id + 1) as u64
    }
}

/// The reply to a lamp observation classified as `d` against context `ctx`: a duplicate from a
/// live module changes nothing; otherwise the status is recorded (which also clears a silence
/// verdict), and a duplicate that revives a silent module counts as a lifecycle reply.
pub open spec fn spec_flcm_observation(ctx: FlcmContext, message: FlcmMessage, d: ObservationDisposition) -> FlcmZoneReply {
    if d is Duplicate && !ctx.silent {
        FlcmZoneReply { ctx, disposition: d }
    } else {
        FlcmZoneReply {
            ctx: spec_flcm_on_message(ctx, message).ctx,
            disposition: if ctx.silent && d is Duplicate { ObservationDisposition::Lifecycle } else { d },
        }
    }
}

/// `new` is `old` after the FLCM runtime applied `message`, answering `reply`.
pub open spec fn spec_flcm_applied(old: FlcmActorState, new: FlcmActorState, message: FlcmMessage, reply: FlcmZoneReply) -> bool {
    &&& new.ctx == reply.ctx
    &&& new.silent == old.silent
    &&& new.deadline_id == old.deadline_id
    &&& match message {
        FlcmMessage::BecomeOn | FlcmMessage::BecomeOff => {
            &&& new.powered == (message == FlcmMessage::BecomeOn)
            &&& new.left_streak.spec_current() is None
            &&& new.left_streak.spec_duplicates() == 0
            &&& new.right_streak.spec_current() is None
            &&& new.right_streak.spec_duplicates() == 0
            &&& reply == spec_flcm_on_message(old.ctx, message)
        },
        FlcmMessage::LeftLowBeamStatusObserved(value) => {
            let o = spec_observe(old.left_streak.spec_current(), old.left_streak.spec_duplicates(), value);
            &&& new.powered == old.powered
            &&& new.left_streak.spec_current() == o.1
            &&& new.left_streak.spec_duplicates() == o.2
            &&& new.right_streak == old.right_streak
            &&& reply == spec_flcm_observation(old.ctx, message, o.0)
        },
        FlcmMessage::RightLowBeamStatusObserved(value) => {
            let o = spec_observe(old.right_streak.spec_current(), old.right_streak.spec_duplicates(), value);
            &&& new.powered == old.powered
            &&& new.right_streak.spec_current() == o.1
            &&& new.right_streak.spec_duplicates() == o.2
            &&& new.left_streak == old.left_streak
            &&& reply == spec_flcm_observation(old.ctx, message, o.0)
        },
        FlcmMessage::SilenceChanged(_) => {
            &&& new.powered == old.powered
            &&& new.left_streak == old.left_streak
            &&& new.right_streak == old.right_streak
            &&& reply == spec_flcm_on_message(old.ctx, message)
        },
    }
}

impl FlcmActorState {
    /// A runtime holding `ctx`, muted when `silent`, unpowered, with no observation yet.
    pub fn new(ctx: FlcmContext, silent: bool) -> (s: FlcmActorState)
        ensures
            s.ctx == ctx,
            s.silent == silent,
            !s.powered,
            s.left_streak.spec_current() is None,
            s.right_streak.spec_current() is None,
            s.deadline_id == 0,
    {
        FlcmActorState {
            ctx,
            silent,
            powered: false,
            left_streak: ObservationStreak::default(),
            right_streak: ObservationStreak::default(),
            deadline_id: 0,
        }
    }

    /// Invalidate the current deadline.
    pub fn cancel_silence_deadline(&mut self)
        ensures
            *final(self) == (FlcmActorState { deadline_id: spec_next_deadline(old(self).deadline_id), ..*old(self) }),
    {
        self.deadline_id = self.deadline_id.wrapping_add(1);
    }

    /// One tell. A muted zone stays as it is and answers nothing. Otherwise the message is
    /// applied and told back; a lamp report restarts the watchdog (or only invalidates it while
    /// unpowered), a power change invalidates it, a silence verdict leaves it.
    pub fn on_tell(&mut self, message: FlcmMessage) -> (r: Option<(FlcmZoneReply, SilenceTimerAction)>)
        ensures
            old(self).silent ==> r is None && *final(self) == *old(self),
            !old(self).silent ==> (r matches Some((reply, action)) && {
                let applied = FlcmActorState { deadline_id: old(self).deadline_id, ..*final(self) };
                &&& spec_flcm_applied(*old(self), applied, message, reply)
                &&& match message {
                    FlcmMessage::SilenceChanged(_) => action == SilenceTimerAction::Keep
                        && final(self).deadline_id == old(self).deadline_id,
                    FlcmMessage::BecomeOn | FlcmMessage::BecomeOff => action == SilenceTimerAction::Cancel
                        && final(self).deadline_id == spec_next_deadline(old(self).deadline_id),
                    _ => final(self).deadline_id == spec_next_deadline(old(self).deadline_id)
                        && action == if final(self).powered {
                            SilenceTimerAction::Arm { deadline_id: final(self).deadline_id }
                        } else {
                            SilenceTimerAction::Cancel
                        },
                }
            }),
    {
        if self.silent {
            return None;
        }
        let reply = apply_flcm_message(self, message);
        let action = match message {
            FlcmMessage::LeftLowBeamStatusObserved(_) | FlcmMessage::RightLowBeamStatusObserved(_) => {
                self.cancel_silence_deadline();
                if self.powered {
                    SilenceTimerAction::Arm { deadline_id: self.deadline_id }
                } else {
                    SilenceTimerAction::Cancel
                }
            },
            FlcmMessage::BecomeOn | FlcmMessage::BecomeOff => {
                self.cancel_silence_deadline();
                SilenceTimerAction::Cancel
            },
            FlcmMessage::SilenceChanged(_) => SilenceTimerAction::Keep,
        };
        Some((reply, action))
    }

    /// A watchdog deadline elapsed. Only the current deadline of a powered module counts: it
    /// records the silence verdict and returns the reply to announce; anything else is ignored.
    pub fn on_silence_deadline(&mut self, deadline_id: u64) -> (r: Option<FlcmZoneReply>)
        ensures
            (deadline_id != old(self).deadline_id || !old(self).powered) ==> r is None && *final(self) == *old(self),
            (deadline_id == old(self).deadline_id && old(self).powered) ==> (r matches Some(reply)
                && reply == spec_flcm_on_message(old(self).ctx, FlcmMessage::SilenceChanged(true))
                && *final(self) == (FlcmActorState { ctx: reply.ctx, ..*old(self) })),
    {
        if deadline_id != self.deadline_id || !self.powered {
            return None;
        }
        let reply = self.ctx.on_receiving_message(FlcmMessage::SilenceChanged(true));
        self.ctx = reply.ctx;
        Some(reply)
    }
}

/// Apply one message to the FLCM runtime (the watchdog is left to the caller).
pub fn apply_flcm_message(state: &mut FlcmActorState, message: FlcmMessage) -> (reply: FlcmZoneReply)
    ensures
        spec_flcm_applied(*old(state), *final(state), message, reply),
{
    let reply = match message {
        FlcmMessage::BecomeOn => {
            state.powered = true;
            state.left_streak = ObservationStreak::default();
            state.right_streak = ObservationStreak::default();
            state.ctx.on_receiving_message(message)
        },
        FlcmMessage::BecomeOff => {
            state.powered = false;
            state.left_streak = ObservationStreak::default();
            state.right_streak = ObservationStreak::default();
            state.ctx.on_receiving_message(message)
        },
        FlcmMessage::LeftLowBeamStatusObserved(value) => {
            let disposition = state.left_streak.observe(value);
            apply_observation(&state.ctx, message, disposition)
        },
        FlcmMessage::RightLowBeamStatusObserved(value) => {
            let disposition = state.right_streak.observe(value);
            apply_observation(&state.ctx, message, disposition)
        },
        FlcmMessage::SilenceChanged(_) => state.ctx.on_receiving_message(message),
    };
    state.ctx = reply.ctx;
    reply
}

/// The reply to a lamp observation already classified as `disposition`.
pub fn apply_observation(ctx: &FlcmContext, message: FlcmMessage, disposition: ObservationDisposition) -> (reply: FlcmZoneReply)
    ensures
        reply == spec_flcm_observation(*ctx, message, disposition),
{
    let duplicate = match disposition {
        ObservationDisposition::Duplicate { .. } => true,
        _ => false,
    };
    if duplicate && !ctx.silent {
        return FlcmZoneReply { ctx: *ctx, disposition };
    }
    let mut reply = ctx.on_receiving_message(message);
    reply.disposition = if ctx.silent && duplicate {
        ObservationDisposition::Lifecycle
    } else {
        disposition
    };
    reply
}

/// One tell to the FLCM zone, correlated to its turn and attempt.
#[derive(Debug, Clone, Copy, PartialEq, Eq)]
pub struct FlcmActorVocabulary {
    pub message: FlcmMessage,
    pub turn_id: u64,
    pub tell_attempt: u32,
}

/// The FLCM zone's mailbox: tells, and its own watchdog deadlines.
#[derive(Debug, Clone, Copy, PartialEq, Eq)]
pub enum FlcmActorMsg {
    Apply(FlcmActorVocabulary),
    SilenceDeadlineElapsed { deadline_id: u64 },
}
} // verus!
