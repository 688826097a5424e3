//! The wiper zone runtime: its context and the test-only mute.
use vstd::prelude::*;

use crate::vehicle_state::{
    spec_wiper_next, spec_wiper_outcomes, WiperContext, WiperMessage, WiperZoneReply,
};

verus! {

/// What the wiper zone runtime holds between tells.
#[derive(Debug, Clone, Copy, PartialEq, Eq)]
pub struct WiperActorState {
    pub ctx: WiperContext,
    /// Test-only mute: a muted zone never tells back.
    pub silent: bool,
}

impl WiperActorState {
    /// A runtime holding `ctx`, muted when `silent`.
    pub fn new(ctx: WiperContext, silent: bool) -> (s: WiperActorState)
        ensures
            s == (WiperActorState { ctx, silent }),
    {
        WiperActorState { ctx, silent }
    }

    /// One tell: a muted zone stays as it is and answers nothing; otherwise the wiper applies
    /// the message, keeps the new context and tells it back with its outcomes.
    pub fn on_tell(&mut self, message: WiperMessage) -> (r: Option<WiperZoneReply>)
        ensures
            old(self).silent ==> r is None && *final(self) == *old(self),
            !old(self).silent ==> (r matches Some(reply)
                && reply.ctx.state == spec_wiper_next(old(self).ctx.state, message)
                && reply.outcomes.deep_view() == spec_wiper_outcomes(old(self).ctx.state, message)
                && final(self).ctx == reply.ctx
                && final(self).silent == old(self).silent),
    {
        if self.silent {
            return None;
        }
        let reply = self.ctx.on_receiving_message(message);
        self.ctx = reply.ctx;
        Some(reply)
    }
}

/// One tell to the wiper zone, correlated to its turn and attempt.
#[derive(Debug, Clone, Copy, PartialEq, Eq)]
pub struct WiperActorVocabulary {
    pub message: WiperMessage,
    pub now: crate::time::Instant,
    pub turn_id: u64,
    pub tell_attempt: u32,
}

/// The wiper zone's mailbox.
#[derive(Debug, Clone, Copy, PartialEq, Eq)]
pub enum WiperActorMsg {
    Apply(WiperActorVocabulary),
}
} // verus!
