//! Tell-back retry policy and the synthetic replies that stand in for a zone that never
//! answered.
use vstd::prelude::*;

use crate::digital_twin::ZoneReply;
use crate::fsm::AssemblyId;
use crate::twin_runtime::constants::ZONE_TELL_BACK_MAX_RETRIES;
use crate::vehicle_state::{
    BcmZoneReply, FlcmZoneReply, HeadlampContext, HeadlampOutcome, HeadlampOutcomeView,
    HeadlampZoneReply, ObservationDisposition, SccmZoneReply, VehicleContext, WiperContext,
    WiperOutcome, WiperOutcomeView, WiperZoneReply,
};

verus! {

/// Correlation state of one zone's tell-back within a turn.
#[derive(Debug, Clone, Copy, PartialEq, Eq)]
pub struct TellBackWait {
    pub turn_id: u64,
    /// The attempt whose reply is awaited; replies to earlier attempts are stale.
    pub tell_attempt: u32,
    /// Re-tells left before the brain gives up.
    pub retries_remaining: u32,
}

impl TellBackWait {
    /// The wait opened by the first tell of turn `turn_id`, with the full retry budget.
    pub fn new(turn_id: u64) -> (w: TellBackWait)
        ensures
            w == (TellBackWait {
                turn_id,
                tell_attempt: 0,
                retries_remaining: ZONE_TELL_BACK_MAX_RETRIES,
            }),
    {
        TellBackWait { turn_id, tell_attempt: 0, retries_remaining: ZONE_TELL_BACK_MAX_RETRIES }
    }
}

/// What a fired tell-back timer leads to.
#[derive(Debug, Clone, PartialEq, Eq)]
pub enum TellBackTimeoutOutcome {
    /// Tell again; the wait now awaits the next attempt.
    Retry(TellBackWait),
    /// The budget is spent; this reply stands in for the silent zone.
    Exhausted(HeadlampZoneReply),
}

/// Text of the warning that stands in for a silent headlamp zone.
pub open spec fn headlamp_unresponsive_text() -> Seq<char> {
    "front headlamp zone unresponsive"@
}

/// Text of the warning that stands in for a silent wiper zone.
pub open spec fn wiper_unresponsive_text() -> Seq<char> {
    "wiper unresponsive"@
}

/// The headlamp reply used when the zone never answered: context unchanged, one warning.
pub fn synthetic_unresponsive_headlamp_reply(ctx: &HeadlampContext) -> (r: HeadlampZoneReply)
    ensures
        r.ctx == *ctx,
        r.outcomes.deep_view() == seq![HeadlampOutcomeView::LogWarning(headlamp_unresponsive_text())],
{
    let mut outcomes: Vec<HeadlampOutcome> = Vec::new();
    outcomes.push(HeadlampOutcome::LogWarning(String::from_str("front headlamp zone unresponsive")));
    proof {
        assert(outcomes.deep_view() =~= seq![HeadlampOutcomeView::LogWarning(headlamp_unresponsive_text())]);
    }
    HeadlampZoneReply { ctx: *ctx, outcomes }
}

/// The wiper reply used when the zone never answered: context unchanged, one warning.
pub fn synthetic_unresponsive_wiper_reply(ctx: &WiperContext) -> (r: WiperZoneReply)
    ensures
        r.ctx == *ctx,
        r.outcomes.deep_view() == seq![WiperOutcomeView::LogWarning(wiper_unresponsive_text())],
{
    let mut outcomes: Vec<WiperOutcome> = Vec::new();
    outcomes.push(WiperOutcome::LogWarning(String::from_str("wiper unresponsive")));
    proof {
        assert(outcomes.deep_view() =~= seq![WiperOutcomeView::LogWarning(wiper_unresponsive_text())]);
    }
    WiperZoneReply { ctx: *ctx, outcomes }
}

/// A fired headlamp timer: retry while budget remains (the attempt advances, the budget
/// shrinks by one), else give up with the synthetic reply for `ctx`.
pub fn on_tell_back_timeout(ctx: &HeadlampContext, wait: TellBackWait) -> (r: TellBackTimeoutOutcome)
    ensures
        wait.retries_remaining > 0 ==> r == TellBackTimeoutOutcome::Retry(TellBackWait {
            turn_id: wait.turn_id,
            tell_attempt: if wait.tell_attempt == u32::MAX { u32::MAX } else { (wait.tell_attempt + 1) as u32 },
            retries_remaining: (wait.retries_remaining - 1) as u32,
        }),
        wait.retries_remaining == 0 ==> (r matches TellBackTimeoutOutcome::Exhausted(reply)
            && reply.ctx == *ctx
            && reply.outcomes.deep_view() == seq![HeadlampOutcomeView::LogWarning(headlamp_unresponsive_text())]),
{
    if wait.retries_remaining > 0 {
        TellBackTimeoutOutcome::Retry(TellBackWait {
            turn_id: wait.turn_id,
            tell_attempt: wait.tell_attempt.saturating_add(1),
            retries_remaining: wait.retries_remaining - 1,
        })
    } else {
        TellBackTimeoutOutcome::Exhausted(synthetic_unresponsive_headlamp_reply(ctx))
    }
}

/// `r` stands in for assembly `id` when it never answered, given the current context: observing
/// zones repeat their context as a lifecycle reply; headlamp and wiper add an unresponsive warning.
pub open spec fn spec_synthetic_reply(ctx: VehicleContext, id: AssemblyId, r: ZoneReply) -> bool {
    match id {
        AssemblyId::Sccm => r == ZoneReply::Sccm(SccmZoneReply {
            ctx: ctx.sccm,
            disposition: ObservationDisposition::Lifecycle,
        }),
        AssemblyId::Bcm => r matches ZoneReply::Bcm(b) && b.ctx == ctx.bcm && b.outcomes@.len() == 0
            && b.disposition == ObservationDisposition::Lifecycle,
        AssemblyId::Flcm => r == ZoneReply::Flcm(FlcmZoneReply {
            ctx: ctx.flcm,
            disposition: ObservationDisposition::Lifecycle,
        }),
        AssemblyId::Headlamp => r matches ZoneReply::Headlamp(h) && h.ctx == ctx.headlamp
            && h.outcomes.deep_view() == seq![HeadlampOutcomeView::LogWarning(headlamp_unresponsive_text())],
        AssemblyId::Wiper => r matches ZoneReply::Wiper(w) && w.ctx == ctx.wiper
            && w.outcomes.deep_view() == seq![WiperOutcomeView::LogWarning(wiper_unresponsive_text())],
    }
}

/// The reply that closes the slot of assembly `id` after its retries are spent.
pub fn synthetic_reply_for(ctx: &VehicleContext, id: AssemblyId) -> (r: ZoneReply)
    ensures
        spec_synthetic_reply(*ctx, id, r),
{
    match id {
        AssemblyId::Sccm => ZoneReply::Sccm(SccmZoneReply {
            ctx: ctx.sccm,
            disposition: ObservationDisposition::Lifecycle,
        }),
        AssemblyId::Bcm => ZoneReply::Bcm(BcmZoneReply {
            ctx: ctx.bcm,
            outcomes: Vec::new(),
            disposition: ObservationDisposition::Lifecycle,
        }),
        AssemblyId::Flcm => ZoneReply::Flcm(FlcmZoneReply {
            ctx: ctx.flcm,
            disposition: ObservationDisposition::Lifecycle,
        }),
        AssemblyId::Headlamp => ZoneReply::Headlamp(synthetic_unresponsive_headlamp_reply(&ctx.headlamp)),
        AssemblyId::Wiper => ZoneReply::Wiper(synthetic_unresponsive_wiper_reply(&ctx.wiper)),
    }
}

/// The wait after `n` spent attempts, starting from a fresh one for turn `turn_id`.
pub open spec fn spec_wait_after(turn_id: u64, n: nat) -> TellBackWait
    decreases n,
{
    if n == 0 {
        TellBackWait { turn_id, tell_attempt: 0, retries_remaining: ZONE_TELL_BACK_MAX_RETRIES }
    } else {
        let w = spec_wait_after(turn_id, (n - 1) as nat);
        TellBackWait { turn_id, tell_attempt: (w.tell_attempt + 1) as u32, retries_remaining: (w.retries_remaining - 1) as u32 }
    }
}

/// A silent zone is told at most [`crate::twin_runtime::constants::ZONE_TELL_BACK_ATTEMPT_COUNT`]
/// times: after `n` spent attempts (n up to the retry budget) the wait awaits attempt `n` with
/// `budget - n` retries left, so the budget runs out exactly after the last retry.
pub proof fn law_tell_back_budget(turn_id: u64, n: nat)
    requires
        n <= ZONE_TELL_BACK_MAX_RETRIES,
    ensures
        spec_wait_after(turn_id, n).tell_attempt == n,
        spec_wait_after(turn_id, n).retries_remaining == ZONE_TELL_BACK_MAX_RETRIES - n,
        (spec_wait_after(turn_id, n).retries_remaining == 0) <==> n == ZONE_TELL_BACK_MAX_RETRIES,
    decreases n,
{
    if n > 0 {
        law_tell_back_budget(turn_id, (n - 1) as nat);
    }
}

} // verus!
