//! Ingress demultiplexing: an [`FsmEvent`] becomes a message for one zone, and the zone's
//! answer (a tell-back when one arrived, the zone's own state machine otherwise) is merged into
//! the vehicle context.
use vstd::prelude::*;

use crate::digital_twin::{ZoneMessage, ZoneReply};
use crate::fsm::{AssemblyId, FsmEvent, FsmState};
use crate::time::Instant;
use crate::twin_runtime::zone_replies::ZoneReplies;
use crate::vehicle_physics::speed_from_rpm;
use crate::vehicle_state::{
    spec_bcm_next, spec_flcm_on_message, spec_headlamp_next, spec_headlamp_outcomes,
    spec_sccm_on_message, spec_wiper_next, spec_wiper_outcomes, BcmContext, BcmMessage,
    BcmOutcome, BcmZoneReply, FlcmContext, FlcmMessage, FlcmZoneReply, HeadlampContext,
    HeadlampMessage, HeadlampOutcome, HeadlampOutcomeView, HeadlampZoneReply, SccmContext,
    SccmMessage, SccmZoneReply, VehicleContext, WiperContext, WiperMessage, WiperOutcome,
    WiperOutcomeView, WiperZoneReply,
};

verus! {

/// Tagged zone egress of one zone turn.
#[derive(Debug, Clone, PartialEq)]
pub enum ZoneOutcome {
    Bcm(BcmOutcome),
    Headlamp(HeadlampOutcome),
    Wiper(WiperOutcome),
}

/// Ghost image of a [`ZoneOutcome`].
pub enum ZoneOutcomeView {
    Bcm(BcmOutcome),
    Headlamp(HeadlampOutcomeView),
    Wiper(WiperOutcomeView),
}

impl DeepView for ZoneOutcome {
    type V = ZoneOutcomeView;

    open spec fn deep_view(&self) -> ZoneOutcomeView {
        match self {
            ZoneOutcome::Bcm(o) => ZoneOutcomeView::Bcm(*o),
            ZoneOutcome::Headlamp(o) => ZoneOutcomeView::Headlamp(o.deep_view()),
            ZoneOutcome::Wiper(o) => ZoneOutcomeView::Wiper(o.deep_view()),
        }
    }
}

/// Zone layer output for one event: the merged context and the zones' outcomes.
#[derive(Debug)]
pub struct ZoneTurnResult {
    pub ctx: VehicleContext,
    pub outcomes: Vec<ZoneOutcome>,
}

// ── routing ──────────────────────────────────────────────────────────────────

/// The zone a user event is told to, and the message it receives.
pub open spec fn spec_user_event_to_zone_tell(event: FsmEvent) -> Option<(AssemblyId, ZoneMessage)> {
    match event {
        FsmEvent::HazardButtonObserved(on) => Some(
            (AssemblyId::Sccm, ZoneMessage::Sccm(SccmMessage::HazardButtonObserved(on))),
        ),
        FsmEvent::LeftTurnRequestObserved(on) => Some(
            (AssemblyId::Bcm, ZoneMessage::Bcm(BcmMessage::LeftTurnRequestObserved(on))),
        ),
        FsmEvent::RightTurnRequestObserved(on) => Some(
            (AssemblyId::Bcm, ZoneMessage::Bcm(BcmMessage::RightTurnRequestObserved(on))),
        ),
        FsmEvent::LeftLowBeamStatusObserved(ok) => Some(
            (AssemblyId::Flcm, ZoneMessage::Flcm(FlcmMessage::LeftLowBeamStatusObserved(ok))),
        ),
        FsmEvent::RightLowBeamStatusObserved(ok) => Some(
            (AssemblyId::Flcm, ZoneMessage::Flcm(FlcmMessage::RightLowBeamStatusObserved(ok))),
        ),
        FsmEvent::HazardButtonChanged(on) => Some(
            (AssemblyId::Bcm, ZoneMessage::Bcm(BcmMessage::HazardButtonChanged(on))),
        ),
        FsmEvent::UpdateAmbientLux(lux) => Some(
            (AssemblyId::Headlamp, ZoneMessage::Headlamp(HeadlampMessage::AmbientLux(lux))),
        ),
        FsmEvent::FrontHeadlampOnAck => Some(
            (AssemblyId::Headlamp, ZoneMessage::Headlamp(HeadlampMessage::AckOn)),
        ),
        FsmEvent::FrontHeadlampOffAck => Some(
            (AssemblyId::Headlamp, ZoneMessage::Headlamp(HeadlampMessage::AckOff)),
        ),
        FsmEvent::FrontHeadlampActuationIncomplete { direction, cause } => Some(
            (
                AssemblyId::Headlamp,
                ZoneMessage::Headlamp(HeadlampMessage::ActuationIncomplete { direction, cause }),
            ),
        ),
        FsmEvent::RainsStarted => Some((AssemblyId::Wiper, ZoneMessage::Wiper(WiperMessage::Start))),
        FsmEvent::RainsStopped => Some((AssemblyId::Wiper, ZoneMessage::Wiper(WiperMessage::Stop))),
        _ => None,
    }
}

/// State-aware routing: no zone tell while the brain is off or starting or stopping assemblies.
pub open spec fn spec_zone_message_for_event(event: FsmEvent, state: FsmState) -> Option<
    (AssemblyId, ZoneMessage),
> {
    match state {
        FsmState::PreparingToStart(_) | FsmState::PreparingToStop(_) | FsmState::Off => None,
        _ => spec_user_event_to_zone_tell(event),
    }
}

/// Map a user event to the zone it is told to. Power, RPM, timer, internal and assembly
/// lifecycle events need no tell.
pub fn user_event_to_zone_tell(event: &FsmEvent) -> (r: Option<(AssemblyId, ZoneMessage)>)
    ensures
        r == spec_user_event_to_zone_tell(*event),
{
    match event {
        FsmEvent::HazardButtonObserved(on) => Some(
            (AssemblyId::Sccm, ZoneMessage::Sccm(SccmMessage::HazardButtonObserved(*on))),
        ),
        FsmEvent::LeftTurnRequestObserved(on) => Some(
            (AssemblyId::Bcm, ZoneMessage::Bcm(BcmMessage::LeftTurnRequestObserved(*on))),
        ),
        FsmEvent::RightTurnRequestObserved(on) => Some(
            (AssemblyId::Bcm, ZoneMessage::Bcm(BcmMessage::RightTurnRequestObserved(*on))),
        ),
        FsmEvent::LeftLowBeamStatusObserved(ok) => Some(
            (AssemblyId::Flcm, ZoneMessage::Flcm(FlcmMessage::LeftLowBeamStatusObserved(*ok))),
        ),
        FsmEvent::RightLowBeamStatusObserved(ok) => Some(
            (AssemblyId::Flcm, ZoneMessage::Flcm(FlcmMessage::RightLowBeamStatusObserved(*ok))),
        ),
        FsmEvent::HazardButtonChanged(on) => Some(
            (AssemblyId::Bcm, ZoneMessage::Bcm(BcmMessage::HazardButtonChanged(*on))),
        ),
        FsmEvent::UpdateAmbientLux(lux) => Some(
            (AssemblyId::Headlamp, ZoneMessage::Headlamp(HeadlampMessage::AmbientLux(*lux))),
        ),
        FsmEvent::FrontHeadlampOnAck => Some(
            (AssemblyId::Headlamp, ZoneMessage::Headlamp(HeadlampMessage::AckOn)),
        ),
        FsmEvent::FrontHeadlampOffAck => Some(
            (AssemblyId::Headlamp, ZoneMessage::Headlamp(HeadlampMessage::AckOff)),
        ),
        FsmEvent::FrontHeadlampActuationIncomplete { direction, cause } => Some(
            (
                AssemblyId::Headlamp,
                ZoneMessage::Headlamp(
                    HeadlampMessage::ActuationIncomplete { direction: *direction, cause: *cause },
                ),
            ),
        ),
        FsmEvent::RainsStarted => Some((AssemblyId::Wiper, ZoneMessage::Wiper(WiperMessage::Start))),
        FsmEvent::RainsStopped => Some((AssemblyId::Wiper, ZoneMessage::Wiper(WiperMessage::Stop))),
        FsmEvent::UpdateRpm(_)
        | FsmEvent::PowerOn
        | FsmEvent::PowerOff
        | FsmEvent::Internal(_)
        | FsmEvent::TimerTick
        | FsmEvent::AssemblyZoneReady(_) => None,
    }
}

/// State-aware routing of a user event: `None` while the brain is off or starting or stopping
/// assemblies, otherwise the zone the event is told to.
pub fn zone_message_for_event(event: &FsmEvent, state: &FsmState) -> (r: Option<
    (AssemblyId, ZoneMessage),
>)
    ensures
        r == spec_zone_message_for_event(*event, *state),
{
    match state {
        FsmState::PreparingToStart(_) | FsmState::PreparingToStop(_) => None,
        FsmState::Off => None,
        _ => user_event_to_zone_tell(event),
    }
}

// ── tell-backs present for this turn ────────────────────────────────────────

/// The SCCM tell-back of this turn, if one of the right kind arrived.
pub open spec fn tell_back_sccm(replies: Map<AssemblyId, ZoneReply>) -> Option<SccmZoneReply> {
    if replies.contains_key(AssemblyId::Sccm) {
        match replies[AssemblyId::Sccm] {
            ZoneReply::Sccm(r) => Some(r),
            _ => None,
        }
    } else {
        None
    }
}

/// The BCM tell-back of this turn, if one of the right kind arrived.
pub open spec fn tell_back_bcm(replies: Map<AssemblyId, ZoneReply>) -> Option<BcmZoneReply> {
    if replies.contains_key(AssemblyId::Bcm) {
        match replies[AssemblyId::Bcm] {
            ZoneReply::Bcm(r) => Some(r),
            _ => None,
        }
    } else {
        None
    }
}

/// The FLCM tell-back of this turn, if one of the right kind arrived.
pub open spec fn tell_back_flcm(replies: Map<AssemblyId, ZoneReply>) -> Option<FlcmZoneReply> {
    if replies.contains_key(AssemblyId::Flcm) {
        match replies[AssemblyId::Flcm] {
            ZoneReply::Flcm(r) => Some(r),
            _ => None,
        }
    } else {
        None
    }
}

/// The headlamp tell-back of this turn, if one of the right kind arrived.
pub open spec fn tell_back_headlamp(replies: Map<AssemblyId, ZoneReply>) -> Option<HeadlampZoneReply> {
    if replies.contains_key(AssemblyId::Headlamp) {
        match replies[AssemblyId::Headlamp] {
            ZoneReply::Headlamp(r) => Some(r),
            _ => None,
        }
    } else {
        None
    }
}

/// The wiper tell-back of this turn, if one of the right kind arrived.
pub open spec fn tell_back_wiper(replies: Map<AssemblyId, ZoneReply>) -> Option<WiperZoneReply> {
    if replies.contains_key(AssemblyId::Wiper) {
        match replies[AssemblyId::Wiper] {
            ZoneReply::Wiper(r) => Some(r),
            _ => None,
        }
    } else {
        None
    }
}

/// BCM outcomes as zone outcomes.
pub open spec fn bcm_outcomes_view(s: Seq<BcmOutcome>) -> Seq<ZoneOutcomeView> {
    s.map_values(|o: BcmOutcome| ZoneOutcomeView::Bcm(o))
}

/// Headlamp outcomes as zone outcomes.
pub open spec fn headlamp_outcomes_view(s: Seq<HeadlampOutcomeView>) -> Seq<ZoneOutcomeView> {
    s.map_values(|o: HeadlampOutcomeView| ZoneOutcomeView::Headlamp(o))
}

/// Wiper outcomes as zone outcomes.
pub open spec fn wiper_outcomes_view(s: Seq<WiperOutcomeView>) -> Seq<ZoneOutcomeView> {
    s.map_values(|o: WiperOutcomeView| ZoneOutcomeView::Wiper(o))
}

// ── merges: tell-back when present, local zone otherwise ────────────────────

/// The SCCM context after `m`.
pub open spec fn spec_merge_sccm(ctx: VehicleContext, m: SccmMessage, replies: Map<AssemblyId, ZoneReply>) -> SccmContext {
    match tell_back_sccm(replies) {
        Some(r) => r.ctx,
        None => spec_sccm_on_message(ctx.sccm, m).ctx,
    }
}

/// The BCM context after `m`, and its outcomes.
pub open spec fn spec_merge_bcm(ctx: VehicleContext, m: BcmMessage, replies: Map<AssemblyId, ZoneReply>) -> (BcmContext, Seq<ZoneOutcomeView>) {
    match tell_back_bcm(replies) {
        Some(r) => (r.ctx, bcm_outcomes_view(r.outcomes@)),
        None => (spec_bcm_next(ctx.bcm, m), Seq::empty()),
    }
}

/// The FLCM context after `m`.
pub open spec fn spec_merge_flcm(ctx: VehicleContext, m: FlcmMessage, replies: Map<AssemblyId, ZoneReply>) -> FlcmContext {
    match tell_back_flcm(replies) {
        Some(r) => r.ctx,
        None => spec_flcm_on_message(ctx.flcm, m).ctx,
    }
}

/// The headlamp context after `m`, and its outcomes.
pub open spec fn spec_merge_headlamp(
    ctx: VehicleContext,
    m: HeadlampMessage,
    now: Instant,
    replies: Map<AssemblyId, ZoneReply>,
) -> (HeadlampContext, Seq<ZoneOutcomeView>) {
    match tell_back_headlamp(replies) {
        Some(r) => (r.ctx, headlamp_outcomes_view(r.outcomes.deep_view())),
        None => (
            spec_headlamp_next(ctx.headlamp, m, now),
            headlamp_outcomes_view(spec_headlamp_outcomes(ctx.headlamp, m, now)),
        ),
    }
}

/// The wiper context after `m`, and its outcomes.
pub open spec fn spec_merge_wiper(ctx: VehicleContext, m: WiperMessage, replies: Map<AssemblyId, ZoneReply>) -> (WiperContext, Seq<ZoneOutcomeView>) {
    match tell_back_wiper(replies) {
        Some(r) => (r.ctx, wiper_outcomes_view(r.outcomes.deep_view())),
        None => (
            WiperContext { state: spec_wiper_next(ctx.wiper.state, m) },
            wiper_outcomes_view(spec_wiper_outcomes(ctx.wiper.state, m)),
        ),
    }
}

/// The context and outcomes of one zone turn.
pub open spec fn spec_zone_turn(
    ctx: VehicleContext,
    event: FsmEvent,
    state: FsmState,
    now: Instant,
    replies: Map<AssemblyId, ZoneReply>,
) -> (VehicleContext, Seq<ZoneOutcomeView>) {
    match event {
        FsmEvent::HazardButtonObserved(on) => (
            VehicleContext {
                sccm: spec_merge_sccm(ctx, SccmMessage::HazardButtonObserved(on), replies),
                ..ctx
            },
            Seq::empty(),
        ),
        FsmEvent::LeftTurnRequestObserved(on) => {
            let (b, o) = spec_merge_bcm(ctx, BcmMessage::LeftTurnRequestObserved(on), replies);
            (VehicleContext { bcm: b, ..ctx }, o)
        },
        FsmEvent::RightTurnRequestObserved(on) => {
            let (b, o) = spec_merge_bcm(ctx, BcmMessage::RightTurnRequestObserved(on), replies);
            (VehicleContext { bcm: b, ..ctx }, o)
        },
        FsmEvent::LeftLowBeamStatusObserved(ok) => (
            VehicleContext {
                flcm: spec_merge_flcm(ctx, FlcmMessage::LeftLowBeamStatusObserved(ok), replies),
                ..ctx
            },
            Seq::empty(),
        ),
        FsmEvent::RightLowBeamStatusObserved(ok) => (
            VehicleContext {
                flcm: spec_merge_flcm(ctx, FlcmMessage::RightLowBeamStatusObserved(ok), replies),
                ..ctx
            },
            Seq::empty(),
        ),
        FsmEvent::HazardButtonChanged(on) => {
            let (b, o) = spec_merge_bcm(ctx, BcmMessage::HazardButtonChanged(on), replies);
            (
                VehicleContext {
                    sccm: SccmContext { hazard_button_on: on, ..ctx.sccm },
                    bcm: b,
                    ..ctx
                },
                o,
            )
        },
        FsmEvent::UpdateRpm(rpm) => {
            let moved = crate::vehicle_state::PowertrainContext {
                wheel_rpm: crate::vehicle_state::WheelRpm {
                    front_left: rpm,
                    front_right: rpm,
                    rear_left: rpm,
                    rear_right: rpm,
                },
                speed_kph: speed_from_rpm(rpm),
            };
            (
                VehicleContext {
                    powertrain: if state is Off {
                        crate::vehicle_state::spec_powertrain_standstill()
                    } else {
                        moved
                    },
                    ..ctx
                },
                Seq::empty(),
            )
        },
        FsmEvent::UpdateAmbientLux(lux) => {
            let (h, o) = spec_merge_headlamp(ctx, HeadlampMessage::AmbientLux(lux), now, replies);
            (
                VehicleContext {
                    visibility: crate::vehicle_state::VisibilityContext { ambient_lux: lux },
                    headlamp: h,
                    ..ctx
                },
                o,
            )
        },
        FsmEvent::FrontHeadlampOnAck => {
            let (h, o) = spec_merge_headlamp(ctx, HeadlampMessage::AckOn, now, replies);
            (VehicleContext { headlamp: h, ..ctx }, o)
        },
        FsmEvent::FrontHeadlampOffAck => {
            let (h, o) = spec_merge_headlamp(ctx, HeadlampMessage::AckOff, now, replies);
            (VehicleContext { headlamp: h, ..ctx }, o)
        },
        FsmEvent::FrontHeadlampActuationIncomplete { direction, cause } => {
            let (h, o) = spec_merge_headlamp(
                ctx,
                HeadlampMessage::ActuationIncomplete { direction, cause },
                now,
                replies,
            );
            (VehicleContext { headlamp: h, ..ctx }, o)
        },
        FsmEvent::TimerTick => {
            let (h, o) = spec_merge_headlamp(ctx, HeadlampMessage::TimerTick, now, replies);
            (VehicleContext { headlamp: h, ..ctx }, o)
        },
        FsmEvent::RainsStarted => {
            let (w, o) = spec_merge_wiper(ctx, WiperMessage::Start, replies);
            (
                VehicleContext {
                    weather: crate::vehicle_state::WeatherContext { raining: true },
                    wiper: w,
                    ..ctx
                },
                o,
            )
        },
        FsmEvent::RainsStopped => {
            let (w, o) = spec_merge_wiper(ctx, WiperMessage::Stop, replies);
            (
                VehicleContext {
                    weather: crate::vehicle_state::WeatherContext { raining: false },
                    wiper: w,
                    ..ctx
                },
                o,
            )
        },
        FsmEvent::PowerOn => (
            VehicleContext {
                flcm: spec_flcm_on_message(ctx.flcm, FlcmMessage::BecomeOn).ctx,
                ..ctx
            },
            Seq::empty(),
        ),
        FsmEvent::PowerOff => (
            VehicleContext {
                flcm: spec_flcm_on_message(ctx.flcm, FlcmMessage::BecomeOff).ctx,
                ..ctx
            },
            Seq::empty(),
        ),
        FsmEvent::Internal(_) => (ctx, Seq::empty()),
        FsmEvent::AssemblyZoneReady(id) => match id {
            AssemblyId::Sccm => match tell_back_sccm(replies) {
                Some(r) => (VehicleContext { sccm: r.ctx, ..ctx }, Seq::empty()),
                None => (ctx, Seq::empty()),
            },
            AssemblyId::Bcm => match tell_back_bcm(replies) {
                Some(r) => (VehicleContext { bcm: r.ctx, ..ctx }, bcm_outcomes_view(r.outcomes@)),
                None => (ctx, Seq::empty()),
            },
            AssemblyId::Flcm => match tell_back_flcm(replies) {
                Some(r) => (VehicleContext { flcm: r.ctx, ..ctx }, Seq::empty()),
                None => (ctx, Seq::empty()),
            },
            AssemblyId::Headlamp => match tell_back_headlamp(replies) {
                Some(r) => (
                    VehicleContext { headlamp: r.ctx, ..ctx },
                    headlamp_outcomes_view(r.outcomes.deep_view()),
                ),
                None => (ctx, Seq::empty()),
            },
            AssemblyId::Wiper => match tell_back_wiper(replies) {
                Some(r) => (
                    VehicleContext { wiper: r.ctx, ..ctx },
                    wiper_outcomes_view(r.outcomes.deep_view()),
                ),
                None => (ctx, Seq::empty()),
            },
        },
    }
}

// ── exec merges ──────────────────────────────────────────────────────────────

fn sccm_ingress(replies: &ZoneReplies) -> (r: Option<&SccmZoneReply>)
    ensures
        r matches Some(x) ==> tell_back_sccm(replies@) == Some(*x),
        r is None ==> tell_back_sccm(replies@) is None,
{
    match replies.get(&AssemblyId::Sccm) {
        Some(reply) => reply.as_sccm(),
        None => None,
    }
}

fn bcm_ingress(replies: &ZoneReplies) -> (r: Option<&BcmZoneReply>)
    ensures
        r matches Some(x) ==> tell_back_bcm(replies@) == Some(*x),
        r is None ==> tell_back_bcm(replies@) is None,
{
    match replies.get(&AssemblyId::Bcm) {
        Some(reply) => reply.as_bcm(),
        None => None,
    }
}

fn flcm_ingress(replies: &ZoneReplies) -> (r: Option<&FlcmZoneReply>)
    ensures
        r matches Some(x) ==> tell_back_flcm(replies@) == Some(*x),
        r is None ==> tell_back_flcm(replies@) is None,
{
    match replies.get(&AssemblyId::Flcm) {
        Some(reply) => reply.as_flcm(),
        None => None,
    }
}

fn headlamp_ingress(replies: &ZoneReplies) -> (r: Option<&HeadlampZoneReply>)
    ensures
        r matches Some(x) ==> tell_back_headlamp(replies@) == Some(*x),
        r is None ==> tell_back_headlamp(replies@) is None,
{
    match replies.get(&AssemblyId::Headlamp) {
        Some(reply) => reply.as_headlamp(),
        None => None,
    }
}

fn wiper_ingress(replies: &ZoneReplies) -> (r: Option<&WiperZoneReply>)
    ensures
        r matches Some(x) ==> tell_back_wiper(replies@) == Some(*x),
        r is None ==> tell_back_wiper(replies@) is None,
{
    match replies.get(&AssemblyId::Wiper) {
        Some(reply) => reply.as_wiper(),
        None => None,
    }
}

/// Append bcm outcomes to a list of zone outcomes.
fn extend_bcm(outcomes: &mut Vec<ZoneOutcome>, from: &Vec<BcmOutcome>)
    ensures
        final(outcomes).deep_view() == old(outcomes).deep_view() + bcm_outcomes_view(from@),
{
    let ghost start = outcomes.deep_view();
    let ghost n = outcomes@.len();
    let mut i: usize = 0;
    while i < from.len()
        invariant
            i <= from.len(),
            n == start.len(),
            outcomes@.len() == n + i,
            forall|j: int| 0 <= j < n ==> #[trigger] outcomes@[j].deep_view() == start[j],
            forall|j: int| 0 <= j < i ==> #[trigger] outcomes@[n + j].deep_view() == ZoneOutcomeView::Bcm(from@[j]),
        decreases from.len() - i,
    {
        outcomes.push(ZoneOutcome::Bcm(from[i]));
        proof {
            assert(outcomes@[n + i].deep_view() == ZoneOutcomeView::Bcm(from@[i as int]));
        }
        i = i + 1;
    }
    proof {
        let target = start + bcm_outcomes_view(from@);
        assert forall|j: int| 0 <= j < outcomes@.len() implies #[trigger] outcomes.deep_view()[j] == target[j] by {
            if j >= n {
                assert(outcomes@[n + (j - n)].deep_view() == ZoneOutcomeView::Bcm(from@[j - n]));
            }
        }
        assert(outcomes.deep_view() =~= target);
    }
}

fn copy_headlamp_outcome(o: &HeadlampOutcome) -> (r: HeadlampOutcome)
    ensures
        r.deep_view() == o.deep_view(),
{
    match o {
        HeadlampOutcome::RequestOn => HeadlampOutcome::RequestOn,
        HeadlampOutcome::RequestOff => HeadlampOutcome::RequestOff,
        HeadlampOutcome::LogWarning(text) => HeadlampOutcome::LogWarning(text.clone()),
    }
}

fn copy_wiper_outcome(o: &WiperOutcome) -> (r: WiperOutcome)
    ensures
        r.deep_view() == o.deep_view(),
{
    match o {
        WiperOutcome::StartWiping => WiperOutcome::StartWiping,
        WiperOutcome::StopWiping => WiperOutcome::StopWiping,
        WiperOutcome::LogWarning(text) => WiperOutcome::LogWarning(text.clone()),
    }
}

/// Append headlamp outcomes to a list of zone outcomes.
fn extend_headlamp(outcomes: &mut Vec<ZoneOutcome>, from: &Vec<HeadlampOutcome>)
    ensures
        final(outcomes).deep_view() == old(outcomes).deep_view() + headlamp_outcomes_view(from.deep_view()),
{
    let ghost start = outcomes.deep_view();
    let ghost n = outcomes@.len();
    let mut i: usize = 0;
    while i < from.len()
        invariant
            i <= from.len(),
            n == start.len(),
            outcomes@.len() == n + i,
            forall|j: int| 0 <= j < n ==> #[trigger] outcomes@[j].deep_view() == start[j],
            forall|j: int| 0 <= j < i ==> #[trigger] outcomes@[n + j].deep_view() == ZoneOutcomeView::Headlamp(from@[j].deep_view()),
        decreases from.len() - i,
    {
        outcomes.push(ZoneOutcome::Headlamp(copy_headlamp_outcome(&from[i])));
        proof {
            assert(outcomes@[n + i].deep_view() == ZoneOutcomeView::Headlamp(from@[i as int].deep_view()));
        }
        i = i + 1;
    }
    proof {
        let target = start + headlamp_outcomes_view(from.deep_view());
        assert forall|j: int| 0 <= j < outcomes@.len() implies #[trigger] outcomes.deep_view()[j] == target[j] by {
            if j >= n {
                assert(outcomes@[n + (j - n)].deep_view() == ZoneOutcomeView::Headlamp(from@[j - n].deep_view()));
            }
        }
        assert(outcomes.deep_view() =~= target);
    }
}

/// Append wiper outcomes to a list of zone outcomes.
fn extend_wiper(outcomes: &mut Vec<ZoneOutcome>, from: &Vec<WiperOutcome>)
    ensures
        final(outcomes).deep_view() == old(outcomes).deep_view() + wiper_outcomes_view(from.deep_view()),
{
    let ghost start = outcomes.deep_view();
    let ghost n = outcomes@.len();
    let mut i: usize = 0;
    while i < from.len()
        invariant
            i <= from.len(),
            n == start.len(),
            outcomes@.len() == n + i,
            forall|j: int| 0 <= j < n ==> #[trigger] outcomes@[j].deep_view() == start[j],
            forall|j: int| 0 <= j < i ==> #[trigger] outcomes@[n + j].deep_view() == ZoneOutcomeView::Wiper(from@[j].deep_view()),
        decreases from.len() - i,
    {
        outcomes.push(ZoneOutcome::Wiper(copy_wiper_outcome(&from[i])));
        proof {
            assert(outcomes@[n + i].deep_view() == ZoneOutcomeView::Wiper(from@[i as int].deep_view()));
        }
        i = i + 1;
    }
    proof {
        let target = start + wiper_outcomes_view(from.deep_view());
        assert forall|j: int| 0 <= j < outcomes@.len() implies #[trigger] outcomes.deep_view()[j] == target[j] by {
            if j >= n {
                assert(outcomes@[n + (j - n)].deep_view() == ZoneOutcomeView::Wiper(from@[j - n].deep_view()));
            }
        }
        assert(outcomes.deep_view() =~= target);
    }
}

fn merge_sccm(ctx: &VehicleContext, m: SccmMessage, replies: &ZoneReplies) -> (c: SccmContext)
    ensures
        c == spec_merge_sccm(*ctx, m, replies@),
{
    match sccm_ingress(replies) {
        Some(r) => r.ctx,
        None => ctx.sccm.on_receiving_message(m).ctx,
    }
}

fn merge_flcm(ctx: &VehicleContext, m: FlcmMessage, replies: &ZoneReplies) -> (c: FlcmContext)
    ensures
        c == spec_merge_flcm(*ctx, m, replies@),
{
    match flcm_ingress(replies) {
        Some(r) => r.ctx,
        None => ctx.flcm.on_receiving_message(m).ctx,
    }
}

fn merge_bcm(
    ctx: &VehicleContext,
    m: BcmMessage,
    replies: &ZoneReplies,
    outcomes: &mut Vec<ZoneOutcome>,
) -> (c: BcmContext)
    ensures
        c == spec_merge_bcm(*ctx, m, replies@).0,
        final(outcomes).deep_view() == old(outcomes).deep_view() + spec_merge_bcm(
            *ctx,
            m,
            replies@,
        ).1,
{
    match bcm_ingress(replies) {
        Some(r) => {
            extend_bcm(outcomes, &r.outcomes);
            r.ctx
        },
        None => {
            let reply = ctx.bcm.on_receiving_message(m);
            extend_bcm(outcomes, &reply.outcomes);
            proof {
                assert(bcm_outcomes_view(reply.outcomes@) =~= Seq::<ZoneOutcomeView>::empty());
            }
            reply.ctx
        },
    }
}

fn merge_headlamp(
    ctx: &VehicleContext,
    m: HeadlampMessage,
    now: Instant,
    replies: &ZoneReplies,
    outcomes: &mut Vec<ZoneOutcome>,
) -> (c: HeadlampContext)
    ensures
        c == spec_merge_headlamp(*ctx, m, now, replies@).0,
        final(outcomes).deep_view() == old(outcomes).deep_view() + spec_merge_headlamp(
            *ctx,
            m,
            now,
            replies@,
        ).1,
{
    match headlamp_ingress(replies) {
        Some(r) => {
            extend_headlamp(outcomes, &r.outcomes);
            r.ctx
        },
        None => {
            let reply = ctx.headlamp.on_receiving_message(m, now);
            extend_headlamp(outcomes, &reply.outcomes);
            reply.ctx
        },
    }
}

fn merge_wiper(
    ctx: &VehicleContext,
    m: WiperMessage,
    replies: &ZoneReplies,
    outcomes: &mut Vec<ZoneOutcome>,
) -> (c: WiperContext)
    ensures
        c == spec_merge_wiper(*ctx, m, replies@).0,
        final(outcomes).deep_view() == old(outcomes).deep_view() + spec_merge_wiper(
            *ctx,
            m,
            replies@,
        ).1,
{
    match wiper_ingress(replies) {
        Some(r) => {
            extend_wiper(outcomes, &r.outcomes);
            r.ctx
        },
        None => {
            let reply = ctx.wiper.on_receiving_message(m);
            extend_wiper(outcomes, &reply.outcomes);
            reply.ctx
        },
    }
}

/// Apply one event to the zones (not to the operational FSM). Each zone takes its tell-back
/// when one arrived for this turn, and otherwise runs its own state machine on the message.
pub fn zone_turn(
    ctx: &VehicleContext,
    event: &FsmEvent,
    current_state: &FsmState,
    now: Instant,
    zone_replies: &ZoneReplies,
) -> (r: ZoneTurnResult)
    ensures
        r.ctx == spec_zone_turn(*ctx, *event, *current_state, now, zone_replies@).0,
        r.outcomes.deep_view() == spec_zone_turn(*ctx, *event, *current_state, now, zone_replies@).1,
{
    let mut next = *ctx;
    let mut outcomes: Vec<ZoneOutcome> = Vec::new();
    proof {
        assert(outcomes.deep_view() =~= Seq::<ZoneOutcomeView>::empty());
    }
    match event {
        FsmEvent::HazardButtonObserved(on) => {
            next.sccm = merge_sccm(ctx, SccmMessage::HazardButtonObserved(*on), zone_replies);
        },
        FsmEvent::LeftTurnRequestObserved(on) => {
            next.bcm = merge_bcm(
                ctx,
                BcmMessage::LeftTurnRequestObserved(*on),
                zone_replies,
                &mut outcomes,
            );
        },
        FsmEvent::RightTurnRequestObserved(on) => {
            next.bcm = merge_bcm(
                ctx,
                BcmMessage::RightTurnRequestObserved(*on),
                zone_replies,
                &mut outcomes,
            );
        },
        FsmEvent::LeftLowBeamStatusObserved(ok) => {
            next.flcm = merge_flcm(ctx, FlcmMessage::LeftLowBeamStatusObserved(*ok), zone_replies);
        },
        FsmEvent::RightLowBeamStatusObserved(ok) => {
            next.flcm = merge_flcm(ctx, FlcmMessage::RightLowBeamStatusObserved(*ok), zone_replies);
        },
        FsmEvent::HazardButtonChanged(on) => {
            next.sccm.hazard_button_on = *on;
            next.bcm = merge_bcm(
                ctx,
                BcmMessage::HazardButtonChanged(*on),
                zone_replies,
                &mut outcomes,
            );
        },
        FsmEvent::UpdateRpm(rpm) => {
            next.powertrain.apply_rpm(*rpm);
            next.powertrain.refresh_speed();
            if matches!(current_state, FsmState::Off) {
                next.powertrain.freeze_standstill();
            }
        },
        FsmEvent::UpdateAmbientLux(lux) => {
            next.visibility.apply_lux(*lux);
            next.headlamp = merge_headlamp(
                ctx,
                HeadlampMessage::AmbientLux(*lux),
                now,
                zone_replies,
                &mut outcomes,
            );
        },
        FsmEvent::FrontHeadlampOnAck => {
            next.headlamp = merge_headlamp(
                ctx,
                HeadlampMessage::AckOn,
                now,
                zone_replies,
                &mut outcomes,
            );
        },
        FsmEvent::FrontHeadlampOffAck => {
            next.headlamp = merge_headlamp(
                ctx,
                HeadlampMessage::AckOff,
                now,
                zone_replies,
                &mut outcomes,
            );
        },
        FsmEvent::FrontHeadlampActuationIncomplete { direction, cause } => {
            next.headlamp = merge_headlamp(
                ctx,
                HeadlampMessage::ActuationIncomplete { direction: *direction, cause: *cause },
                now,
                zone_replies,
                &mut outcomes,
            );
        },
        FsmEvent::TimerTick => {
            next.headlamp = merge_headlamp(
                ctx,
                HeadlampMessage::TimerTick,
                now,
                zone_replies,
                &mut outcomes,
            );
        },
        FsmEvent::RainsStarted => {
            next.weather.raining = true;
            next.wiper = merge_wiper(ctx, WiperMessage::Start, zone_replies, &mut outcomes);
        },
        FsmEvent::RainsStopped => {
            next.weather.raining = false;
            next.wiper = merge_wiper(ctx, WiperMessage::Stop, zone_replies, &mut outcomes);
        },
        FsmEvent::PowerOn => {
            next.flcm = ctx.flcm.on_receiving_message(FlcmMessage::BecomeOn).ctx;
        },
        FsmEvent::PowerOff => {
            next.flcm = ctx.flcm.on_receiving_message(FlcmMessage::BecomeOff).ctx;
        },
        FsmEvent::Internal(_) => {},
        FsmEvent::AssemblyZoneReady(assembly_id) => match assembly_id {
            AssemblyId::Sccm => {
                if let Some(reply) = sccm_ingress(zone_replies) {
                    next.sccm = reply.ctx;
                }
            },
            AssemblyId::Bcm => {
                if let Some(reply) = bcm_ingress(zone_replies) {
                    next.bcm = reply.ctx;
                    extend_bcm(&mut outcomes, &reply.outcomes);
                }
            },
            AssemblyId::Flcm => {
                if let Some(reply) = flcm_ingress(zone_replies) {
                    next.flcm = reply.ctx;
                }
            },
            AssemblyId::Headlamp => {
                if let Some(reply) = headlamp_ingress(zone_replies) {
                    next.headlamp = reply.ctx;
                    extend_headlamp(&mut outcomes, &reply.outcomes);
                }
            },
            AssemblyId::Wiper => {
                if let Some(reply) = wiper_ingress(zone_replies) {
                    next.wiper = reply.ctx;
                    extend_wiper(&mut outcomes, &reply.outcomes);
                }
            },
        },
    }
    proof {
        let s = spec_zone_turn(*ctx, *event, *current_state, now, zone_replies@);
        assert(outcomes.deep_view() =~= s.1);
    }
    ZoneTurnResult { ctx: next, outcomes }
}

} // verus!
