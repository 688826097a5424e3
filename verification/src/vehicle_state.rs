//! Zone snapshots, their message alphabets and the pure zone state machines.
//!
//! Each assembly zone (SCCM, BCM, FLCM, headlamp, wiper) is a small state machine: a context
//! value that receives one message at a time and answers with its next context, plus the
//! outcomes the brain must act on. The vehicle context bundles every zone with the powertrain,
//! health, visibility and weather readings.
use vstd::prelude::*;

use crate::time::{Duration, Instant};
use crate::vehicle_physics::{
    calculate_speed_from_rpm, front_headlamp_off_ack_wait, front_headlamp_on_ack_wait,
    operational_warning_active, spec_operational_warning_active, speed_from_rpm,
    FRONT_HEADLAMP_OFF_ACK_WAIT_MILLIS, FRONT_HEADLAMP_ON_ACK_WAIT_MILLIS, LUX_OFF_THRESHOLD,
    LUX_ON_THRESHOLD,
};

verus! {

// ── observation vocabulary ───────────────────────────────────────────────────

/// A boolean reported by an ECU, or `Unknown` before the first report.
#[derive(Debug, Clone, Copy, PartialEq, Eq, Hash)]
pub enum ObservedBool {
    Unknown,
    Off,
    On,
}

/// The observed value of a reported boolean.
pub open spec fn observed(value: bool) -> ObservedBool {
    if value {
        ObservedBool::On
    } else {
        ObservedBool::Off
    }
}

impl ObservedBool {
    /// `On` for `true`, `Off` for `false`.
    pub fn from_bool(value: bool) -> (o: ObservedBool)
        ensures
            o == observed(value),
    {
        if value {
            ObservedBool::On
        } else {
            ObservedBool::Off
        }
    }
}

impl Default for ObservedBool {
    fn default() -> (o: ObservedBool)
        ensures
            o == ObservedBool::Unknown,
    {
        ObservedBool::Unknown
    }
}

/// How one observation relates to the previous one of the same signal.
#[derive(Debug, Clone, Copy, PartialEq, Eq)]
pub enum ObservationDisposition {
    /// First report of the signal.
    Initial,
    /// Same value as before; `current_duplicates` counts the repeats of the running streak.
    Duplicate { current_duplicates: u64 },
    /// A new value; `completed_duplicates` counts the repeats of the streak that just ended.
    Changed { completed_duplicates: u64 },
    /// Not an observation: a lifecycle or policy message.
    Lifecycle,
}

/// Classification of `value` against the stored `previous` observation. Contexts keep no
/// streak, so their counts are zero; [`crate::twin_runtime::observation_streak`] counts.
pub open spec fn spec_classify(previous: ObservedBool, value: bool) -> ObservationDisposition {
    match previous {
        ObservedBool::Unknown => ObservationDisposition::Initial,
        _ => if previous == observed(value) {
            ObservationDisposition::Duplicate { current_duplicates: 0 }
        } else {
            ObservationDisposition::Changed { completed_duplicates: 0 }
        },
    }
}

/// Classify `value` against the stored `previous` observation.
pub fn classify_observation(previous: ObservedBool, value: bool) -> (d: ObservationDisposition)
    ensures
        d == spec_classify(previous, value),
{
    match previous {
        ObservedBool::Unknown => ObservationDisposition::Initial,
        ObservedBool::On => if value {
            ObservationDisposition::Duplicate { current_duplicates: 0 }
        } else {
            ObservationDisposition::Changed { completed_duplicates: 0 }
        },
        ObservedBool::Off => if value {
            ObservationDisposition::Changed { completed_duplicates: 0 }
        } else {
            ObservationDisposition::Duplicate { current_duplicates: 0 }
        },
    }
}

// ── headlamp ingress vocabulary ──────────────────────────────────────────────

/// Which way a front headlamp switch was requested.
#[derive(Debug, Clone, Copy, PartialEq, Eq, Hash)]
pub enum FrontHeadlampSwitchDirection {
    On,
    Off,
}

/// Why a requested headlamp switch was not confirmed.
#[derive(Debug, Clone, Copy, PartialEq, Eq, Hash)]
pub enum FrontHeadlampIncompleteCause {
    TimedOut,
    NegativeAck,
}

// ── SCCM (steering column: hazard button) ────────────────────────────────────

/// Hazard button as observed on the steering column, and the hazard mode it toggles.
#[derive(Debug, Clone, Copy, PartialEq, Eq)]
pub struct SccmContext {
    pub hazard_button: ObservedBool,
    pub hazard_button_on: bool,
    /// Toggled by each rising edge of the button.
    pub hazard_mode: ObservedBool,
}

impl Default for SccmContext {
    fn default() -> (c: SccmContext)
        ensures
            c == spec_sccm_default(),
    {
        SccmContext {
            hazard_button: ObservedBool::Unknown,
            hazard_button_on: false,
            hazard_mode: ObservedBool::Off,
        }
    }
}

/// The SCCM context before any report: button unknown, hazard mode off.
pub open spec fn spec_sccm_default() -> SccmContext {
    SccmContext {
        hazard_button: ObservedBool::Unknown,
        hazard_button_on: false,
        hazard_mode: ObservedBool::Off,
    }
}

/// Messages the SCCM zone accepts.
#[derive(Debug, Clone, Copy, PartialEq, Eq)]
pub enum SccmMessage {
    BecomeOn,
    BecomeOff,
    HazardButtonObserved(bool),
}

/// SCCM tell-back: the zone's next context and how the message was classified.
#[derive(Debug, Clone, Copy, PartialEq, Eq)]
pub struct SccmZoneReply {
    pub ctx: SccmContext,
    pub disposition: ObservationDisposition,
}

/// Hazard mode after one toggle.
pub open spec fn toggled(mode: ObservedBool) -> ObservedBool {
    if mode == ObservedBool::On {
        ObservedBool::Off
    } else {
        ObservedBool::On
    }
}

/// The SCCM zone's answer to one message.
pub open spec fn spec_sccm_on_message(ctx: SccmContext, message: SccmMessage) -> SccmZoneReply {
    match message {
        SccmMessage::BecomeOn | SccmMessage::BecomeOff => SccmZoneReply {
            ctx: spec_sccm_default(),
            disposition: ObservationDisposition::Lifecycle,
        },
        SccmMessage::HazardButtonObserved(value) => {
            let rising = value && ctx.hazard_button != ObservedBool::On;
            SccmZoneReply {
                ctx: SccmContext {
                    hazard_button: observed(value),
                    hazard_button_on: value,
                    hazard_mode: if rising {
                        toggled(ctx.hazard_mode)
                    } else {
                        ctx.hazard_mode
                    },
                },
                disposition: spec_classify(ctx.hazard_button, value),
            }
        },
    }
}

impl SccmContext {
    /// Apply one message: lifecycle messages reset the zone, an observation records the button
    /// and toggles the hazard mode on each rising edge.
    pub fn on_receiving_message(&self, message: SccmMessage) -> (reply: SccmZoneReply)
        ensures
            reply == spec_sccm_on_message(*self, message),
    {
        match message {
            SccmMessage::BecomeOn | SccmMessage::BecomeOff => SccmZoneReply {
                ctx: SccmContext::default(),
                disposition: ObservationDisposition::Lifecycle,
            },
            SccmMessage::HazardButtonObserved(value) => {
                let was_on = match self.hazard_button {
                    ObservedBool::On => true,
                    _ => false,
                };
                let rising = value && !was_on;
                let mode = if rising {
                    match self.hazard_mode {
                        ObservedBool::On => ObservedBool::Off,
                        _ => ObservedBool::On,
                    }
                } else {
                    self.hazard_mode
                };
                SccmZoneReply {
                    ctx: SccmContext {
                        hazard_button: ObservedBool::from_bool(value),
                        hazard_button_on: value,
                        hazard_mode: mode,
                    },
                    disposition: classify_observation(self.hazard_button, value),
                }
            },
        }
    }
}

// ── BCM (body control: turn requests) ────────────────────────────────────────

/// Lifecycle of the body control module.
#[derive(Debug, Clone, Copy, PartialEq, Eq, Hash)]
pub enum BcmState {
    Off,
    Ready,
}

/// Turn-light requests as observed by the BCM.
#[derive(Debug, Clone, Copy, PartialEq, Eq)]
pub struct BcmContext {
    pub state: BcmState,
    pub left_turn_request: ObservedBool,
    pub right_turn_request: ObservedBool,
    pub left_turn_request_on: bool,
    pub right_turn_request_on: bool,
}

/// The BCM context before start-up: off, both requests unknown.
pub open spec fn spec_bcm_default() -> BcmContext {
    BcmContext {
        state: BcmState::Off,
        left_turn_request: ObservedBool::Unknown,
        right_turn_request: ObservedBool::Unknown,
        left_turn_request_on: false,
        right_turn_request_on: false,
    }
}

impl Default for BcmContext {
    fn default() -> (c: BcmContext)
        ensures
            c == spec_bcm_default(),
    {
        BcmContext {
            state: BcmState::Off,
            left_turn_request: ObservedBool::Unknown,
            right_turn_request: ObservedBool::Unknown,
            left_turn_request_on: false,
            right_turn_request_on: false,
        }
    }
}

/// Messages the BCM zone accepts.
#[derive(Debug, Clone, Copy, PartialEq, Eq)]
pub enum BcmMessage {
    BecomeOn,
    BecomeOff,
    HazardButtonChanged(bool),
    LeftTurnRequestObserved(bool),
    RightTurnRequestObserved(bool),
}

/// Actuation-relevant change reported by the BCM zone.
#[derive(Debug, Clone, Copy, PartialEq, Eq)]
pub enum BcmOutcome {
    TurnLightsChanged { left_on: bool, right_on: bool },
}

/// BCM tell-back.
#[derive(Debug, Clone, PartialEq, Eq)]
pub struct BcmZoneReply {
    pub ctx: BcmContext,
    pub outcomes: Vec<BcmOutcome>,
    pub disposition: ObservationDisposition,
}

/// The BCM zone's next context for one message.
pub open spec fn spec_bcm_next(ctx: BcmContext, message: BcmMessage) -> BcmContext {
    match message {
        BcmMessage::BecomeOn => BcmContext { state: BcmState::Ready, ..ctx },
        BcmMessage::BecomeOff => BcmContext {
            state: BcmState::Off,
            left_turn_request_on: false,
            right_turn_request_on: false,
            ..ctx
        },
        BcmMessage::HazardButtonChanged(_) => ctx,
        BcmMessage::LeftTurnRequestObserved(value) => BcmContext {
            left_turn_request: observed(value),
            left_turn_request_on: value,
            ..ctx
        },
        BcmMessage::RightTurnRequestObserved(value) => BcmContext {
            right_turn_request: observed(value),
            right_turn_request_on: value,
            ..ctx
        },
    }
}

/// How the BCM classifies one message against its stored observations.
pub open spec fn spec_bcm_disposition(ctx: BcmContext, message: BcmMessage) -> ObservationDisposition {
    match message {
        BcmMessage::LeftTurnRequestObserved(value) => spec_classify(ctx.left_turn_request, value),
        BcmMessage::RightTurnRequestObserved(value) => spec_classify(ctx.right_turn_request, value),
        _ => ObservationDisposition::Lifecycle,
    }
}

impl BcmContext {
    /// Classify `message` against the stored observation of the same signal.
    pub fn observation_disposition(&self, message: BcmMessage) -> (d: ObservationDisposition)
        ensures
            d == spec_bcm_disposition(*self, message),
    {
        match message {
            BcmMessage::LeftTurnRequestObserved(value) => classify_observation(
                self.left_turn_request,
                value,
            ),
            BcmMessage::RightTurnRequestObserved(value) => classify_observation(
                self.right_turn_request,
                value,
            ),
            _ => ObservationDisposition::Lifecycle,
        }
    }

    /// Apply one message. The BCM only records what it observes: it never emits turn-light
    /// outcomes, and the hazard button leaves it unchanged.
    pub fn on_receiving_message(&self, message: BcmMessage) -> (reply: BcmZoneReply)
        ensures
            reply.ctx == spec_bcm_next(*self, message),
            reply.outcomes@ == Seq::<BcmOutcome>::empty(),
            reply.disposition == spec_bcm_disposition(*self, message),
    {
        let disposition = self.observation_disposition(message);
        let ctx = match message {
            BcmMessage::BecomeOn => BcmContext { state: BcmState::Ready, ..*self },
            BcmMessage::BecomeOff => BcmContext {
                state: BcmState::Off,
                left_turn_request_on: false,
                right_turn_request_on: false,
                ..*self
            },
            BcmMessage::HazardButtonChanged(_) => *self,
            BcmMessage::LeftTurnRequestObserved(value) => BcmContext {
                left_turn_request: ObservedBool::from_bool(value),
                left_turn_request_on: value,
                ..*self
            },
            BcmMessage::RightTurnRequestObserved(value) => BcmContext {
                right_turn_request: ObservedBool::from_bool(value),
                right_turn_request_on: value,
                ..*self
            },
        };
        BcmZoneReply { ctx, outcomes: Vec::new(), disposition }
    }
}

// ── FLCM (front light control: low-beam status) ──────────────────────────────

/// Low-beam status reports and the liveness verdict of the front light control module.
#[derive(Debug, Clone, Copy, PartialEq, Eq)]
pub struct FlcmContext {
    /// `On` = lamp reported OK, `Off` = lamp reported failed.
    pub left_low_beam_status: ObservedBool,
    pub right_low_beam_status: ObservedBool,
    /// The FLCM stopped reporting within its deadline.
    pub silent: bool,
}

/// The FLCM context before any report.
pub open spec fn spec_flcm_default() -> FlcmContext {
    FlcmContext {
        left_low_beam_status: ObservedBool::Unknown,
        right_low_beam_status: ObservedBool::Unknown,
        silent: false,
    }
}

impl Default for FlcmContext {
    fn default() -> (c: FlcmContext)
        ensures
            c == spec_flcm_default(),
    {
        FlcmContext {
            left_low_beam_status: ObservedBool::Unknown,
            right_low_beam_status: ObservedBool::Unknown,
            silent: false,
        }
    }
}

/// Messages the FLCM zone accepts.
#[derive(Debug, Clone, Copy, PartialEq, Eq)]
pub enum FlcmMessage {
    BecomeOn,
    BecomeOff,
    /// `true` = lamp OK, `false` = lamp failed.
    LeftLowBeamStatusObserved(bool),
    RightLowBeamStatusObserved(bool),
    SilenceChanged(bool),
}

/// FLCM tell-back.
#[derive(Debug, Clone, Copy, PartialEq, Eq)]
pub struct FlcmZoneReply {
    pub ctx: FlcmContext,
    pub disposition: ObservationDisposition,
}

/// A lamp reported failed, or the module went silent.
pub open spec fn spec_flcm_has_fault(ctx: FlcmContext) -> bool {
    ctx.silent || ctx.left_low_beam_status == ObservedBool::Off || ctx.right_low_beam_status
        == ObservedBool::Off
}

/// Both lamps reported OK and the module is alive.
pub open spec fn spec_flcm_confirmed_healthy(ctx: FlcmContext) -> bool {
    !ctx.silent && ctx.left_low_beam_status == ObservedBool::On && ctx.right_low_beam_status
        == ObservedBool::On
}

/// The FLCM zone's answer to one message.
pub open spec fn spec_flcm_on_message(ctx: FlcmContext, message: FlcmMessage) -> FlcmZoneReply {
    match message {
        FlcmMessage::BecomeOn | FlcmMessage::BecomeOff => FlcmZoneReply {
            ctx: spec_flcm_default(),
            disposition: ObservationDisposition::Lifecycle,
        },
        FlcmMessage::LeftLowBeamStatusObserved(ok) => FlcmZoneReply {
            ctx: FlcmContext { left_low_beam_status: observed(ok), silent: false, ..ctx },
            disposition: spec_classify(ctx.left_low_beam_status, ok),
        },
        FlcmMessage::RightLowBeamStatusObserved(ok) => FlcmZoneReply {
            ctx: FlcmContext { right_low_beam_status: observed(ok), silent: false, ..ctx },
            disposition: spec_classify(ctx.right_low_beam_status, ok),
        },
        FlcmMessage::SilenceChanged(silent) => FlcmZoneReply {
            ctx: FlcmContext { silent, ..ctx },
            disposition: ObservationDisposition::Lifecycle,
        },
    }
}

impl FlcmContext {
    /// Whether a lamp reported failure or the module is silent.
    pub fn has_fault(&self) -> (b: bool)
        ensures
            b == spec_flcm_has_fault(*self),
    {
        self.silent || matches!(self.left_low_beam_status, ObservedBool::Off) || matches!(
            self.right_low_beam_status,
            ObservedBool::Off
        )
    }

    /// Whether both lamps reported OK and the module is alive.
    pub fn is_confirmed_healthy(&self) -> (b: bool)
        ensures
            b == spec_flcm_confirmed_healthy(*self),
    {
        !self.silent && matches!(self.left_low_beam_status, ObservedBool::On) && matches!(
            self.right_low_beam_status,
            ObservedBool::On
        )
    }

    /// The same statuses with the liveness verdict set to `silent`.
    pub fn with_silent(&self, silent: bool) -> (c: FlcmContext)
        ensures
            c == (FlcmContext { silent, ..*self }),
    {
        FlcmContext { silent, ..*self }
    }

    /// Apply one message: lifecycle messages reset the zone, a status report records the lamp
    /// (a fresh report clears silence), a silence verdict sets the liveness bit.
    pub fn on_receiving_message(&self, message: FlcmMessage) -> (reply: FlcmZoneReply)
        ensures
            reply == spec_flcm_on_message(*self, message),
    {
        match message {
            FlcmMessage::BecomeOn | FlcmMessage::BecomeOff => FlcmZoneReply {
                ctx: FlcmContext::default(),
                disposition: ObservationDisposition::Lifecycle,
            },
            FlcmMessage::LeftLowBeamStatusObserved(ok) => FlcmZoneReply {
                ctx: FlcmContext {
                    left_low_beam_status: ObservedBool::from_bool(ok),
                    silent: false,
                    ..*self
                },
                disposition: classify_observation(self.left_low_beam_status, ok),
            },
            FlcmMessage::RightLowBeamStatusObserved(ok) => FlcmZoneReply {
                ctx: FlcmContext {
                    right_low_beam_status: ObservedBool::from_bool(ok),
                    silent: false,
                    ..*self
                },
                disposition: classify_observation(self.right_low_beam_status, ok),
            },
            FlcmMessage::SilenceChanged(silent) => FlcmZoneReply {
                ctx: FlcmContext { silent, ..*self },
                disposition: ObservationDisposition::Lifecycle,
            },
        }
    }
}

// ── wiper ────────────────────────────────────────────────────────────────────

/// Lifecycle and motion of the windshield wiper.
#[derive(Debug, Clone, Copy, PartialEq, Eq, Hash)]
pub enum WiperState {
    Off,
    Ready,
    Running,
}

/// The wiper zone.
#[derive(Debug, Clone, Copy, PartialEq, Eq)]
pub struct WiperContext {
    pub state: WiperState,
}

impl Default for WiperContext {
    fn default() -> (c: WiperContext)
        ensures
            c == (WiperContext { state: WiperState::Off }),
    {
        WiperContext { state: WiperState::Off }
    }
}

/// Messages the wiper zone accepts.
#[derive(Debug, Clone, Copy, PartialEq, Eq)]
pub enum WiperMessage {
    BecomeOn,
    BecomeOff,
    Start,
    Stop,
}

/// What the wiper zone asks the actuation path to do.
#[derive(Debug, Clone, PartialEq, Eq)]
pub enum WiperOutcome {
    StartWiping,
    StopWiping,
    LogWarning(String),
}

/// Ghost image of a [`WiperOutcome`], with the warning text as characters.
pub enum WiperOutcomeView {
    StartWiping,
    StopWiping,
    LogWarning(Seq<char>),
}

impl DeepView for WiperOutcome {
    type V = WiperOutcomeView;

    open spec fn deep_view(&self) -> WiperOutcomeView {
        match self {
            WiperOutcome::StartWiping => WiperOutcomeView::StartWiping,
            WiperOutcome::StopWiping => WiperOutcomeView::StopWiping,
            WiperOutcome::LogWarning(text) => WiperOutcomeView::LogWarning(text@),
        }
    }
}

/// Wiper tell-back.
#[derive(Debug, Clone, PartialEq, Eq)]
pub struct WiperZoneReply {
    pub ctx: WiperContext,
    pub outcomes: Vec<WiperOutcome>,
}

/// The wiper state after one message.
pub open spec fn spec_wiper_next(state: WiperState, message: WiperMessage) -> WiperState {
    match (state, message) {
        (WiperState::Off, WiperMessage::BecomeOn) => WiperState::Ready,
        (_, WiperMessage::BecomeOff) => WiperState::Off,
        (WiperState::Ready, WiperMessage::Start) => WiperState::Running,
        (WiperState::Running, WiperMessage::Stop) => WiperState::Ready,
        _ => state,
    }
}

/// The outcomes of one wiper message: motion starts and stops are reported, nothing else.
pub open spec fn spec_wiper_outcomes(state: WiperState, message: WiperMessage) -> Seq<WiperOutcomeView> {
    match (state, message) {
        (WiperState::Ready, WiperMessage::Start) => seq![WiperOutcomeView::StartWiping],
        (WiperState::Running, WiperMessage::Stop) => seq![WiperOutcomeView::StopWiping],
        _ => Seq::empty(),
    }
}

impl WiperContext {
    /// Apply one message. Transitions are direct: start-up to `Ready`, `Start` from `Ready` to
    /// `Running` (reporting `StartWiping`), `Stop` back to `Ready` (reporting `StopWiping`),
    /// shutdown straight to `Off`.
    pub fn on_receiving_message(&self, message: WiperMessage) -> (reply: WiperZoneReply)
        ensures
            reply.ctx.state == spec_wiper_next(self.state, message),
            reply.outcomes.deep_view() == spec_wiper_outcomes(self.state, message),
    {
        let mut outcomes: Vec<WiperOutcome> = Vec::new();
        let state = match (self.state, message) {
            (WiperState::Off, WiperMessage::BecomeOn) => WiperState::Ready,
            (_, WiperMessage::BecomeOff) => WiperState::Off,
            (WiperState::Ready, WiperMessage::Start) => {
                outcomes.push(WiperOutcome::StartWiping);
                WiperState::Running
            },
            (WiperState::Running, WiperMessage::Stop) => {
                outcomes.push(WiperOutcome::StopWiping);
                WiperState::Ready
            },
            _ => self.state,
        };
        proof {
            assert(outcomes.deep_view() =~= spec_wiper_outcomes(self.state, message));
        }
        WiperZoneReply { ctx: WiperContext { state }, outcomes }
    }
}

// ── headlamp ─────────────────────────────────────────────────────────────────

/// Lifecycle and lamp state of the front headlamp zone.
#[derive(Debug, Clone, Copy, PartialEq, Eq, Hash)]
pub enum HeadlampState {
    Off,
    Ready,
    OnRequested,
    On,
    OffRequested,
}

/// The headlamp zone: its state and, while a switch awaits acknowledgement, when it was sent.
#[derive(Debug, Clone, Copy, PartialEq, Eq)]
pub struct HeadlampContext {
    pub state: HeadlampState,
    pub ack_pending_since: Option<Instant>,
}

impl Default for HeadlampContext {
    fn default() -> (c: HeadlampContext)
        ensures
            c == (HeadlampContext { state: HeadlampState::Off, ack_pending_since: None }),
    {
        HeadlampContext { state: HeadlampState::Off, ack_pending_since: None }
    }
}

/// Messages the headlamp zone accepts.
#[derive(Debug, Clone, Copy, PartialEq, Eq)]
pub enum HeadlampMessage {
    BecomeOn,
    BecomeOff,
    AmbientLux(u16),
    AckOn,
    AckOff,
    ActuationIncomplete { direction: FrontHeadlampSwitchDirection, cause: FrontHeadlampIncompleteCause },
    TimerTick,
}

/// What the headlamp zone asks the actuation path to do.
#[derive(Debug, Clone, PartialEq, Eq)]
pub enum HeadlampOutcome {
    RequestOn,
    RequestOff,
    LogWarning(String),
}

/// Ghost image of a [`HeadlampOutcome`], with the warning text as characters.
pub enum HeadlampOutcomeView {
    RequestOn,
    RequestOff,
    LogWarning(Seq<char>),
}

impl DeepView for HeadlampOutcome {
    type V = HeadlampOutcomeView;

    open spec fn deep_view(&self) -> HeadlampOutcomeView {
        match self {
            HeadlampOutcome::RequestOn => HeadlampOutcomeView::RequestOn,
            HeadlampOutcome::RequestOff => HeadlampOutcomeView::RequestOff,
            HeadlampOutcome::LogWarning(text) => HeadlampOutcomeView::LogWarning(text@),
        }
    }
}

/// Headlamp tell-back.
#[derive(Debug, Clone, PartialEq, Eq)]
pub struct HeadlampZoneReply {
    pub ctx: HeadlampContext,
    pub outcomes: Vec<HeadlampOutcome>,
}

/// Whether the acknowledgement pending since `since` is overdue at `now` for a wait of `wait`.
pub open spec fn spec_ack_overdue(since: Option<Instant>, now: Instant, wait: nat) -> bool {
    match since {
        Some(t) => now@ >= t@ && now@ - t@ >= wait,
        None => false,
    }
}

/// Warning text for an unconfirmed ON switch.
pub open spec fn headlamp_on_unconfirmed_text() -> Seq<char> {
    "front headlamp ON request was not confirmed"@
}

/// Warning text for an unconfirmed OFF switch.
pub open spec fn headlamp_off_unconfirmed_text() -> Seq<char> {
    "front headlamp OFF request was not confirmed"@
}

/// The headlamp context after one message.
pub open spec fn spec_headlamp_next(ctx: HeadlampContext, message: HeadlampMessage, now: Instant) -> HeadlampContext {
    let idle = |s: HeadlampState| HeadlampContext { state: s, ack_pending_since: None };
    match message {
        HeadlampMessage::BecomeOn => if ctx.state == HeadlampState::Off {
            idle(HeadlampState::Ready)
        } else {
            ctx
        },
        HeadlampMessage::BecomeOff => idle(HeadlampState::Off),
        HeadlampMessage::AmbientLux(lux) => if ctx.state == HeadlampState::Ready && lux
            <= LUX_ON_THRESHOLD {
            HeadlampContext { state: HeadlampState::OnRequested, ack_pending_since: Some(now) }
        } else if ctx.state == HeadlampState::On && lux > LUX_OFF_THRESHOLD {
            HeadlampContext { state: HeadlampState::OffRequested, ack_pending_since: Some(now) }
        } else {
            ctx
        },
        HeadlampMessage::AckOn => if ctx.state == HeadlampState::OnRequested {
            idle(HeadlampState::On)
        } else {
            ctx
        },
        HeadlampMessage::AckOff => if ctx.state == HeadlampState::OffRequested {
            idle(HeadlampState::Ready)
        } else {
            ctx
        },
        HeadlampMessage::ActuationIncomplete { direction, cause: _ } => if ctx.state
            == HeadlampState::OnRequested && direction == FrontHeadlampSwitchDirection::On {
            idle(HeadlampState::Ready)
        } else if ctx.state == HeadlampState::OffRequested && direction
            == FrontHeadlampSwitchDirection::Off {
            idle(HeadlampState::On)
        } else {
            ctx
        },
        HeadlampMessage::TimerTick => if ctx.state == HeadlampState::OnRequested
            && spec_ack_overdue(ctx.ack_pending_since, now, (FRONT_HEADLAMP_ON_ACK_WAIT_MILLIS * 1_000_000) as nat) {
            idle(HeadlampState::Ready)
        } else if ctx.state == HeadlampState::OffRequested && spec_ack_overdue(
            ctx.ack_pending_since,
            now,
            (FRONT_HEADLAMP_OFF_ACK_WAIT_MILLIS * 1_000_000) as nat,
        ) {
            idle(HeadlampState::On)
        } else {
            ctx
        },
    }
}

/// The outcomes of one headlamp message.
pub open spec fn spec_headlamp_outcomes(ctx: HeadlampContext, message: HeadlampMessage, now: Instant) -> Seq<HeadlampOutcomeView> {
    let next = spec_headlamp_next(ctx, message, now);
    match message {
        HeadlampMessage::AmbientLux(_) => if ctx.state == HeadlampState::Ready && next.state
            == HeadlampState::OnRequested {
            seq![HeadlampOutcomeView::RequestOn]
        } else if ctx.state == HeadlampState::On && next.state == HeadlampState::OffRequested {
            seq![HeadlampOutcomeView::RequestOff]
        } else {
            Seq::empty()
        },
        HeadlampMessage::ActuationIncomplete { .. } | HeadlampMessage::TimerTick => if ctx.state
            == HeadlampState::OnRequested && next.state == HeadlampState::Ready {
            seq![HeadlampOutcomeView::LogWarning(headlamp_on_unconfirmed_text())]
        } else if ctx.state == HeadlampState::OffRequested && next.state == HeadlampState::On {
            seq![HeadlampOutcomeView::LogWarning(headlamp_off_unconfirmed_text())]
        } else {
            Seq::empty()
        },
        _ => Seq::empty(),
    }
}

/// Whether the acknowledgement pending since `since` has waited at least `wait` at `now`.
fn ack_overdue(since: Option<Instant>, now: &Instant, wait: &Duration) -> (b: bool)
    ensures
        b == spec_ack_overdue(since, *now, wait@),
{
    match since {
        Some(t) => match now.checked_duration_since(&t) {
            Some(elapsed) => elapsed.at_least(wait),
            None => false,
        },
        None => false,
    }
}

impl HeadlampContext {
    /// Apply one message at time `now`.
    ///
    /// Start-up readies the lamp; darkness (lux at or below [`LUX_ON_THRESHOLD`]) requests it on,
    /// brightness above [`LUX_OFF_THRESHOLD`] requests it off, each request starting an
    /// acknowledgement wait; an acknowledgement completes the switch, while a negative
    /// acknowledgement or an overdue wait (seen on a timer tick) reverts it and logs a warning.
    pub fn on_receiving_message(&self, message: HeadlampMessage, now: Instant) -> (reply: HeadlampZoneReply)
        ensures
            reply.ctx == spec_headlamp_next(*self, message, now),
            reply.outcomes.deep_view() == spec_headlamp_outcomes(*self, message, now),
    {
        let mut outcomes: Vec<HeadlampOutcome> = Vec::new();
        let ctx = match message {
            HeadlampMessage::BecomeOn => match self.state {
                HeadlampState::Off => HeadlampContext {
                    state: HeadlampState::Ready,
                    ack_pending_since: None,
                },
                _ => *self,
            },
            HeadlampMessage::BecomeOff => HeadlampContext {
                state: HeadlampState::Off,
                ack_pending_since: None,
            },
            HeadlampMessage::AmbientLux(lux) => match self.state {
                HeadlampState::Ready => if lux <= LUX_ON_THRESHOLD {
                    outcomes.push(HeadlampOutcome::RequestOn);
                    HeadlampContext { state: HeadlampState::OnRequested, ack_pending_since: Some(now) }
                } else {
                    *self
                },
                HeadlampState::On => if lux > LUX_OFF_THRESHOLD {
                    outcomes.push(HeadlampOutcome::RequestOff);
                    HeadlampContext { state: HeadlampState::OffRequested, ack_pending_since: Some(now) }
                } else {
                    *self
                },
                _ => *self,
            },
            HeadlampMessage::AckOn => match self.state {
                HeadlampState::OnRequested => HeadlampContext {
                    state: HeadlampState::On,
                    ack_pending_since: None,
                },
                _ => *self,
            },
            HeadlampMessage::AckOff => match self.state {
                HeadlampState::OffRequested => HeadlampContext {
                    state: HeadlampState::Ready,
                    ack_pending_since: None,
                },
                _ => *self,
            },
            HeadlampMessage::ActuationIncomplete { direction, cause: _ } => match (
                self.state,
                direction,
            ) {
                (HeadlampState::OnRequested, FrontHeadlampSwitchDirection::On) => {
                    outcomes.push(HeadlampOutcome::LogWarning(on_unconfirmed_warning()));
                    HeadlampContext { state: HeadlampState::Ready, ack_pending_since: None }
                },
                (HeadlampState::OffRequested, FrontHeadlampSwitchDirection::Off) => {
                    outcomes.push(HeadlampOutcome::LogWarning(off_unconfirmed_warning()));
                    HeadlampContext { state: HeadlampState::On, ack_pending_since: None }
                },
                _ => *self,
            },
            HeadlampMessage::TimerTick => match self.state {
                HeadlampState::OnRequested => if ack_overdue(
                    self.ack_pending_since,
                    &now,
                    &front_headlamp_on_ack_wait(),
                ) {
                    outcomes.push(HeadlampOutcome::LogWarning(on_unconfirmed_warning()));
                    HeadlampContext { state: HeadlampState::Ready, ack_pending_since: None }
                } else {
                    *self
                },
                HeadlampState::OffRequested => if ack_overdue(
                    self.ack_pending_since,
                    &now,
                    &front_headlamp_off_ack_wait(),
                ) {
                    outcomes.push(HeadlampOutcome::LogWarning(off_unconfirmed_warning()));
                    HeadlampContext { state: HeadlampState::On, ack_pending_since: None }
                } else {
                    *self
                },
                _ => *self,
            },
        };
        proof {
            assert(outcomes.deep_view() =~= spec_headlamp_outcomes(*self, message, now));
        }
        HeadlampZoneReply { ctx, outcomes }
    }
}

fn on_unconfirmed_warning() -> (s: String)
    ensures
        s@ == headlamp_on_unconfirmed_text(),
{
    String::from_str("front headlamp ON request was not confirmed")
}

fn off_unconfirmed_warning() -> (s: String)
    ensures
        s@ == headlamp_off_unconfirmed_text(),
{
    String::from_str("front headlamp OFF request was not confirmed")
}

// ── powertrain, health, visibility, weather ──────────────────────────────────

/// Wheel speeds in revolutions per minute.
#[derive(Debug, Clone, Copy, PartialEq, Eq)]
pub struct WheelRpm {
    pub front_left: u16,
    pub front_right: u16,
    pub rear_left: u16,
    pub rear_right: u16,
}

/// Wheel speeds and the road speed derived from them.
#[derive(Debug, Clone, Copy, PartialEq, Eq)]
pub struct PowertrainContext {
    pub wheel_rpm: WheelRpm,
    pub speed_kph: u16,
}

impl Default for PowertrainContext {
    fn default() -> (c: PowertrainContext)
        ensures
            c == spec_powertrain_standstill(),
    {
        PowertrainContext {
            wheel_rpm: WheelRpm { front_left: 0, front_right: 0, rear_left: 0, rear_right: 0 },
            speed_kph: 0,
        }
    }
}

/// All wheels still, no speed.
pub open spec fn spec_powertrain_standstill() -> PowertrainContext {
    PowertrainContext {
        wheel_rpm: WheelRpm { front_left: 0, front_right: 0, rear_left: 0, rear_right: 0 },
        speed_kph: 0,
    }
}

impl PowertrainContext {
    /// The wheel RPM the kinematics read (front left).
    pub open spec fn spec_primary_rpm(self) -> u16 {
        self.wheel_rpm.front_left
    }

    /// The wheel RPM the kinematics read (front left).
    pub fn primary_rpm(&self) -> (rpm: u16)
        ensures
            rpm == self.spec_primary_rpm(),
    {
        self.wheel_rpm.front_left
    }

    /// Record a uniform RPM on all four wheels (speed is refreshed separately).
    pub fn apply_rpm(&mut self, rpm: u16)
        ensures
            final(self).wheel_rpm == (WheelRpm { front_left: rpm, front_right: rpm, rear_left: rpm, rear_right: rpm }),
            final(self).speed_kph == old(self).speed_kph,
    {
        self.wheel_rpm = WheelRpm { front_left: rpm, front_right: rpm, rear_left: rpm, rear_right: rpm };
    }

    /// Recompute the road speed from the primary wheel RPM.
    pub fn refresh_speed(&mut self)
        ensures
            final(self).wheel_rpm == old(self).wheel_rpm,
            final(self).speed_kph == speed_from_rpm(old(self).spec_primary_rpm()),
    {
        self.speed_kph = calculate_speed_from_rpm(self.wheel_rpm.front_left);
    }

    /// Stop the vehicle: all wheels still, no speed (a powered-off car does not roll).
    pub fn freeze_standstill(&mut self)
        ensures
            *final(self) == spec_powertrain_standstill(),
    {
        self.wheel_rpm = WheelRpm { front_left: 0, front_right: 0, rear_left: 0, rear_right: 0 };
        self.speed_kph = 0;
    }

    /// The vehicle is not moving.
    pub open spec fn spec_is_stationary(self) -> bool {
        self.speed_kph == 0
    }

    /// Whether the vehicle is not moving.
    pub fn is_stationary(&self) -> (b: bool)
        ensures
            b == self.spec_is_stationary(),
    {
        self.speed_kph == 0
    }

    /// The operational warning holds for the current RPM and speed.
    pub open spec fn spec_warning_active(self) -> bool {
        spec_operational_warning_active(self.spec_primary_rpm(), self.speed_kph)
    }

    /// Whether the operational warning holds for the current RPM and speed.
    pub fn is_operational_warning_active(&self) -> (b: bool)
        ensures
            b == self.spec_warning_active(),
    {
        operational_warning_active(self.wheel_rpm.front_left, self.speed_kph)
    }
}

/// Fuel, oil and tyre readings.
#[derive(Debug, Clone, Copy, PartialEq, Eq)]
pub struct VehicleHealthContext {
    pub fuel_level_pct: u8,
    pub oil_pressure_kpa: u8,
    pub tyre_pressure_ok: bool,
}

/// A fresh vehicle: full tank, nominal oil pressure, tyres OK.
pub open spec fn spec_health_default() -> VehicleHealthContext {
    VehicleHealthContext { fuel_level_pct: 100, oil_pressure_kpa: 200, tyre_pressure_ok: true }
}

impl Default for VehicleHealthContext {
    fn default() -> (c: VehicleHealthContext)
        ensures
            c == spec_health_default(),
    {
        VehicleHealthContext { fuel_level_pct: 100, oil_pressure_kpa: 200, tyre_pressure_ok: true }
    }
}

impl VehicleHealthContext {
    /// Some fuel, some oil pressure, tyres OK.
    pub open spec fn spec_is_healthy(self) -> bool {
        self.fuel_level_pct > 0 && self.oil_pressure_kpa > 0 && self.tyre_pressure_ok
    }

    /// Whether the vehicle may be powered on.
    pub fn is_healthy(&self) -> (b: bool)
        ensures
            b == self.spec_is_healthy(),
    {
        self.fuel_level_pct > 0 && self.oil_pressure_kpa > 0 && self.tyre_pressure_ok
    }
}

/// Ambient light around the vehicle.
#[derive(Debug, Clone, Copy, PartialEq, Eq)]
pub struct VisibilityContext {
    pub ambient_lux: u16,
}

impl VisibilityContext {
    /// Record an ambient light reading.
    pub fn apply_lux(&mut self, lux: u16)
        ensures
            final(self).ambient_lux == lux,
    {
        self.ambient_lux = lux;
    }
}

/// Rain on the windshield.
#[derive(Debug, Clone, Copy, PartialEq, Eq)]
pub struct WeatherContext {
    pub raining: bool,
}

/// Everything the twin knows about the vehicle besides its operational mode.
#[derive(Debug, Clone, Copy, PartialEq, Eq)]
pub struct VehicleContext {
    pub sccm: SccmContext,
    pub bcm: BcmContext,
    pub flcm: FlcmContext,
    pub powertrain: PowertrainContext,
    pub health: VehicleHealthContext,
    pub visibility: VisibilityContext,
    pub weather: WeatherContext,
    pub headlamp: HeadlampContext,
    pub wiper: WiperContext,
}

/// A freshly born vehicle: every zone off and unobserved, standing still, dark, dry, healthy.
pub open spec fn spec_vehicle_default() -> VehicleContext {
    VehicleContext {
        sccm: spec_sccm_default(),
        bcm: spec_bcm_default(),
        flcm: spec_flcm_default(),
        powertrain: spec_powertrain_standstill(),
        health: spec_health_default(),
        visibility: VisibilityContext { ambient_lux: 0 },
        weather: WeatherContext { raining: false },
        headlamp: HeadlampContext { state: HeadlampState::Off, ack_pending_since: None },
        wiper: WiperContext { state: WiperState::Off },
    }
}

impl Default for VehicleContext {
    fn default() -> (c: VehicleContext)
        ensures
            c == spec_vehicle_default(),
    {
        VehicleContext {
            sccm: SccmContext::default(),
            bcm: BcmContext::default(),
            flcm: FlcmContext::default(),
            powertrain: PowertrainContext::default(),
            health: VehicleHealthContext::default(),
            visibility: VisibilityContext { ambient_lux: 0 },
            weather: WeatherContext { raining: false },
            headlamp: HeadlampContext::default(),
            wiper: WiperContext::default(),
        }
    }
}

impl VehicleContext {
    /// The vehicle may be powered on.
    pub open spec fn spec_is_healthy(self) -> bool {
        self.health.spec_is_healthy()
    }

    /// Whether the vehicle may be powered on.
    pub fn is_healthy(&self) -> (b: bool)
        ensures
            b == self.spec_is_healthy(),
    {
        self.health.is_healthy()
    }
}

} // verus!
