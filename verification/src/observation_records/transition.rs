//! Transition records as the world sees them.
//!
//! Inside the twin, time is a monotonic [`Instant`] with no defined zero. Everything that leaves
//! the process carries a [`UnixTimestamp`] instead: wall time since the Unix epoch, obtained by
//! projecting an instant through the per-session [`SessionClock`] anchor. The published types
//! mirror the FSM's types field for field, with each instant so projected.
use vstd::prelude::*;

use crate::fsm::{
    DomainAction, DomainActionView, FsmEvent, FsmState, Operational, RawTransitionRecord,
};
use crate::time::{max_duration_nanos, Duration, Instant};
use crate::fsm::step::spec_ledger_actions;
use crate::vehicle_state::{
    BcmContext, BcmState, FlcmContext, FrontHeadlampIncompleteCause,
    FrontHeadlampSwitchDirection, HeadlampContext, HeadlampState, ObservedBool,
    PowertrainContext, SccmContext, VehicleContext, VehicleHealthContext, VisibilityContext,
    WeatherContext, WheelRpm, WiperContext, WiperState,
};

verus! {

/// Wall-clock instant since the Unix epoch, kept as a [`Duration`].
#[derive(Debug, Clone, Copy, PartialEq, Eq, PartialOrd, Ord, Hash)]
pub struct UnixTimestamp(Duration);

impl View for UnixTimestamp {
    type V = nat;

    /// Nanoseconds since the Unix epoch.
    closed spec fn view(&self) -> nat {
        self.0@
    }
}

impl UnixTimestamp {
    /// The stamp `value` after the Unix epoch.
    pub fn from_duration_since_epoch(value: Duration) -> (t: UnixTimestamp)
        ensures
            t@ == value@,
    {
        UnixTimestamp(value)
    }

    /// Exact duration since the Unix epoch.
    pub fn duration_since_epoch(self) -> (d: Duration)
        ensures
            d@ == self@,
    {
        self.0
    }

    /// Whole seconds since the Unix epoch.
    pub fn unix_seconds(self) -> (s: u64)
        ensures
            s == self@ / 1_000_000_000,
    {
        self.0.as_secs()
    }

    /// Subsecond nanoseconds (`0..=999_999_999`).
    pub fn nanosecond(self) -> (n: u32)
        ensures
            n == self@ % 1_000_000_000,
    {
        self.0.subsec_nanos()
    }

    /// Elapsed time from `earlier` to this stamp, or zero when `earlier` is later.
    pub fn saturating_duration_since(self, earlier: UnixTimestamp) -> (d: Duration)
        ensures
            d@ == if self@ >= earlier@ { self@ - earlier@ } else { 0 },
    {
        self.0.saturating_sub(&earlier.0)
    }
}

/// Per-session anchor pairing a monotonic reading with the wall time at which it was taken.
///
/// A later monotonic instant `t` projects to `started_at_unix + (t - started_at_instant)`, and
/// to the anchor's own wall stamp when `t` lies before the anchor.
#[derive(Debug, Clone, Copy)]
pub struct SessionClock {
    started_at_instant: Instant,
    started_at_unix: Duration,
}

/// The wall stamp, in nanoseconds, of monotonic reading `t` under anchor `(anchor, unix)`.
pub open spec fn spec_project(anchor: nat, unix: nat, t: nat) -> nat {
    if t >= anchor {
        (unix + (t - anchor)) as nat
    } else {
        unix
    }
}

impl SessionClock {
    #[verifier::type_invariant]
    closed spec fn projection_fits(self) -> bool {
        self.started_at_unix@ + u64::MAX <= max_duration_nanos()
    }

    /// The monotonic anchor.
    pub closed spec fn anchor(self) -> nat {
        self.started_at_instant@
    }

    /// Wall time of the anchor, in nanoseconds since the Unix epoch.
    pub closed spec fn unix_anchor(self) -> nat {
        self.started_at_unix@
    }

    /// The anchor pair: monotonic reading `started_at_instant` was taken at wall time
    /// `started_at_unix`. The wall time must leave room for any later monotonic reading.
    pub fn new(started_at_instant: Instant, started_at_unix: Duration) -> (c: SessionClock)
        requires
            started_at_unix@ + u64::MAX <= max_duration_nanos(),
        ensures
            c.anchor() == started_at_instant@,
            c.unix_anchor() == started_at_unix@,
    {
        SessionClock { started_at_instant, started_at_unix }
    }

    /// Project a monotonic instant to a wall-clock stamp.
    pub fn project(&self, t: &Instant) -> (s: UnixTimestamp)
        ensures
            s@ == spec_project(self.anchor(), self.unix_anchor(), t@),
    {
        proof {
            use_type_invariant(self);
        }
        let since = t.saturating_duration_since(&self.started_at_instant);
        UnixTimestamp::from_duration_since_epoch(self.started_at_unix.plus(&since))
    }

    /// When this session started on the wall clock.
    pub fn session_started_at(&self) -> (s: UnixTimestamp)
        ensures
            s@ == self.unix_anchor(),
    {
        UnixTimestamp::from_duration_since_epoch(self.started_at_unix)
    }
}

/// Published image of a [`HeadlampState`].
#[derive(Debug, Clone, Copy, PartialEq, Eq)]
pub enum PublishedHeadlampState {
    Off,
    Ready,
    OnRequested,
    On,
    OffRequested,
}

/// The published image of each headlamp state.
pub open spec fn spec_publish_headlamp_state(s: HeadlampState) -> PublishedHeadlampState {
    match s {
        HeadlampState::Off => PublishedHeadlampState::Off,
        HeadlampState::Ready => PublishedHeadlampState::Ready,
        HeadlampState::OnRequested => PublishedHeadlampState::OnRequested,
        HeadlampState::On => PublishedHeadlampState::On,
        HeadlampState::OffRequested => PublishedHeadlampState::OffRequested,
    }
}

/// Publication names each headlamp state by its own variant: no two twin states are published
/// alike, a lamp is published lit exactly when it is lit, and as awaiting an acknowledgement
/// exactly when it awaits one, in the same direction.
pub proof fn law_published_headlamp_state_keeps_its_name(a: HeadlampState, b: HeadlampState)
    ensures
        spec_publish_headlamp_state(a) == spec_publish_headlamp_state(b) ==> a == b,
        spec_publish_headlamp_state(a) == PublishedHeadlampState::On <==> a == HeadlampState::On,
        spec_publish_headlamp_state(a) == PublishedHeadlampState::OnRequested <==> a == HeadlampState::OnRequested,
        spec_publish_headlamp_state(a) == PublishedHeadlampState::OffRequested <==> a == HeadlampState::OffRequested,
        spec_publish_headlamp_state(a) == PublishedHeadlampState::Ready <==> a == HeadlampState::Ready,
        spec_publish_headlamp_state(a) == PublishedHeadlampState::Off <==> a == HeadlampState::Off,
{
}

impl<'a> From<&'a HeadlampState> for PublishedHeadlampState {
    fn from(s: &'a HeadlampState) -> (r: PublishedHeadlampState) {
        match s {
            HeadlampState::Off => PublishedHeadlampState::Off,
            HeadlampState::Ready => PublishedHeadlampState::Ready,
            HeadlampState::OnRequested => PublishedHeadlampState::OnRequested,
            HeadlampState::On => PublishedHeadlampState::On,
            HeadlampState::OffRequested => PublishedHeadlampState::OffRequested,
        }
    }
}

impl<'a> vstd::std_specs::convert::FromSpecImpl<&'a HeadlampState> for PublishedHeadlampState {
    open spec fn obeys_from_spec() -> bool {
        true
    }

    open spec fn from_spec(s: &'a HeadlampState) -> PublishedHeadlampState {
        spec_publish_headlamp_state(*s)
    }
}

/// Published image of a [`FrontHeadlampSwitchDirection`].
#[derive(Debug, Clone, Copy, PartialEq, Eq)]
pub enum PublishedFrontHeadlampSwitchDirection {
    On,
    Off,
}

/// The published image of each switch direction.
pub open spec fn spec_publish_direction(d: FrontHeadlampSwitchDirection) -> PublishedFrontHeadlampSwitchDirection {
    match d {
        FrontHeadlampSwitchDirection::On => PublishedFrontHeadlampSwitchDirection::On,
        FrontHeadlampSwitchDirection::Off => PublishedFrontHeadlampSwitchDirection::Off,
    }
}

impl<'a> From<&'a FrontHeadlampSwitchDirection> for PublishedFrontHeadlampSwitchDirection {
    fn from(d: &'a FrontHeadlampSwitchDirection) -> (r: PublishedFrontHeadlampSwitchDirection) {
        match d {
            FrontHeadlampSwitchDirection::On => PublishedFrontHeadlampSwitchDirection::On,
            FrontHeadlampSwitchDirection::Off => PublishedFrontHeadlampSwitchDirection::Off,
        }
    }
}

impl<'a> vstd::std_specs::convert::FromSpecImpl<&'a FrontHeadlampSwitchDirection> for PublishedFrontHeadlampSwitchDirection {
    open spec fn obeys_from_spec() -> bool {
        true
    }

    open spec fn from_spec(d: &'a FrontHeadlampSwitchDirection) -> PublishedFrontHeadlampSwitchDirection {
        spec_publish_direction(*d)
    }
}

/// Published image of a [`FrontHeadlampIncompleteCause`].
#[derive(Debug, Clone, Copy, PartialEq, Eq)]
pub enum PublishedFrontHeadlampIncompleteCause {
    TimedOut,
    NegativeAck,
}

/// The published image of each incompletion cause.
pub open spec fn spec_publish_cause(c: FrontHeadlampIncompleteCause) -> PublishedFrontHeadlampIncompleteCause {
    match c {
        FrontHeadlampIncompleteCause::TimedOut => PublishedFrontHeadlampIncompleteCause::TimedOut,
        FrontHeadlampIncompleteCause::NegativeAck => PublishedFrontHeadlampIncompleteCause::NegativeAck,
    }
}

impl<'a> From<&'a FrontHeadlampIncompleteCause> for PublishedFrontHeadlampIncompleteCause {
    fn from(c: &'a FrontHeadlampIncompleteCause) -> (r: PublishedFrontHeadlampIncompleteCause) {
        match c {
            FrontHeadlampIncompleteCause::TimedOut => PublishedFrontHeadlampIncompleteCause::TimedOut,
            FrontHeadlampIncompleteCause::NegativeAck => PublishedFrontHeadlampIncompleteCause::NegativeAck,
        }
    }
}

impl<'a> vstd::std_specs::convert::FromSpecImpl<&'a FrontHeadlampIncompleteCause> for PublishedFrontHeadlampIncompleteCause {
    open spec fn obeys_from_spec() -> bool {
        true
    }

    open spec fn from_spec(c: &'a FrontHeadlampIncompleteCause) -> PublishedFrontHeadlampIncompleteCause {
        spec_publish_cause(*c)
    }
}

/// Published image of an [`Operational`] fact.
#[derive(Debug, Clone, Copy, PartialEq, Eq)]
pub enum PublishedOperational {
    LightingUnsafe,
}

impl<'a> From<&'a Operational> for PublishedOperational {
    fn from(op: &'a Operational) -> (r: PublishedOperational) {
        match op {
            Operational::LightingUnsafe => PublishedOperational::LightingUnsafe,
        }
    }
}

impl<'a> vstd::std_specs::convert::FromSpecImpl<&'a Operational> for PublishedOperational {
    open spec fn obeys_from_spec() -> bool {
        true
    }

    open spec fn from_spec(op: &'a Operational) -> PublishedOperational {
        PublishedOperational::LightingUnsafe
    }
}

/// Published image of an [`ObservedBool`].
#[derive(Debug, Clone, Copy, PartialEq, Eq)]
pub enum PublishedObservedBool {
    Unknown,
    Off,
    On,
}

impl Default for PublishedObservedBool {
    fn default() -> (r: PublishedObservedBool)
        ensures
            r == PublishedObservedBool::Unknown,
    {
        PublishedObservedBool::Unknown
    }
}

/// The published image of each observed value.
pub open spec fn spec_publish_observed(value: ObservedBool) -> PublishedObservedBool {
    match value {
        ObservedBool::Unknown => PublishedObservedBool::Unknown,
        ObservedBool::Off => PublishedObservedBool::Off,
        ObservedBool::On => PublishedObservedBool::On,
    }
}

impl From<ObservedBool> for PublishedObservedBool {
    fn from(value: ObservedBool) -> (r: PublishedObservedBool) {
        match value {
            ObservedBool::Unknown => PublishedObservedBool::Unknown,
            ObservedBool::Off => PublishedObservedBool::Off,
            ObservedBool::On => PublishedObservedBool::On,
        }
    }
}

impl vstd::std_specs::convert::FromSpecImpl<ObservedBool> for PublishedObservedBool {
    open spec fn obeys_from_spec() -> bool {
        true
    }

    open spec fn from_spec(value: ObservedBool) -> PublishedObservedBool {
        spec_publish_observed(value)
    }
}

/// Published image of an [`FsmEvent`].
#[derive(Debug, Clone, Copy, PartialEq, Eq)]
pub enum PublishedFsmEvent {
    PowerOn,
    PowerOff,
    UpdateRpm(u16),
    HazardButtonChanged(bool),
    HazardButtonObserved(bool),
    LeftTurnRequestObserved(bool),
    RightTurnRequestObserved(bool),
    /// `true` = lamp OK, `false` = lamp failed.
    LeftLowBeamStatusObserved(bool),
    RightLowBeamStatusObserved(bool),
    UpdateAmbientLux(u16),
    FrontHeadlampOnAck,
    FrontHeadlampOffAck,
    FrontHeadlampActuationIncomplete {
        direction: PublishedFrontHeadlampSwitchDirection,
        cause: PublishedFrontHeadlampIncompleteCause,
    },
    TimerTick,
    Internal(PublishedOperational),
    RainsStarted,
    RainsStopped,
}

/// The published image of each event. Zone readiness is not published: it reads as a timer
/// tick, and the row it rides on is told apart by the published context.
pub open spec fn spec_publish_event(e: FsmEvent) -> PublishedFsmEvent {
    match e {
        FsmEvent::PowerOn => PublishedFsmEvent::PowerOn,
        FsmEvent::PowerOff => PublishedFsmEvent::PowerOff,
        FsmEvent::UpdateRpm(rpm) => PublishedFsmEvent::UpdateRpm(rpm),
        FsmEvent::HazardButtonChanged(p) => PublishedFsmEvent::HazardButtonChanged(p),
        FsmEvent::HazardButtonObserved(p) => PublishedFsmEvent::HazardButtonObserved(p),
        FsmEvent::LeftTurnRequestObserved(p) => PublishedFsmEvent::LeftTurnRequestObserved(p),
        FsmEvent::RightTurnRequestObserved(p) => PublishedFsmEvent::RightTurnRequestObserved(p),
        FsmEvent::LeftLowBeamStatusObserved(ok) => PublishedFsmEvent::LeftLowBeamStatusObserved(ok),
        FsmEvent::RightLowBeamStatusObserved(ok) => PublishedFsmEvent::RightLowBeamStatusObserved(ok),
        FsmEvent::UpdateAmbientLux(lux) => PublishedFsmEvent::UpdateAmbientLux(lux),
        FsmEvent::FrontHeadlampOnAck => PublishedFsmEvent::FrontHeadlampOnAck,
        FsmEvent::FrontHeadlampOffAck => PublishedFsmEvent::FrontHeadlampOffAck,
        FsmEvent::FrontHeadlampActuationIncomplete { direction, cause } => PublishedFsmEvent::FrontHeadlampActuationIncomplete {
            direction: spec_publish_direction(direction),
            cause: spec_publish_cause(cause),
        },
        FsmEvent::TimerTick => PublishedFsmEvent::TimerTick,
        FsmEvent::Internal(_) => PublishedFsmEvent::Internal(PublishedOperational::LightingUnsafe),
        FsmEvent::RainsStarted => PublishedFsmEvent::RainsStarted,
        FsmEvent::RainsStopped => PublishedFsmEvent::RainsStopped,
        FsmEvent::AssemblyZoneReady(_) => PublishedFsmEvent::TimerTick,
    }
}

impl<'a> From<&'a FsmEvent> for PublishedFsmEvent {
    fn from(e: &'a FsmEvent) -> (r: PublishedFsmEvent) {
        match e {
            FsmEvent::PowerOn => PublishedFsmEvent::PowerOn,
            FsmEvent::PowerOff => PublishedFsmEvent::PowerOff,
            FsmEvent::UpdateRpm(rpm) => PublishedFsmEvent::UpdateRpm(*rpm),
            FsmEvent::HazardButtonChanged(p) => PublishedFsmEvent::HazardButtonChanged(*p),
            FsmEvent::HazardButtonObserved(p) => PublishedFsmEvent::HazardButtonObserved(*p),
            FsmEvent::LeftTurnRequestObserved(p) => PublishedFsmEvent::LeftTurnRequestObserved(*p),
            FsmEvent::RightTurnRequestObserved(p) => PublishedFsmEvent::RightTurnRequestObserved(*p),
            FsmEvent::LeftLowBeamStatusObserved(ok) => PublishedFsmEvent::LeftLowBeamStatusObserved(*ok),
            FsmEvent::RightLowBeamStatusObserved(ok) => PublishedFsmEvent::RightLowBeamStatusObserved(*ok),
            FsmEvent::UpdateAmbientLux(lux) => PublishedFsmEvent::UpdateAmbientLux(*lux),
            FsmEvent::FrontHeadlampOnAck => PublishedFsmEvent::FrontHeadlampOnAck,
            FsmEvent::FrontHeadlampOffAck => PublishedFsmEvent::FrontHeadlampOffAck,
            FsmEvent::FrontHeadlampActuationIncomplete { direction, cause } => {
                PublishedFsmEvent::FrontHeadlampActuationIncomplete {
                    direction: PublishedFrontHeadlampSwitchDirection::from(direction),
                    cause: PublishedFrontHeadlampIncompleteCause::from(cause),
                }
            },
            FsmEvent::TimerTick => PublishedFsmEvent::TimerTick,
            FsmEvent::Internal(op) => PublishedFsmEvent::Internal(PublishedOperational::from(op)),
            FsmEvent::RainsStarted => PublishedFsmEvent::RainsStarted,
            FsmEvent::RainsStopped => PublishedFsmEvent::RainsStopped,
            FsmEvent::AssemblyZoneReady(_) => PublishedFsmEvent::TimerTick,
        }
    }
}

impl<'a> vstd::std_specs::convert::FromSpecImpl<&'a FsmEvent> for PublishedFsmEvent {
    open spec fn obeys_from_spec() -> bool {
        true
    }

    open spec fn from_spec(e: &'a FsmEvent) -> PublishedFsmEvent {
        spec_publish_event(*e)
    }
}

/// World-facing domain intents: the brain's actions without the start/stop coordination hints,
/// which never reach the ledger.
#[derive(Debug, Clone, PartialEq, Eq)]
pub enum PublishedDomainAction {
    StartBuzzer,
    StopBuzzer,
    PublishStateSync,
    LogWarning(String),
    RequestFrontHeadlampOn,
    RequestFrontHeadlampOff,
    RequestWiperStart,
    RequestWiperStop,
    SetTurnLights { left_on: bool, right_on: bool },
}

impl DeepView for PublishedDomainAction {
    type V = DomainActionView;

    /// The domain action this published intent stands for.
    open spec fn deep_view(&self) -> DomainActionView {
        match self {
            PublishedDomainAction::StartBuzzer => DomainActionView::StartBuzzer,
            PublishedDomainAction::StopBuzzer => DomainActionView::StopBuzzer,
            PublishedDomainAction::PublishStateSync => DomainActionView::PublishStateSync,
            PublishedDomainAction::LogWarning(text) => DomainActionView::LogWarning(text@),
            PublishedDomainAction::RequestFrontHeadlampOn => DomainActionView::RequestFrontHeadlampOn,
            PublishedDomainAction::RequestFrontHeadlampOff => DomainActionView::RequestFrontHeadlampOff,
            PublishedDomainAction::RequestWiperStart => DomainActionView::RequestWiperStart,
            PublishedDomainAction::RequestWiperStop => DomainActionView::RequestWiperStop,
            PublishedDomainAction::SetTurnLights { left_on, right_on } => DomainActionView::SetTurnLights {
                left_on: *left_on,
                right_on: *right_on,
            },
        }
    }
}

impl PublishedDomainAction {
    /// The published form of `action`, or `None` for a coordination hint.
    pub fn project(action: &DomainAction) -> (r: Option<PublishedDomainAction>)
        ensures
            r is None <==> action.spec_is_coordination(),
            r matches Some(p) ==> p.deep_view() == action.deep_view(),
    {
        match action {
            DomainAction::StartBuzzer => Some(PublishedDomainAction::StartBuzzer),
            DomainAction::StopBuzzer => Some(PublishedDomainAction::StopBuzzer),
            DomainAction::PublishStateSync => Some(PublishedDomainAction::PublishStateSync),
            DomainAction::LogWarning(msg) => Some(PublishedDomainAction::LogWarning(msg.clone())),
            DomainAction::RequestFrontHeadlampOn => Some(PublishedDomainAction::RequestFrontHeadlampOn),
            DomainAction::RequestFrontHeadlampOff => Some(PublishedDomainAction::RequestFrontHeadlampOff),
            DomainAction::RequestWiperStart => Some(PublishedDomainAction::RequestWiperStart),
            DomainAction::RequestWiperStop => Some(PublishedDomainAction::RequestWiperStop),
            DomainAction::SetTurnLights { left_on, right_on } => Some(PublishedDomainAction::SetTurnLights {
                left_on: *left_on,
                right_on: *right_on,
            }),
            DomainAction::StartAssemblies(_) | DomainAction::StopAssemblies(_) => None,
        }
    }
}

/// Published image of an [`FsmState`]: the preparation sets are dropped and the warning's entry
/// instant is projected to wall time.
#[derive(Debug, Clone, Copy, PartialEq, Eq)]
pub enum PublishedFsmState {
    Off,
    PreparingToStart,
    Idle,
    Driving,
    DrivingDangerously,
    ExtremeOperationWarning { entered_at: UnixTimestamp },
    PreparingToStop,
}

/// `r` is the published image of `s` under `clock`.
pub open spec fn spec_state_published(s: FsmState, clock: SessionClock, r: PublishedFsmState) -> bool {
    match s {
        FsmState::Off => r == PublishedFsmState::Off,
        FsmState::PreparingToStart(_) => r == PublishedFsmState::PreparingToStart,
        FsmState::Idle => r == PublishedFsmState::Idle,
        FsmState::Driving => r == PublishedFsmState::Driving,
        FsmState::DrivingDangerously => r == PublishedFsmState::DrivingDangerously,
        FsmState::ExtremeOperationWarning(at) => r matches PublishedFsmState::ExtremeOperationWarning { entered_at }
            && entered_at@ == spec_project(clock.anchor(), clock.unix_anchor(), at@),
        FsmState::PreparingToStop(_) => r == PublishedFsmState::PreparingToStop,
    }
}

impl PublishedFsmState {
    /// The published image of `state`, instants projected through `clock`.
    pub fn project(state: &FsmState, clock: &SessionClock) -> (r: PublishedFsmState)
        ensures
            spec_state_published(*state, *clock, r),
    {
        match state {
            FsmState::Off => PublishedFsmState::Off,
            FsmState::PreparingToStart(_) => PublishedFsmState::PreparingToStart,
            FsmState::Idle => PublishedFsmState::Idle,
            FsmState::Driving => PublishedFsmState::Driving,
            FsmState::DrivingDangerously => PublishedFsmState::DrivingDangerously,
            FsmState::ExtremeOperationWarning(at) => PublishedFsmState::ExtremeOperationWarning {
                entered_at: clock.project(at),
            },
            FsmState::PreparingToStop(_) => PublishedFsmState::PreparingToStop,
        }
    }
}


/// Published image of a [`WheelRpm`].
#[derive(Debug, Clone, Copy, PartialEq, Eq)]
pub struct PublishedWheelRpm {
    pub front_left: u16,
    pub front_right: u16,
    pub rear_left: u16,
    pub rear_right: u16,
}

/// The published image of the wheel speeds.
pub open spec fn spec_publish_wheels(w: WheelRpm) -> PublishedWheelRpm {
    PublishedWheelRpm {
        front_left: w.front_left,
        front_right: w.front_right,
        rear_left: w.rear_left,
        rear_right: w.rear_right,
    }
}

impl<'a> From<&'a WheelRpm> for PublishedWheelRpm {
    fn from(v: &'a WheelRpm) -> (r: PublishedWheelRpm) {
        PublishedWheelRpm {
            front_left: v.front_left,
            front_right: v.front_right,
            rear_left: v.rear_left,
            rear_right: v.rear_right,
        }
    }
}

impl<'a> vstd::std_specs::convert::FromSpecImpl<&'a WheelRpm> for PublishedWheelRpm {
    open spec fn obeys_from_spec() -> bool {
        true
    }

    open spec fn from_spec(v: &'a WheelRpm) -> PublishedWheelRpm {
        spec_publish_wheels(*v)
    }
}

/// Published image of a [`PowertrainContext`].
#[derive(Debug, Clone, Copy, PartialEq, Eq)]
pub struct PublishedPowertrainContext {
    pub wheel_rpm: PublishedWheelRpm,
    pub speed_kph: u16,
}

/// The published image of the powertrain readings.
pub open spec fn spec_publish_powertrain(p: PowertrainContext) -> PublishedPowertrainContext {
    PublishedPowertrainContext { wheel_rpm: spec_publish_wheels(p.wheel_rpm), speed_kph: p.speed_kph }
}

impl<'a> From<&'a PowertrainContext> for PublishedPowertrainContext {
    fn from(v: &'a PowertrainContext) -> (r: PublishedPowertrainContext) {
        PublishedPowertrainContext {
            wheel_rpm: PublishedWheelRpm::from(&v.wheel_rpm),
            speed_kph: v.speed_kph,
        }
    }
}

impl<'a> vstd::std_specs::convert::FromSpecImpl<&'a PowertrainContext> for PublishedPowertrainContext {
    open spec fn obeys_from_spec() -> bool {
        true
    }

    open spec fn from_spec(v: &'a PowertrainContext) -> PublishedPowertrainContext {
        spec_publish_powertrain(*v)
    }
}

/// Published image of a [`VehicleHealthContext`].
#[derive(Debug, Clone, Copy, PartialEq, Eq)]
pub struct PublishedHealthContext {
    pub fuel_level_pct: u8,
    pub oil_pressure_kpa: u8,
    pub tyre_pressure_ok: bool,
}

/// The published image of the health readings.
pub open spec fn spec_publish_health(h: VehicleHealthContext) -> PublishedHealthContext {
    PublishedHealthContext {
        fuel_level_pct: h.fuel_level_pct,
        oil_pressure_kpa: h.oil_pressure_kpa,
        tyre_pressure_ok: h.tyre_pressure_ok,
    }
}

impl<'a> From<&'a VehicleHealthContext> for PublishedHealthContext {
    fn from(v: &'a VehicleHealthContext) -> (r: PublishedHealthContext) {
        PublishedHealthContext {
            fuel_level_pct: v.fuel_level_pct,
            oil_pressure_kpa: v.oil_pressure_kpa,
            tyre_pressure_ok: v.tyre_pressure_ok,
        }
    }
}

impl<'a> vstd::std_specs::convert::FromSpecImpl<&'a VehicleHealthContext> for PublishedHealthContext {
    open spec fn obeys_from_spec() -> bool {
        true
    }

    open spec fn from_spec(v: &'a VehicleHealthContext) -> PublishedHealthContext {
        spec_publish_health(*v)
    }
}

/// Published image of a [`VisibilityContext`].
#[derive(Debug, Clone, Copy, PartialEq, Eq)]
pub struct PublishedVisibilityContext {
    pub ambient_lux: u16,
}

/// The published image of the visibility reading.
pub open spec fn spec_publish_visibility(v: VisibilityContext) -> PublishedVisibilityContext {
    PublishedVisibilityContext { ambient_lux: v.ambient_lux }
}

impl<'a> From<&'a VisibilityContext> for PublishedVisibilityContext {
    fn from(v: &'a VisibilityContext) -> (r: PublishedVisibilityContext) {
        PublishedVisibilityContext { ambient_lux: v.ambient_lux }
    }
}

impl<'a> vstd::std_specs::convert::FromSpecImpl<&'a VisibilityContext> for PublishedVisibilityContext {
    open spec fn obeys_from_spec() -> bool {
        true
    }

    open spec fn from_spec(v: &'a VisibilityContext) -> PublishedVisibilityContext {
        spec_publish_visibility(*v)
    }
}

/// Published image of a [`WeatherContext`].
#[derive(Debug, Clone, Copy, PartialEq, Eq)]
pub struct PublishedWeatherContext {
    pub raining: bool,
}

/// The published image of the weather reading.
pub open spec fn spec_publish_weather(w: WeatherContext) -> PublishedWeatherContext {
    PublishedWeatherContext { raining: w.raining }
}

impl<'a> From<&'a WeatherContext> for PublishedWeatherContext {
    fn from(v: &'a WeatherContext) -> (r: PublishedWeatherContext) {
        PublishedWeatherContext { raining: v.raining }
    }
}

impl<'a> vstd::std_specs::convert::FromSpecImpl<&'a WeatherContext> for PublishedWeatherContext {
    open spec fn obeys_from_spec() -> bool {
        true
    }

    open spec fn from_spec(v: &'a WeatherContext) -> PublishedWeatherContext {
        spec_publish_weather(*v)
    }
}

/// Published image of a [`WiperState`].
#[derive(Debug, Clone, Copy, PartialEq, Eq)]
pub enum PublishedWiperState {
    Off,
    Ready,
    Running,
}

/// The published image of each wiper state.
pub open spec fn spec_publish_wiper_state(s: WiperState) -> PublishedWiperState {
    match s {
        WiperState::Off => PublishedWiperState::Off,
        WiperState::Ready => PublishedWiperState::Ready,
        WiperState::Running => PublishedWiperState::Running,
    }
}

impl<'a> From<&'a WiperState> for PublishedWiperState {
    fn from(v: &'a WiperState) -> (r: PublishedWiperState) {
        match v {
            WiperState::Off => PublishedWiperState::Off,
            WiperState::Ready => PublishedWiperState::Ready,
            WiperState::Running => PublishedWiperState::Running,
        }
    }
}

impl<'a> vstd::std_specs::convert::FromSpecImpl<&'a WiperState> for PublishedWiperState {
    open spec fn obeys_from_spec() -> bool {
        true
    }

    open spec fn from_spec(v: &'a WiperState) -> PublishedWiperState {
        spec_publish_wiper_state(*v)
    }
}

/// Published image of a [`WiperContext`].
#[derive(Debug, Clone, Copy, PartialEq, Eq)]
pub struct PublishedWiperContext {
    pub state: PublishedWiperState,
}

/// The published image of the wiper zone.
pub open spec fn spec_publish_wiper(w: WiperContext) -> PublishedWiperContext {
    PublishedWiperContext { state: spec_publish_wiper_state(w.state) }
}

impl<'a> From<&'a WiperContext> for PublishedWiperContext {
    fn from(v: &'a WiperContext) -> (r: PublishedWiperContext) {
        PublishedWiperContext { state: PublishedWiperState::from(&v.state) }
    }
}

impl<'a> vstd::std_specs::convert::FromSpecImpl<&'a WiperContext> for PublishedWiperContext {
    open spec fn obeys_from_spec() -> bool {
        true
    }

    open spec fn from_spec(v: &'a WiperContext) -> PublishedWiperContext {
        spec_publish_wiper(*v)
    }
}

/// Published image of an [`SccmContext`].
#[derive(Debug, Clone, Copy, PartialEq, Eq)]
pub struct PublishedSccmContext {
    pub hazard_button_on: PublishedObservedBool,
    pub hazard_mode_on: PublishedObservedBool,
}

/// The published image of the SCCM zone.
pub open spec fn spec_publish_sccm(s: SccmContext) -> PublishedSccmContext {
    PublishedSccmContext {
        hazard_button_on: spec_publish_observed(s.hazard_button),
        hazard_mode_on: spec_publish_observed(s.hazard_mode),
    }
}

impl<'a> From<&'a SccmContext> for PublishedSccmContext {
    fn from(v: &'a SccmContext) -> (r: PublishedSccmContext) {
        PublishedSccmContext {
            hazard_button_on: PublishedObservedBool::from(v.hazard_button),
            hazard_mode_on: PublishedObservedBool::from(v.hazard_mode),
        }
    }
}

impl<'a> vstd::std_specs::convert::FromSpecImpl<&'a SccmContext> for PublishedSccmContext {
    open spec fn obeys_from_spec() -> bool {
        true
    }

    open spec fn from_spec(v: &'a SccmContext) -> PublishedSccmContext {
        spec_publish_sccm(*v)
    }
}

/// Published image of a [`BcmState`].
#[derive(Debug, Clone, Copy, PartialEq, Eq)]
pub enum PublishedBcmState {
    Off,
    Ready,
}

/// The published image of each BCM state.
pub open spec fn spec_publish_bcm_state(s: BcmState) -> PublishedBcmState {
    match s {
        BcmState::Off => PublishedBcmState::Off,
        BcmState::Ready => PublishedBcmState::Ready,
    }
}

impl<'a> From<&'a BcmState> for PublishedBcmState {
    fn from(v: &'a BcmState) -> (r: PublishedBcmState) {
        match v {
            BcmState::Off => PublishedBcmState::Off,
            BcmState::Ready => PublishedBcmState::Ready,
        }
    }
}

impl<'a> vstd::std_specs::convert::FromSpecImpl<&'a BcmState> for PublishedBcmState {
    open spec fn obeys_from_spec() -> bool {
        true
    }

    open spec fn from_spec(v: &'a BcmState) -> PublishedBcmState {
        spec_publish_bcm_state(*v)
    }
}

/// Published image of a [`BcmContext`].
#[derive(Debug, Clone, Copy, PartialEq, Eq)]
pub struct PublishedBcmContext {
    pub state: PublishedBcmState,
    pub left_turn_request_on: PublishedObservedBool,
    pub right_turn_request_on: PublishedObservedBool,
}

/// The published image of the BCM zone.
pub open spec fn spec_publish_bcm(b: BcmContext) -> PublishedBcmContext {
    PublishedBcmContext {
        state: spec_publish_bcm_state(b.state),
        left_turn_request_on: spec_publish_observed(b.left_turn_request),
        right_turn_request_on: spec_publish_observed(b.right_turn_request),
    }
}

impl<'a> From<&'a BcmContext> for PublishedBcmContext {
    fn from(v: &'a BcmContext) -> (r: PublishedBcmContext) {
        PublishedBcmContext {
            state: PublishedBcmState::from(&v.state),
            left_turn_request_on: PublishedObservedBool::from(v.left_turn_request),
            right_turn_request_on: PublishedObservedBool::from(v.right_turn_request),
        }
    }
}

impl<'a> vstd::std_specs::convert::FromSpecImpl<&'a BcmContext> for PublishedBcmContext {
    open spec fn obeys_from_spec() -> bool {
        true
    }

    open spec fn from_spec(v: &'a BcmContext) -> PublishedBcmContext {
        spec_publish_bcm(*v)
    }
}

/// Published image of an [`FlcmContext`].
#[derive(Debug, Clone, Copy, PartialEq, Eq)]
pub struct PublishedFlcmContext {
    pub left_low_beam_status_ok: PublishedObservedBool,
    pub right_low_beam_status_ok: PublishedObservedBool,
    pub silent: bool,
}

impl Default for PublishedFlcmContext {
    fn default() -> (r: PublishedFlcmContext)
        ensures
            r == (PublishedFlcmContext {
                left_low_beam_status_ok: PublishedObservedBool::Unknown,
                right_low_beam_status_ok: PublishedObservedBool::Unknown,
                silent: false,
            }),
    {
        PublishedFlcmContext {
            left_low_beam_status_ok: PublishedObservedBool::Unknown,
            right_low_beam_status_ok: PublishedObservedBool::Unknown,
            silent: false,
        }
    }
}

/// The published image of the FLCM zone.
pub open spec fn spec_publish_flcm(f: FlcmContext) -> PublishedFlcmContext {
    PublishedFlcmContext {
        left_low_beam_status_ok: spec_publish_observed(f.left_low_beam_status),
        right_low_beam_status_ok: spec_publish_observed(f.right_low_beam_status),
        silent: f.silent,
    }
}

impl<'a> From<&'a FlcmContext> for PublishedFlcmContext {
    fn from(v: &'a FlcmContext) -> (r: PublishedFlcmContext) {
        PublishedFlcmContext {
            left_low_beam_status_ok: PublishedObservedBool::from(v.left_low_beam_status),
            right_low_beam_status_ok: PublishedObservedBool::from(v.right_low_beam_status),
            silent: v.silent,
        }
    }
}

impl<'a> vstd::std_specs::convert::FromSpecImpl<&'a FlcmContext> for PublishedFlcmContext {
    open spec fn obeys_from_spec() -> bool {
        true
    }

    open spec fn from_spec(v: &'a FlcmContext) -> PublishedFlcmContext {
        spec_publish_flcm(*v)
    }
}

/// Published image of a [`HeadlampContext`], the pending-acknowledgement instant projected to
/// wall time.
#[derive(Debug, Clone, Copy, PartialEq, Eq)]
pub struct PublishedHeadlampContext {
    pub state: PublishedHeadlampState,
    pub ack_pending_since: Option<UnixTimestamp>,
}

/// `r` is the published image of the headlamp zone `h` under `clock`.
pub open spec fn spec_headlamp_published(h: HeadlampContext, clock: SessionClock, r: PublishedHeadlampContext) -> bool {
    &&& r.state == spec_publish_headlamp_state(h.state)
    &&& match h.ack_pending_since {
        None => r.ack_pending_since is None,
        Some(t) => r.ack_pending_since matches Some(u)
            && u@ == spec_project(clock.anchor(), clock.unix_anchor(), t@),
    }
}

impl PublishedHeadlampContext {
    /// The published image of `h`, instants projected through `clock`.
    pub fn project(h: &HeadlampContext, clock: &SessionClock) -> (r: PublishedHeadlampContext)
        ensures
            spec_headlamp_published(*h, *clock, r),
    {
        let ack_pending_since = match &h.ack_pending_since {
            Some(t) => Some(clock.project(t)),
            None => None,
        };
        PublishedHeadlampContext { state: PublishedHeadlampState::from(&h.state), ack_pending_since }
    }
}

/// Published image of a [`VehicleContext`].
#[derive(Debug, Clone, Copy, PartialEq, Eq)]
pub struct PublishedVehicleContext {
    pub sccm: PublishedSccmContext,
    pub bcm: PublishedBcmContext,
    pub flcm: PublishedFlcmContext,
    pub powertrain: PublishedPowertrainContext,
    pub health: PublishedHealthContext,
    pub visibility: PublishedVisibilityContext,
    pub weather: PublishedWeatherContext,
    pub headlamp: PublishedHeadlampContext,
    pub wiper: PublishedWiperContext,
}

/// `r` is the published image of the vehicle context `ctx` under `clock`.
pub open spec fn spec_context_published(ctx: VehicleContext, clock: SessionClock, r: PublishedVehicleContext) -> bool {
    &&& r.sccm == spec_publish_sccm(ctx.sccm)
    &&& r.bcm == spec_publish_bcm(ctx.bcm)
    &&& r.flcm == spec_publish_flcm(ctx.flcm)
    &&& r.powertrain == spec_publish_powertrain(ctx.powertrain)
    &&& r.health == spec_publish_health(ctx.health)
    &&& r.visibility == spec_publish_visibility(ctx.visibility)
    &&& r.weather == spec_publish_weather(ctx.weather)
    &&& spec_headlamp_published(ctx.headlamp, clock, r.headlamp)
    &&& r.wiper == spec_publish_wiper(ctx.wiper)
}

impl PublishedVehicleContext {
    /// The published image of `ctx`, instants projected through `clock`.
    pub fn project(ctx: &VehicleContext, clock: &SessionClock) -> (r: PublishedVehicleContext)
        ensures
            spec_context_published(*ctx, *clock, r),
    {
        PublishedVehicleContext {
            sccm: PublishedSccmContext::from(&ctx.sccm),
            bcm: PublishedBcmContext::from(&ctx.bcm),
            flcm: PublishedFlcmContext::from(&ctx.flcm),
            powertrain: PublishedPowertrainContext::from(&ctx.powertrain),
            health: PublishedHealthContext::from(&ctx.health),
            visibility: PublishedVisibilityContext::from(&ctx.visibility),
            weather: PublishedWeatherContext::from(&ctx.weather),
            headlamp: PublishedHeadlampContext::project(&ctx.headlamp, clock),
            wiper: PublishedWiperContext::from(&ctx.wiper),
        }
    }
}

/// The ledger's actions in their published form: coordination hints dropped, order kept.
fn publish_actions(actions: &Vec<DomainAction>) -> (r: Vec<PublishedDomainAction>)
    ensures
        r.deep_view() == spec_ledger_actions(actions.deep_view()),
{
    let mut r: Vec<PublishedDomainAction> = Vec::new();
    let mut i: usize = 0;
    while i < actions.len()
        invariant
            i <= actions.len(),
            r.deep_view() == spec_ledger_actions(actions.deep_view().take(i as int)),
        decreases actions.len() - i,
    {
        let ghost before = r.deep_view();
        proof {
            let s = actions.deep_view().take(i + 1);
            assert(s.drop_last() =~= actions.deep_view().take(i as int));
            assert(s.last() == actions@[i as int].deep_view());
            reveal_with_fuel(Seq::filter, 1);
        }
        match PublishedDomainAction::project(&actions[i]) {
            Some(p) => {
                r.push(p);
                proof {
                    assert(r.deep_view() =~= before.push(p.deep_view()));
                }
            },
            None => {},
        }
        i = i + 1;
    }
    proof {
        assert(actions.deep_view().take(i as int) =~= actions.deep_view());
    }
    r
}

/// The instant-free transition record emitted to the world.
#[derive(Debug, Clone, PartialEq)]
pub struct PublishedTransitionRecord {
    pub car_identity: String,
    /// Which run produced this record: the session start on the wall clock.
    pub session_started_at: UnixTimestamp,
    /// Monotonic, clock-independent ledger order.
    pub record_seq: u64,
    /// When this transition was recorded on the wall clock.
    pub recorded_at: UnixTimestamp,
    pub event: PublishedFsmEvent,
    pub old_state: PublishedFsmState,
    pub next_state: PublishedFsmState,
    pub old_ctx: PublishedVehicleContext,
    pub current_ctx: PublishedVehicleContext,
    pub actions: Vec<PublishedDomainAction>,
}

/// `r` is the published form of `raw`, stamped for `car_identity` with sequence `record_seq`
/// under `clock`.
pub open spec fn spec_record_published(
    raw: RawTransitionRecord,
    car_identity: Seq<char>,
    record_seq: u64,
    clock: SessionClock,
    r: PublishedTransitionRecord,
) -> bool {
    &&& r.car_identity@ == car_identity
    &&& r.session_started_at@ == clock.unix_anchor()
    &&& r.record_seq == record_seq
    &&& r.recorded_at@ == spec_project(clock.anchor(), clock.unix_anchor(), raw.at@)
    &&& r.event == spec_publish_event(raw.event)
    &&& spec_state_published(raw.old_state, clock, r.old_state)
    &&& spec_state_published(raw.next_state, clock, r.next_state)
    &&& spec_context_published(raw.old_ctx, clock, r.old_ctx)
    &&& spec_context_published(raw.current_ctx, clock, r.current_ctx)
    &&& r.actions.deep_view() == spec_ledger_actions(raw.actions.deep_view())
}

impl PublishedTransitionRecord {
    /// Project a raw transition record into its wall-clock-stamped form.
    pub fn project(
        raw: &RawTransitionRecord,
        car_identity: &str,
        record_seq: u64,
        clock: &SessionClock,
    ) -> (r: PublishedTransitionRecord)
        ensures
            spec_record_published(*raw, car_identity@, record_seq, *clock, r),
    {
        PublishedTransitionRecord {
            car_identity: car_identity.to_string(),
            session_started_at: clock.session_started_at(),
            record_seq,
            recorded_at: clock.project(&raw.at),
            event: PublishedFsmEvent::from(&raw.event),
            old_state: PublishedFsmState::project(&raw.old_state, clock),
            next_state: PublishedFsmState::project(&raw.next_state, clock),
            old_ctx: PublishedVehicleContext::project(&raw.old_ctx, clock),
            current_ctx: PublishedVehicleContext::project(&raw.current_ctx, clock),
            actions: publish_actions(&raw.actions),
        }
    }
}

/// A stamp is exactly its whole seconds and its subsecond nanoseconds.
pub proof fn law_timestamp_splits_exactly(t: UnixTimestamp)
    ensures
        (t@ / 1_000_000_000) * 1_000_000_000 + t@ % 1_000_000_000 == t@,
        t@ % 1_000_000_000 < 1_000_000_000,
{
}

/// Projection keeps the order of monotonic readings: a later reading never gets an earlier
/// wall stamp.
pub proof fn law_projection_is_monotone(clock: SessionClock, t1: Instant, t2: Instant)
    requires
        t1@ <= t2@,
    ensures
        spec_project(clock.anchor(), clock.unix_anchor(), t1@) <= spec_project(clock.anchor(), clock.unix_anchor(), t2@),
{
}

/// The wall time between the session start and a projected reading is the monotonic time since
/// the anchor (zero for readings before it).
pub proof fn law_projection_preserves_elapsed_time(clock: SessionClock, t: Instant)
    ensures
        spec_project(clock.anchor(), clock.unix_anchor(), t@) - clock.unix_anchor() == if t@ >= clock.anchor() {
            t@ - clock.anchor()
        } else {
            0
        },
{
}

/// Why a transition record could not be emitted.
#[derive(Debug, Clone, Copy, PartialEq, Eq)]
pub enum TransitionSinkError {
    Closed,
}

/// Where the twin emits its published transition records; formatting, persistence and
/// transport happen in implementations and receivers.
pub trait TransitionRecordSink {
    /// Emit one record.
    fn emit(&self, record: PublishedTransitionRecord) -> Result<(), TransitionSinkError>;
}
/// Publication tells apart what it publishes: two different values of a lamp's switch
/// direction, of an incomplete-switch cause, of an observed signal, of the wiper's or the BCM's
/// state never publish alike, and neither do two different events, zone readiness aside (it is
/// published as a timer tick).
pub proof fn law_publication_tells_values_apart(
    d1: FrontHeadlampSwitchDirection,
    d2: FrontHeadlampSwitchDirection,
    c1: FrontHeadlampIncompleteCause,
    c2: FrontHeadlampIncompleteCause,
    o1: ObservedBool,
    o2: ObservedBool,
    w1: WiperState,
    w2: WiperState,
    b1: BcmState,
    b2: BcmState,
    e1: FsmEvent,
    e2: FsmEvent,
)
    ensures
        spec_publish_direction(d1) == spec_publish_direction(d2) ==> d1 == d2,
        spec_publish_cause(c1) == spec_publish_cause(c2) ==> c1 == c2,
        spec_publish_observed(o1) == spec_publish_observed(o2) ==> o1 == o2,
        spec_publish_wiper_state(w1) == spec_publish_wiper_state(w2) ==> w1 == w2,
        spec_publish_bcm_state(b1) == spec_publish_bcm_state(b2) ==> b1 == b2,
        !(e1 is AssemblyZoneReady) && !(e2 is AssemblyZoneReady) && spec_publish_event(e1) == spec_publish_event(e2)
            ==> e1 == e2,
{
}

} // verus!
