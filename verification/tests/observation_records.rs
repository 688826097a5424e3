//! Published transition records and diagnostic records.

use common::fsm::{DomainAction, FsmEvent, FsmState, RawTransitionRecord};
use common::observation_records::diagnostic::{
    diag_headlamp_actuation_unconfirmed, diag_timer_tick, DiagnosticKind, DiagnosticLevel,
    DiagnosticRecord,
};
use common::observation_records::transition::{
    PublishedBcmState, PublishedDomainAction, PublishedFsmEvent, PublishedObservedBool,
    PublishedTransitionRecord, PublishedVehicleContext, PublishedWiperState, SessionClock,
    UnixTimestamp,
};
use common::time::{Duration, Instant};
use common::vehicle_state::{
    BcmState, FrontHeadlampIncompleteCause, ObservedBool, VehicleContext, WiperState,
};

fn clock() -> SessionClock {
    SessionClock::new(Instant::from_nanos(0), Duration::new(1_752_724_800, 0))
}

fn now() -> Instant {
    Instant::from_nanos(1_000)
}

#[test]
fn record_stores_kind_not_prose_blob() {
    let clock = clock();
    let rec = DiagnosticRecord::warning(
        &clock,
        "VirtualCarActor",
        DiagnosticKind::HeadlampActuationUnconfirmed {
            on: true,
            cause: FrontHeadlampIncompleteCause::TimedOut,
        },
        &now(),
    );
    assert!(matches!(
        rec.kind,
        DiagnosticKind::HeadlampActuationUnconfirmed {
            on: true,
            cause: FrontHeadlampIncompleteCause::TimedOut
        }
    ));
}

#[test]
fn display_has_no_ack_emoji_for_unconfirmed() {
    let clock = clock();
    let rec = DiagnosticRecord::warning(
        &clock,
        "VirtualCarActor",
        DiagnosticKind::HeadlampActuationUnconfirmed {
            on: true,
            cause: FrontHeadlampIncompleteCause::NegativeAck,
        },
        &now(),
    );
    let s = rec.render();
    assert!(!s.contains('✅'));
    assert!(!s.contains('✓'));
    assert!(s.contains("unconfirmed"));
    assert!(s.contains("NegativeAck"));
}

#[test]
fn unconfirmed_helper_sets_kind() {
    let clock = clock();
    let rec = diag_headlamp_actuation_unconfirmed(
        &clock,
        true,
        FrontHeadlampIncompleteCause::TimedOut,
        &now(),
    );
    assert_eq!(rec.level, DiagnosticLevel::Warning);
    assert!(matches!(
        rec.kind,
        DiagnosticKind::HeadlampActuationUnconfirmed { on: true, .. }
    ));
}

#[test]
fn timer_tick_helper_has_no_identity_prose() {
    let clock = clock();
    let rec = diag_timer_tick(&clock, &now());
    assert_eq!(rec.kind, DiagnosticKind::TimerTick);
}

#[test]
fn flcm_diagnostic_format_includes_silent_and_fail_facts() {
    let record = DiagnosticRecord::warning(
        &clock(),
        "VirtualCarActor",
        DiagnosticKind::FlcmLampFault {
            silent: true,
            left_fail: true,
            right_fail: false,
        },
        &now(),
    );

    let rendered = record.render().to_ascii_lowercase();
    assert!(rendered.contains("flcm"));
    assert!(rendered.contains("silent=true"));
    assert!(rendered.contains("left_fail=true"));
    assert!(rendered.contains("right_fail=false"));
    assert!(rendered.is_ascii());
}

#[test]
fn unix_timestamp_splits_and_reconstructs_exactly() {
    let value =
        UnixTimestamp::from_duration_since_epoch(Duration::new(1_752_724_801, 120_000_000));
    assert_eq!(value.unix_seconds(), 1_752_724_801);
    assert_eq!(value.nanosecond(), 120_000_000);
    assert_eq!(
        value.duration_since_epoch(),
        Duration::new(1_752_724_801, 120_000_000)
    );
    assert_eq!(
        UnixTimestamp::from_duration_since_epoch(Duration::new(
            value.unix_seconds(),
            value.nanosecond(),
        )),
        value
    );
}

#[test]
fn unix_timestamp_orders_across_a_second_boundary() {
    let earlier = UnixTimestamp::from_duration_since_epoch(Duration::new(100, 999_999_999));
    let later = UnixTimestamp::from_duration_since_epoch(Duration::new(101, 0));
    assert!(earlier < later);
    assert_eq!(
        later.saturating_duration_since(earlier),
        Duration::from_nanos(1)
    );
}

#[test]
fn published_fsm_event_keeps_rain_variants() {
    assert_eq!(
        PublishedFsmEvent::from(&FsmEvent::RainsStarted),
        PublishedFsmEvent::RainsStarted
    );
    assert_eq!(
        PublishedFsmEvent::from(&FsmEvent::RainsStopped),
        PublishedFsmEvent::RainsStopped
    );
}

#[test]
fn published_vehicle_context_includes_weather_wiper_and_flcm() {
    let clock = clock();
    let mut ctx = VehicleContext::default();
    ctx.weather.raining = true;
    ctx.wiper.state = WiperState::Running;
    ctx.flcm.left_low_beam_status = ObservedBool::On;
    ctx.flcm.right_low_beam_status = ObservedBool::Off;
    ctx.flcm.silent = true;
    let pub_ctx = PublishedVehicleContext::project(&ctx, &clock);
    assert!(pub_ctx.weather.raining);
    assert_eq!(pub_ctx.wiper.state, PublishedWiperState::Running);
    assert_eq!(pub_ctx.flcm.left_low_beam_status_ok, PublishedObservedBool::On);
    assert_eq!(pub_ctx.flcm.right_low_beam_status_ok, PublishedObservedBool::Off);
    assert!(pub_ctx.flcm.silent);
}

fn project(raw: RawTransitionRecord) -> PublishedTransitionRecord {
    PublishedTransitionRecord::project(&raw, "hazard-car", 1, &clock())
}

fn idle_record(
    event: FsmEvent,
    old_ctx: VehicleContext,
    current_ctx: VehicleContext,
    actions: Vec<DomainAction>,
) -> RawTransitionRecord {
    RawTransitionRecord {
        at: now(),
        event,
        old_state: FsmState::Idle,
        next_state: FsmState::Idle,
        old_ctx,
        current_ctx,
        actions,
    }
}

#[test]
fn initial_published_sccm_and_bcm_values_are_unknown() {
    let ctx = VehicleContext::default();
    let published = project(idle_record(FsmEvent::PowerOn, ctx, ctx, vec![]));

    assert_eq!(published.current_ctx.sccm.hazard_button_on, PublishedObservedBool::Unknown);
    assert_eq!(published.current_ctx.bcm.left_turn_request_on, PublishedObservedBool::Unknown);
    assert_eq!(published.current_ctx.bcm.right_turn_request_on, PublishedObservedBool::Unknown);
}

#[test]
fn observed_events_project_to_named_published_variants() {
    let mut current_ctx = VehicleContext::default();
    current_ctx.sccm.hazard_button = ObservedBool::On;
    current_ctx.bcm.left_turn_request = ObservedBool::On;
    current_ctx.bcm.right_turn_request = ObservedBool::On;

    let hazard = project(idle_record(
        FsmEvent::HazardButtonObserved(true),
        VehicleContext::default(),
        current_ctx,
        vec![],
    ));
    assert_eq!(hazard.event, PublishedFsmEvent::HazardButtonObserved(true));
    assert_eq!(hazard.current_ctx.sccm.hazard_button_on, PublishedObservedBool::On);

    let left = project(idle_record(
        FsmEvent::LeftTurnRequestObserved(true),
        VehicleContext::default(),
        current_ctx,
        vec![],
    ));
    assert_eq!(left.event, PublishedFsmEvent::LeftTurnRequestObserved(true));
    assert_eq!(left.current_ctx.bcm.left_turn_request_on, PublishedObservedBool::On);

    let right = project(idle_record(
        FsmEvent::RightTurnRequestObserved(true),
        VehicleContext::default(),
        current_ctx,
        vec![],
    ));
    assert_eq!(right.event, PublishedFsmEvent::RightTurnRequestObserved(true));
    assert_eq!(right.current_ctx.bcm.right_turn_request_on, PublishedObservedBool::On);
}

#[test]
fn historical_hazard_button_changed_and_set_turn_lights_remain_readable() {
    let mut old_ctx = VehicleContext::default();
    old_ctx.bcm.state = BcmState::Ready;
    let mut current_ctx = old_ctx;
    current_ctx.sccm.hazard_button = ObservedBool::On;
    current_ctx.sccm.hazard_button_on = true;
    current_ctx.bcm.left_turn_request = ObservedBool::On;
    current_ctx.bcm.left_turn_request_on = true;
    current_ctx.bcm.right_turn_request = ObservedBool::On;
    current_ctx.bcm.right_turn_request_on = true;
    let published = project(idle_record(
        FsmEvent::HazardButtonChanged(true),
        old_ctx,
        current_ctx,
        vec![DomainAction::SetTurnLights { left_on: true, right_on: true }],
    ));

    assert_eq!(published.event, PublishedFsmEvent::HazardButtonChanged(true));
    assert_eq!(published.current_ctx.bcm.state, PublishedBcmState::Ready);
    assert_eq!(published.current_ctx.sccm.hazard_button_on, PublishedObservedBool::On);
    assert_eq!(published.current_ctx.bcm.left_turn_request_on, PublishedObservedBool::On);
    assert_eq!(published.current_ctx.bcm.right_turn_request_on, PublishedObservedBool::On);
    assert_eq!(
        published.actions,
        vec![PublishedDomainAction::SetTurnLights { left_on: true, right_on: true }]
    );
}
