//! Diagnostic records: car-state facts streamed to operators.
//!
//! A record carries a structured fact ([`DiagnosticKind`]), never display prose; receivers
//! filter and format. Each record carries the same session timing pair as the transition
//! ledger, both projected through the [`SessionClock`].
use vstd::prelude::*;

use crate::observation_records::transition::{spec_project, SessionClock, UnixTimestamp};
use crate::time::{Duration, Instant};
use crate::vehicle_state::{spec_flcm_has_fault, FlcmContext, FrontHeadlampIncompleteCause, ObservedBool};

verus! {

/// Severity of a diagnostic record.
#[derive(Debug, Clone, Copy, PartialEq, Eq)]
pub enum DiagnosticLevel {
    Info,
    Action,
    Alert,
    Warning,
    Error,
}

/// Structured diagnostic facts emitted by the twin.
#[derive(Debug, Clone, PartialEq, Eq)]
pub enum DiagnosticKind {
    /// Free-form text, only where no stable variant exists yet.
    Text { text: String },
    Boot,
    /// Liveness heartbeat.
    TimerTick,
    /// The actuator did not confirm the requested headlamp switch.
    HeadlampActuationUnconfirmed { on: bool, cause: FrontHeadlampIncompleteCause },
    /// The rain input changed.
    RainChanged { raining: bool },
    /// The wiper started or stopped moving.
    WiperMotionChanged { wiping: bool },
    FlcmLampFault { silent: bool, left_fail: bool, right_fail: bool },
    ActuationFailure { action: String, error: String },
    TransitionSinkFull,
    TransitionSinkClosed,
}

/// Ghost image of a [`DiagnosticKind`], with texts as characters.
pub enum DiagnosticKindView {
    Text { text: Seq<char> },
    Boot,
    TimerTick,
    HeadlampActuationUnconfirmed { on: bool, cause: FrontHeadlampIncompleteCause },
    RainChanged { raining: bool },
    WiperMotionChanged { wiping: bool },
    FlcmLampFault { silent: bool, left_fail: bool, right_fail: bool },
    ActuationFailure { action: Seq<char>, error: Seq<char> },
    TransitionSinkFull,
    TransitionSinkClosed,
}

impl DeepView for DiagnosticKind {
    type V = DiagnosticKindView;

    open spec fn deep_view(&self) -> DiagnosticKindView {
        match self {
            DiagnosticKind::Text { text } => DiagnosticKindView::Text { text: text@ },
            DiagnosticKind::Boot => DiagnosticKindView::Boot,
            DiagnosticKind::TimerTick => DiagnosticKindView::TimerTick,
            DiagnosticKind::HeadlampActuationUnconfirmed { on, cause } => DiagnosticKindView::HeadlampActuationUnconfirmed {
                on: *on,
                cause: *cause,
            },
            DiagnosticKind::RainChanged { raining } => DiagnosticKindView::RainChanged { raining: *raining },
            DiagnosticKind::WiperMotionChanged { wiping } => DiagnosticKindView::WiperMotionChanged { wiping: *wiping },
            DiagnosticKind::FlcmLampFault { silent, left_fail, right_fail } => DiagnosticKindView::FlcmLampFault {
                silent: *silent,
                left_fail: *left_fail,
                right_fail: *right_fail,
            },
            DiagnosticKind::ActuationFailure { action, error } => DiagnosticKindView::ActuationFailure {
                action: action@,
                error: error@,
            },
            DiagnosticKind::TransitionSinkFull => DiagnosticKindView::TransitionSinkFull,
            DiagnosticKind::TransitionSinkClosed => DiagnosticKindView::TransitionSinkClosed,
        }
    }
}

/// One diagnostic event.
#[derive(Debug, Clone)]
pub struct DiagnosticRecord {
    pub level: DiagnosticLevel,
    pub source: &'static str,
    pub kind: DiagnosticKind,
    /// When this run of the twin started, on the wall clock.
    pub session_started_at: UnixTimestamp,
    /// When this diagnostic was recorded, on the wall clock.
    pub recorded_at: UnixTimestamp,
}

/// `r` carries `level`, `source` and `kind`, stamped through `clock` at monotonic time `now`.
pub open spec fn spec_stamped(
    r: DiagnosticRecord,
    clock: SessionClock,
    level: DiagnosticLevel,
    source: &'static str,
    kind: DiagnosticKind,
    now: Instant,
) -> bool {
    &&& r.level == level
    &&& r.source == source
    &&& r.kind == kind
    &&& r.session_started_at@ == clock.unix_anchor()
    &&& r.recorded_at@ == spec_project(clock.anchor(), clock.unix_anchor(), now@)
}

/// `r` is the twin's own diagnostic of `level` and fact `kind`, stamped through `clock` at `now`.
pub open spec fn spec_twin_diagnostic(
    r: DiagnosticRecord,
    clock: SessionClock,
    level: DiagnosticLevel,
    kind: DiagnosticKindView,
    now: Instant,
) -> bool {
    &&& r.level == level
    &&& r.source == SOURCE
    &&& r.kind.deep_view() == kind
    &&& r.session_started_at@ == clock.unix_anchor()
    &&& r.recorded_at@ == spec_project(clock.anchor(), clock.unix_anchor(), now@)
}

/// `recorded - started`, or zero when `started` is later.
pub open spec fn spec_elapsed(recorded: nat, started: nat) -> nat {
    if recorded >= started {
        (recorded - started) as nat
    } else {
        0
    }
}

/// Elapsed time from the session start to a record, as the ledger computes it.
pub fn elapsed_since_session(recorded_at: UnixTimestamp, session_started_at: UnixTimestamp) -> (d: Duration)
    ensures
        d@ == spec_elapsed(recorded_at@, session_started_at@),
{
    recorded_at.saturating_duration_since(session_started_at)
}

impl DiagnosticRecord {
    /// A record stamped through the twin's clock at monotonic time `now`.
    pub fn at_session(
        clock: &SessionClock,
        level: DiagnosticLevel,
        source: &'static str,
        kind: DiagnosticKind,
        now: &Instant,
    ) -> (r: DiagnosticRecord)
        ensures
            spec_stamped(r, *clock, level, source, kind, *now),
    {
        DiagnosticRecord {
            level,
            source,
            kind,
            session_started_at: clock.session_started_at(),
            recorded_at: clock.project(now),
        }
    }

    /// Elapsed time since the session start, from the record's own stamps.
    pub fn elapsed_since_session(&self) -> (d: Duration)
        ensures
            d@ == spec_elapsed(self.recorded_at@, self.session_started_at@),
    {
        elapsed_since_session(self.recorded_at, self.session_started_at)
    }

    /// An `Info` record.
    pub fn info(clock: &SessionClock, source: &'static str, kind: DiagnosticKind, now: &Instant) -> (r: DiagnosticRecord)
        ensures
            spec_stamped(r, *clock, DiagnosticLevel::Info, source, kind, *now),
    {
        DiagnosticRecord::at_session(clock, DiagnosticLevel::Info, source, kind, now)
    }

    /// An `Action` record.
    pub fn action(clock: &SessionClock, source: &'static str, kind: DiagnosticKind, now: &Instant) -> (r: DiagnosticRecord)
        ensures
            spec_stamped(r, *clock, DiagnosticLevel::Action, source, kind, *now),
    {
        DiagnosticRecord::at_session(clock, DiagnosticLevel::Action, source, kind, now)
    }

    /// An `Alert` record.
    pub fn alert(clock: &SessionClock, source: &'static str, kind: DiagnosticKind, now: &Instant) -> (r: DiagnosticRecord)
        ensures
            spec_stamped(r, *clock, DiagnosticLevel::Alert, source, kind, *now),
    {
        DiagnosticRecord::at_session(clock, DiagnosticLevel::Alert, source, kind, now)
    }

    /// A `Warning` record.
    pub fn warning(clock: &SessionClock, source: &'static str, kind: DiagnosticKind, now: &Instant) -> (r: DiagnosticRecord)
        ensures
            spec_stamped(r, *clock, DiagnosticLevel::Warning, source, kind, *now),
    {
        DiagnosticRecord::at_session(clock, DiagnosticLevel::Warning, source, kind, now)
    }

    /// An `Error` record.
    pub fn error(clock: &SessionClock, source: &'static str, kind: DiagnosticKind, now: &Instant) -> (r: DiagnosticRecord)
        ensures
            spec_stamped(r, *clock, DiagnosticLevel::Error, source, kind, *now),
    {
        DiagnosticRecord::at_session(clock, DiagnosticLevel::Error, source, kind, now)
    }

    /// The console line of this record: `[LEVEL][source] fact`, in ASCII.
    pub fn render(&self) -> (s: String)
        ensures
            s@ == "["@ + spec_level_label(self.level) + "]["@ + self.source@ + "] "@
                + spec_kind_text(self.kind),
    {
        let mut s = String::from_str("[");
        s.append(level_label(self.level));
        s.append("][");
        s.append(self.source);
        s.append("] ");
        let fact = format_kind_ascii(&self.kind);
        s.append(fact.as_str());
        s
    }
}

/// Console label of each level.
pub open spec fn spec_level_label(level: DiagnosticLevel) -> Seq<char> {
    match level {
        DiagnosticLevel::Info => "INFO"@,
        DiagnosticLevel::Action => "ACTION"@,
        DiagnosticLevel::Alert => "ALERT"@,
        DiagnosticLevel::Warning => "WARNING"@,
        DiagnosticLevel::Error => "ERROR"@,
    }
}

fn level_label(level: DiagnosticLevel) -> (s: &'static str)
    ensures
        s@ == spec_level_label(level),
{
    match level {
        DiagnosticLevel::Info => "INFO",
        DiagnosticLevel::Action => "ACTION",
        DiagnosticLevel::Alert => "ALERT",
        DiagnosticLevel::Warning => "WARNING",
        DiagnosticLevel::Error => "ERROR",
    }
}

/// `true` or `false` as text.
pub open spec fn spec_bool_text(b: bool) -> Seq<char> {
    if b {
        "true"@
    } else {
        "false"@
    }
}

fn bool_text(b: bool) -> (s: &'static str)
    ensures
        s@ == spec_bool_text(b),
{
    if b {
        "true"
    } else {
        "false"
    }
}

/// The ASCII rendering of each fact.
pub open spec fn spec_kind_text(kind: DiagnosticKind) -> Seq<char> {
    match kind {
        DiagnosticKind::Text { text } => text@,
        DiagnosticKind::Boot => "boot"@,
        DiagnosticKind::TimerTick => "timer tick"@,
        DiagnosticKind::HeadlampActuationUnconfirmed { on, cause } => "headlamp actuation unconfirmed direction="@
            + (if on { "ON"@ } else { "OFF"@ }) + " cause="@ + match cause {
            FrontHeadlampIncompleteCause::TimedOut => "TimedOut"@,
            FrontHeadlampIncompleteCause::NegativeAck => "NegativeAck"@,
        },
        DiagnosticKind::RainChanged { raining } => "rain raining="@ + spec_bool_text(raining),
        DiagnosticKind::WiperMotionChanged { wiping } => "wiper wiping="@ + spec_bool_text(wiping),
        DiagnosticKind::FlcmLampFault { silent, left_fail, right_fail } => "flcm lamp fault silent="@
            + spec_bool_text(silent) + " left_fail="@ + spec_bool_text(left_fail) + " right_fail="@
            + spec_bool_text(right_fail),
        DiagnosticKind::ActuationFailure { action, error } => "actuation failure action="@ + action@
            + " error="@ + error@,
        DiagnosticKind::TransitionSinkFull => "transition sink full"@,
        DiagnosticKind::TransitionSinkClosed => "transition sink closed"@,
    }
}

/// The ASCII rendering of a fact.
pub fn format_kind_ascii(kind: &DiagnosticKind) -> (s: String)
    ensures
        s@ == spec_kind_text(*kind),
{
    match kind {
        DiagnosticKind::Text { text } => text.clone(),
        DiagnosticKind::Boot => String::from_str("boot"),
        DiagnosticKind::TimerTick => String::from_str("timer tick"),
        DiagnosticKind::HeadlampActuationUnconfirmed { on, cause } => {
            let mut s = String::from_str("headlamp actuation unconfirmed direction=");
            s.append(if *on { "ON" } else { "OFF" });
            s.append(" cause=");
            s.append(
                match cause {
                    FrontHeadlampIncompleteCause::TimedOut => "TimedOut",
                    FrontHeadlampIncompleteCause::NegativeAck => "NegativeAck",
                },
            );
            s
        },
        DiagnosticKind::RainChanged { raining } => {
            let mut s = String::from_str("rain raining=");
            s.append(bool_text(*raining));
            s
        },
        DiagnosticKind::WiperMotionChanged { wiping } => {
            let mut s = String::from_str("wiper wiping=");
            s.append(bool_text(*wiping));
            s
        },
        DiagnosticKind::FlcmLampFault { silent, left_fail, right_fail } => {
            let mut s = String::from_str("flcm lamp fault silent=");
            s.append(bool_text(*silent));
            s.append(" left_fail=");
            s.append(bool_text(*left_fail));
            s.append(" right_fail=");
            s.append(bool_text(*right_fail));
            s
        },
        DiagnosticKind::ActuationFailure { action, error } => {
            let mut s = String::from_str("actuation failure action=");
            s.append(action.as_str());
            s.append(" error=");
            s.append(error.as_str());
            s
        },
        DiagnosticKind::TransitionSinkFull => String::from_str("transition sink full"),
        DiagnosticKind::TransitionSinkClosed => String::from_str("transition sink closed"),
    }
}

// ── helpers for the twin's own diagnostics ───────────────────────────────────

/// The source name the twin stamps on its own diagnostics.
pub const SOURCE: &'static str = "VirtualCarActor";

/// The twin booted.
pub fn diag_boot(clock: &SessionClock, now: &Instant) -> (r: DiagnosticRecord)
    ensures
        spec_stamped(r, *clock, DiagnosticLevel::Info, SOURCE, DiagnosticKind::Boot, *now),
{
    DiagnosticRecord::info(clock, SOURCE, DiagnosticKind::Boot, now)
}

/// A liveness tick.
pub fn diag_timer_tick(clock: &SessionClock, now: &Instant) -> (r: DiagnosticRecord)
    ensures
        spec_stamped(r, *clock, DiagnosticLevel::Info, SOURCE, DiagnosticKind::TimerTick, *now),
{
    DiagnosticRecord::info(clock, SOURCE, DiagnosticKind::TimerTick, now)
}

/// The actuator did not confirm the requested headlamp switch (`on` tells its direction).
pub fn diag_headlamp_actuation_unconfirmed(
    clock: &SessionClock,
    on: bool,
    cause: FrontHeadlampIncompleteCause,
    now: &Instant,
) -> (r: DiagnosticRecord)
    ensures
        spec_stamped(
            r,
            *clock,
            DiagnosticLevel::Warning,
            SOURCE,
            DiagnosticKind::HeadlampActuationUnconfirmed { on, cause },
            *now,
        ),
{
    DiagnosticRecord::warning(clock, SOURCE, DiagnosticKind::HeadlampActuationUnconfirmed { on, cause }, now)
}

/// The rain input changed.
pub fn diag_rain_changed(clock: &SessionClock, raining: bool, now: &Instant) -> (r: DiagnosticRecord)
    ensures
        spec_stamped(r, *clock, DiagnosticLevel::Info, SOURCE, DiagnosticKind::RainChanged { raining }, *now),
{
    DiagnosticRecord::info(clock, SOURCE, DiagnosticKind::RainChanged { raining }, now)
}

/// The wiper started or stopped moving.
pub fn diag_wiper_motion_changed(clock: &SessionClock, wiping: bool, now: &Instant) -> (r: DiagnosticRecord)
    ensures
        spec_stamped(r, *clock, DiagnosticLevel::Info, SOURCE, DiagnosticKind::WiperMotionChanged { wiping }, *now),
{
    DiagnosticRecord::info(clock, SOURCE, DiagnosticKind::WiperMotionChanged { wiping }, now)
}

/// The FLCM fault picture: a warning when a lamp failed or the module is silent, else info.
pub fn diag_flcm_lamp_fault(clock: &SessionClock, flcm: &FlcmContext, now: &Instant) -> (r: DiagnosticRecord)
    ensures
        spec_stamped(
            r,
            *clock,
            if spec_flcm_has_fault(*flcm) { DiagnosticLevel::Warning } else { DiagnosticLevel::Info },
            SOURCE,
            DiagnosticKind::FlcmLampFault {
                silent: flcm.silent,
                left_fail: flcm.left_low_beam_status == ObservedBool::Off,
                right_fail: flcm.right_low_beam_status == ObservedBool::Off,
            },
            *now,
        ),
{
    let kind = DiagnosticKind::FlcmLampFault {
        silent: flcm.silent,
        left_fail: matches!(flcm.left_low_beam_status, ObservedBool::Off),
        right_fail: matches!(flcm.right_low_beam_status, ObservedBool::Off),
    };
    if flcm.has_fault() {
        DiagnosticRecord::warning(clock, SOURCE, kind, now)
    } else {
        DiagnosticRecord::info(clock, SOURCE, kind, now)
    }
}

/// An actuation of `action` failed with `err`.
pub fn diag_actuation_failure(clock: &SessionClock, action: &str, err: &str, now: &Instant) -> (r: DiagnosticRecord)
    ensures
        r.level == DiagnosticLevel::Error,
        r.source == SOURCE,
        r.kind matches DiagnosticKind::ActuationFailure { action: a, error: e } && a@ == action@ && e@ == err@,
        r.session_started_at@ == clock.unix_anchor(),
        r.recorded_at@ == spec_project(clock.anchor(), clock.unix_anchor(), now@),
{
    let kind = DiagnosticKind::ActuationFailure { action: action.to_string(), error: err.to_string() };
    DiagnosticRecord::error(clock, SOURCE, kind, now)
}

/// A warning raised by a `LogWarning` intent.
pub fn diag_warning(clock: &SessionClock, text: String, now: &Instant) -> (r: DiagnosticRecord)
    ensures
        spec_stamped(r, *clock, DiagnosticLevel::Warning, SOURCE, DiagnosticKind::Text { text }, *now),
{
    DiagnosticRecord::warning(clock, SOURCE, DiagnosticKind::Text { text }, now)
}

/// The transition sink was full.
pub fn diag_transition_sink_full(clock: &SessionClock, now: &Instant) -> (r: DiagnosticRecord)
    ensures
        spec_stamped(r, *clock, DiagnosticLevel::Warning, SOURCE, DiagnosticKind::TransitionSinkFull, *now),
{
    DiagnosticRecord::warning(clock, SOURCE, DiagnosticKind::TransitionSinkFull, now)
}

/// The transition sink was closed.
pub fn diag_transition_sink_closed(clock: &SessionClock, now: &Instant) -> (r: DiagnosticRecord)
    ensures
        spec_stamped(r, *clock, DiagnosticLevel::Warning, SOURCE, DiagnosticKind::TransitionSinkClosed, *now),
{
    DiagnosticRecord::warning(clock, SOURCE, DiagnosticKind::TransitionSinkClosed, now)
}

/// Why a diagnostic record could not be emitted.
#[derive(Debug, Clone, Copy, PartialEq, Eq)]
pub enum DiagnosticSinkError {
    Full,
    Closed,
}

/// Where the twin emits its diagnostic records; the runtime supplies the implementation and
/// decides on display and persistence.
pub trait DiagnosticSink {
    /// Emit one record without waiting.
    fn try_emit(&self, record: DiagnosticRecord) -> Result<(), DiagnosticSinkError>;
}
} // verus!
