//! The twin state capsule: identity, operational mode and context, snapshots, state laws, and
//! the zone reply/message envelopes exchanged with the assembly zones.
use vstd::prelude::*;
use vstd::string::StrSliceExecFns;

pub mod car_behaviour_checker;

pub use car_behaviour_checker::{
    spec_breached_laws, spec_state_laws_hold, spec_violations, verify_state_laws, violation_entries,
    violation_names, LawViolation,
    LAW_RPM_ABOVE_THRESHOLD, LAW_SPEED_MATCHES_WHEELS,
};

use crate::fsm::{AssemblyId, FsmState};
use crate::vehicle_state::{
    BcmMessage, BcmZoneReply, FlcmMessage, FlcmZoneReply, FrontHeadlampIncompleteCause,
    FrontHeadlampSwitchDirection, HeadlampMessage, HeadlampZoneReply, ObservationDisposition,
    SccmMessage, SccmZoneReply, VehicleContext, WiperMessage, WiperZoneReply,
};

verus! {

// ── identity ─────────────────────────────────────────────────────────────────

/// A Unicode `White_Space` character, the set `char::is_whitespace` tests.
pub open spec fn spec_is_whitespace(c: char) -> bool {
    ('\u{9}' <= c && c <= '\u{d}') || c == ' ' || c == '\u{85}' || c == '\u{a0}' || c == '\u{1680}'
        || ('\u{2000}' <= c && c <= '\u{200a}') || c == '\u{2028}' || c == '\u{2029}' || c
        == '\u{202f}' || c == '\u{205f}' || c == '\u{3000}'
}

/// Whether `c` is a Unicode `White_Space` character.
pub fn is_whitespace(c: char) -> (b: bool)
    ensures
        b == spec_is_whitespace(c),
{
    ('\u{9}' <= c && c <= '\u{d}') || c == ' ' || c == '\u{85}' || c == '\u{a0}' || c == '\u{1680}'
        || ('\u{2000}' <= c && c <= '\u{200a}') || c == '\u{2028}' || c == '\u{2029}' || c
        == '\u{202f}' || c == '\u{205f}' || c == '\u{3000}'
}

/// `t` is `s` without leading and trailing whitespace.
pub open spec fn spec_is_trim_of(t: Seq<char>, s: Seq<char>) -> bool {
    exists|a: int, b: int|
        {
            &&& 0 <= a <= b <= s.len()
            &&& t == s.subrange(a, b)
            &&& forall|i: int| 0 <= i < a ==> spec_is_whitespace(#[trigger] s[i])
            &&& forall|i: int| b <= i < s.len() ==> spec_is_whitespace(#[trigger] s[i])
            &&& a < b ==> !spec_is_whitespace(s[a]) && !spec_is_whitespace(s[b - 1])
        }
}

/// `s` holds nothing but whitespace.
pub open spec fn spec_is_blank(s: Seq<char>) -> bool {
    forall|i: int| 0 <= i < s.len() ==> spec_is_whitespace(#[trigger] s[i])
}

/// `s` without leading and trailing whitespace.
pub fn trim_whitespace(s: &str) -> (t: String)
    ensures
        spec_is_trim_of(t@, s@),
        t@.len() == 0 <==> spec_is_blank(s@),
{
    let n = s.unicode_len();
    let mut a: usize = 0;
    while a < n && is_whitespace(s.get_char(a))
        invariant
            n == s@.len(),
            a <= n,
            forall|i: int| 0 <= i < a ==> spec_is_whitespace(#[trigger] s@[i]),
        decreases n - a,
    {
        a = a + 1;
    }
    let mut b: usize = n;
    while b > a && is_whitespace(s.get_char(b - 1))
        invariant
            n == s@.len(),
            a <= b <= n,
            forall|i: int| b <= i < n ==> spec_is_whitespace(#[trigger] s@[i]),
            a < n ==> !spec_is_whitespace(s@[a as int]),
        decreases b - a,
    {
        b = b - 1;
    }
    let t = s.substring_char(a, b).to_owned();
    proof {
        assert(t@ == s@.subrange(a as int, b as int));
        if a < b {
            assert(!spec_is_whitespace(s@[b - 1]));
        }
        if t@.len() == 0 {
            assert(a == b);
            assert forall|i: int| 0 <= i < s@.len() implies spec_is_whitespace(#[trigger] s@[i]) by {
                if i >= a {
                    assert(i >= b);
                }
            }
        }
        if spec_is_blank(s@) && a < n {
            assert(spec_is_whitespace(s@[a as int]));
        }
    }
    t
}

/// Returned when a [`DigitalTwinCar`] cannot be constructed.
#[derive(Debug, Clone, Copy, PartialEq, Eq)]
pub enum DigitalTwinCarError {
    /// The identity was empty or whitespace only.
    BlankIdentity,
}

impl DigitalTwinCarError {
    /// Human-readable description of the error.
    pub fn describe(&self) -> (s: String)
        ensures
            s@ == "DigitalTwinCar identity must not be blank"@,
    {
        String::from_str("DigitalTwinCar identity must not be blank")
    }
}

// ── the twin ─────────────────────────────────────────────────────────────────

/// The twin: a non-blank identity, the operational mode and the context.
///
/// The fields are private: a twin comes to exist only through [`Self::new`] and evolves only
/// through [`Self::apply_step`].
#[derive(Debug, Clone)]
pub struct DigitalTwinCar {
    identity: String,
    current_state: FsmState,
    context: VehicleContext,
}

impl DigitalTwinCar {
    /// The twin's identity.
    pub closed spec fn spec_identity(self) -> Seq<char> {
        self.identity@
    }

    /// The twin's operational mode.
    pub closed spec fn spec_state(self) -> FsmState {
        self.current_state
    }

    /// The twin's context.
    pub closed spec fn spec_context(self) -> VehicleContext {
        self.context
    }

    /// Construct a twin. A blank identity (empty or whitespace only) is refused; otherwise the
    /// identity is stored trimmed.
    pub fn new(identity: &str, current_state: FsmState, context: VehicleContext) -> (r: Result<DigitalTwinCar, DigitalTwinCarError>)
        ensures
            r is Err <==> spec_is_blank(identity@),
            r matches Err(e) ==> e == DigitalTwinCarError::BlankIdentity,
            r matches Ok(car) ==> {
                &&& spec_is_trim_of(car.spec_identity(), identity@)
                &&& car.spec_identity().len() > 0
                &&& car.spec_state() == current_state
                &&& car.spec_context() == context
            },
    {
        let trimmed = trim_whitespace(identity);
        if trimmed.as_str().is_empty() {
            return Err(DigitalTwinCarError::BlankIdentity);
        }
        Ok(DigitalTwinCar { identity: trimmed, current_state, context })
    }

    /// The twin's (non-blank, trimmed) identity.
    pub fn identity(&self) -> (s: &str)
        ensures
            s@ == self.spec_identity(),
    {
        self.identity.as_str()
    }

    /// The twin's operational mode.
    pub fn current_state(&self) -> (s: &FsmState)
        ensures
            *s == self.spec_state(),
    {
        &self.current_state
    }

    /// The twin's context.
    pub fn context(&self) -> (c: &VehicleContext)
        ensures
            *c == self.spec_context(),
    {
        &self.context
    }

    /// A copy of the twin.
    pub fn duplicate(&self) -> (r: DigitalTwinCar)
        ensures
            r.spec_identity() == self.spec_identity(),
            r.spec_state() == self.spec_state(),
            r.spec_context() == self.spec_context(),
    {
        DigitalTwinCar { identity: self.identity.clone(), current_state: self.current_state, context: self.context }
    }

    /// Record the result of an FSM step: the only way a twin changes after construction.
    pub fn apply_step(&mut self, next_state: FsmState, context: VehicleContext)
        ensures
            final(self).spec_identity() == old(self).spec_identity(),
            final(self).spec_state() == next_state,
            final(self).spec_context() == context,
    {
        self.current_state = next_state;
        self.context = context;
    }

    /// Check the snapshot: the context must be healthy and every state law must hold. An
    /// unhealthy context is reported as such; breached laws are reported as `law: detail` for
    /// each, joined by `"; "`.
    pub fn verify_all_invariants(&self) -> (r: Result<(), String>)
        ensures
            r is Ok <==> self.spec_context().spec_is_healthy() && spec_state_laws_hold(
                self.spec_state(),
                self.spec_context(),
            ),
            !self.spec_context().spec_is_healthy() ==> (r matches Err(m) && m@
                == "vehicle context failed health invariants"@),
            r is Ok <==> spec_invariant_error(self.spec_state(), self.spec_context()) is None,
            r matches Err(m) ==> spec_invariant_error(self.spec_state(), self.spec_context()) == Some(m@),
    {
        if !self.context.is_healthy() {
            return Err(String::from_str(HEALTH_FAILURE_TEXT));
        }
        match verify_state_laws(&self.current_state, &self.context) {
            Ok(()) => Ok(()),
            Err(violations) => Err(join_violations(&violations)),
        }
    }
}

/// What an unhealthy context is reported as.
pub const HEALTH_FAILURE_TEXT: &'static str = "vehicle context failed health invariants";

/// `law: detail` for each (name, report) pair, separated by `"; "`.
pub open spec fn spec_joined(v: Seq<(Seq<char>, Seq<char>)>) -> Seq<char>
    decreases v.len(),
{
    if v.len() == 0 {
        Seq::empty()
    } else if v.len() == 1 {
        v[0].0 + ": "@ + v[0].1
    } else {
        spec_joined(v.drop_last()) + "; "@ + v.last().0 + ": "@ + v.last().1
    }
}

/// What checking a cut reports: nothing when it is healthy and keeps every state law; the
/// health failure when the context is unhealthy; otherwise the breached laws, joined.
pub open spec fn spec_invariant_error(state: FsmState, ctx: VehicleContext) -> Option<Seq<char>> {
    if !ctx.spec_is_healthy() {
        Some(HEALTH_FAILURE_TEXT@)
    } else if spec_state_laws_hold(state, ctx) {
        None
    } else {
        Some(spec_joined(spec_violations(state, ctx)))
    }
}

fn join_violations(v: &Vec<LawViolation>) -> (s: String)
    ensures
        s@ == spec_joined(violation_entries(v@)),
{
    let mut s = String::new();
    let mut i: usize = 0;
    while i < v.len()
        invariant
            i <= v.len(),
            s@ == spec_joined(violation_entries(v@.take(i as int))),
        decreases v.len() - i,
    {
        proof {
            assert(violation_entries(v@.take(i + 1)).drop_last() =~= violation_entries(v@.take(i as int)));
            assert(violation_entries(v@.take(i + 1)).last() == (v@[i as int].law@, v@[i as int].detail@));
        }
        if i > 0 {
            s.append("; ");
        }
        s.append(v[i].law);
        s.append(": ");
        s.append(v[i].detail.as_str());
        i = i + 1;
    }
    proof {
        assert(v@.take(i as int) =~= v@);
    }
    s
}

/// A read-only snapshot of the twin, stamped with the ledger sequence of the last event it
/// reflects (`0` = none applied yet).
#[derive(Debug, Clone)]
pub struct CarSnapshot {
    car: DigitalTwinCar,
    as_of_seq: u64,
}

impl CarSnapshot {
    /// The snapshot's twin.
    pub closed spec fn spec_car(self) -> DigitalTwinCar {
        self.car
    }

    /// The snapshot's ledger sequence.
    pub closed spec fn spec_as_of_seq(self) -> u64 {
        self.as_of_seq
    }

    /// Snapshot `car` as of ledger sequence `as_of_seq`.
    pub fn new(car: DigitalTwinCar, as_of_seq: u64) -> (s: CarSnapshot)
        ensures
            s.spec_car() == car,
            s.spec_as_of_seq() == as_of_seq,
    {
        CarSnapshot { car, as_of_seq }
    }

    /// Ledger sequence of the last event this snapshot reflects.
    pub fn as_of_seq(&self) -> (n: u64)
        ensures
            n == self.spec_as_of_seq(),
    {
        self.as_of_seq
    }

    /// The underlying twin.
    pub fn car(&self) -> (c: &DigitalTwinCar)
        ensures
            *c == self.spec_car(),
    {
        &self.car
    }

    /// The twin's identity.
    pub fn identity(&self) -> (s: &str)
        ensures
            s@ == self.spec_car().spec_identity(),
    {
        self.car.identity()
    }

    /// The twin's operational mode.
    pub fn current_state(&self) -> (s: &FsmState)
        ensures
            *s == self.spec_car().spec_state(),
    {
        self.car.current_state()
    }

    /// Whether the twin is `Idle` (the mode from which a stop is legal).
    pub fn is_idle(&self) -> (b: bool)
        ensures
            b == (self.spec_car().spec_state() is Idle),
    {
        matches!(self.car.current_state(), FsmState::Idle)
    }

    /// The twin's context.
    pub fn context(&self) -> (c: &VehicleContext)
        ensures
            *c == self.spec_car().spec_context(),
    {
        self.car.context()
    }

    /// The twin's snapshot invariants: exactly what checking the snapshot's twin reports.
    pub fn verify_all_invariants(&self) -> (r: Result<(), String>)
        ensures
            r is Ok <==> self.spec_car().spec_context().spec_is_healthy() && spec_state_laws_hold(
                self.spec_car().spec_state(),
                self.spec_car().spec_context(),
            ),
            r is Ok <==> spec_invariant_error(self.spec_car().spec_state(), self.spec_car().spec_context()) is None,
            r matches Err(m) ==> spec_invariant_error(self.spec_car().spec_state(), self.spec_car().spec_context())
                == Some(m@),
    {
        self.car.verify_all_invariants()
    }
}

// ── zone envelopes ───────────────────────────────────────────────────────────

/// A zone tell-back, wrapping the zone-specific reply.
#[derive(Debug, Clone, PartialEq)]
pub enum ZoneReply {
    Sccm(SccmZoneReply),
    Bcm(BcmZoneReply),
    Flcm(FlcmZoneReply),
    Headlamp(HeadlampZoneReply),
    Wiper(WiperZoneReply),
}

/// The assembly a reply comes from.
pub open spec fn spec_reply_assembly(reply: ZoneReply) -> AssemblyId {
    match reply {
        ZoneReply::Sccm(_) => AssemblyId::Sccm,
        ZoneReply::Bcm(_) => AssemblyId::Bcm,
        ZoneReply::Flcm(_) => AssemblyId::Flcm,
        ZoneReply::Headlamp(_) => AssemblyId::Headlamp,
        ZoneReply::Wiper(_) => AssemblyId::Wiper,
    }
}

/// How the zone that sent `reply` classified its message: the observing zones (SCCM, BCM, FLCM)
/// carry their own disposition; headlamp and wiper replies are lifecycle replies.
pub open spec fn spec_reply_disposition(reply: ZoneReply) -> ObservationDisposition {
    match reply {
        ZoneReply::Sccm(r) => r.disposition,
        ZoneReply::Bcm(r) => r.disposition,
        ZoneReply::Flcm(r) => r.disposition,
        ZoneReply::Headlamp(_) | ZoneReply::Wiper(_) => ObservationDisposition::Lifecycle,
    }
}

impl ZoneReply {
    /// Whether this reply is the kind `assembly_id` sends.
    pub fn matches_assembly(&self, assembly_id: AssemblyId) -> (b: bool)
        ensures
            b == (spec_reply_assembly(*self) == assembly_id),
    {
        match (self, assembly_id) {
            (ZoneReply::Sccm(_), AssemblyId::Sccm) => true,
            (ZoneReply::Bcm(_), AssemblyId::Bcm) => true,
            (ZoneReply::Flcm(_), AssemblyId::Flcm) => true,
            (ZoneReply::Headlamp(_), AssemblyId::Headlamp) => true,
            (ZoneReply::Wiper(_), AssemblyId::Wiper) => true,
            _ => false,
        }
    }

    /// How the zone classified the message; headlamp and wiper replies are lifecycle replies.
    pub fn disposition(&self) -> (d: ObservationDisposition)
        ensures
            d == spec_reply_disposition(*self),
    {
        match self {
            ZoneReply::Sccm(reply) => reply.disposition,
            ZoneReply::Bcm(reply) => reply.disposition,
            ZoneReply::Flcm(reply) => reply.disposition,
            ZoneReply::Headlamp(_) | ZoneReply::Wiper(_) => ObservationDisposition::Lifecycle,
        }
    }

    /// The SCCM reply, if this is one.
    pub fn as_sccm(&self) -> (r: Option<&SccmZoneReply>)
        ensures
            r is Some <==> *self is Sccm,
            r matches Some(x) ==> *self == ZoneReply::Sccm(*x),
    {
        match self {
            ZoneReply::Sccm(r) => Some(r),
            _ => None,
        }
    }

    /// The BCM reply, if this is one.
    pub fn as_bcm(&self) -> (r: Option<&BcmZoneReply>)
        ensures
            r is Some <==> *self is Bcm,
            r matches Some(x) ==> *self == ZoneReply::Bcm(*x),
    {
        match self {
            ZoneReply::Bcm(r) => Some(r),
            _ => None,
        }
    }

    /// The FLCM reply, if this is one.
    pub fn as_flcm(&self) -> (r: Option<&FlcmZoneReply>)
        ensures
            r is Some <==> *self is Flcm,
            r matches Some(x) ==> *self == ZoneReply::Flcm(*x),
    {
        match self {
            ZoneReply::Flcm(r) => Some(r),
            _ => None,
        }
    }

    /// The headlamp reply, if this is one.
    pub fn as_headlamp(&self) -> (r: Option<&HeadlampZoneReply>)
        ensures
            r is Some <==> *self is Headlamp,
            r matches Some(x) ==> *self == ZoneReply::Headlamp(*x),
    {
        match self {
            ZoneReply::Headlamp(r) => Some(r),
            _ => None,
        }
    }

    /// The wiper reply, if this is one.
    pub fn as_wiper(&self) -> (r: Option<&WiperZoneReply>)
        ensures
            r is Some <==> *self is Wiper,
            r matches Some(x) ==> *self == ZoneReply::Wiper(*x),
    {
        match self {
            ZoneReply::Wiper(r) => Some(r),
            _ => None,
        }
    }
}

/// A brain-to-zone message, the counterpart of [`ZoneReply`].
#[derive(Debug, Clone, Copy, PartialEq, Eq)]
pub enum ZoneMessage {
    Sccm(SccmMessage),
    Bcm(BcmMessage),
    Flcm(FlcmMessage),
    Headlamp(HeadlampMessage),
    Wiper(WiperMessage),
}

/// A zone-initiated event (an acknowledgement deadline, a silence verdict).
#[allow(inconsistent_fields)]
#[derive(Debug, Clone, PartialEq)]
pub enum ZoneSpontaneousEvent {
    Headlamp {
        direction: FrontHeadlampSwitchDirection,
        cause: FrontHeadlampIncompleteCause,
        reply: HeadlampZoneReply,
    },
    Flcm { reply: FlcmZoneReply },
}

/// Returned when a mailbox message is not an FSM event.
#[derive(Debug, Clone, Copy, PartialEq, Eq)]
pub struct NotFsmVocabulary;

} // verus!
