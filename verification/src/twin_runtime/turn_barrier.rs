//! Reorder barrier for one in-flight FSM turn.
//!
//! Every event the brain accepts becomes a barrier at the back of its queue. A barrier waiting
//! on zone tell-backs records, per zone, the message it was told (for re-telling), the
//! correlation wait (for discarding stale replies) and, once it arrives, the reply. Barriers
//! are committed strictly from the front, and only once complete.
use vstd::prelude::*;

use crate::digital_twin::{ZoneMessage, ZoneReply};
use crate::fsm::{AssemblyId, AssemblySet, FsmEvent};
use crate::time::Instant;
use crate::twin_runtime::twin_turn::ResolvedTurn;
use crate::twin_runtime::zone_replies::ZoneReplies;
use crate::twin_runtime::zone_tell_back::TellBackWait;

verus! {

/// One value per assembly, at most.
#[derive(Debug, Clone, Copy, PartialEq, Eq)]
pub struct AssemblyTable<T> {
    sccm: Option<T>,
    bcm: Option<T>,
    flcm: Option<T>,
    headlamp: Option<T>,
    wiper: Option<T>,
}

impl<T> AssemblyTable<T> {
    /// The value stored for `id`, if any.
    pub closed spec fn spec_slot(self, id: AssemblyId) -> Option<T> {
        match id {
            AssemblyId::Sccm => self.sccm,
            AssemblyId::Bcm => self.bcm,
            AssemblyId::Flcm => self.flcm,
            AssemblyId::Headlamp => self.headlamp,
            AssemblyId::Wiper => self.wiper,
        }
    }
}

impl<T> View for AssemblyTable<T> {
    type V = Map<AssemblyId, T>;

    open spec fn view(&self) -> Map<AssemblyId, T> {
        Map::new(|id: AssemblyId| self.spec_slot(id) is Some, |id: AssemblyId| self.spec_slot(id)->0)
    }
}

impl<T: Copy> AssemblyTable<T> {
    /// The empty table.
    pub fn new() -> (t: AssemblyTable<T>)
        ensures
            t@ == Map::<AssemblyId, T>::empty(),
    {
        let t = AssemblyTable { sccm: None, bcm: None, flcm: None, headlamp: None, wiper: None };
        proof {
            assert(t@ =~= Map::<AssemblyId, T>::empty());
        }
        t
    }

    /// The value stored for `id`, if any.
    pub fn get(&self, id: AssemblyId) -> (r: Option<T>)
        ensures
            r is Some <==> self@.contains_key(id),
            r matches Some(v) ==> v == self@[id],
    {
        match id {
            AssemblyId::Sccm => self.sccm,
            AssemblyId::Bcm => self.bcm,
            AssemblyId::Flcm => self.flcm,
            AssemblyId::Headlamp => self.headlamp,
            AssemblyId::Wiper => self.wiper,
        }
    }

    /// Store `v` for `id`, replacing any earlier value.
    pub fn insert(&mut self, id: AssemblyId, v: T)
        ensures
            final(self)@ == old(self)@.insert(id, v),
        no_unwind
    {
        match id {
            AssemblyId::Sccm => self.sccm = Some(v),
            AssemblyId::Bcm => self.bcm = Some(v),
            AssemblyId::Flcm => self.flcm = Some(v),
            AssemblyId::Headlamp => self.headlamp = Some(v),
            AssemblyId::Wiper => self.wiper = Some(v),
        }
        proof {
            assert(self@ =~= old(self)@.insert(id, v));
        }
    }
}

/// What a fired tell-back timer leads to.
#[derive(Debug, Clone, Copy, PartialEq, Eq)]
pub enum TimeoutOutcome {
    /// The timer belongs to a superseded attempt or an unknown zone: nothing changes.
    Ignored,
    /// Budget remains: the zone must be told again, as attempt `next_attempt`.
    Retry { next_attempt: u32 },
    /// The budget is spent: a synthetic reply must close the zone's slot.
    GaveUp,
}

/// One FSM turn awaiting zone tell-backs.
#[derive(Debug)]
pub struct TurnBarrier {
    turn_id: u64,
    event: FsmEvent,
    now: Instant,
    pending: AssemblySet,
    zone_waits: AssemblyTable<TellBackWait>,
    zone_replies: ZoneReplies,
    zone_messages: AssemblyTable<ZoneMessage>,
}

/// Abstract state of a waiting barrier.
pub struct TurnBarrierView {
    pub turn_id: u64,
    pub event: FsmEvent,
    pub now: Instant,
    /// Zones whose reply is still awaited.
    pub pending: Set<AssemblyId>,
    /// Correlation state per told zone.
    pub waits: Map<AssemblyId, TellBackWait>,
    /// Replies collected so far.
    pub replies: Map<AssemblyId, ZoneReply>,
    /// The message each zone was told.
    pub messages: Map<AssemblyId, ZoneMessage>,
}

impl View for TurnBarrier {
    type V = TurnBarrierView;

    closed spec fn view(&self) -> TurnBarrierView {
        TurnBarrierView {
            turn_id: self.turn_id,
            event: self.event,
            now: self.now,
            pending: self.pending@,
            waits: self.zone_waits@,
            replies: self.zone_replies@,
            messages: self.zone_messages@,
        }
    }
}

/// The wait after one spent attempt: the attempt advances (saturating), the budget shrinks.
pub open spec fn spec_advanced_wait(w: TellBackWait) -> TellBackWait {
    TellBackWait {
        turn_id: w.turn_id,
        tell_attempt: if w.tell_attempt == u32::MAX { u32::MAX } else { (w.tell_attempt + 1) as u32 },
        retries_remaining: (w.retries_remaining - 1) as u32,
    }
}

impl TurnBarrier {
    /// Every awaited zone was told a message, and each told zone has its correlation wait.
    #[verifier::type_invariant]
    closed spec fn told_zones_are_tracked(self) -> bool {
        &&& self.pending@.subset_of(self.zone_waits@.dom())
        &&& self.zone_waits@.dom() == self.zone_messages@.dom()
    }

    /// A barrier for turn `turn_id` of `event` arrived at `now`, with no zone registered yet.
    pub fn new(turn_id: u64, event: FsmEvent, now: Instant) -> (b: TurnBarrier)
        ensures
            b@.turn_id == turn_id,
            b@.event == event,
            b@.now == now,
            b@.pending == Set::<AssemblyId>::empty(),
            b@.waits == Map::<AssemblyId, TellBackWait>::empty(),
            b@.replies == Map::<AssemblyId, ZoneReply>::empty(),
            b@.messages == Map::<AssemblyId, ZoneMessage>::empty(),
    {
        let pending = AssemblySet::new();
        let zone_waits: AssemblyTable<TellBackWait> = AssemblyTable::new();
        let zone_messages: AssemblyTable<ZoneMessage> = AssemblyTable::new();
        proof {
            assert(zone_waits@.dom() =~= zone_messages@.dom());
        }
        TurnBarrier {
            turn_id,
            event,
            now,
            pending,
            zone_waits,
            zone_replies: ZoneReplies::simulate_locally(),
            zone_messages,
        }
    }

    /// A barrier for one assembly's lifecycle tell; it commits as `AssemblyZoneReady(id)`.
    pub fn new_for_assembly_zone(
        turn_id: u64,
        id: AssemblyId,
        message: ZoneMessage,
        wait: TellBackWait,
        now: Instant,
    ) -> (b: TurnBarrier)
        ensures
            b@.turn_id == turn_id,
            b@.event == FsmEvent::AssemblyZoneReady(id),
            b@.now == now,
            b@.pending == set![id],
            b@.waits == map![id => wait],
            b@.replies == Map::<AssemblyId, ZoneReply>::empty(),
            b@.messages == map![id => message],
    {
        let mut barrier = TurnBarrier::new(turn_id, FsmEvent::AssemblyZoneReady(id), now);
        barrier.add_pending_zone(id, message, wait);
        proof {
            assert(barrier@.pending =~= set![id]);
            assert(barrier@.waits =~= map![id => wait]);
            assert(barrier@.messages =~= map![id => message]);
        }
        barrier
    }

    /// The turn identity.
    pub fn turn_id(&self) -> (id: u64)
        ensures
            id == self@.turn_id,
    {
        self.turn_id
    }

    /// When the turn's event arrived.
    pub fn now(&self) -> (t: Instant)
        ensures
            t == self@.now,
    {
        self.now
    }

    /// Whether every registered zone has replied.
    pub fn is_complete(&self) -> (b: bool)
        ensures
            b == (self@.pending == Set::<AssemblyId>::empty()),
    {
        self.pending.is_empty()
    }

    /// Whether `tell_attempt` is the attempt awaited from `id`.
    pub fn tell_attempt_matches(&self, id: AssemblyId, tell_attempt: u32) -> (b: bool)
        ensures
            b == (self@.waits.contains_key(id) && self@.waits[id].tell_attempt == tell_attempt),
    {
        match self.zone_waits.get(id) {
            Some(w) => w.tell_attempt == tell_attempt,
            None => false,
        }
    }

    /// The message `id` was told, if any.
    pub fn zone_message(&self, id: AssemblyId) -> (r: Option<ZoneMessage>)
        ensures
            r is Some <==> self@.messages.contains_key(id),
            r matches Some(m) ==> m == self@.messages[id],
    {
        self.zone_messages.get(id)
    }

    /// Register `id` as awaited, with the message it was told and its correlation wait.
    pub fn add_pending_zone(&mut self, id: AssemblyId, message: ZoneMessage, wait: TellBackWait)
        ensures
            final(self)@.turn_id == old(self)@.turn_id,
            final(self)@.event == old(self)@.event,
            final(self)@.now == old(self)@.now,
            final(self)@.pending == old(self)@.pending.insert(id),
            final(self)@.waits == old(self)@.waits.insert(id, wait),
            final(self)@.replies == old(self)@.replies,
            final(self)@.messages == old(self)@.messages.insert(id, message),
    {
        proof {
            use_type_invariant(&*self);
        }
        let mut replies = ZoneReplies::simulate_locally();
        core::mem::swap(&mut replies, &mut self.zone_replies);
        let mut pending = self.pending;
        pending.insert(id);
        let mut zone_messages = self.zone_messages;
        zone_messages.insert(id, message);
        let mut zone_waits = self.zone_waits;
        zone_waits.insert(id, wait);
        proof {
            assert(zone_waits@.dom() =~= zone_messages@.dom());
        }
        *self = TurnBarrier {
            turn_id: self.turn_id,
            event: self.event,
            now: self.now,
            pending,
            zone_waits,
            zone_replies: replies,
            zone_messages,
        };
    }

    /// Whether a reply from `id` is still awaited.
    pub fn is_pending(&self, id: AssemblyId) -> (b: bool)
        ensures
            b == self@.pending.contains(id),
    {
        self.pending.contains(id)
    }

    /// A reply from `id` arrived. While the zone is awaited, it stops being awaited and the
    /// reply is kept; once its reply was accepted, later replies change nothing, so the first
    /// accepted reply stands.
    pub fn act_on_zone_reply(&mut self, id: AssemblyId, reply: ZoneReply)
        ensures
            final(self)@.turn_id == old(self)@.turn_id,
            final(self)@.event == old(self)@.event,
            final(self)@.now == old(self)@.now,
            final(self)@.waits == old(self)@.waits,
            final(self)@.messages == old(self)@.messages,
            old(self)@.pending.contains(id) ==> {
                &&& final(self)@.pending == old(self)@.pending.remove(id)
                &&& final(self)@.replies == old(self)@.replies.insert(id, reply)
            },
            !old(self)@.pending.contains(id) ==> {
                &&& final(self)@.pending == old(self)@.pending
                &&& final(self)@.replies == old(self)@.replies
            },
    {
        proof {
            use_type_invariant(&*self);
        }
        if !self.pending.contains(id) {
            return;
        }
        self.pending.remove(id);
        self.zone_replies.insert(id, reply);
    }

    /// A timer for attempt `tell_attempt` of `id` fired. Only the awaited attempt of a zone still
    /// awaited counts: with budget left the wait advances to the next attempt, else the barrier
    /// gives up on the zone. A timer of a zone whose reply was accepted changes nothing.
    pub fn act_on_zone_timeout(&mut self, id: AssemblyId, tell_attempt: u32) -> (r: TimeoutOutcome)
        ensures
            final(self)@.turn_id == old(self)@.turn_id,
            final(self)@.event == old(self)@.event,
            final(self)@.now == old(self)@.now,
            final(self)@.pending == old(self)@.pending,
            final(self)@.replies == old(self)@.replies,
            final(self)@.messages == old(self)@.messages,
            !(old(self)@.pending.contains(id) && old(self)@.waits.contains_key(id) && old(self)@.waits[id].tell_attempt
                == tell_attempt) ==> r == TimeoutOutcome::Ignored && final(self)@.waits == old(self)@.waits,
            old(self)@.pending.contains(id) ==> old(self)@.waits.contains_key(id),
            old(self)@.waits.contains_key(id) ==> old(self)@.messages.contains_key(id),
            (old(self)@.pending.contains(id) && old(self)@.waits.contains_key(id) && old(self)@.waits[id].tell_attempt
                == tell_attempt) ==> {
                let w = old(self)@.waits[id];
                if w.retries_remaining > 0 {
                    &&& final(self)@.waits == old(self)@.waits.insert(id, spec_advanced_wait(w))
                    &&& r == TimeoutOutcome::Retry { next_attempt: spec_advanced_wait(w).tell_attempt }
                } else {
                    &&& final(self)@.waits == old(self)@.waits
                    &&& r == TimeoutOutcome::GaveUp
                }
            },
    {
        proof {
            use_type_invariant(&*self);
        }
        if !self.pending.contains(id) {
            return TimeoutOutcome::Ignored;
        }
        let wait = match self.zone_waits.get(id) {
            Some(w) => w,
            None => {
                return TimeoutOutcome::Ignored;
            },
        };
        if wait.tell_attempt != tell_attempt {
            return TimeoutOutcome::Ignored;
        }
        if wait.retries_remaining > 0 {
            let next = TellBackWait {
                turn_id: wait.turn_id,
                tell_attempt: wait.tell_attempt.saturating_add(1),
                retries_remaining: wait.retries_remaining - 1,
            };
            let mut waits = self.zone_waits;
            waits.insert(id, next);
            proof {
                assert(waits@.dom() =~= old(self).zone_waits@.dom());
            }
            self.zone_waits = waits;
            TimeoutOutcome::Retry { next_attempt: next.tell_attempt }
        } else {
            TimeoutOutcome::GaveUp
        }
    }

    /// The turn ready to commit: its event, arrival time and collected replies.
    pub fn into_resolved_turn(self) -> (r: ResolvedTurn)
        ensures
            r.ingress == self@.event,
            r.now == self@.now,
            r.zone_replies@ == self@.replies,
    {
        ResolvedTurn { ingress: self.event, now: self.now, zone_replies: self.zone_replies }
    }
}

/// A turn that needs no tell-back: complete on arrival.
#[derive(Debug, Clone, Copy, PartialEq, Eq)]
pub struct PassthroughBarrier {
    pub turn_id: u64,
    pub event: FsmEvent,
    pub now: Instant,
}

impl PassthroughBarrier {
    /// A passthrough barrier for turn `turn_id` of `event` arrived at `now`.
    pub fn new(turn_id: u64, event: FsmEvent, now: Instant) -> (b: PassthroughBarrier)
        ensures
            b == (PassthroughBarrier { turn_id, event, now }),
    {
        PassthroughBarrier { turn_id, event, now }
    }

    /// The turn identity.
    pub fn turn_id(&self) -> (id: u64)
        ensures
            id == self.turn_id,
    {
        self.turn_id
    }

    /// Always complete.
    pub fn is_complete(&self) -> (b: bool)
        ensures
            b,
    {
        true
    }

    /// The turn ready to commit, with no tell-back.
    pub fn into_resolved_turn(self) -> (r: ResolvedTurn)
        ensures
            r.ingress == self.event,
            r.now == self.now,
            r.zone_replies@ == Map::<AssemblyId, ZoneReply>::empty(),
    {
        ResolvedTurn { ingress: self.event, now: self.now, zone_replies: ZoneReplies::simulate_locally() }
    }
}

/// A queued turn: waiting on zones, or passing through.
#[derive(Debug)]
pub enum BarrierEntry {
    Waiting(TurnBarrier),
    Passthrough(PassthroughBarrier),
}

impl BarrierEntry {
    /// The entry's turn identity.
    pub open spec fn spec_turn_id(self) -> u64 {
        match self {
            BarrierEntry::Waiting(b) => b@.turn_id,
            BarrierEntry::Passthrough(p) => p.turn_id,
        }
    }

    /// The entry may commit.
    pub open spec fn spec_complete(self) -> bool {
        match self {
            BarrierEntry::Waiting(b) => b@.pending == Set::<AssemblyId>::empty(),
            BarrierEntry::Passthrough(_) => true,
        }
    }

    /// The event the entry commits.
    pub open spec fn spec_event(self) -> FsmEvent {
        match self {
            BarrierEntry::Waiting(b) => b@.event,
            BarrierEntry::Passthrough(p) => p.event,
        }
    }

    /// When the entry's event arrived.
    pub open spec fn spec_now(self) -> Instant {
        match self {
            BarrierEntry::Waiting(b) => b@.now,
            BarrierEntry::Passthrough(p) => p.now,
        }
    }

    /// The replies the entry commits with.
    pub open spec fn spec_replies(self) -> Map<AssemblyId, ZoneReply> {
        match self {
            BarrierEntry::Waiting(b) => b@.replies,
            BarrierEntry::Passthrough(_) => Map::<AssemblyId, ZoneReply>::empty(),
        }
    }

    /// The entry's turn identity.
    pub fn turn_id(&self) -> (id: u64)
        ensures
            id == self.spec_turn_id(),
    {
        match self {
            BarrierEntry::Waiting(b) => b.turn_id(),
            BarrierEntry::Passthrough(p) => p.turn_id(),
        }
    }

    /// Whether the entry may commit.
    pub fn is_complete(&self) -> (b: bool)
        ensures
            b == self.spec_complete(),
    {
        match self {
            BarrierEntry::Waiting(b) => b.is_complete(),
            BarrierEntry::Passthrough(p) => p.is_complete(),
        }
    }

    /// The turn ready to commit.
    pub fn into_resolved_turn(self) -> (r: ResolvedTurn)
        ensures
            r.ingress == self.spec_event(),
            r.now == self.spec_now(),
            r.zone_replies@ == self.spec_replies(),
    {
        match self {
            BarrierEntry::Waiting(b) => b.into_resolved_turn(),
            BarrierEntry::Passthrough(p) => p.into_resolved_turn(),
        }
    }
}

} // verus!
