//! The brain's decision core: what the twin does with each mailbox message.
//!
//! The runtime hands every message to [`VirtualCarBrain`] together with the time it was
//! handled, and carries out what comes back as a [`BrainOutput`]: zone tells (each with its
//! tell-back timer), timer aborts, published transition records, diagnostics, and domain
//! actions for the actuation manager.
//!
//! Every accepted FSM event becomes a barrier at the back of the reorder queue; barriers are
//! committed strictly from the front, and only once every zone they wait on has replied, so
//! turns commit in arrival order whatever order the zones answer in.
use vstd::prelude::*;

use crate::digital_twin::{CarSnapshot, DigitalTwinCar, ZoneMessage, ZoneReply, ZoneSpontaneousEvent};
use crate::fsm::{AssemblyId, DomainAction, DomainActionView, FsmEvent, FsmState};
use crate::observation_records::diagnostic::{
    diag_headlamp_actuation_unconfirmed, diag_rain_changed, diag_timer_tick, diag_warning,
    diag_wiper_motion_changed, spec_twin_diagnostic, DiagnosticKindView, DiagnosticLevel,
    DiagnosticRecord,
};
use crate::observation_records::transition::{
    spec_record_published, PublishedTransitionRecord, SessionClock,
};
use crate::time::Instant;
use crate::twin_runtime::detectors::AssemblyTopology;
use crate::twin_runtime::turn_barrier::{BarrierEntry, PassthroughBarrier, TimeoutOutcome, TurnBarrier};
use crate::twin_runtime::zone_replies::ZoneReplies;
use crate::twin_runtime::twin_turn::{
    commit_resolved_turn, is_duplicate_turn, spec_duplicate_turn, spec_merged, spec_quiescent, HopRecord,
    QuiescentResult,
};
use crate::twin_runtime::zone_tell_back::{synthetic_reply_for, TellBackWait};
use crate::twin_runtime::zone_turn::{spec_zone_message_for_event, zone_message_for_event};
use crate::vehicle_state::{
    BcmMessage, FlcmMessage, FrontHeadlampIncompleteCause, FrontHeadlampSwitchDirection,
    HeadlampMessage, SccmMessage, WiperMessage, WiperState,
};

verus! {

/// A zone tell to send, whose tell-back timer must be armed with it.
#[derive(Debug, Clone, Copy, PartialEq, Eq)]
pub struct ZoneTell {
    pub zone_id: AssemblyId,
    pub message: ZoneMessage,
    pub turn_id: u64,
    pub tell_attempt: u32,
    pub now: Instant,
}

/// A tell-back timer that must be aborted: its zone replied.
#[derive(Debug, Clone, Copy, PartialEq, Eq)]
pub struct TimerAbort {
    pub zone_id: AssemblyId,
    pub turn_id: u64,
}

/// What the runtime must carry out after one message, each list in order.
#[derive(Debug)]
pub struct BrainOutput {
    pub tells: Vec<ZoneTell>,
    pub timer_aborts: Vec<TimerAbort>,
    pub transitions: Vec<PublishedTransitionRecord>,
    pub diagnostics: Vec<DiagnosticRecord>,
    /// Domain actions for the actuation manager.
    pub executions: Vec<DomainAction>,
}

impl BrainOutput {
    /// Nothing to do.
    pub fn new() -> (o: BrainOutput)
        ensures
            o.tells@.len() == 0,
            o.timer_aborts@.len() == 0,
            o.transitions@.len() == 0,
            o.diagnostics@.len() == 0,
            o.executions@.len() == 0,
    {
        BrainOutput {
            tells: Vec::new(),
            timer_aborts: Vec::new(),
            transitions: Vec::new(),
            diagnostics: Vec::new(),
            executions: Vec::new(),
        }
    }
}

/// `a + k`, saturating at `u64::MAX`.
pub open spec fn spec_sat(a: u64, k: int) -> u64 {
    if a + k > u64::MAX {
        u64::MAX
    } else {
        (a + k) as u64
    }
}

/// The lifecycle message that starts (`on`) or stops assembly `id`.
pub open spec fn spec_lifecycle_message(id: AssemblyId, on: bool) -> ZoneMessage {
    match id {
        AssemblyId::Sccm => ZoneMessage::Sccm(if on { SccmMessage::BecomeOn } else { SccmMessage::BecomeOff }),
        AssemblyId::Bcm => ZoneMessage::Bcm(if on { BcmMessage::BecomeOn } else { BcmMessage::BecomeOff }),
        AssemblyId::Flcm => ZoneMessage::Flcm(if on { FlcmMessage::BecomeOn } else { FlcmMessage::BecomeOff }),
        AssemblyId::Headlamp => ZoneMessage::Headlamp(if on { HeadlampMessage::BecomeOn } else { HeadlampMessage::BecomeOff }),
        AssemblyId::Wiper => ZoneMessage::Wiper(if on { WiperMessage::BecomeOn } else { WiperMessage::BecomeOff }),
    }
}

/// The lifecycle message that starts (`on`) or stops assembly `id`.
pub fn lifecycle_message(id: AssemblyId, on: bool) -> (m: ZoneMessage)
    ensures
        m == spec_lifecycle_message(id, on),
{
    match id {
        AssemblyId::Sccm => ZoneMessage::Sccm(if on { SccmMessage::BecomeOn } else { SccmMessage::BecomeOff }),
        AssemblyId::Bcm => ZoneMessage::Bcm(if on { BcmMessage::BecomeOn } else { BcmMessage::BecomeOff }),
        AssemblyId::Flcm => ZoneMessage::Flcm(if on { FlcmMessage::BecomeOn } else { FlcmMessage::BecomeOff }),
        AssemblyId::Headlamp => ZoneMessage::Headlamp(
            if on { HeadlampMessage::BecomeOn } else { HeadlampMessage::BecomeOff },
        ),
        AssemblyId::Wiper => ZoneMessage::Wiper(if on { WiperMessage::BecomeOn } else { WiperMessage::BecomeOff }),
    }
}

/// The lifecycle tells a list of actions asks for, in order: each assembly of a start request
/// (`true`) or a stop request (`false`).
pub open spec fn spec_lifecycle_requests(actions: Seq<DomainActionView>) -> Seq<(AssemblyId, bool)>
    decreases actions.len(),
{
    if actions.len() == 0 {
        Seq::empty()
    } else {
        spec_lifecycle_requests(actions.drop_last()) + match actions.last() {
            DomainActionView::StartAssemblies(ids) => ids.map_values(|id: AssemblyId| (id, true)),
            DomainActionView::StopAssemblies(ids) => ids.map_values(|id: AssemblyId| (id, false)),
            _ => Seq::empty(),
        }
    }
}

/// The actions handed to the actuation manager: all but warnings and lifecycle requests.
pub open spec fn spec_executed(actions: Seq<DomainActionView>) -> Seq<DomainActionView> {
    actions.filter(|a: DomainActionView| !(a is LogWarning || a is StartAssemblies || a is StopAssemblies))
}

/// The warning texts among the actions, in order.
pub open spec fn spec_warning_texts(actions: Seq<DomainActionView>) -> Seq<Seq<char>>
    decreases actions.len(),
{
    if actions.len() == 0 {
        Seq::empty()
    } else {
        spec_warning_texts(actions.drop_last()) + match actions.last() {
            DomainActionView::LogWarning(t) => seq![t],
            _ => Seq::empty(),
        }
    }
}

/// One rain fact per hop that started or stopped the rain, in hop order.
pub open spec fn spec_rain_facts(hops: Seq<HopRecord>) -> Seq<DiagnosticKindView>
    decreases hops.len(),
{
    if hops.len() == 0 {
        Seq::empty()
    } else {
        spec_rain_facts(hops.drop_last()) + match hops.last().event {
            FsmEvent::RainsStarted => seq![DiagnosticKindView::RainChanged { raining: true }],
            FsmEvent::RainsStopped => seq![DiagnosticKindView::RainChanged { raining: false }],
            _ => Seq::empty(),
        }
    }
}

/// The first headlamp switch reported incomplete among the hops: its direction (`true` = on)
/// and cause.
pub open spec fn spec_first_incomplete(hops: Seq<HopRecord>) -> Option<(bool, FrontHeadlampIncompleteCause)>
    decreases hops.len(),
{
    if hops.len() == 0 {
        None
    } else {
        match hops[0].event {
            FsmEvent::FrontHeadlampActuationIncomplete { direction, cause } => Some(
                (direction == FrontHeadlampSwitchDirection::On, cause),
            ),
            _ => spec_first_incomplete(hops.skip(1)),
        }
    }
}

/// The diagnostics a commit raises, in order: rain changes per hop; a wiper motion change when
/// the wiper started or stopped moving over the turn; an unconfirmed headlamp switch, if any,
/// in which case the turn's warnings are not repeated; otherwise each warning.
pub open spec fn spec_commit_diagnostics(hops: Seq<HopRecord>, wiper_before: WiperState) -> Seq<(DiagnosticLevel, DiagnosticKindView)> {
    let wiping_before = wiper_before == WiperState::Running;
    let wiping_after = hops.last().result.modified_ctx.wiper.state == WiperState::Running;
    let incomplete = spec_first_incomplete(hops);
    spec_rain_facts(hops).map_values(|k: DiagnosticKindView| (DiagnosticLevel::Info, k)) + (if wiping_before
        != wiping_after {
        seq![(DiagnosticLevel::Info, DiagnosticKindView::WiperMotionChanged { wiping: wiping_after })]
    } else {
        Seq::empty()
    }) + match incomplete {
        Some((on, cause)) => seq![
            (DiagnosticLevel::Warning, DiagnosticKindView::HeadlampActuationUnconfirmed { on, cause }),
        ],
        None => spec_warning_texts(spec_merged(hops)).map_values(
            |t: Seq<char>| (DiagnosticLevel::Warning, DiagnosticKindView::Text { text: t }),
        ),
    }
}

/// The barrier queued for the `i`-th lifecycle tell of a commit.
pub open spec fn spec_lifecycle_barrier(e: BarrierEntry, id: AssemblyId, on: bool, turn_id: u64, now: Instant) -> bool {
    e matches BarrierEntry::Waiting(b) && {
        &&& b@.turn_id == turn_id
        &&& b@.event == FsmEvent::AssemblyZoneReady(id)
        &&& b@.now == now
        &&& b@.pending == set![id]
        &&& b@.waits == map![id => TellBackWait { turn_id, tell_attempt: 0, retries_remaining: crate::twin_runtime::constants::ZONE_TELL_BACK_MAX_RETRIES }]
        &&& b@.replies == Map::<AssemblyId, ZoneReply>::empty()
        &&& b@.messages == map![id => spec_lifecycle_message(id, on)]
    }
}

/// The brain: the twin, the reorder queue and the counters that stamp turns and records.
#[derive(Debug)]
pub struct VirtualCarBrain {
    pub twin_car: DigitalTwinCar,
    /// Identity of the next turn.
    pub next_turn_id: u64,
    /// In-flight turns, in arrival order.
    pub barrier_queue: Vec<BarrierEntry>,
    /// Ledger sequence of the next published record.
    pub next_record_seq: u64,
    /// The session's wall-clock anchor.
    pub session_clock: SessionClock,
    pub assembly_topology: AssemblyTopology,
    /// Whether timer ticks are reported as diagnostics.
    pub log_timer_tick: bool,
}

/// `new` extends `old`: every list keeps its earlier items.
pub open spec fn spec_extends(old: BrainOutput, new: BrainOutput) -> bool {
    &&& new.tells@.len() >= old.tells@.len()
    &&& new.tells@.subrange(0, old.tells@.len() as int) == old.tells@
    &&& new.timer_aborts@.len() >= old.timer_aborts@.len()
    &&& new.timer_aborts@.subrange(0, old.timer_aborts@.len() as int) == old.timer_aborts@
    &&& new.transitions@.len() >= old.transitions@.len()
    &&& new.transitions@.subrange(0, old.transitions@.len() as int) == old.transitions@
    &&& new.diagnostics@.len() >= old.diagnostics@.len()
    &&& new.diagnostics@.subrange(0, old.diagnostics@.len() as int) == old.diagnostics@
    &&& new.executions@.len() >= old.executions@.len()
    &&& new.executions@.subrange(0, old.executions@.len() as int) == old.executions@
}

impl VirtualCarBrain {
    /// Consume the next turn identity (the counter saturates).
    pub fn alloc_turn_id(&mut self) -> (id: u64)
        ensures
            id == old(self).next_turn_id,
            final(self).next_turn_id == spec_sat(old(self).next_turn_id, 1),
            final(self).twin_car == old(self).twin_car,
            final(self).barrier_queue == old(self).barrier_queue,
            final(self).next_record_seq == old(self).next_record_seq,
            final(self).session_clock == old(self).session_clock,
            final(self).assembly_topology == old(self).assembly_topology,
            final(self).log_timer_tick == old(self).log_timer_tick,
    {
        let id = self.next_turn_id;
        self.next_turn_id = self.next_turn_id.saturating_add(1);
        id
    }

    /// Publish one record per hop, with consecutive ledger sequences.
    fn emit_hop_records(&mut self, hops: &Vec<HopRecord>, out: &mut BrainOutput)
        ensures
            final(self).next_record_seq == spec_sat(old(self).next_record_seq, hops@.len() as int),
            final(self).twin_car == old(self).twin_car,
            final(self).next_turn_id == old(self).next_turn_id,
            final(self).barrier_queue == old(self).barrier_queue,
            final(self).session_clock == old(self).session_clock,
            final(self).assembly_topology == old(self).assembly_topology,
            final(self).log_timer_tick == old(self).log_timer_tick,
            final(out).transitions@.len() == old(out).transitions@.len() + hops@.len(),
            final(out).transitions@.subrange(0, old(out).transitions@.len() as int) == old(out).transitions@,
            forall|k: int|
                0 <= k < hops@.len() ==> spec_record_published(
                    hops@[k].result.transition_record,
                    old(self).twin_car.spec_identity(),
                    spec_sat(old(self).next_record_seq, k),
                    old(self).session_clock,
                    #[trigger] final(out).transitions@[old(out).transitions@.len() + k],
                ),
            final(out).tells == old(out).tells,
            final(out).timer_aborts == old(out).timer_aborts,
            final(out).diagnostics == old(out).diagnostics,
            final(out).executions == old(out).executions,
    {
        let base = out.transitions.len();
        let mut i: usize = 0;
        while i < hops.len()
            invariant
                i <= hops@.len(),
                self.next_record_seq == spec_sat(old(self).next_record_seq, i as int),
                self.twin_car == old(self).twin_car,
                self.next_turn_id == old(self).next_turn_id,
                self.barrier_queue == old(self).barrier_queue,
                self.session_clock == old(self).session_clock,
                self.assembly_topology == old(self).assembly_topology,
                self.log_timer_tick == old(self).log_timer_tick,
                base == old(out).transitions@.len(),
                out.transitions@.len() == base + i,
                out.transitions@.subrange(0, base as int) == old(out).transitions@,
                forall|k: int|
                    0 <= k < i ==> spec_record_published(
                        hops@[k].result.transition_record,
                        old(self).twin_car.spec_identity(),
                        spec_sat(old(self).next_record_seq, k),
                        old(self).session_clock,
                        #[trigger] out.transitions@[base + k],
                    ),
                out.tells == old(out).tells,
                out.timer_aborts == old(out).timer_aborts,
                out.diagnostics == old(out).diagnostics,
                out.executions == old(out).executions,
            decreases hops@.len() - i,
        {
            let record_seq = self.next_record_seq;
            self.next_record_seq = self.next_record_seq.saturating_add(1);
            let published = PublishedTransitionRecord::project(
                &hops[i].result.transition_record,
                self.twin_car.identity(),
                record_seq,
                &self.session_clock,
            );
            let ghost before = out.transitions@;
            out.transitions.push(published);
            proof {
                assert(out.transitions@.subrange(0, base as int) =~= before.subrange(0, base as int));
                assert forall|k: int| 0 <= k < i + 1 implies spec_record_published(
                    hops@[k].result.transition_record,
                    old(self).twin_car.spec_identity(),
                    spec_sat(old(self).next_record_seq, k),
                    old(self).session_clock,
                    #[trigger] out.transitions@[base + k],
                ) by {
                    if k < i {
                        assert(out.transitions@[base + k] == before[base + k]);
                    }
                }
            }
            i = i + 1;
        }
    }

    /// Append the commit's diagnostics, stamped at `now`.
    fn emit_commit_diagnostics(
        &self,
        hops: &Vec<HopRecord>,
        wiper_before: WiperState,
        merged: &Vec<DomainAction>,
        now: Instant,
        out: &mut BrainOutput,
    )
        requires
            hops@.len() > 0,
            merged.deep_view() == spec_merged(hops@),
        ensures
            ({
                let expected = spec_commit_diagnostics(hops@, wiper_before);
                let base = old(out).diagnostics@.len();
                &&& final(out).diagnostics@.len() == base + expected.len()
                &&& final(out).diagnostics@.subrange(0, base as int) == old(out).diagnostics@
                &&& forall|i: int|
                    0 <= i < expected.len() ==> spec_twin_diagnostic(
                        #[trigger] final(out).diagnostics@[base + i],
                        self.session_clock,
                        expected[i].0,
                        expected[i].1,
                        now,
                    )
            }),
            final(out).tells == old(out).tells,
            final(out).timer_aborts == old(out).timer_aborts,
            final(out).transitions == old(out).transitions,
            final(out).executions == old(out).executions,
    {
        let ghost base = out.diagnostics@.len();
        let ghost rain = spec_rain_facts(hops@).map_values(|k: DiagnosticKindView| (DiagnosticLevel::Info, k));
        // rain facts, hop by hop
        let mut i: usize = 0;
        while i < hops.len()
            invariant
                i <= hops@.len(),
                base == old(out).diagnostics@.len(),
                out.diagnostics@.len() == base + spec_rain_facts(hops@.take(i as int)).len(),
                out.diagnostics@.subrange(0, base as int) == old(out).diagnostics@,
                forall|j: int|
                    0 <= j < spec_rain_facts(hops@.take(i as int)).len() ==> spec_twin_diagnostic(
                        #[trigger] out.diagnostics@[base + j],
                        self.session_clock,
                        DiagnosticLevel::Info,
                        spec_rain_facts(hops@.take(i as int))[j],
                        now,
                    ),
                out.tells == old(out).tells,
                out.timer_aborts == old(out).timer_aborts,
                out.transitions == old(out).transitions,
                out.executions == old(out).executions,
            decreases hops@.len() - i,
        {
            let ghost before = out.diagnostics@;
            let ghost prev = spec_rain_facts(hops@.take(i as int));
            proof {
                assert(hops@.take(i + 1).drop_last() =~= hops@.take(i as int));
                assert(hops@.take(i + 1).last() == hops@[i as int]);
            }
            match hops[i].event {
                FsmEvent::RainsStarted => {
                    out.diagnostics.push(diag_rain_changed(&self.session_clock, true, &now));
                },
                FsmEvent::RainsStopped => {
                    out.diagnostics.push(diag_rain_changed(&self.session_clock, false, &now));
                },
                _ => {},
            }
            proof {
                let next = spec_rain_facts(hops@.take(i + 1));
                assert(out.diagnostics@.subrange(0, base as int) =~= before.subrange(0, base as int));
                assert forall|j: int| 0 <= j < next.len() implies spec_twin_diagnostic(
                    #[trigger] out.diagnostics@[base + j],
                    self.session_clock,
                    DiagnosticLevel::Info,
                    next[j],
                    now,
                ) by {
                    if j < prev.len() {
                        assert(out.diagnostics@[base + j] == before[base + j]);
                        assert(next[j] == prev[j]);
                    }
                }
            }
            i = i + 1;
        }
        proof {
            assert(hops@.take(hops@.len() as int) =~= hops@);
        }
        // the wiper started or stopped moving over the turn
        let last = hops.len() - 1;
        let wiping_before = matches!(wiper_before, WiperState::Running);
        let wiping_after = matches!(hops[last].result.modified_ctx.wiper.state, WiperState::Running);
        let ghost after_rain = out.diagnostics@;
        if wiping_before != wiping_after {
            out.diagnostics.push(diag_wiper_motion_changed(&self.session_clock, wiping_after, &now));
        }
        let ghost wiper_part: Seq<(DiagnosticLevel, DiagnosticKindView)> = if wiping_before != wiping_after {
            seq![(DiagnosticLevel::Info, DiagnosticKindView::WiperMotionChanged { wiping: wiping_after })]
        } else {
            Seq::empty()
        };
        // the first incomplete headlamp switch of the turn
        let mut incomplete: Option<(bool, FrontHeadlampIncompleteCause)> = None;
        let mut k: usize = 0;
        while k < hops.len()
            invariant
                k <= hops@.len(),
                incomplete is None ==> spec_first_incomplete(hops@) == spec_first_incomplete(hops@.skip(k as int)),
                incomplete is Some ==> incomplete == spec_first_incomplete(hops@),
            decreases hops@.len() - k,
        {
            proof {
                assert(hops@.skip(k as int)[0] == hops@[k as int]);
                assert(hops@.skip(k as int).skip(1) =~= hops@.skip(k + 1));
            }
            match hops[k].event {
                FsmEvent::FrontHeadlampActuationIncomplete { direction, cause } => {
                    if incomplete.is_none() {
                        incomplete = Some((matches!(direction, FrontHeadlampSwitchDirection::On), cause));
                    }
                },
                _ => {},
            }
            k = k + 1;
        }
        proof {
            if incomplete is None {
                assert(hops@.skip(k as int).len() == 0);
            }
        }
        let ghost before_tail = out.diagnostics@;
        proof {
            assert(after_rain.len() == base + spec_rain_facts(hops@).len());
            assert(forall|j: int| 0 <= j < after_rain.len() ==> before_tail[j] == after_rain[j]);
        }
        match incomplete {
            Some((on, cause)) => {
                out.diagnostics.push(diag_headlamp_actuation_unconfirmed(&self.session_clock, on, cause, &now));
                proof {
                    assert(out.diagnostics@.subrange(0, before_tail.len() as int) =~= before_tail);
                }
            },
            None => {
                let mut a: usize = 0;
                while a < merged.len()
                    invariant
                        a <= merged@.len(),
                        merged.deep_view() == spec_merged(hops@),
                        out.diagnostics@.len() == before_tail.len() + spec_warning_texts(merged.deep_view().take(a as int)).len(),
                        out.diagnostics@.subrange(0, before_tail.len() as int) == before_tail,
                        forall|j: int|
                            0 <= j < spec_warning_texts(merged.deep_view().take(a as int)).len() ==> spec_twin_diagnostic(
                                #[trigger] out.diagnostics@[before_tail.len() + j],
                                self.session_clock,
                                DiagnosticLevel::Warning,
                                DiagnosticKindView::Text { text: spec_warning_texts(merged.deep_view().take(a as int))[j] },
                                now,
                            ),
                        out.tells == old(out).tells,
                        out.timer_aborts == old(out).timer_aborts,
                        out.transitions == old(out).transitions,
                        out.executions == old(out).executions,
                    decreases merged@.len() - a,
                {
                    let ghost before = out.diagnostics@;
                    let ghost prev = spec_warning_texts(merged.deep_view().take(a as int));
                    proof {
                        assert(merged.deep_view().take(a + 1).drop_last() =~= merged.deep_view().take(a as int));
                        assert(merged.deep_view().take(a + 1).last() == merged@[a as int].deep_view());
                    }
                    match &merged[a] {
                        DomainAction::LogWarning(message) => {
                            out.diagnostics.push(diag_warning(&self.session_clock, message.clone(), &now));
                        },
                        _ => {},
                    }
                    proof {
                        let next = spec_warning_texts(merged.deep_view().take(a + 1));
                        assert(out.diagnostics@.subrange(0, before_tail.len() as int) =~= before.subrange(0, before_tail.len() as int));
                        assert forall|j: int| 0 <= j < next.len() implies spec_twin_diagnostic(
                            #[trigger] out.diagnostics@[before_tail.len() + j],
                            self.session_clock,
                            DiagnosticLevel::Warning,
                            DiagnosticKindView::Text { text: next[j] },
                            now,
                        ) by {
                            if j < prev.len() {
                                assert(out.diagnostics@[before_tail.len() + j] == before[before_tail.len() + j]);
                                assert(next[j] == prev[j]);
                            }
                        }
                    }
                    a = a + 1;
                }
                proof {
                    assert(merged.deep_view().take(a as int) =~= merged.deep_view());
                }
            },
        }
        proof {
            let expected = spec_commit_diagnostics(hops@, wiper_before);
            let rain_len = spec_rain_facts(hops@).len();
            assert(wiping_after == (hops@.last().result.modified_ctx.wiper.state == WiperState::Running));
            assert(out.diagnostics@.subrange(0, base as int) =~= old(out).diagnostics@);
            assert forall|i: int| 0 <= i < expected.len() implies spec_twin_diagnostic(
                #[trigger] out.diagnostics@[base + i],
                self.session_clock,
                expected[i].0,
                expected[i].1,
                now,
            ) by {
                assert(out.diagnostics@.subrange(0, before_tail.len() as int) == before_tail);
                if i < rain_len {
                    assert(out.diagnostics@[base + i] == before_tail[base + i]);
                    assert(before_tail[base + i] == after_rain[base + i]);
                    assert(expected[i] == rain[i]);
                } else if i < rain_len + wiper_part.len() {
                    assert(out.diagnostics@[base + i] == before_tail[base + i]);
                } else {
                    let j = i - rain_len - wiper_part.len();
                    assert(before_tail.len() == base + rain_len + wiper_part.len());
                    assert(base + i == before_tail.len() + j);
                }
            }
        }
    }

    /// Tell each of `ids` to start (`on`) or stop, each in a turn of its own with a barrier
    /// awaiting its tell-back.
    fn tell_lifecycle_batch(&mut self, ids: &Vec<AssemblyId>, on: bool, now: Instant, out: &mut BrainOutput)
        ensures
            ({
                let reqs = ids@.map_values(|id: AssemblyId| (id, on));
                &&& final(self).next_turn_id == spec_sat(old(self).next_turn_id, ids@.len() as int)
                &&& final(out).tells@ == old(out).tells@ + spec_lifecycle_tells(reqs, old(self).next_turn_id, now)
                &&& spec_queue_extended(old(self).barrier_queue@, final(self).barrier_queue@, reqs, old(self).next_turn_id, now)
            }),
            final(self).twin_car == old(self).twin_car,
            final(self).next_record_seq == old(self).next_record_seq,
            final(self).session_clock == old(self).session_clock,
            final(self).assembly_topology == old(self).assembly_topology,
            final(self).log_timer_tick == old(self).log_timer_tick,
            final(out).timer_aborts == old(out).timer_aborts,
            final(out).transitions == old(out).transitions,
            final(out).diagnostics == old(out).diagnostics,
            final(out).executions == old(out).executions,
    {
        let ghost reqs = ids@.map_values(|id: AssemblyId| (id, on));
        proof {
            assert(self.barrier_queue@.subrange(0, self.barrier_queue@.len() as int) =~= self.barrier_queue@);
            assert(spec_lifecycle_tells(reqs.take(0), old(self).next_turn_id, now) =~= Seq::<ZoneTell>::empty());
            assert(out.tells@ + Seq::<ZoneTell>::empty() =~= out.tells@);
        }
        let mut i: usize = 0;
        while i < ids.len()
            invariant
                i <= ids@.len(),
                reqs == ids@.map_values(|id: AssemblyId| (id, on)),
                self.next_turn_id == spec_sat(old(self).next_turn_id, i as int),
                out.tells@ == old(out).tells@ + spec_lifecycle_tells(reqs.take(i as int), old(self).next_turn_id, now),
                spec_queue_extended(old(self).barrier_queue@, self.barrier_queue@, reqs.take(i as int), old(self).next_turn_id, now),
                self.twin_car == old(self).twin_car,
                self.next_record_seq == old(self).next_record_seq,
                self.session_clock == old(self).session_clock,
                self.assembly_topology == old(self).assembly_topology,
                self.log_timer_tick == old(self).log_timer_tick,
                out.timer_aborts == old(out).timer_aborts,
                out.transitions == old(out).transitions,
                out.diagnostics == old(out).diagnostics,
                out.executions == old(out).executions,
            decreases ids@.len() - i,
        {
            let id = ids[i];
            let turn_id = self.alloc_turn_id();
            let message = lifecycle_message(id, on);
            let wait = TellBackWait::new(turn_id);
            out.tells.push(ZoneTell { zone_id: id, message, turn_id, tell_attempt: 0, now });
            let barrier = TurnBarrier::new_for_assembly_zone(turn_id, id, message, wait, now);
            let ghost q_before = self.barrier_queue@;
            self.barrier_queue.push(BarrierEntry::Waiting(barrier));
            proof {
                let r1 = reqs.take(i as int);
                let r2 = reqs.take(i + 1);
                assert(r2 =~= r1.push((id, on)));
                assert(turn_id == spec_sat(old(self).next_turn_id, i as int));
                assert(spec_sat(turn_id, 1) == spec_sat(old(self).next_turn_id, i + 1));
                assert(spec_lifecycle_tells(r2, old(self).next_turn_id, now) =~= spec_lifecycle_tells(r1, old(self).next_turn_id, now).push(
                    ZoneTell { zone_id: id, message, turn_id, tell_attempt: 0, now },
                ));
                assert(self.barrier_queue@.subrange(0, old(self).barrier_queue@.len() as int) =~= q_before.subrange(0, old(self).barrier_queue@.len() as int));
                assert forall|j: int| 0 <= j < r2.len() implies spec_lifecycle_barrier(
                    #[trigger] self.barrier_queue@[old(self).barrier_queue@.len() + j],
                    r2[j].0,
                    r2[j].1,
                    spec_sat(old(self).next_turn_id, j),
                    now,
                ) by {
                    if j < r1.len() {
                        assert(self.barrier_queue@[old(self).barrier_queue@.len() + j] == q_before[old(self).barrier_queue@.len() + j]);
                    }
                }
            }
            i = i + 1;
        }
        proof {
            assert(reqs.take(i as int) =~= reqs);
        }
    }
}

/// The tells of a batch of lifecycle requests, the `i`-th in turn `first_turn + i`.
pub open spec fn spec_lifecycle_tells(reqs: Seq<(AssemblyId, bool)>, first_turn: u64, now: Instant) -> Seq<ZoneTell> {
    Seq::new(
        reqs.len(),
        |i: int| ZoneTell {
            zone_id: reqs[i].0,
            message: spec_lifecycle_message(reqs[i].0, reqs[i].1),
            turn_id: spec_sat(first_turn, i),
            tell_attempt: 0,
            now,
        },
    )
}

/// `new` is `old` with one lifecycle barrier appended per request, the `i`-th in turn
/// `first_turn + i`.
pub open spec fn spec_queue_extended(
    old: Seq<BarrierEntry>,
    new: Seq<BarrierEntry>,
    reqs: Seq<(AssemblyId, bool)>,
    first_turn: u64,
    now: Instant,
) -> bool {
    &&& new.len() == old.len() + reqs.len()
    &&& new.subrange(0, old.len() as int) == old
    &&& forall|j: int|
        0 <= j < reqs.len() ==> spec_lifecycle_barrier(
            #[trigger] new[old.len() + j],
            reqs[j].0,
            reqs[j].1,
            spec_sat(first_turn, j),
            now,
        )
}

/// Saturating additions compose.
proof fn lemma_sat_compose(t: u64, a: int, j: int)
    requires
        a >= 0,
        j >= 0,
    ensures
        spec_sat(spec_sat(t, a), j) == spec_sat(t, a + j),
{
}

/// The tells of two consecutive batches are the tells of the joined batch.
proof fn lemma_tells_concat(r1: Seq<(AssemblyId, bool)>, r2: Seq<(AssemblyId, bool)>, t: u64, now: Instant)
    ensures
        spec_lifecycle_tells(r1 + r2, t, now) == spec_lifecycle_tells(r1, t, now) + spec_lifecycle_tells(
            r2,
            spec_sat(t, r1.len() as int),
            now,
        ),
{
    assert forall|j: int| 0 <= j < r2.len() implies spec_sat(spec_sat(t, r1.len() as int), j) == spec_sat(t, r1.len() + j) by {
        lemma_sat_compose(t, r1.len() as int, j);
    }
    assert(spec_lifecycle_tells(r1 + r2, t, now) =~= spec_lifecycle_tells(r1, t, now) + spec_lifecycle_tells(
        r2,
        spec_sat(t, r1.len() as int),
        now,
    ));
}

/// Two consecutive queue extensions are one extension by the joined batch.
proof fn lemma_queue_extended_concat(
    q0: Seq<BarrierEntry>,
    q1: Seq<BarrierEntry>,
    q2: Seq<BarrierEntry>,
    r1: Seq<(AssemblyId, bool)>,
    r2: Seq<(AssemblyId, bool)>,
    t: u64,
    now: Instant,
)
    requires
        spec_queue_extended(q0, q1, r1, t, now),
        spec_queue_extended(q1, q2, r2, spec_sat(t, r1.len() as int), now),
    ensures
        spec_queue_extended(q0, q2, r1 + r2, t, now),
{
    let r = r1 + r2;
    assert(q2.subrange(0, q0.len() as int) =~= q0) by {
        assert(q2.subrange(0, q1.len() as int) == q1);
        assert forall|j: int| 0 <= j < q0.len() implies q2[j] == q0[j] by {
            assert(q2[j] == q2.subrange(0, q1.len() as int)[j]);
            assert(q1[j] == q1.subrange(0, q0.len() as int)[j]);
        }
    }
    assert forall|j: int| 0 <= j < r.len() implies spec_lifecycle_barrier(
        #[trigger] q2[q0.len() + j],
        r[j].0,
        r[j].1,
        spec_sat(t, j),
        now,
    ) by {
        if j < r1.len() {
            assert(q2[q0.len() + j] == q2.subrange(0, q1.len() as int)[q0.len() + j]);
            assert(spec_lifecycle_barrier(q1[q0.len() + j], r1[j].0, r1[j].1, spec_sat(t, j), now));
        } else {
            let k = j - r1.len();
            lemma_sat_compose(t, r1.len() as int, k);
            assert(spec_lifecycle_barrier(q2[q1.len() + k], r2[k].0, r2[k].1, spec_sat(spec_sat(t, r1.len() as int), k), now));
        }
    }
}

impl VirtualCarBrain {
    /// Carry out a commit's actions: lifecycle requests become zone tells with their barriers,
    /// warnings are left to the diagnostics, everything else goes to the actuation manager.
    fn dispatch_actions(&mut self, merged: &Vec<DomainAction>, now: Instant, out: &mut BrainOutput)
        ensures
            ({
                let reqs = spec_lifecycle_requests(merged.deep_view());
                &&& final(self).next_turn_id == spec_sat(old(self).next_turn_id, reqs.len() as int)
                &&& final(out).tells@ == old(out).tells@ + spec_lifecycle_tells(reqs, old(self).next_turn_id, now)
                &&& spec_queue_extended(old(self).barrier_queue@, final(self).barrier_queue@, reqs, old(self).next_turn_id, now)
            }),
            final(out).executions.deep_view() == old(out).executions.deep_view() + spec_executed(merged.deep_view()),
            final(self).twin_car == old(self).twin_car,
            final(self).next_record_seq == old(self).next_record_seq,
            final(self).session_clock == old(self).session_clock,
            final(self).assembly_topology == old(self).assembly_topology,
            final(self).log_timer_tick == old(self).log_timer_tick,
            final(out).timer_aborts == old(out).timer_aborts,
            final(out).transitions == old(out).transitions,
            final(out).diagnostics == old(out).diagnostics,
    {
        let ghost actions = merged.deep_view();
        proof {
            assert(self.barrier_queue@.subrange(0, self.barrier_queue@.len() as int) =~= self.barrier_queue@);
            assert(spec_lifecycle_requests(actions.take(0)) =~= Seq::<(AssemblyId, bool)>::empty());
            assert(spec_lifecycle_tells(Seq::<(AssemblyId, bool)>::empty(), old(self).next_turn_id, now) =~= Seq::<ZoneTell>::empty());
            assert(out.tells@ + Seq::<ZoneTell>::empty() =~= out.tells@);
            assert(actions.take(0).filter(|a: DomainActionView| !(a is LogWarning || a is StartAssemblies || a is StopAssemblies)) =~= Seq::<DomainActionView>::empty());
            assert(out.executions.deep_view() + Seq::<DomainActionView>::empty() =~= out.executions.deep_view());
        }
        let mut a: usize = 0;
        while a < merged.len()
            invariant
                a <= merged@.len(),
                actions == merged.deep_view(),
                ({
                    let reqs = spec_lifecycle_requests(actions.take(a as int));
                    &&& self.next_turn_id == spec_sat(old(self).next_turn_id, reqs.len() as int)
                    &&& out.tells@ == old(out).tells@ + spec_lifecycle_tells(reqs, old(self).next_turn_id, now)
                    &&& spec_queue_extended(old(self).barrier_queue@, self.barrier_queue@, reqs, old(self).next_turn_id, now)
                }),
                out.executions.deep_view() == old(out).executions.deep_view() + spec_executed(actions.take(a as int)),
                self.twin_car == old(self).twin_car,
                self.next_record_seq == old(self).next_record_seq,
                self.session_clock == old(self).session_clock,
                self.assembly_topology == old(self).assembly_topology,
                self.log_timer_tick == old(self).log_timer_tick,
                out.timer_aborts == old(out).timer_aborts,
                out.transitions == old(out).transitions,
                out.diagnostics == old(out).diagnostics,
            decreases merged@.len() - a,
        {
            let ghost r1 = spec_lifecycle_requests(actions.take(a as int));
            let ghost q1 = self.barrier_queue@;
            let ghost t1 = self.next_turn_id;
            let ghost tells1 = out.tells@;
            let ghost ex1 = out.executions.deep_view();
            proof {
                assert(actions.take(a + 1).drop_last() =~= actions.take(a as int));
                assert(actions.take(a + 1).last() == merged@[a as int].deep_view());
                reveal_with_fuel(Seq::filter, 1);
            }
            match &merged[a] {
                DomainAction::StartAssemblies(ids) => {
                    self.tell_lifecycle_batch(ids, true, now, out);
                },
                DomainAction::StopAssemblies(ids) => {
                    self.tell_lifecycle_batch(ids, false, now, out);
                },
                DomainAction::LogWarning(_) => {},
                other => {
                    let action = other.duplicate();
                    out.executions.push(action);
                    proof {
                        assert(out.executions.deep_view() =~= ex1.push(action.deep_view()));
                    }
                },
            }
            proof {
                let r2 = match actions[a as int] {
                    DomainActionView::StartAssemblies(ids) => ids.map_values(|id: AssemblyId| (id, true)),
                    DomainActionView::StopAssemblies(ids) => ids.map_values(|id: AssemblyId| (id, false)),
                    _ => Seq::<(AssemblyId, bool)>::empty(),
                };
                assert(spec_lifecycle_requests(actions.take(a + 1)) == r1 + r2);
                lemma_tells_concat(r1, r2, old(self).next_turn_id, now);
                lemma_sat_compose(old(self).next_turn_id, r1.len() as int, r2.len() as int);
                if r2.len() == 0 {
                    assert(r1 + r2 =~= r1);
                    assert(spec_lifecycle_tells(r2, t1, now) =~= Seq::<ZoneTell>::empty());
                    assert(self.barrier_queue@ == q1);
                    assert(out.tells@ == tells1);
                } else {
                    lemma_queue_extended_concat(old(self).barrier_queue@, q1, self.barrier_queue@, r1, r2, old(self).next_turn_id, now);
                }
                assert(out.tells@ =~= old(out).tells@ + spec_lifecycle_tells(r1 + r2, old(self).next_turn_id, now));
            }
            a = a + 1;
        }
        proof {
            assert(actions.take(a as int) =~= actions);
        }
    }
}

/// `b1`/`o1` is what committing the quiescent turn `hops` does to `b0`/`o0`, whose queue is
/// taken to be `q0`, at time `now`: one record per hop with consecutive ledger sequences, the
/// twin moved to the last hop's mode and context, the commit's diagnostics, one lifecycle tell
/// and barrier per requested assembly, and every other action handed to actuation. A turn
/// without hops (a duplicate observation) publishes nothing, keeps the ledger sequence and
/// leaves the twin as it was.
pub open spec fn spec_committed(
    b0: VirtualCarBrain,
    q0: Seq<BarrierEntry>,
    b1: VirtualCarBrain,
    o0: BrainOutput,
    o1: BrainOutput,
    hops: Seq<HopRecord>,
    now: Instant,
) -> bool {
    let merged = spec_merged(hops);
    let reqs = spec_lifecycle_requests(merged);
    let diags = spec_commit_diagnostics(hops, b0.twin_car.spec_context().wiper.state);
    // the twin and the diagnostics
    &&& if hops.len() == 0 {
        &&& b1.twin_car == b0.twin_car
        &&& o1.diagnostics == o0.diagnostics
    } else {
        &&& b1.twin_car.spec_identity() == b0.twin_car.spec_identity()
        &&& b1.twin_car.spec_state() == hops.last().result.next_state
        &&& b1.twin_car.spec_context() == hops.last().result.modified_ctx
        &&& o1.diagnostics@.len() == o0.diagnostics@.len() + diags.len()
        &&& o1.diagnostics@.subrange(0, o0.diagnostics@.len() as int) == o0.diagnostics@
        &&& forall|i: int|
            0 <= i < diags.len() ==> spec_twin_diagnostic(
                #[trigger] o1.diagnostics@[o0.diagnostics@.len() + i],
                b0.session_clock,
                diags[i].0,
                diags[i].1,
                now,
            )
    }
    // the ledger
    &&& b1.next_record_seq == spec_sat(b0.next_record_seq, hops.len() as int)
    &&& o1.transitions@.len() == o0.transitions@.len() + hops.len()
    &&& o1.transitions@.subrange(0, o0.transitions@.len() as int) == o0.transitions@
    &&& forall|k: int|
        0 <= k < hops.len() ==> spec_record_published(
            hops[k].result.transition_record,
            b0.twin_car.spec_identity(),
            spec_sat(b0.next_record_seq, k),
            b0.session_clock,
            #[trigger] o1.transitions@[o0.transitions@.len() + k],
        )
    // lifecycle tells and their barriers
    &&& b1.next_turn_id == spec_sat(b0.next_turn_id, reqs.len() as int)
    &&& o1.tells@ == o0.tells@ + spec_lifecycle_tells(reqs, b0.next_turn_id, now)
    &&& spec_queue_extended(q0, b1.barrier_queue@, reqs, b0.next_turn_id, now)
    // actuation
    &&& o1.executions.deep_view() == o0.executions.deep_view() + spec_executed(merged)
    // unchanged
    &&& o1.timer_aborts == o0.timer_aborts
    &&& b1.session_clock == b0.session_clock
    &&& b1.assembly_topology == b0.assembly_topology
    &&& b1.log_timer_tick == b0.log_timer_tick
}

impl VirtualCarBrain {
    /// Apply a committed quiescent turn: publish its records, move the twin, raise its
    /// diagnostics and carry out its actions. A turn without hops changes nothing.
    pub fn apply_committed_quiescence(&mut self, quiescent: QuiescentResult, now: Instant, out: &mut BrainOutput)
        ensures
            spec_committed(*old(self), old(self).barrier_queue@, *final(self), *old(out), *final(out), quiescent.hops@, now),
    {
        if quiescent.hops.len() == 0 {
            proof {
                let hops = quiescent.hops@;
                assert(spec_merged(hops) =~= Seq::<DomainActionView>::empty());
                assert(spec_lifecycle_requests(spec_merged(hops)) =~= Seq::<(AssemblyId, bool)>::empty());
                assert(spec_executed(spec_merged(hops)) =~= Seq::<DomainActionView>::empty());
                assert(out.tells@ + spec_lifecycle_tells(Seq::empty(), self.next_turn_id, now) =~= out.tells@);
                assert(self.barrier_queue@.subrange(0, self.barrier_queue@.len() as int) =~= self.barrier_queue@);
                assert(out.transitions@.subrange(0, out.transitions@.len() as int) =~= out.transitions@);
                assert(out.executions.deep_view() + Seq::<DomainActionView>::empty() =~= out.executions.deep_view());
            }
            return;
        }
        let wiper_before = self.twin_car.context().wiper.state;
        self.emit_hop_records(&quiescent.hops, out);
        let final_step = quiescent.final_step();
        let next_state = final_step.next_state;
        let next_ctx = final_step.modified_ctx;
        self.twin_car.apply_step(next_state, next_ctx);
        let merged = quiescent.merged_actions();
        self.emit_commit_diagnostics(&quiescent.hops, wiper_before, &merged, now, out);
        self.dispatch_actions(&merged, now, out);
    }
}

/// `hops` is what the brain commits for a turn of `ingress` with zone replies `replies`: nothing
/// for a duplicate observation (the observing zone had already seen the value), otherwise the
/// quiescent turn from the given mode and context.
pub open spec fn spec_turn_hops(
    state: FsmState,
    ctx: crate::vehicle_state::VehicleContext,
    ingress: FsmEvent,
    at: Instant,
    replies: Map<AssemblyId, ZoneReply>,
    topology: AssemblyTopology,
    hops: Seq<HopRecord>,
) -> bool {
    if spec_duplicate_turn(replies) {
        hops.len() == 0
    } else {
        spec_quiescent(state, ctx, ingress, at, replies, topology, hops)
    }
}

/// One step of draining: the front barrier of `b0` is complete; it is popped and committed as
/// the turn `hops` of its event, time and replies from the twin's current mode and context
/// (no hop for a duplicate observation).
pub open spec fn spec_drain_step(
    b0: VirtualCarBrain,
    b1: VirtualCarBrain,
    o0: BrainOutput,
    o1: BrainOutput,
    hops: Seq<HopRecord>,
    now: Instant,
) -> bool {
    let q = b0.barrier_queue@;
    &&& q.len() > 0
    &&& q[0].spec_complete()
    &&& spec_turn_hops(
        b0.twin_car.spec_state(),
        b0.twin_car.spec_context(),
        q[0].spec_event(),
        q[0].spec_now(),
        q[0].spec_replies(),
        b0.assembly_topology,
        hops,
    )
    &&& spec_committed(b0, q.skip(1), b1, o0, o1, hops, now)
}

/// `bs`/`os` are the brains and outputs between the drain steps `hs`, from `b0`/`o0` to
/// `b1`/`o1`; the `i`-th step commits the `i`-th barrier of `b0`'s queue.
pub open spec fn spec_drain_trace(
    b0: VirtualCarBrain,
    b1: VirtualCarBrain,
    o0: BrainOutput,
    o1: BrainOutput,
    bs: Seq<VirtualCarBrain>,
    os: Seq<BrainOutput>,
    hs: Seq<Seq<HopRecord>>,
    now: Instant,
) -> bool {
    &&& bs.len() == hs.len() + 1
    &&& os.len() == hs.len() + 1
    &&& hs.len() <= b0.barrier_queue@.len()
    &&& bs[0] == b0
    &&& os[0] == o0
    &&& bs.last() == b1
    &&& os.last() == o1
    &&& forall|i: int| 0 <= i < hs.len() ==> spec_drain_step(bs[i], bs[i + 1], os[i], os[i + 1], #[trigger] hs[i], now)
    &&& forall|i: int| 0 <= i < hs.len() ==> (#[trigger] bs[i].barrier_queue@)[0] == b0.barrier_queue@[i]
}

/// Draining took `b0`/`o0` to `b1`/`o1`: the complete barriers at the front of the queue were
/// committed one by one in arrival order, the rest of the queue stays in order, and the new
/// front, if any, is still waiting.
pub open spec fn spec_drained(b0: VirtualCarBrain, b1: VirtualCarBrain, o0: BrainOutput, o1: BrainOutput, now: Instant) -> bool {
    &&& exists|bs: Seq<VirtualCarBrain>, os: Seq<BrainOutput>, hs: Seq<Seq<HopRecord>>| {
        &&& #[trigger] spec_drain_trace(b0, b1, o0, o1, bs, os, hs, now)
        &&& b1.barrier_queue@.len() >= b0.barrier_queue@.len() - hs.len()
        &&& b1.barrier_queue@.subrange(0, b0.barrier_queue@.len() - hs.len()) == b0.barrier_queue@.skip(hs.len() as int)
    }
    &&& (b1.barrier_queue@.len() == 0 || !b1.barrier_queue@[0].spec_complete())
}

impl VirtualCarBrain {
    /// Commit a resolved turn: a duplicate observation commits nothing; any other turn runs to
    /// quiescence from the twin's current mode and context, and the result is applied.
    fn commit_turn(&mut self, resolved: crate::twin_runtime::twin_turn::ResolvedTurn, now: Instant, out: &mut BrainOutput) -> (hops: Ghost<Seq<HopRecord>>)
        ensures
            spec_turn_hops(
                old(self).twin_car.spec_state(),
                old(self).twin_car.spec_context(),
                resolved.ingress,
                resolved.now,
                resolved.zone_replies@,
                old(self).assembly_topology,
                hops@,
            ),
            spec_committed(*old(self), old(self).barrier_queue@, *final(self), *old(out), *final(out), hops@, now),
    {
        if is_duplicate_turn(&resolved.zone_replies) {
            let nothing = QuiescentResult { hops: Vec::new() };
            let ghost hops = nothing.hops@;
            self.apply_committed_quiescence(nothing, now, out);
            return Ghost(hops);
        }
        let quiescent = commit_resolved_turn(
            self.twin_car.current_state(),
            self.twin_car.context(),
            resolved,
            self.assembly_topology,
        );
        let ghost hops = quiescent.hops@;
        self.apply_committed_quiescence(quiescent, now, out);
        Ghost(hops)
    }

    /// Commit every complete barrier at the front of the queue, in order.
    #[verifier::rlimit(40)]
    pub fn try_drain_barrier_queue(&mut self, now: Instant, out: &mut BrainOutput)
        ensures
            spec_drained(*old(self), *final(self), *old(out), *final(out), now),
    {
        let ghost q0 = self.barrier_queue@;
        let ghost mut bs: Seq<VirtualCarBrain> = seq![*self];
        let ghost mut os: Seq<BrainOutput> = seq![*out];
        let ghost mut hs: Seq<Seq<HopRecord>> = Seq::empty();
        proof {
            assert(self.barrier_queue@.subrange(0, q0.len() as int) =~= q0.skip(0));
        }
        loop
            invariant
                spec_drain_trace(*old(self), *self, *old(out), *out, bs, os, hs, now),
                q0 == old(self).barrier_queue@,
                hs.len() <= q0.len(),
                self.barrier_queue@.len() >= q0.len() - hs.len(),
                self.barrier_queue@.subrange(0, q0.len() - hs.len()) == q0.skip(hs.len() as int),
                forall|j: int|
                    q0.len() - hs.len() <= j < self.barrier_queue@.len() ==> !(#[trigger] self.barrier_queue@[j]).spec_complete(),
            ensures
                spec_drain_trace(*old(self), *self, *old(out), *out, bs, os, hs, now),
                self.barrier_queue@.len() >= q0.len() - hs.len(),
                self.barrier_queue@.subrange(0, q0.len() - hs.len()) == q0.skip(hs.len() as int),
                self.barrier_queue@.len() == 0 || !self.barrier_queue@[0].spec_complete(),
            decreases q0.len() - hs.len(),
        {
            if self.barrier_queue.len() == 0 {
                break;
            }
            if !self.barrier_queue[0].is_complete() {
                break;
            }
            let ghost b_before = *self;
            let ghost o_before = *out;
            proof {
                if hs.len() == q0.len() {
                    assert(!self.barrier_queue@[0].spec_complete());
                }
                assert(self.barrier_queue@[0] == self.barrier_queue@.subrange(0, q0.len() - hs.len())[0]);
                assert(self.barrier_queue@[0] == q0[hs.len() as int]);
            }
            let entry = self.barrier_queue.remove(0);
            let resolved = entry.into_resolved_turn();
            let hops = self.commit_turn(resolved, now, out);
            proof {
                let q_mid = b_before.barrier_queue@.skip(1);
                assert(b_before.barrier_queue@.remove(0) =~= q_mid);
                assert(spec_drain_step(b_before, *self, o_before, *out, hops@, now));
                lemma_drain_queue_shape(q0, hs.len() as int, b_before.barrier_queue@, self.barrier_queue@,
                    spec_lifecycle_requests(spec_merged(hops@)), b_before.next_turn_id, now);
                lemma_drain_trace_extend(*old(self), b_before, *self, *old(out), o_before, *out, bs, os, hs, hops@, now);
                let bs2 = bs.push(*self);
                let os2 = os.push(*out);
                let hs2 = hs.push(hops@);
                bs = bs2;
                os = os2;
                hs = hs2;
            }
        }
    }
}

/// One drain step keeps the queue shape: the untouched rest of the starting queue stays in
/// front, and everything behind it is still waiting.
proof fn lemma_drain_queue_shape(
    q0: Seq<BarrierEntry>,
    n: int,
    before: Seq<BarrierEntry>,
    after: Seq<BarrierEntry>,
    reqs: Seq<(AssemblyId, bool)>,
    t: u64,
    now: Instant,
)
    requires
        0 <= n < q0.len(),
        before.len() >= q0.len() - n,
        before.subrange(0, q0.len() - n) == q0.skip(n),
        forall|j: int| q0.len() - n <= j < before.len() ==> !(#[trigger] before[j]).spec_complete(),
        spec_queue_extended(before.skip(1), after, reqs, t, now),
    ensures
        after.len() >= q0.len() - (n + 1),
        after.subrange(0, q0.len() - (n + 1)) == q0.skip(n + 1),
        forall|j: int| q0.len() - (n + 1) <= j < after.len() ==> !(#[trigger] after[j]).spec_complete(),
{
    let mid = before.skip(1);
    assert forall|j: int| 0 <= j < q0.len() - (n + 1) implies after[j] == q0.skip(n + 1)[j] by {
        assert(after[j] == after.subrange(0, mid.len() as int)[j]);
        assert(mid[j] == before[j + 1]);
        assert(before[j + 1] == before.subrange(0, q0.len() - n)[j + 1]);
    }
    assert(after.subrange(0, q0.len() - (n + 1)) =~= q0.skip(n + 1));
    assert forall|j: int| q0.len() - (n + 1) <= j < after.len() implies !(#[trigger] after[j]).spec_complete() by {
        if j < mid.len() {
            assert(after[j] == after.subrange(0, mid.len() as int)[j]);
            assert(mid[j] == before[j + 1]);
        } else {
            let m = j - mid.len();
            assert(spec_lifecycle_barrier(after[mid.len() + m], reqs[m].0, reqs[m].1, spec_sat(t, m), now));
            assert(set![reqs[m].0].contains(reqs[m].0));
        }
    }
}

/// A drain trace extended by one more step.
proof fn lemma_drain_trace_extend(
    b0: VirtualCarBrain,
    b_before: VirtualCarBrain,
    b_after: VirtualCarBrain,
    o0: BrainOutput,
    o_before: BrainOutput,
    o_after: BrainOutput,
    bs: Seq<VirtualCarBrain>,
    os: Seq<BrainOutput>,
    hs: Seq<Seq<HopRecord>>,
    hops: Seq<HopRecord>,
    now: Instant,
)
    requires
        spec_drain_trace(b0, b_before, o0, o_before, bs, os, hs, now),
        spec_drain_step(b_before, b_after, o_before, o_after, hops, now),
        hs.len() < b0.barrier_queue@.len(),
        b_before.barrier_queue@[0] == b0.barrier_queue@[hs.len() as int],
    ensures
        spec_drain_trace(b0, b_after, o0, o_after, bs.push(b_after), os.push(o_after), hs.push(hops), now),
{
    let bs2 = bs.push(b_after);
    let os2 = os.push(o_after);
    let hs2 = hs.push(hops);
    assert forall|i: int| 0 <= i < hs2.len() implies spec_drain_step(bs2[i], bs2[i + 1], os2[i], os2[i + 1], #[trigger] hs2[i], now) by {
        if i < hs.len() {
            assert(bs2[i] == bs[i] && bs2[i + 1] == bs[i + 1] && os2[i] == os[i] && os2[i + 1] == os[i + 1] && hs2[i] == hs[i]);
        } else {
            assert(bs2[i] == b_before && os2[i] == o_before);
        }
    }
    assert forall|i: int| 0 <= i < hs2.len() implies (#[trigger] bs2[i].barrier_queue@)[0] == b0.barrier_queue@[i] by {
        if i < hs.len() {
            assert(bs2[i] == bs[i]);
        } else {
            assert(bs2[i] == b_before);
        }
    }
}

/// Events the brain drops on arrival: in the observed-ECU topology, headlamp and rain inputs
/// (there is no headlamp or wiper zone); while off, everything but power-on; while starting or
/// stopping assemblies, hazard-button changes.
pub open spec fn spec_event_dropped(topology: AssemblyTopology, state: FsmState, event: FsmEvent) -> bool {
    ||| (topology == AssemblyTopology::ObservedEcus && (event is UpdateAmbientLux || event is FrontHeadlampOnAck
        || event is FrontHeadlampOffAck || event is FrontHeadlampActuationIncomplete || event is RainsStarted
        || event is RainsStopped))
    ||| (state is Off && !(event is PowerOn))
    ||| (event is HazardButtonChanged && (state is PreparingToStart || state is PreparingToStop))
}

/// Nothing to carry out.
pub open spec fn spec_output_empty(o: BrainOutput) -> bool {
    &&& o.tells@.len() == 0
    &&& o.timer_aborts@.len() == 0
    &&& o.transitions@.len() == 0
    &&& o.diagnostics@.len() == 0
    &&& o.executions@.len() == 0
}

/// Nothing to carry out but, when `tick`, the timer-tick diagnostic stamped at `now`.
pub open spec fn spec_tick_output(o: BrainOutput, clock: SessionClock, now: Instant, tick: bool) -> bool {
    &&& o.tells@.len() == 0
    &&& o.timer_aborts@.len() == 0
    &&& o.transitions@.len() == 0
    &&& o.executions@.len() == 0
    &&& o.diagnostics@.len() == if tick { 1int } else { 0int }
    &&& tick ==> spec_twin_diagnostic(o.diagnostics@[0], clock, DiagnosticLevel::Info, DiagnosticKindView::TimerTick, now)
}

/// `b1`/`o1` is `b0`/`o0` with only the queue (and for tells and aborts, the output) possibly
/// changed.
pub open spec fn spec_same_but_queue(b0: VirtualCarBrain, b1: VirtualCarBrain) -> bool {
    &&& b1.twin_car == b0.twin_car
    &&& b1.next_turn_id == b0.next_turn_id
    &&& b1.next_record_seq == b0.next_record_seq
    &&& b1.session_clock == b0.session_clock
    &&& b1.assembly_topology == b0.assembly_topology
    &&& b1.log_timer_tick == b0.log_timer_tick
}

/// A new turn of `event` arrived at `now`: it takes the next turn identity and is queued at the
/// back, waiting on the zone the event is told to (which is told now), or passing through when
/// the event needs no tell in the twin's current mode.
pub open spec fn spec_began(b0: VirtualCarBrain, b1: VirtualCarBrain, o0: BrainOutput, o1: BrainOutput, event: FsmEvent, now: Instant) -> bool {
    let t = b0.next_turn_id;
    let q0 = b0.barrier_queue@;
    let q1 = b1.barrier_queue@;
    &&& b1.twin_car == b0.twin_car
    &&& b1.next_record_seq == b0.next_record_seq
    &&& b1.session_clock == b0.session_clock
    &&& b1.assembly_topology == b0.assembly_topology
    &&& b1.log_timer_tick == b0.log_timer_tick
    &&& b1.next_turn_id == spec_sat(t, 1)
    &&& q1.len() == q0.len() + 1
    &&& q1.subrange(0, q0.len() as int) == q0
    &&& o1.timer_aborts == o0.timer_aborts
    &&& o1.transitions == o0.transitions
    &&& o1.diagnostics == o0.diagnostics
    &&& o1.executions == o0.executions
    &&& match spec_zone_message_for_event(event, b0.twin_car.spec_state()) {
        Some((z, m)) => {
            &&& q1.last() matches BarrierEntry::Waiting(b) && {
                &&& b@.turn_id == t
                &&& b@.event == event
                &&& b@.now == now
                &&& b@.pending == set![z]
                &&& b@.waits == map![z => TellBackWait { turn_id: t, tell_attempt: 0, retries_remaining: crate::twin_runtime::constants::ZONE_TELL_BACK_MAX_RETRIES }]
                &&& b@.replies == Map::<AssemblyId, ZoneReply>::empty()
                &&& b@.messages == map![z => m]
            }
            &&& o1.tells@ == o0.tells@.push(ZoneTell { zone_id: z, message: m, turn_id: t, tell_attempt: 0, now })
        },
        None => {
            &&& q1.last() == BarrierEntry::Passthrough(PassthroughBarrier { turn_id: t, event, now })
            &&& o1.tells == o0.tells
        },
    }
}

/// `i` is the first position of turn `t` in the queue.
pub open spec fn spec_index_of_turn(q: Seq<BarrierEntry>, t: u64, i: int) -> bool {
    &&& 0 <= i < q.len()
    &&& q[i].spec_turn_id() == t
    &&& forall|j: int| 0 <= j < i ==> (#[trigger] q[j]).spec_turn_id() != t
}

/// The waiting barrier of turn `t` still awaits `zone`, at attempt `attempt`.
pub open spec fn spec_awaits(q: Seq<BarrierEntry>, zone: AssemblyId, t: u64, attempt: u32) -> bool {
    exists|i: int| #[trigger] spec_index_of_turn(q, t, i) && (q[i] matches BarrierEntry::Waiting(b)
        && b@.pending.contains(zone) && b@.waits.contains_key(zone) && b@.waits[zone].tell_attempt == attempt)
}

/// The position of the barrier of turn `t`.
pub open spec fn spec_turn_position(q: Seq<BarrierEntry>, t: u64) -> int {
    choose|i: int| spec_index_of_turn(q, t, i)
}

/// The waiting barrier at position `i`, as a view.
pub open spec fn spec_waiting_at(q: Seq<BarrierEntry>, i: int) -> crate::twin_runtime::turn_barrier::TurnBarrierView {
    match q[i] {
        BarrierEntry::Waiting(b) => b@,
        BarrierEntry::Passthrough(_) => arbitrary(),
    }
}

/// `q1` is `q0` with the waiting barrier at `i` replaced by one whose view differs only in
/// `pending`, `waits` and `replies`, which become the given values.
pub open spec fn spec_barrier_replaced(
    q0: Seq<BarrierEntry>,
    q1: Seq<BarrierEntry>,
    i: int,
    pending: Set<AssemblyId>,
    waits: Map<AssemblyId, TellBackWait>,
    replies: Map<AssemblyId, ZoneReply>,
) -> bool {
    let b0 = spec_waiting_at(q0, i);
    &&& q1.len() == q0.len()
    &&& forall|j: int| 0 <= j < q0.len() && j != i ==> #[trigger] q1[j] == q0[j]
    &&& q1[i] matches BarrierEntry::Waiting(b1) && {
        &&& b1@.turn_id == b0.turn_id
        &&& b1@.event == b0.event
        &&& b1@.now == b0.now
        &&& b1@.pending == pending
        &&& b1@.waits == waits
        &&& b1@.replies == replies
        &&& b1@.messages == b0.messages
    }
}

/// A tell-back from `zone` for turn `t`, attempt `attempt`, was handled: when the barrier of
/// the turn still awaits the zone at exactly that attempt and the reply is the zone's kind, the
/// zone's slot closes with the reply and its timer is aborted; anything else (an unknown or
/// passthrough turn, a zone whose reply was already accepted, a stale attempt, a reply of the
/// wrong kind) changes nothing.
pub open spec fn spec_reply_handled(
    b0: VirtualCarBrain,
    b1: VirtualCarBrain,
    o0: BrainOutput,
    o1: BrainOutput,
    zone: AssemblyId,
    t: u64,
    attempt: u32,
    reply: ZoneReply,
) -> bool {
    let q0 = b0.barrier_queue@;
    &&& spec_same_but_queue(b0, b1)
    &&& o1.tells == o0.tells
    &&& o1.transitions == o0.transitions
    &&& o1.diagnostics == o0.diagnostics
    &&& o1.executions == o0.executions
    &&& if spec_awaits(q0, zone, t, attempt) && crate::digital_twin::spec_reply_assembly(reply) == zone {
        let i = spec_turn_position(q0, t);
        let b = spec_waiting_at(q0, i);
        &&& spec_barrier_replaced(q0, b1.barrier_queue@, i, b.pending.remove(zone), b.waits, b.replies.insert(zone, reply))
        &&& o1.timer_aborts@ == o0.timer_aborts@.push(TimerAbort { zone_id: zone, turn_id: t })
    } else {
        &&& b1.barrier_queue@ == q0
        &&& o1.timer_aborts == o0.timer_aborts
    }
}

impl VirtualCarBrain {
    /// Queue a new turn of `event`, telling its zone if it has one in the current mode.
    pub fn begin_fsm_turn(&mut self, event: FsmEvent, now: Instant, out: &mut BrainOutput)
        ensures
            spec_began(*old(self), *final(self), *old(out), *final(out), event, now),
    {
        let turn_id = self.alloc_turn_id();
        let ghost q0 = self.barrier_queue@;
        match zone_message_for_event(&event, self.twin_car.current_state()) {
            Some((zone_id, message)) => {
                let wait = TellBackWait::new(turn_id);
                out.tells.push(ZoneTell { zone_id, message, turn_id, tell_attempt: 0, now });
                let mut barrier = TurnBarrier::new(turn_id, event, now);
                barrier.add_pending_zone(zone_id, message, wait);
                proof {
                    assert(barrier@.pending =~= set![zone_id]);
                    assert(barrier@.waits =~= map![zone_id => wait]);
                    assert(barrier@.messages =~= map![zone_id => message]);
                }
                self.barrier_queue.push(BarrierEntry::Waiting(barrier));
            },
            None => {
                self.barrier_queue.push(BarrierEntry::Passthrough(PassthroughBarrier::new(turn_id, event, now)));
            },
        }
        proof {
            assert(self.barrier_queue@.subrange(0, q0.len() as int) =~= q0);
        }
    }

    /// The position of the barrier of turn `turn_id`, if queued.
    fn find_turn(&self, turn_id: u64) -> (r: Option<usize>)
        ensures
            r matches Some(i) ==> spec_index_of_turn(self.barrier_queue@, turn_id, i as int),
            r is None ==> forall|j: int| 0 <= j < self.barrier_queue@.len() ==> (#[trigger] self.barrier_queue@[j]).spec_turn_id() != turn_id,
    {
        let mut i: usize = 0;
        while i < self.barrier_queue.len()
            invariant
                i <= self.barrier_queue@.len(),
                forall|j: int| 0 <= j < i ==> (#[trigger] self.barrier_queue@[j]).spec_turn_id() != turn_id,
            decreases self.barrier_queue@.len() - i,
        {
            if self.barrier_queue[i].turn_id() == turn_id {
                return Some(i);
            }
            i = i + 1;
        }
        None
    }

    /// Take a tell-back into the barrier of its turn (without draining).
    fn accept_zone_reply(
        &mut self,
        zone_id: AssemblyId,
        turn_id: u64,
        tell_attempt: u32,
        reply: ZoneReply,
        out: &mut BrainOutput,
    )
        ensures
            spec_reply_handled(*old(self), *final(self), *old(out), *final(out), zone_id, turn_id, tell_attempt, reply),
    {
        let ghost q0 = self.barrier_queue@;
        let idx = match self.find_turn(turn_id) {
            Some(i) => i,
            None => {
                proof {
                    assert(!spec_awaits(q0, zone_id, turn_id, tell_attempt));
                }
                return;
            },
        };
        proof {
            assert forall|i: int| spec_index_of_turn(q0, turn_id, i) implies i == idx by {
                if i < idx {
                    assert(q0[i].spec_turn_id() != turn_id);
                } else if i > idx {
                    assert(q0[idx as int].spec_turn_id() != turn_id);
                }
            }
        }
        let accepted = match &self.barrier_queue[idx] {
            BarrierEntry::Waiting(b) => b.is_pending(zone_id) && b.tell_attempt_matches(zone_id, tell_attempt)
                && reply.matches_assembly(zone_id),
            BarrierEntry::Passthrough(_) => false,
        };
        if !accepted {
            proof {
                if spec_awaits(q0, zone_id, turn_id, tell_attempt) {
                    let i = choose|i: int| #[trigger] spec_index_of_turn(q0, turn_id, i) && (q0[i] matches BarrierEntry::Waiting(b)
                        && b@.pending.contains(zone_id) && b@.waits.contains_key(zone_id) && b@.waits[zone_id].tell_attempt == tell_attempt);
                    assert(i == idx);
                }
            }
            return;
        }
        let entry = self.barrier_queue.remove(idx);
        let ghost mid = self.barrier_queue@;
        match entry {
            BarrierEntry::Waiting(mut barrier) => {
                barrier.act_on_zone_reply(zone_id, reply);
                self.barrier_queue.insert(idx, BarrierEntry::Waiting(barrier));
                out.timer_aborts.push(TimerAbort { zone_id, turn_id });
            },
            BarrierEntry::Passthrough(p) => {
                self.barrier_queue.insert(idx, BarrierEntry::Passthrough(p));
            },
        }
        proof {
            assert(spec_index_of_turn(q0, turn_id, idx as int));
            assert(spec_awaits(q0, zone_id, turn_id, tell_attempt));
            assert(spec_turn_position(q0, turn_id) == idx);
            assert forall|j: int| 0 <= j < q0.len() && j != idx implies #[trigger] self.barrier_queue@[j] == q0[j] by {
                if j < idx {
                    assert(mid[j] == q0[j]);
                } else {
                    assert(mid[j - 1] == q0[j]);
                }
            }
        }
    }

    /// A zone told back: take the reply into its turn, then commit what became complete.
    pub fn on_zone_ready(
        &mut self,
        zone_id: AssemblyId,
        turn_id: u64,
        tell_attempt: u32,
        reply: ZoneReply,
        now: Instant,
    ) -> (out: BrainOutput)
        ensures
            exists|o0: BrainOutput, mid: VirtualCarBrain, o_mid: BrainOutput| {
                &&& spec_output_empty(o0)
                &&& #[trigger] spec_reply_handled(*old(self), mid, o0, o_mid, zone_id, turn_id, tell_attempt, reply)
                &&& spec_drained(mid, *final(self), o_mid, out, now)
            },
    {
        let mut out = BrainOutput::new();
        let ghost o0 = out;
        self.accept_zone_reply(zone_id, turn_id, tell_attempt, reply, &mut out);
        let ghost mid = *self;
        let ghost o_mid = out;
        self.try_drain_barrier_queue(now, &mut out);
        proof {
            assert(spec_output_empty(o0));
            assert(spec_reply_handled(*old(self), mid, o0, o_mid, zone_id, turn_id, tell_attempt, reply));
            assert(spec_drained(mid, *self, o_mid, out, now));
        }
        out
    }
}

/// A tell-back timer for `zone`, turn `t`, attempt `attempt` fired: when the barrier of the turn
/// still awaits the zone at exactly that attempt, either the zone is told its message again as the next attempt
/// (while budget remains), or the slot closes with the synthetic reply for the twin's current
/// context; anything else (in particular a timer of a zone whose reply was already accepted)
/// changes nothing.
pub open spec fn spec_timeout_handled(
    b0: VirtualCarBrain,
    b1: VirtualCarBrain,
    o0: BrainOutput,
    o1: BrainOutput,
    zone: AssemblyId,
    t: u64,
    attempt: u32,
) -> bool {
    let q0 = b0.barrier_queue@;
    &&& spec_same_but_queue(b0, b1)
    &&& o1.timer_aborts == o0.timer_aborts
    &&& o1.transitions == o0.transitions
    &&& o1.diagnostics == o0.diagnostics
    &&& o1.executions == o0.executions
    &&& if spec_awaits(q0, zone, t, attempt) {
        let i = spec_turn_position(q0, t);
        let b = spec_waiting_at(q0, i);
        let w = b.waits[zone];
        if w.retries_remaining > 0 {
            let next = crate::twin_runtime::turn_barrier::spec_advanced_wait(w);
            &&& spec_barrier_replaced(q0, b1.barrier_queue@, i, b.pending, b.waits.insert(zone, next), b.replies)
            &&& o1.tells@ == o0.tells@.push(
                ZoneTell { zone_id: zone, message: b.messages[zone], turn_id: t, tell_attempt: next.tell_attempt, now: b.now },
            )
        } else {
            &&& exists|r: ZoneReply| {
                &&& #[trigger] crate::twin_runtime::zone_tell_back::spec_synthetic_reply(b0.twin_car.spec_context(), zone, r)
                &&& spec_barrier_replaced(q0, b1.barrier_queue@, i, b.pending.remove(zone), b.waits, b.replies.insert(zone, r))
            }
            &&& o1.tells == o0.tells
        }
    } else {
        &&& b1.barrier_queue@ == q0
        &&& o1.tells == o0.tells
    }
}

/// The turn a zone-initiated event commits: an unconfirmed headlamp switch with the zone's
/// reply, or the FLCM's silence verdict riding an FLCM readiness hop.
pub open spec fn spec_spontaneous_turn(event: ZoneSpontaneousEvent) -> (FsmEvent, Map<AssemblyId, ZoneReply>) {
    match event {
        ZoneSpontaneousEvent::Headlamp { direction, cause, reply } => (
            FsmEvent::FrontHeadlampActuationIncomplete { direction, cause },
            Map::<AssemblyId, ZoneReply>::empty().insert(AssemblyId::Headlamp, ZoneReply::Headlamp(reply)),
        ),
        ZoneSpontaneousEvent::Flcm { reply } => (
            FsmEvent::AssemblyZoneReady(AssemblyId::Flcm),
            Map::<AssemblyId, ZoneReply>::empty().insert(AssemblyId::Flcm, ZoneReply::Flcm(reply)),
        ),
    }
}

impl VirtualCarBrain {
    /// A twin named `identity` (refused when blank), off, with a default context and an empty
    /// queue; turns and records are numbered from 1.
    pub fn new(
        identity: &str,
        session_clock: SessionClock,
        assembly_topology: AssemblyTopology,
        log_timer_tick: bool,
    ) -> (r: Result<VirtualCarBrain, crate::digital_twin::DigitalTwinCarError>)
        ensures
            r is Err <==> crate::digital_twin::spec_is_blank(identity@),
            r matches Ok(b) ==> {
                &&& crate::digital_twin::spec_is_trim_of(b.twin_car.spec_identity(), identity@)
                &&& b.twin_car.spec_state() == FsmState::Off
                &&& b.twin_car.spec_context() == crate::vehicle_state::spec_vehicle_default()
                &&& b.next_turn_id == 1
                &&& b.barrier_queue@.len() == 0
                &&& b.next_record_seq == 1
                &&& b.session_clock == session_clock
                &&& b.assembly_topology == assembly_topology
                &&& b.log_timer_tick == log_timer_tick
            },
    {
        let twin_car = match DigitalTwinCar::new(identity, FsmState::Off, crate::vehicle_state::VehicleContext::default()) {
            Ok(car) => car,
            Err(e) => {
                return Err(e);
            },
        };
        Ok(VirtualCarBrain {
            twin_car,
            next_turn_id: 1,
            barrier_queue: Vec::new(),
            next_record_seq: 1,
            session_clock,
            assembly_topology,
            log_timer_tick,
        })
    }

    /// An as-of snapshot of the twin, stamped with the sequence of the last published record
    /// (`0` before any).
    pub fn snapshot(&self) -> (s: CarSnapshot)
        ensures
            s.spec_car().spec_identity() == self.twin_car.spec_identity(),
            s.spec_car().spec_state() == self.twin_car.spec_state(),
            s.spec_car().spec_context() == self.twin_car.spec_context(),
            s.spec_as_of_seq() == if self.next_record_seq == 0 { 0 } else { (self.next_record_seq - 1) as u64 },
    {
        CarSnapshot::new(self.twin_car.duplicate(), self.next_record_seq.saturating_sub(1))
    }

    /// An FSM event arrived at `now`. Dropped events change nothing; otherwise (after the
    /// timer-tick diagnostic, when enabled) the event opens a turn at the back of the queue and
    /// whatever is complete at the front commits.
    pub fn on_fsm_event(&mut self, event: FsmEvent, now: Instant) -> (out: BrainOutput)
        ensures
            spec_event_dropped(old(self).assembly_topology, old(self).twin_car.spec_state(), event) ==> *final(self)
                == *old(self) && spec_output_empty(out),
            !spec_event_dropped(old(self).assembly_topology, old(self).twin_car.spec_state(), event) ==> exists|
                o0: BrainOutput,
                mid: VirtualCarBrain,
                o_mid: BrainOutput,
            | {
                &&& spec_tick_output(o0, old(self).session_clock, now, event is TimerTick && old(self).log_timer_tick)
                &&& #[trigger] spec_began(*old(self), mid, o0, o_mid, event, now)
                &&& spec_drained(mid, *final(self), o_mid, out, now)
            },
    {
        let mut out = BrainOutput::new();
        let observed_only = matches!(self.assembly_topology, AssemblyTopology::ObservedEcus);
        let lamp_or_rain = matches!(
            event,
            FsmEvent::UpdateAmbientLux(_) | FsmEvent::FrontHeadlampOnAck | FsmEvent::FrontHeadlampOffAck
                | FsmEvent::FrontHeadlampActuationIncomplete { .. } | FsmEvent::RainsStarted | FsmEvent::RainsStopped
        );
        if observed_only && lamp_or_rain {
            return out;
        }
        let state = self.twin_car.current_state();
        if matches!(state, FsmState::Off) && !matches!(event, FsmEvent::PowerOn) {
            return out;
        }
        if matches!(event, FsmEvent::HazardButtonChanged(_)) && matches!(
            state,
            FsmState::PreparingToStart(_) | FsmState::PreparingToStop(_)
        ) {
            return out;
        }
        if matches!(event, FsmEvent::TimerTick) && self.log_timer_tick {
            out.diagnostics.push(diag_timer_tick(&self.session_clock, &now));
        }
        let ghost o0 = out;
        self.begin_fsm_turn(event, now, &mut out);
        let ghost mid = *self;
        let ghost o_mid = out;
        self.try_drain_barrier_queue(now, &mut out);
        proof {
            assert(spec_tick_output(o0, old(self).session_clock, now, event is TimerTick && old(self).log_timer_tick));
            assert(spec_began(*old(self), mid, o0, o_mid, event, now));
        }
        out
    }

    /// Handle a fired tell-back timer (without draining).
    fn handle_zone_timeout(&mut self, zone_id: AssemblyId, turn_id: u64, tell_attempt: u32, out: &mut BrainOutput)
        ensures
            spec_timeout_handled(*old(self), *final(self), *old(out), *final(out), zone_id, turn_id, tell_attempt),
    {
        let ghost q0 = self.barrier_queue@;
        let idx = match self.find_turn(turn_id) {
            Some(i) => i,
            None => {
                proof {
                    assert(!spec_awaits(q0, zone_id, turn_id, tell_attempt));
                }
                return;
            },
        };
        proof {
            assert forall|i: int| spec_index_of_turn(q0, turn_id, i) implies i == idx by {
                if i < idx {
                    assert(q0[i].spec_turn_id() != turn_id);
                } else if i > idx {
                    assert(q0[idx as int].spec_turn_id() != turn_id);
                }
            }
        }
        let awaited = match &self.barrier_queue[idx] {
            BarrierEntry::Waiting(b) => b.is_pending(zone_id) && b.tell_attempt_matches(zone_id, tell_attempt),
            BarrierEntry::Passthrough(_) => false,
        };
        if !awaited {
            proof {
                if spec_awaits(q0, zone_id, turn_id, tell_attempt) {
                    let i = choose|i: int| #[trigger] spec_index_of_turn(q0, turn_id, i) && (q0[i] matches BarrierEntry::Waiting(b)
                        && b@.pending.contains(zone_id) && b@.waits.contains_key(zone_id) && b@.waits[zone_id].tell_attempt == tell_attempt);
                    assert(i == idx);
                }
            }
            return;
        }
        proof {
            assert(spec_index_of_turn(q0, turn_id, idx as int));
            assert(spec_awaits(q0, zone_id, turn_id, tell_attempt));
            assert(spec_turn_position(q0, turn_id) == idx);
        }
        let entry = self.barrier_queue.remove(idx);
        let ghost mid = self.barrier_queue@;
        match entry {
            BarrierEntry::Waiting(mut barrier) => {
                let outcome = barrier.act_on_zone_timeout(zone_id, tell_attempt);
                match outcome {
                    TimeoutOutcome::Retry { next_attempt } => {
                        match barrier.zone_message(zone_id) {
                            Some(message) => {
                                out.tells.push(ZoneTell {
                                    zone_id,
                                    message,
                                    turn_id,
                                    tell_attempt: next_attempt,
                                    now: barrier.now(),
                                });
                            },
                            None => {},
                        }
                    },
                    TimeoutOutcome::GaveUp => {
                        let synthetic = synthetic_reply_for(self.twin_car.context(), zone_id);
                        barrier.act_on_zone_reply(zone_id, synthetic);
                    },
                    TimeoutOutcome::Ignored => {},
                }
                self.barrier_queue.insert(idx, BarrierEntry::Waiting(barrier));
            },
            BarrierEntry::Passthrough(p) => {
                self.barrier_queue.insert(idx, BarrierEntry::Passthrough(p));
            },
        }
        proof {
            assert forall|j: int| 0 <= j < q0.len() && j != idx implies #[trigger] self.barrier_queue@[j] == q0[j] by {
                if j < idx {
                    assert(mid[j] == q0[j]);
                } else {
                    assert(mid[j - 1] == q0[j]);
                }
            }
        }
    }

    /// A tell-back timer fired: re-tell or give up on the zone, then commit what became
    /// complete.
    pub fn on_zone_timeout(&mut self, zone_id: AssemblyId, turn_id: u64, tell_attempt: u32, now: Instant) -> (out: BrainOutput)
        ensures
            exists|o0: BrainOutput, mid: VirtualCarBrain, o_mid: BrainOutput| {
                &&& spec_output_empty(o0)
                &&& #[trigger] spec_timeout_handled(*old(self), mid, o0, o_mid, zone_id, turn_id, tell_attempt)
                &&& spec_drained(mid, *final(self), o_mid, out, now)
            },
    {
        let mut out = BrainOutput::new();
        let ghost o0 = out;
        self.handle_zone_timeout(zone_id, turn_id, tell_attempt, &mut out);
        let ghost mid = *self;
        let ghost o_mid = out;
        self.try_drain_barrier_queue(now, &mut out);
        proof {
            assert(spec_output_empty(o0));
            assert(spec_timeout_handled(*old(self), mid, o0, o_mid, zone_id, turn_id, tell_attempt));
        }
        out
    }

    /// A zone-initiated event: committed at once as its own turn (it belongs to no queued turn),
    /// then whatever is complete at the front of the queue commits.
    pub fn on_zone_spontaneous(&mut self, event: ZoneSpontaneousEvent, now: Instant) -> (out: BrainOutput)
        ensures
            exists|o0: BrainOutput, hops: Seq<HopRecord>, mid: VirtualCarBrain, o_mid: BrainOutput| {
                &&& spec_output_empty(o0)
                &&& spec_quiescent(
                    old(self).twin_car.spec_state(),
                    old(self).twin_car.spec_context(),
                    spec_spontaneous_turn(event).0,
                    now,
                    spec_spontaneous_turn(event).1,
                    old(self).assembly_topology,
                    hops,
                )
                &&& #[trigger] spec_committed(*old(self), old(self).barrier_queue@, mid, o0, o_mid, hops, now)
                &&& spec_drained(mid, *final(self), o_mid, out, now)
            },
    {
        let mut out = BrainOutput::new();
        let ghost o0 = out;
        let ghost turn = spec_spontaneous_turn(event);
        let resolved = match event {
            ZoneSpontaneousEvent::Headlamp { direction, cause, reply } => crate::twin_runtime::twin_turn::ResolvedTurn {
                ingress: FsmEvent::FrontHeadlampActuationIncomplete { direction, cause },
                now,
                zone_replies: ZoneReplies::with_reply(AssemblyId::Headlamp, ZoneReply::Headlamp(reply)),
            },
            ZoneSpontaneousEvent::Flcm { reply } => crate::twin_runtime::twin_turn::ResolvedTurn {
                ingress: FsmEvent::AssemblyZoneReady(AssemblyId::Flcm),
                now,
                zone_replies: ZoneReplies::with_reply(AssemblyId::Flcm, ZoneReply::Flcm(reply)),
            },
        };
        proof {
            assert(resolved.ingress == turn.0);
            assert(resolved.zone_replies@ == turn.1);
        }
        let quiescent = commit_resolved_turn(
            self.twin_car.current_state(),
            self.twin_car.context(),
            resolved,
            self.assembly_topology,
        );
        let ghost hops = quiescent.hops@;
        self.apply_committed_quiescence(quiescent, now, &mut out);
        let ghost mid = *self;
        let ghost o_mid = out;
        self.try_drain_barrier_queue(now, &mut out);
        proof {
            assert(spec_output_empty(o0));
            assert(spec_quiescent(
                old(self).twin_car.spec_state(),
                old(self).twin_car.spec_context(),
                turn.0,
                now,
                turn.1,
                old(self).assembly_topology,
                hops,
            ));
        }
        out
    }
}

/// The brain's mailbox, apart from snapshot requests.
#[derive(Debug, Clone, PartialEq)]
pub enum BrainMessage {
    /// An FSM event arrived.
    Fsm(FsmEvent),
    /// A zone told back after applying one message.
    ZoneReady { zone_id: AssemblyId, turn_id: u64, tell_attempt: u32, reply: ZoneReply },
    /// A zone raised an event of its own.
    ZoneSpontaneous { zone_id: AssemblyId, event: ZoneSpontaneousEvent },
    /// A zone did not tell back in time.
    ZoneTellBackTimeout { zone_id: AssemblyId, turn_id: u64, tell_attempt: u32 },
}

impl BrainMessage {
    /// The inner FSM event, when this message wraps one.
    pub fn as_fsm_event(&self) -> (r: Option<&FsmEvent>)
        ensures
            match *self {
                BrainMessage::Fsm(e) => r == Some(&e),
                _ => r is None,
            },
    {
        match self {
            BrainMessage::Fsm(e) => Some(e),
            _ => None,
        }
    }

    /// Take the inner FSM event, when this message wraps one.
    pub fn into_fsm_event(self) -> (r: Option<FsmEvent>)
        ensures
            match self {
                BrainMessage::Fsm(e) => r == Some(e),
                _ => r is None,
            },
    {
        match self {
            BrainMessage::Fsm(e) => Some(e),
            _ => None,
        }
    }
}

impl VirtualCarBrain {
    /// Handle one mailbox message at `now`.
    pub fn handle(&mut self, message: BrainMessage, now: Instant) -> (out: BrainOutput)
        ensures
            match message {
                BrainMessage::Fsm(event) => {
                    &&& spec_event_dropped(old(self).assembly_topology, old(self).twin_car.spec_state(), event) ==> *final(self)
                        == *old(self) && spec_output_empty(out)
                    &&& !spec_event_dropped(old(self).assembly_topology, old(self).twin_car.spec_state(), event) ==> exists|
                        o0: BrainOutput,
                        mid: VirtualCarBrain,
                        o_mid: BrainOutput,
                    | {
                        &&& spec_tick_output(o0, old(self).session_clock, now, event is TimerTick && old(self).log_timer_tick)
                        &&& #[trigger] spec_began(*old(self), mid, o0, o_mid, event, now)
                        &&& spec_drained(mid, *final(self), o_mid, out, now)
                    }
                },
                BrainMessage::ZoneReady { zone_id, turn_id, tell_attempt, reply } => exists|
                    o0: BrainOutput,
                    mid: VirtualCarBrain,
                    o_mid: BrainOutput,
                | {
                    &&& spec_output_empty(o0)
                    &&& #[trigger] spec_reply_handled(*old(self), mid, o0, o_mid, zone_id, turn_id, tell_attempt, reply)
                    &&& spec_drained(mid, *final(self), o_mid, out, now)
                },
                BrainMessage::ZoneSpontaneous { zone_id: _, event } => exists|
                    o0: BrainOutput,
                    hops: Seq<HopRecord>,
                    mid: VirtualCarBrain,
                    o_mid: BrainOutput,
                | {
                    &&& spec_output_empty(o0)
                    &&& spec_quiescent(
                        old(self).twin_car.spec_state(),
                        old(self).twin_car.spec_context(),
                        spec_spontaneous_turn(event).0,
                        now,
                        spec_spontaneous_turn(event).1,
                        old(self).assembly_topology,
                        hops,
                    )
                    &&& #[trigger] spec_committed(*old(self), old(self).barrier_queue@, mid, o0, o_mid, hops, now)
                    &&& spec_drained(mid, *final(self), o_mid, out, now)
                },
                BrainMessage::ZoneTellBackTimeout { zone_id, turn_id, tell_attempt } => exists|
                    o0: BrainOutput,
                    mid: VirtualCarBrain,
                    o_mid: BrainOutput,
                | {
                    &&& spec_output_empty(o0)
                    &&& #[trigger] spec_timeout_handled(*old(self), mid, o0, o_mid, zone_id, turn_id, tell_attempt)
                    &&& spec_drained(mid, *final(self), o_mid, out, now)
                },
            },
    {
        match message {
            BrainMessage::Fsm(event) => self.on_fsm_event(event, now),
            BrainMessage::ZoneReady { zone_id, turn_id, tell_attempt, reply } => self.on_zone_ready(
                zone_id,
                turn_id,
                tell_attempt,
                reply,
                now,
            ),
            BrainMessage::ZoneSpontaneous { zone_id: _, event } => self.on_zone_spontaneous(event, now),
            BrainMessage::ZoneTellBackTimeout { zone_id, turn_id, tell_attempt } => self.on_zone_timeout(
                zone_id,
                turn_id,
                tell_attempt,
                now,
            ),
        }
    }
}

} // verus!
