//! Operational vocabulary: modes, ledger events and domain actions.
use vstd::prelude::*;

use crate::time::Instant;
use crate::vehicle_state::{FrontHeadlampIncompleteCause, FrontHeadlampSwitchDirection};

verus! {

/// Identity of a managed assembly zone.
#[derive(Debug, Clone, Copy, PartialEq, Eq, Hash, PartialOrd, Ord)]
pub enum AssemblyId {
    Sccm,
    Bcm,
    Flcm,
    Headlamp,
    /// Windshield wiper.
    Wiper,
}

/// The assemblies the brain starts and stops around its lifecycle.
pub open spec fn spec_all_assemblies() -> Seq<AssemblyId> {
    seq![AssemblyId::Bcm]
}

/// The assemblies the brain starts and stops around its lifecycle.
pub fn all_assemblies() -> (v: Vec<AssemblyId>)
    ensures
        v@ == spec_all_assemblies(),
{
    let mut v: Vec<AssemblyId> = Vec::new();
    v.push(AssemblyId::Bcm);
    proof {
        assert(v@ =~= spec_all_assemblies());
    }
    v
}

/// A set of assemblies, one membership bit per assembly.
#[derive(Debug, Clone, Copy, PartialEq, Eq, Hash, Default)]
pub struct AssemblySet {
    sccm: bool,
    bcm: bool,
    flcm: bool,
    headlamp: bool,
    wiper: bool,
}

impl View for AssemblySet {
    type V = Set<AssemblyId>;

    closed spec fn view(&self) -> Set<AssemblyId> {
        Set::new(|id: AssemblyId| self.spec_contains(id))
    }
}

impl AssemblySet {
    closed spec fn spec_contains(self, id: AssemblyId) -> bool {
        match id {
            AssemblyId::Sccm => self.sccm,
            AssemblyId::Bcm => self.bcm,
            AssemblyId::Flcm => self.flcm,
            AssemblyId::Headlamp => self.headlamp,
            AssemblyId::Wiper => self.wiper,
        }
    }

    /// Two sets with the same members are the same value.
    pub proof fn lemma_view_injective(a: AssemblySet, b: AssemblySet)
        requires
            a@ == b@,
        ensures
            a == b,
    {
        assert(a.sccm == a@.contains(AssemblyId::Sccm));
        assert(b.sccm == b@.contains(AssemblyId::Sccm));
        assert(a.bcm == a@.contains(AssemblyId::Bcm));
        assert(b.bcm == b@.contains(AssemblyId::Bcm));
        assert(a.flcm == a@.contains(AssemblyId::Flcm));
        assert(b.flcm == b@.contains(AssemblyId::Flcm));
        assert(a.headlamp == a@.contains(AssemblyId::Headlamp));
        assert(b.headlamp == b@.contains(AssemblyId::Headlamp));
        assert(a.wiper == a@.contains(AssemblyId::Wiper));
        assert(b.wiper == b@.contains(AssemblyId::Wiper));
    }

    /// The empty set.
    pub fn new() -> (s: AssemblySet)
        ensures
            s@ == Set::<AssemblyId>::empty(),
    {
        let s = AssemblySet { sccm: false, bcm: false, flcm: false, headlamp: false, wiper: false };
        proof {
            assert(s@ =~= Set::<AssemblyId>::empty());
        }
        s
    }

    /// Whether `id` is a member.
    pub fn contains(&self, id: AssemblyId) -> (b: bool)
        ensures
            b == self@.contains(id),
    {
        match id {
            AssemblyId::Sccm => self.sccm,
            AssemblyId::Bcm => self.bcm,
            AssemblyId::Flcm => self.flcm,
            AssemblyId::Headlamp => self.headlamp,
            AssemblyId::Wiper => self.wiper,
        }
    }

    /// Whether the set has no member.
    pub fn is_empty(&self) -> (b: bool)
        ensures
            b == (self@ == Set::<AssemblyId>::empty()),
    {
        let b = !self.sccm && !self.bcm && !self.flcm && !self.headlamp && !self.wiper;
        proof {
            if b {
                assert(self@ =~= Set::<AssemblyId>::empty());
            } else {
                if self.sccm {
                    assert(self@.contains(AssemblyId::Sccm));
                } else if self.bcm {
                    assert(self@.contains(AssemblyId::Bcm));
                } else if self.flcm {
                    assert(self@.contains(AssemblyId::Flcm));
                } else if self.headlamp {
                    assert(self@.contains(AssemblyId::Headlamp));
                } else {
                    assert(self@.contains(AssemblyId::Wiper));
                }
            }
        }
        b
    }

    /// The number of members.
    pub fn len(&self) -> (n: usize)
        ensures
            self@.finite(),
            n == self@.len(),
    {
        let mut n: usize = 0;
        let ghost mut s = Set::<AssemblyId>::empty();
        if self.sccm {
            n = n + 1;
            proof {
                s = s.insert(AssemblyId::Sccm);
            }
        }
        if self.bcm {
            proof {
                assert(!s.contains(AssemblyId::Bcm));
            }
            n = n + 1;
            proof {
                s = s.insert(AssemblyId::Bcm);
            }
        }
        if self.flcm {
            proof {
                assert(!s.contains(AssemblyId::Flcm));
            }
            n = n + 1;
            proof {
                s = s.insert(AssemblyId::Flcm);
            }
        }
        if self.headlamp {
            proof {
                assert(!s.contains(AssemblyId::Headlamp));
            }
            n = n + 1;
            proof {
                s = s.insert(AssemblyId::Headlamp);
            }
        }
        if self.wiper {
            proof {
                assert(!s.contains(AssemblyId::Wiper));
            }
            n = n + 1;
            proof {
                s = s.insert(AssemblyId::Wiper);
            }
        }
        proof {
            assert(s =~= self@);
        }
        n
    }

    /// Add `id`.
    pub fn insert(&mut self, id: AssemblyId)
        ensures
            final(self)@ == old(self)@.insert(id),
    {
        match id {
            AssemblyId::Sccm => self.sccm = true,
            AssemblyId::Bcm => self.bcm = true,
            AssemblyId::Flcm => self.flcm = true,
            AssemblyId::Headlamp => self.headlamp = true,
            AssemblyId::Wiper => self.wiper = true,
        }
        proof {
            assert(self@ =~= old(self)@.insert(id));
        }
    }

    /// This set without `id`.
    pub closed spec fn without(self, id: AssemblyId) -> AssemblySet {
        match id {
            AssemblyId::Sccm => AssemblySet { sccm: false, ..self },
            AssemblyId::Bcm => AssemblySet { bcm: false, ..self },
            AssemblyId::Flcm => AssemblySet { flcm: false, ..self },
            AssemblyId::Headlamp => AssemblySet { headlamp: false, ..self },
            AssemblyId::Wiper => AssemblySet { wiper: false, ..self },
        }
    }

    /// Removing a member removes it from the view.
    pub broadcast proof fn lemma_without_view(s: AssemblySet, id: AssemblyId)
        ensures
            #[trigger] s.without(id)@ == s@.remove(id),
    {
        assert(s.without(id)@ =~= s@.remove(id));
    }

    /// The assemblies the brain starts and stops around its lifecycle, as a set.
    pub closed spec fn spec_lifecycle_set() -> AssemblySet {
        AssemblySet { sccm: false, bcm: true, flcm: false, headlamp: false, wiper: false }
    }

    /// The lifecycle set holds exactly the listed lifecycle assemblies.
    pub broadcast proof fn lemma_lifecycle_set_view()
        ensures
            #[trigger] AssemblySet::spec_lifecycle_set()@ == spec_all_assemblies().to_set(),
    {
        let s = AssemblySet::spec_lifecycle_set();
        assert forall|id: AssemblyId| s@.contains(id) <==> spec_all_assemblies().to_set().contains(id) by {
            if spec_all_assemblies().contains(id) {
                assert(spec_all_assemblies()[0] == id);
            }
            if id == AssemblyId::Bcm {
                assert(spec_all_assemblies()[0] == id);
            }
        }
        assert(s@ =~= spec_all_assemblies().to_set());
    }

    /// The assemblies the brain starts and stops around its lifecycle, as a set.
    pub fn lifecycle_set() -> (s: AssemblySet)
        ensures
            s == AssemblySet::spec_lifecycle_set(),
    {
        AssemblySet { sccm: false, bcm: true, flcm: false, headlamp: false, wiper: false }
    }

    /// Remove `id`.
    pub fn remove(&mut self, id: AssemblyId)
        ensures
            *final(self) == old(self).without(id),
            final(self)@ == old(self)@.remove(id),
        no_unwind
    {
        match id {
            AssemblyId::Sccm => self.sccm = false,
            AssemblyId::Bcm => self.bcm = false,
            AssemblyId::Flcm => self.flcm = false,
            AssemblyId::Headlamp => self.headlamp = false,
            AssemblyId::Wiper => self.wiper = false,
        }
        proof {
            assert(self@ =~= old(self)@.remove(id));
        }
    }

    /// This set with `id` added.
    pub fn with(&self, id: AssemblyId) -> (s: AssemblySet)
        ensures
            s@ == self@.insert(id),
    {
        let mut s = *self;
        s.insert(id);
        s
    }

    /// The set of the listed assemblies.
    pub fn from_ids(ids: &Vec<AssemblyId>) -> (s: AssemblySet)
        ensures
            s@ == ids@.to_set(),
    {
        let mut s = AssemblySet::new();
        let mut i: usize = 0;
        while i < ids.len()
            invariant
                i <= ids.len(),
                s@ == ids@.take(i as int).to_set(),
            decreases ids.len() - i,
        {
            proof {
                assert(ids@.take(i + 1) =~= ids@.take(i as int).push(ids@[i as int]));
                ids@.take(i as int).lemma_push_to_set_commute(ids@[i as int]);
            }
            s.insert(ids[i]);
            i = i + 1;
        }
        proof {
            assert(ids@.take(i as int) =~= ids@);
        }
        s
    }
}

/// The operational mode of the brain.
#[derive(Debug, Clone, Copy, PartialEq, Eq)]
pub enum FsmState {
    Off,
    /// Assemblies are being started; the set holds those that have not yet acknowledged.
    /// When it empties the brain becomes `Idle`.
    PreparingToStart(AssemblySet),
    Idle,
    Driving,
    /// Driving in the dark without confirmed lighting.
    DrivingDangerously,
    /// Speed above 160 km/h (and possibly RPM above 5500), entered at the given instant.
    ExtremeOperationWarning(Instant),
    /// Assemblies are being stopped; the set holds those that have not yet acknowledged.
    /// When it empties the brain is `Off`.
    PreparingToStop(AssemblySet),
}

/// Brain-synthesized facts raised by detectors.
#[derive(Debug, Clone, Copy, PartialEq, Eq)]
pub enum Operational {
    LightingUnsafe,
}

/// Events the brain's FSM consumes.
#[derive(Debug, Clone, Copy, PartialEq, Eq)]
pub enum FsmEvent {
    PowerOn,
    PowerOff,
    UpdateRpm(u16),
    HazardButtonChanged(bool),
    HazardButtonObserved(bool),
    LeftTurnRequestObserved(bool),
    RightTurnRequestObserved(bool),
    /// `true` = lamp OK, `false` = lamp failed.
    LeftLowBeamStatusObserved(bool),
    RightLowBeamStatusObserved(bool),
    UpdateAmbientLux(u16),
    FrontHeadlampOnAck,
    FrontHeadlampOffAck,
    FrontHeadlampActuationIncomplete {
        direction: FrontHeadlampSwitchDirection,
        cause: FrontHeadlampIncompleteCause,
    },
    TimerTick,
    /// Brain-only hop synthesized by a detector.
    Internal(Operational),
    /// An assembly zone acknowledged a start-up or shutdown tell.
    AssemblyZoneReady(AssemblyId),
    RainsStarted,
    RainsStopped,
}

/// What the transition table asks for, before the brain maps it to domain actions.
#[derive(Debug, Clone, PartialEq)]
pub enum FsmAction {
    StartBuzzer,
    StopBuzzer,
    LogWarning(String),
    PublishStateSync,
    StartAssemblies(Vec<AssemblyId>),
    StopAssemblies(Vec<AssemblyId>),
    Nothing,
}

/// Ghost image of an [`FsmAction`].
pub enum FsmActionView {
    StartBuzzer,
    StopBuzzer,
    LogWarning(Seq<char>),
    PublishStateSync,
    StartAssemblies(Seq<AssemblyId>),
    StopAssemblies(Seq<AssemblyId>),
    Nothing,
}

impl DeepView for FsmAction {
    type V = FsmActionView;

    open spec fn deep_view(&self) -> FsmActionView {
        match self {
            FsmAction::StartBuzzer => FsmActionView::StartBuzzer,
            FsmAction::StopBuzzer => FsmActionView::StopBuzzer,
            FsmAction::LogWarning(text) => FsmActionView::LogWarning(text@),
            FsmAction::PublishStateSync => FsmActionView::PublishStateSync,
            FsmAction::StartAssemblies(ids) => FsmActionView::StartAssemblies(ids@),
            FsmAction::StopAssemblies(ids) => FsmActionView::StopAssemblies(ids@),
            FsmAction::Nothing => FsmActionView::Nothing,
        }
    }
}

/// Intents the brain hands to the actuation path and the ledger.
#[derive(Debug, Clone, PartialEq)]
pub enum DomainAction {
    StartBuzzer,
    StopBuzzer,
    PublishStateSync,
    LogWarning(String),
    RequestFrontHeadlampOn,
    RequestFrontHeadlampOff,
    RequestWiperStart,
    RequestWiperStop,
    SetTurnLights { left_on: bool, right_on: bool },
    /// The runtime must start the listed assemblies.
    StartAssemblies(Vec<AssemblyId>),
    /// The runtime must stop the listed assemblies.
    StopAssemblies(Vec<AssemblyId>),
}

/// Ghost image of a [`DomainAction`].
pub enum DomainActionView {
    StartBuzzer,
    StopBuzzer,
    PublishStateSync,
    LogWarning(Seq<char>),
    RequestFrontHeadlampOn,
    RequestFrontHeadlampOff,
    RequestWiperStart,
    RequestWiperStop,
    SetTurnLights { left_on: bool, right_on: bool },
    StartAssemblies(Seq<AssemblyId>),
    StopAssemblies(Seq<AssemblyId>),
}

impl DeepView for DomainAction {
    type V = DomainActionView;

    open spec fn deep_view(&self) -> DomainActionView {
        match self {
            DomainAction::StartBuzzer => DomainActionView::StartBuzzer,
            DomainAction::StopBuzzer => DomainActionView::StopBuzzer,
            DomainAction::PublishStateSync => DomainActionView::PublishStateSync,
            DomainAction::LogWarning(text) => DomainActionView::LogWarning(text@),
            DomainAction::RequestFrontHeadlampOn => DomainActionView::RequestFrontHeadlampOn,
            DomainAction::RequestFrontHeadlampOff => DomainActionView::RequestFrontHeadlampOff,
            DomainAction::RequestWiperStart => DomainActionView::RequestWiperStart,
            DomainAction::RequestWiperStop => DomainActionView::RequestWiperStop,
            DomainAction::SetTurnLights { left_on, right_on } => DomainActionView::SetTurnLights {
                left_on: *left_on,
                right_on: *right_on,
            },
            DomainAction::StartAssemblies(ids) => DomainActionView::StartAssemblies(ids@),
            DomainAction::StopAssemblies(ids) => DomainActionView::StopAssemblies(ids@),
        }
    }
}

/// A copy of a list of assembly identities.
pub fn copy_ids(ids: &Vec<AssemblyId>) -> (r: Vec<AssemblyId>)
    ensures
        r@ == ids@,
{
    let mut r: Vec<AssemblyId> = Vec::new();
    let mut i: usize = 0;
    while i < ids.len()
        invariant
            i <= ids.len(),
            r@ == ids@.take(i as int),
        decreases ids.len() - i,
    {
        r.push(ids[i]);
        i = i + 1;
        proof {
            assert(r@ =~= ids@.take(i as int));
        }
    }
    proof {
        assert(ids@.take(i as int) =~= ids@);
    }
    r
}

/// A copy of a string with the same characters.
pub fn copy_text(s: &String) -> (r: String)
    ensures
        r@ == s@,
{
    s.clone()
}

impl DomainAction {
    /// An action with the same meaning (same variant, payload and text).
    pub fn duplicate(&self) -> (r: DomainAction)
        ensures
            r.deep_view() == self.deep_view(),
    {
        match self {
            DomainAction::StartBuzzer => DomainAction::StartBuzzer,
            DomainAction::StopBuzzer => DomainAction::StopBuzzer,
            DomainAction::PublishStateSync => DomainAction::PublishStateSync,
            DomainAction::LogWarning(text) => DomainAction::LogWarning(copy_text(text)),
            DomainAction::RequestFrontHeadlampOn => DomainAction::RequestFrontHeadlampOn,
            DomainAction::RequestFrontHeadlampOff => DomainAction::RequestFrontHeadlampOff,
            DomainAction::RequestWiperStart => DomainAction::RequestWiperStart,
            DomainAction::RequestWiperStop => DomainAction::RequestWiperStop,
            DomainAction::SetTurnLights { left_on, right_on } => DomainAction::SetTurnLights {
                left_on: *left_on,
                right_on: *right_on,
            },
            DomainAction::StartAssemblies(ids) => DomainAction::StartAssemblies(copy_ids(ids)),
            DomainAction::StopAssemblies(ids) => DomainAction::StopAssemblies(copy_ids(ids)),
        }
    }

    /// Internal coordination hint for the runtime, never a ledger-visible intent.
    pub open spec fn spec_is_coordination(self) -> bool {
        self is StartAssemblies || self is StopAssemblies
    }

    /// Whether this is a start/stop coordination hint rather than a domain intent.
    pub fn is_coordination(&self) -> (b: bool)
        ensures
            b == self.spec_is_coordination(),
    {
        match self {
            DomainAction::StartAssemblies(_) | DomainAction::StopAssemblies(_) => true,
            _ => false,
        }
    }
}

/// The views of a list of actions.
pub open spec fn actions_view(actions: Seq<DomainAction>) -> Seq<DomainActionView> {
    actions.map_values(|a: DomainAction| a.deep_view())
}

/// A copy of a list of actions with the same meaning.
pub fn duplicate_actions(actions: &Vec<DomainAction>) -> (r: Vec<DomainAction>)
    ensures
        r.deep_view() == actions.deep_view(),
{
    let mut r: Vec<DomainAction> = Vec::new();
    let mut i: usize = 0;
    while i < actions.len()
        invariant
            i <= actions.len(),
            r@.len() == i,
            forall|j: int| 0 <= j < i ==> #[trigger] r@[j].deep_view() == actions@[j].deep_view(),
        decreases actions.len() - i,
    {
        let a = actions[i].duplicate();
        r.push(a);
        i = i + 1;
    }
    proof {
        assert(r.deep_view() =~= actions.deep_view());
    }
    r
}

/// The vehicle state as published on the outward surface: the operational mode without its
/// payload.
#[derive(Debug, Clone, Copy, PartialEq, Eq)]
pub enum VehicleState {
    Off,
    PreparingToStart,
    Idle,
    Driving,
    Critical,
    ExtremeOperationWarning,
    PreparingToStop,
}

/// The published vehicle state of an operational mode.
pub open spec fn spec_vehicle_state(fsm: FsmState) -> VehicleState {
    match fsm {
        FsmState::Off => VehicleState::Off,
        FsmState::PreparingToStart(_) => VehicleState::PreparingToStart,
        FsmState::Idle => VehicleState::Idle,
        FsmState::Driving => VehicleState::Driving,
        FsmState::DrivingDangerously => VehicleState::Critical,
        FsmState::ExtremeOperationWarning(_) => VehicleState::ExtremeOperationWarning,
        FsmState::PreparingToStop(_) => VehicleState::PreparingToStop,
    }
}

impl VehicleState {
    /// The published vehicle state of an operational mode (dangerous driving is `Critical`).
    pub fn from_fsm_state(fsm: &FsmState) -> (s: VehicleState)
        ensures
            s == spec_vehicle_state(*fsm),
    {
        match fsm {
            FsmState::Off => VehicleState::Off,
            FsmState::PreparingToStart(_) => VehicleState::PreparingToStart,
            FsmState::Idle => VehicleState::Idle,
            FsmState::Driving => VehicleState::Driving,
            FsmState::DrivingDangerously => VehicleState::Critical,
            FsmState::ExtremeOperationWarning(_) => VehicleState::ExtremeOperationWarning,
            FsmState::PreparingToStop(_) => VehicleState::PreparingToStop,
        }
    }
}

} // verus!
