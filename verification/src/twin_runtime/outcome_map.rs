//! Zone outcomes become domain actions for the actuation path.
use vstd::prelude::*;

use crate::fsm::{DomainAction, DomainActionView};
use crate::twin_runtime::zone_turn::{ZoneOutcome, ZoneOutcomeView};
use crate::vehicle_state::{
    BcmOutcome, HeadlampOutcome, HeadlampOutcomeView, WiperOutcome, WiperOutcomeView,
};

verus! {

/// The domain action a zone outcome asks for.
pub open spec fn spec_outcome_action(o: ZoneOutcomeView) -> DomainActionView {
    match o {
        ZoneOutcomeView::Bcm(BcmOutcome::TurnLightsChanged { left_on, right_on }) => DomainActionView::SetTurnLights { left_on, right_on },
        ZoneOutcomeView::Headlamp(HeadlampOutcomeView::RequestOn) => DomainActionView::RequestFrontHeadlampOn,
        ZoneOutcomeView::Headlamp(HeadlampOutcomeView::RequestOff) => DomainActionView::RequestFrontHeadlampOff,
        ZoneOutcomeView::Headlamp(HeadlampOutcomeView::LogWarning(text)) => DomainActionView::LogWarning(text),
        ZoneOutcomeView::Wiper(WiperOutcomeView::StartWiping) => DomainActionView::RequestWiperStart,
        ZoneOutcomeView::Wiper(WiperOutcomeView::StopWiping) => DomainActionView::RequestWiperStop,
        ZoneOutcomeView::Wiper(WiperOutcomeView::LogWarning(text)) => DomainActionView::LogWarning(text),
    }
}

/// The domain actions a list of zone outcomes asks for, in order.
pub open spec fn spec_outcome_actions(s: Seq<ZoneOutcomeView>) -> Seq<DomainActionView> {
    s.map_values(|o: ZoneOutcomeView| spec_outcome_action(o))
}

fn outcome_to_domain_action(o: ZoneOutcome) -> (a: DomainAction)
    ensures
        a.deep_view() == spec_outcome_action(o.deep_view()),
{
    match o {
        ZoneOutcome::Bcm(BcmOutcome::TurnLightsChanged { left_on, right_on }) => DomainAction::SetTurnLights { left_on, right_on },
        ZoneOutcome::Headlamp(HeadlampOutcome::RequestOn) => DomainAction::RequestFrontHeadlampOn,
        ZoneOutcome::Headlamp(HeadlampOutcome::RequestOff) => DomainAction::RequestFrontHeadlampOff,
        ZoneOutcome::Headlamp(HeadlampOutcome::LogWarning(msg)) => DomainAction::LogWarning(msg),
        ZoneOutcome::Wiper(WiperOutcome::StartWiping) => DomainAction::RequestWiperStart,
        ZoneOutcome::Wiper(WiperOutcome::StopWiping) => DomainAction::RequestWiperStop,
        ZoneOutcome::Wiper(WiperOutcome::LogWarning(msg)) => DomainAction::LogWarning(msg),
    }
}

/// Map zone outcomes, in order, to the domain actions they ask for: turn-light changes become
/// `SetTurnLights`, headlamp requests become headlamp on/off requests, wiper motion becomes
/// wiper start/stop requests, and zone warnings become `LogWarning`.
pub fn zone_outcomes_to_domain_actions(outcomes: Vec<ZoneOutcome>) -> (actions: Vec<DomainAction>)
    ensures
        actions.deep_view() == spec_outcome_actions(outcomes.deep_view()),
{
    let ghost src = outcomes.deep_view();
    let mut rest = outcomes;
    let mut reversed: Vec<DomainAction> = Vec::new();
    // Take outcomes from the back, then restore the order.
    while rest.len() > 0
        invariant
            rest@.len() <= src.len(),
            rest.deep_view() == src.take(rest@.len() as int),
            reversed@.len() == src.len() - rest@.len(),
            forall|j: int| 0 <= j < reversed@.len() ==> #[trigger] reversed@[j].deep_view() == spec_outcome_action(src[src.len() - 1 - j]),
        decreases rest@.len(),
    {
        let ghost before = rest.deep_view();
        let o = rest.pop().unwrap();
        proof {
            assert(o.deep_view() == before[before.len() - 1]);
            assert(rest.deep_view() =~= before.drop_last());
        }
        reversed.push(outcome_to_domain_action(o));
    }
    let mut actions: Vec<DomainAction> = Vec::new();
    let n = reversed.len();
    while reversed.len() > 0
        invariant
            n == src.len(),
            reversed@.len() + actions@.len() == n,
            forall|j: int| 0 <= j < reversed@.len() ==> #[trigger] reversed@[j].deep_view() == spec_outcome_action(src[n - 1 - j]),
            forall|j: int| 0 <= j < actions@.len() ==> #[trigger] actions@[j].deep_view() == spec_outcome_action(src[j]),
        decreases reversed@.len(),
    {
        let ghost before = reversed@;
        let a = reversed.pop().unwrap();
        proof {
            assert(a == before[before.len() - 1]);
        }
        actions.push(a);
    }
    proof {
        assert(actions.deep_view() =~= spec_outcome_actions(src));
    }
    actions
}

} // verus!
