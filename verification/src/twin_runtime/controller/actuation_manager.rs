//! Which actuation command each domain action becomes, and the correlation identities it
//! draws.
use vstd::prelude::*;

use crate::fsm::DomainAction;
use crate::twin_runtime::controller::actuation_contract::{ActuationCommand, CorrelationId};

verus! {

/// Why an action could not be actuated.
#[derive(Debug, Clone, PartialEq, Eq)]
pub enum ActuationError {
    UnsupportedAction(&'static str),
}

/// The default actuation policy. With a command channel (a source identity), headlamp and
/// turn-light requests become correlated commands and wiper requests become plain commands;
/// without one, nothing is actuated. Sequence numbers start at 1 and advance (wrapping) by one
/// per correlated command.
#[derive(Debug)]
pub struct DefaultActuationManager {
    source_id: Option<String>,
    session_id: u64,
    next_sequence_no: u64,
}

impl Default for DefaultActuationManager {
    fn default() -> (m: DefaultActuationManager)
        ensures
            m.source() is None,
            m.session() == 0,
            m.next_sequence() == 1,
    {
        DefaultActuationManager { source_id: None, session_id: 0, next_sequence_no: 1 }
    }
}

/// The sequence number after `n` (wrapping).
pub open spec fn spec_next_sequence(n: u64) -> u64 {
    if n == u64::MAX {
        0
    } else {
        (n + 1) as u64
    }
}

/// `c` is the identity drawn for source `source`, session `session`, sequence `seq`.
pub open spec fn spec_correlation(c: CorrelationId, source: Seq<char>, session: u64, seq: u64) -> bool {
    c.source_id@ == source && c.session_id == session && c.sequence_no == seq
}

impl DefaultActuationManager {
    /// The source identity, present when a command channel is attached.
    pub closed spec fn source(self) -> Option<Seq<char>> {
        match self.source_id {
            Some(s) => Some(s@),
            None => None,
        }
    }

    /// The session stamped on correlation identities.
    pub closed spec fn session(self) -> u64 {
        self.session_id
    }

    /// The sequence number the next correlated command will carry.
    pub closed spec fn next_sequence(self) -> u64 {
        self.next_sequence_no
    }

    /// A manager that actuates for `source_id` within `session_id`.
    pub fn with_command_channel(source_id: String, session_id: u64) -> (m: DefaultActuationManager)
        ensures
            m.source() == Some(source_id@),
            m.session() == session_id,
            m.next_sequence() == 1,
    {
        DefaultActuationManager { source_id: Some(source_id), session_id, next_sequence_no: 1 }
    }

    /// Draw the next correlation identity, or `None` without a source.
    fn next_correlation_id(&mut self) -> (r: Option<CorrelationId>)
        ensures
            final(self).source() == old(self).source(),
            final(self).session() == old(self).session(),
            match old(self).source() {
                None => r is None && final(self).next_sequence() == old(self).next_sequence(),
                Some(s) => (r matches Some(c) && spec_correlation(c, s, old(self).session(), old(self).next_sequence()))
                    && final(self).next_sequence() == spec_next_sequence(old(self).next_sequence()),
            },
    {
        let source_id = match &self.source_id {
            Some(s) => s.clone(),
            None => {
                return None;
            },
        };
        let sequence_no = self.next_sequence_no;
        self.next_sequence_no = self.next_sequence_no.wrapping_add(1);
        Some(CorrelationId { source_id, session_id: self.session_id, sequence_no })
    }

    /// The command `action` becomes, drawing a correlation identity where the command needs
    /// one. Buzzer, state sync, warnings and coordination hints are not actuated here.
    pub fn plan(&mut self, action: &DomainAction) -> (r: Option<ActuationCommand>)
        ensures
            final(self).source() == old(self).source(),
            final(self).session() == old(self).session(),
            ({
                let seq = old(self).next_sequence();
                let session = old(self).session();
                match old(self).source() {
                    None => r is None && final(self).next_sequence() == seq,
                    Some(s) => match *action {
                        DomainAction::RequestFrontHeadlampOn => (r matches Some(ActuationCommand::SwitchFrontHeadlampOn { correlation_id: c })
                            && spec_correlation(c, s, session, seq))
                            && final(self).next_sequence() == spec_next_sequence(seq),
                        DomainAction::RequestFrontHeadlampOff => (r matches Some(ActuationCommand::SwitchFrontHeadlampOff { correlation_id: c })
                            && spec_correlation(c, s, session, seq))
                            && final(self).next_sequence() == spec_next_sequence(seq),
                        DomainAction::SetTurnLights { left_on, right_on } => (r matches Some(ActuationCommand::SetTurnLights { correlation_id: c, left_on: l, right_on: rr })
                            && spec_correlation(c, s, session, seq) && l == left_on && rr == right_on)
                            && final(self).next_sequence() == spec_next_sequence(seq),
                        DomainAction::RequestWiperStart => r == Some(ActuationCommand::StartWiper)
                            && final(self).next_sequence() == seq,
                        DomainAction::RequestWiperStop => r == Some(ActuationCommand::StopWiper)
                            && final(self).next_sequence() == seq,
                        _ => r is None && final(self).next_sequence() == seq,
                    },
                }
            }),
    {
        match action {
            DomainAction::RequestFrontHeadlampOn => match self.next_correlation_id() {
                Some(correlation_id) => Some(ActuationCommand::SwitchFrontHeadlampOn { correlation_id }),
                None => None,
            },
            DomainAction::RequestFrontHeadlampOff => match self.next_correlation_id() {
                Some(correlation_id) => Some(ActuationCommand::SwitchFrontHeadlampOff { correlation_id }),
                None => None,
            },
            DomainAction::SetTurnLights { left_on, right_on } => match self.next_correlation_id() {
                Some(correlation_id) => Some(ActuationCommand::SetTurnLights {
                    correlation_id,
                    left_on: *left_on,
                    right_on: *right_on,
                }),
                None => None,
            },
            DomainAction::RequestWiperStart => if self.source_id.is_some() {
                Some(ActuationCommand::StartWiper)
            } else {
                None
            },
            DomainAction::RequestWiperStop => if self.source_id.is_some() {
                Some(ActuationCommand::StopWiper)
            } else {
                None
            },
            _ => None,
        }
    }
}

} // verus!
