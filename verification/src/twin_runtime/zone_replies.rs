//! Zone tell-backs collected for one turn, keyed by assembly.
use vstd::prelude::*;

use crate::digital_twin::ZoneReply;
use crate::fsm::AssemblyId;

verus! {

/// At most one reply per assembly.
#[derive(Debug, Clone, PartialEq, Default)]
pub struct ZoneReplies {
    sccm: Option<ZoneReply>,
    bcm: Option<ZoneReply>,
    flcm: Option<ZoneReply>,
    headlamp: Option<ZoneReply>,
    wiper: Option<ZoneReply>,
}

impl ZoneReplies {
    /// The reply stored for `id`, if any.
    pub closed spec fn spec_slot(self, id: AssemblyId) -> Option<ZoneReply> {
        match id {
            AssemblyId::Sccm => self.sccm,
            AssemblyId::Bcm => self.bcm,
            AssemblyId::Flcm => self.flcm,
            AssemblyId::Headlamp => self.headlamp,
            AssemblyId::Wiper => self.wiper,
        }
    }
}

impl View for ZoneReplies {
    type V = Map<AssemblyId, ZoneReply>;

    open spec fn view(&self) -> Map<AssemblyId, ZoneReply> {
        Map::new(|id: AssemblyId| self.spec_slot(id) is Some, |id: AssemblyId| self.spec_slot(id)->0)
    }
}

impl ZoneReplies {
    /// No replies: every zone is simulated locally.
    pub fn simulate_locally() -> (r: ZoneReplies)
        ensures
            r@ == Map::<AssemblyId, ZoneReply>::empty(),
    {
        let r = ZoneReplies { sccm: None, bcm: None, flcm: None, headlamp: None, wiper: None };
        proof {
            assert(r@ =~= Map::<AssemblyId, ZoneReply>::empty());
        }
        r
    }

    /// Exactly one reply, for `id`.
    pub fn with_reply(id: AssemblyId, reply: ZoneReply) -> (r: ZoneReplies)
        ensures
            r@ == Map::<AssemblyId, ZoneReply>::empty().insert(id, reply),
    {
        let mut r = ZoneReplies::simulate_locally();
        r.insert(id, reply);
        r
    }

    /// Store `reply` for `id`, replacing any earlier one.
    pub fn insert(&mut self, id: AssemblyId, reply: ZoneReply)
        ensures
            final(self)@ == old(self)@.insert(id, reply),
        no_unwind
    {
        match id {
            AssemblyId::Sccm => self.sccm = Some(reply),
            AssemblyId::Bcm => self.bcm = Some(reply),
            AssemblyId::Flcm => self.flcm = Some(reply),
            AssemblyId::Headlamp => self.headlamp = Some(reply),
            AssemblyId::Wiper => self.wiper = Some(reply),
        }
        proof {
            assert(self@ =~= old(self)@.insert(id, reply));
        }
    }

    /// The reply stored for `id`, if any.
    pub fn get(&self, id: &AssemblyId) -> (r: Option<&ZoneReply>)
        ensures
            r is Some <==> self@.contains_key(*id),
            r matches Some(x) ==> *x == self@[*id],
    {
        match id {
            AssemblyId::Sccm => self.sccm.as_ref(),
            AssemblyId::Bcm => self.bcm.as_ref(),
            AssemblyId::Flcm => self.flcm.as_ref(),
            AssemblyId::Headlamp => self.headlamp.as_ref(),
            AssemblyId::Wiper => self.wiper.as_ref(),
        }
    }

    /// Whether no reply is stored.
    pub fn is_empty(&self) -> (b: bool)
        ensures
            b == (self@ == Map::<AssemblyId, ZoneReply>::empty()),
    {
        let b = self.sccm.is_none() && self.bcm.is_none() && self.flcm.is_none()
            && self.headlamp.is_none() && self.wiper.is_none();
        proof {
            if b {
                assert(self@ =~= Map::<AssemblyId, ZoneReply>::empty());
            } else if self.sccm is Some {
                assert(self@.contains_key(AssemblyId::Sccm));
            } else if self.bcm is Some {
                assert(self@.contains_key(AssemblyId::Bcm));
            } else if self.flcm is Some {
                assert(self@.contains_key(AssemblyId::Flcm));
            } else if self.headlamp is Some {
                assert(self@.contains_key(AssemblyId::Headlamp));
            } else {
                assert(self@.contains_key(AssemblyId::Wiper));
            }
        }
        b
    }
}

/// Reading a zone's reply gives back the last reply stored for it, and storing one zone's reply
/// leaves every other zone's untouched.
pub proof fn law_reply_read_after_write(r: ZoneReplies, id: AssemblyId, reply: ZoneReply, other: AssemblyId)
    requires
        other != id,
    ensures
        r@.insert(id, reply).contains_key(id),
        r@.insert(id, reply)[id] == reply,
        r@.insert(id, reply).contains_key(other) == r@.contains_key(other),
        r@.contains_key(other) ==> r@.insert(id, reply)[other] == r@[other],
{
}

} // verus!
