use std::collections::HashMap;
use vstd::prelude::*;

use crate::error::TerminalError;

verus! {

broadcast use vstd::std_specs::hash::group_hash_axioms;

/// The table of live sessions, keyed by identifier, together with the
/// identifier that the next registration receives. Identifiers start at 1
/// and are never handed out twice.
pub struct SessionRegistry<S> {
    sessions: HashMap<u32, S>,
    next_id: u32,
}

impl<S> SessionRegistry<S> {
    /// The live sessions.
    pub closed spec fn sessions(&self) -> Map<u32, S> {
        self.sessions@
    }

    /// The identifier that the next registration receives.
    pub closed spec fn spec_next_id(&self) -> u32 {
        self.next_id
    }

    /// Every live session has an identifier that was already handed out.
    pub closed spec fn wf(&self) -> bool {
        &&& 1 <= self.next_id
        &&& forall|id: u32| #[trigger] self.sessions@.contains_key(id) ==> 1 <= id < self.next_id
    }

    /// `id` has been handed out by an earlier registration.
    pub open spec fn issued(&self, id: u32) -> bool {
        1 <= id < self.spec_next_id()
    }

    /// `after` is `before` with `session` registered under `id`.
    pub open spec fn registration(before: Self, after: Self, session: S, id: u32) -> bool {
        &&& id == before.spec_next_id()
        &&& after.spec_next_id() == id + 1
        &&& after.sessions() == before.sessions().insert(id, session)
    }

    /// `after` is `before` with the session `id`, if any, taken out.
    pub open spec fn removal(before: Self, after: Self, id: u32) -> bool {
        &&& after.spec_next_id() == before.spec_next_id()
        &&& after.sessions() == before.sessions().remove(id)
    }

    /// An empty table whose first identifier is 1.
    pub fn new() -> (r: Self)
        ensures
            r.wf(),
            r.sessions() == Map::<u32, S>::empty(),
            r.spec_next_id() == 1,
    {
        let r = SessionRegistry { sessions: HashMap::new(), next_id: 1 };
        assert(r.sessions@ =~= Map::<u32, S>::empty());
        r
    }

    /// The identifier that the next registration receives.
    #[verifier::when_used_as_spec(spec_next_id)]
    pub fn next_id(&self) -> (r: u32)
        ensures
            r == self.spec_next_id(),
    {
        self.next_id
    }

    /// The number of live sessions.
    pub fn len(&self) -> (r: usize)
        ensures
            r == self.sessions().len(),
    {
        self.sessions.len()
    }

    /// Whether no session is live.
    pub fn is_empty(&self) -> (r: bool)
        ensures
            r == (self.sessions().len() == 0),
    {
        self.sessions.len() == 0
    }

    /// Whether a live session has identifier `id`.
    pub fn contains(&self, id: u32) -> (r: bool)
        ensures
            r == self.sessions().contains_key(id),
    {
        self.sessions.contains_key(&id)
    }

    /// Whether one more identifier can be handed out.
    pub fn can_register(&self) -> (r: bool)
        ensures
            r == (self.spec_next_id() < u32::MAX),
    {
        self.next_id < u32::MAX
    }

    /// Registers `session` under a fresh identifier and returns it.
    pub fn register(&mut self, session: S) -> (id: u32)
        requires
            old(self).wf(),
            old(self).spec_next_id() < u32::MAX,
        ensures
            final(self).wf(),
            Self::registration(*old(self), *final(self), session, id),
            !old(self).sessions().contains_key(id),
    {
        let id = self.next_id;
        self.sessions.insert(id, session);
        self.next_id = id + 1;
        id
    }

    /// The session with identifier `id`, or `SessionNotFound` when none is live.
    pub fn get(&self, id: u32) -> (r: Result<&S, TerminalError>)
        ensures
            r is Ok <==> self.sessions().contains_key(id),
            r matches Ok(s) ==> *s == self.sessions()[id],
            r matches Err(e) ==> e == TerminalError::SessionNotFound(id),
    {
        match self.sessions.get(&id) {
            Some(s) => Ok(s),
            None => Err(TerminalError::SessionNotFound(id)),
        }
    }

    /// Takes the session `id` out of the table and hands it back; `None`, with
    /// the table unchanged, when none is live.
    pub fn remove(&mut self, id: u32) -> (r: Option<S>)
        requires
            old(self).wf(),
        ensures
            final(self).wf(),
            Self::removal(*old(self), *final(self), id),
            r == (if old(self).sessions().contains_key(id) {
                Some(old(self).sessions()[id])
            } else {
                None::<S>
            }),
    {
        self.sessions.remove(&id)
    }
}

/// A registration hands out an identifier strictly greater than every
/// identifier handed out before it, and the new one had never been issued.
pub proof fn lemma_registration_exceeds_issued<S>(
    before: SessionRegistry<S>,
    after: SessionRegistry<S>,
    session: S,
    id: u32,
    earlier: u32,
)
    requires
        before.wf(),
        SessionRegistry::registration(before, after, session, id),
        before.issued(earlier),
    ensures
        earlier < id,
        !before.issued(id),
        after.issued(id),
        after.issued(earlier),
{
}

/// Two registrations in a row hand out two distinct identifiers.
pub proof fn lemma_registrations_distinct<S>(
    r0: SessionRegistry<S>,
    r1: SessionRegistry<S>,
    r2: SessionRegistry<S>,
    s1: S,
    s2: S,
    id1: u32,
    id2: u32,
)
    requires
        r0.wf(),
        SessionRegistry::registration(r0, r1, s1, id1),
        SessionRegistry::registration(r1, r2, s2, id2),
    ensures
        id1 < id2,
        r2.sessions().contains_key(id1),
        r2.sessions().contains_key(id2),
        r2.sessions()[id1] == s1,
        r2.sessions()[id2] == s2,
{
}

/// An identifier that was never handed out names no live session, so a
/// lookup of it reports `SessionNotFound`.
pub proof fn lemma_unissued_not_found<S>(r: SessionRegistry<S>, id: u32)
    requires
        r.wf(),
        !r.issued(id),
    ensures
        !r.sessions().contains_key(id),
{
}

/// After a session is removed no lookup finds it again, whatever is
/// registered afterwards.
pub proof fn lemma_removed_stays_absent<S>(
    r0: SessionRegistry<S>,
    r1: SessionRegistry<S>,
    r2: SessionRegistry<S>,
    session: S,
    id: u32,
    new_id: u32,
)
    requires
        r0.wf(),
        SessionRegistry::removal(r0, r1, id),
        SessionRegistry::registration(r1, r2, session, new_id),
    ensures
        !r1.sessions().contains_key(id),
        new_id != id ==> !r2.sessions().contains_key(id),
        r0.issued(id) ==> new_id != id,
{
}

/// Removing a session twice leaves the table as the first removal left it.
pub proof fn lemma_removal_idempotent<S>(
    r0: SessionRegistry<S>,
    r1: SessionRegistry<S>,
    r2: SessionRegistry<S>,
    id: u32,
)
    requires
        SessionRegistry::removal(r0, r1, id),
        SessionRegistry::removal(r1, r2, id),
    ensures
        !r1.sessions().contains_key(id),
        r2.sessions() == r1.sessions(),
        r2.spec_next_id() == r1.spec_next_id(),
{
    assert(r2.sessions() =~= r1.sessions());
}

} // verus!
