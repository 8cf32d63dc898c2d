//! The session handle, the reference space, and the cell that shares them
//! between the negotiator, which writes it, and the frame loop, which reads it.

use vstd::prelude::*;

verus! {

/// Names the XR session that the host runtime granted.
#[derive(Clone, Copy, Debug, PartialEq, Eq)]
pub struct SessionHandle {
    pub id: u64,
}

/// Names the spatial frame against which device poses are expressed.
#[derive(Clone, Copy, Debug, PartialEq, Eq)]
pub struct ReferenceSpace {
    pub id: u64,
}

/// A session together with its reference space: the unit of readiness.
#[derive(Clone, Copy, Debug, PartialEq, Eq)]
pub struct ReadySession {
    pub session: SessionHandle,
    pub reference_space: ReferenceSpace,
}

/// The session that a reader of the cell sees.
pub open spec fn visible_session(cell: Option<ReadySession>) -> Option<SessionHandle> {
    match cell {
        Some(ready) => Some(ready.session),
        None => None,
    }
}

/// The reference space that a reader of the cell sees.
pub open spec fn visible_reference_space(cell: Option<ReadySession>) -> Option<ReferenceSpace> {
    match cell {
        Some(ready) => Some(ready.reference_space),
        None => None,
    }
}

/// What the cell holds after a negotiation step that commits `commit`.
pub open spec fn published(cell: Option<ReadySession>, commit: Option<ReadySession>) -> Option<
    ReadySession,
> {
    match commit {
        Some(ready) => Some(ready),
        None => cell,
    }
}

/// A reader never sees a session without its reference space, nor a
/// reference space without its session.
pub proof fn lemma_session_and_space_visible_together(cell: Option<ReadySession>)
    ensures
        visible_session(cell) is Some <==> visible_reference_space(cell) is Some,
        cell is None ==> visible_session(cell) is None && visible_reference_space(cell) is None,
        cell matches Some(ready) ==> visible_session(cell) == Some(ready.session)
            && visible_reference_space(cell) == Some(ready.reference_space),
{
}

/// The cell through which readiness is shared. Empty until a negotiation
/// commits; an absent value means "not yet ready".
#[derive(Debug)]
pub struct SharedSession {
    slot: Option<ReadySession>,
}

impl View for SharedSession {
    type V = Option<ReadySession>;

    closed spec fn view(&self) -> Option<ReadySession> {
        self.slot
    }
}

impl SharedSession {
    /// An empty cell.
    pub fn new() -> (cell: SharedSession)
        ensures
            cell@ is None,
    {
        SharedSession { slot: None }
    }

    /// Publishes the pair in one step.
    pub fn commit(&mut self, ready: ReadySession)
        ensures
            final(self)@ == Some(ready),
    {
        self.slot = Some(ready);
    }

    /// Both values, or neither.
    pub fn read(&self) -> (ready: Option<ReadySession>)
        ensures
            ready == self@,
    {
        self.slot
    }

    pub fn is_ready(&self) -> (ready: bool)
        ensures
            ready == (self@ is Some),
    {
        self.slot.is_some()
    }

    pub fn session(&self) -> (session: Option<SessionHandle>)
        ensures
            session == visible_session(self@),
    {
        match self.slot {
            Some(ready) => Some(ready.session),
            None => None,
        }
    }

    pub fn reference_space(&self) -> (space: Option<ReferenceSpace>)
        ensures
            space == visible_reference_space(self@),
    {
        match self.slot {
            Some(ready) => Some(ready.reference_space),
            None => None,
        }
    }
}

} // verus!
