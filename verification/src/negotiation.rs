//! The negotiation protocol: capability query, session request, render
//! target binding, reference space request, commit.
//!
//! The negotiator decides; the driver talks to the host runtime. Each call
//! hands back the next request to make, and the driver answers with the
//! host's reply once it has arrived.

use vstd::prelude::*;
use crate::session::{
    published, visible_reference_space, visible_session, ReadySession, ReferenceSpace,
    SessionHandle, SharedSession,
};

verus! {

/// The kind of session asked of the host runtime.
#[derive(Clone, Copy, Debug, PartialEq, Eq)]
pub enum SessionMode {
    Inline,
    ImmersiveVr,
    ImmersiveAr,
}

/// The kind of spatial frame asked of a session.
#[derive(Clone, Copy, Debug, PartialEq, Eq)]
pub enum ReferenceSpaceKind {
    Viewer,
    Local,
    LocalFloor,
    BoundedFloor,
    Unbounded,
}

/// Features that a session request declares as optional: the host may grant
/// the session without them.
#[derive(Clone, Copy, Debug, PartialEq, Eq)]
pub struct SessionOptions {
    pub bounded_floor: bool,
}

/// A request for the driver to make of the host runtime.
#[derive(Clone, Copy, Debug, PartialEq, Eq)]
pub enum HostRequest {
    QuerySupport { mode: SessionMode },
    RequestSession { mode: SessionMode, options: SessionOptions },
    BindRenderTarget { session: SessionHandle },
    RequestReferenceSpace { session: SessionHandle, kind: ReferenceSpaceKind },
}

/// What the host runtime answered.
#[derive(Clone, Copy, Debug, PartialEq, Eq)]
pub enum HostReply {
    Support { supported: bool },
    SessionGranted { session: SessionHandle },
    SessionDenied,
    RenderTargetBound,
    RenderTargetRejected,
    ReferenceSpaceGranted { space: ReferenceSpace },
    ReferenceSpaceDenied,
}

/// Why a negotiation failed: one value for each step that can.
#[derive(Clone, Copy, Debug, PartialEq, Eq)]
pub enum NegotiationError {
    SessionRequestFailed,
    RenderTargetBindFailed,
    ReferenceSpaceUnavailable,
}

/// How a negotiation ended. `Unsupported` is an ordinary answer, not a fault.
#[derive(Clone, Copy, Debug, PartialEq, Eq)]
pub enum NegotiationOutcome {
    Ready,
    Unsupported,
    Failed { reason: NegotiationError },
}

/// Where a negotiation stands.
#[derive(Clone, Copy, Debug, PartialEq, Eq)]
pub enum NegotiationPhase {
    Idle,
    AwaitingSupport,
    AwaitingSession,
    AwaitingRenderTarget { session: SessionHandle },
    AwaitingReferenceSpace { session: SessionHandle },
    Finished { outcome: NegotiationOutcome },
}

/// What the driver does after a reply.
#[derive(Clone, Copy, Debug, PartialEq, Eq)]
pub enum NegotiationStep {
    /// Make this request and come back with its reply.
    Request { request: HostRequest },
    /// The negotiation has ended.
    Finished { outcome: NegotiationOutcome },
    /// The reply answers no pending request; nothing changed.
    Ignored,
}

/// One step of the protocol: the next phase, what the driver does, and the
/// pair to publish, if this step commits.
pub struct Transition {
    pub phase: NegotiationPhase,
    pub step: NegotiationStep,
    pub commit: Option<ReadySession>,
}

/// The session mode that this design negotiates.
pub open spec fn requested_mode() -> SessionMode {
    SessionMode::ImmersiveVr
}

/// The optional features that the session request declares.
pub open spec fn requested_options() -> SessionOptions {
    SessionOptions { bounded_floor: true }
}

/// The kind of reference space that this design asks for.
pub open spec fn requested_space() -> ReferenceSpaceKind {
    ReferenceSpaceKind::BoundedFloor
}

/// A request is pending and its reply has not arrived.
pub open spec fn in_flight(phase: NegotiationPhase) -> bool {
    phase is AwaitingSupport || phase is AwaitingSession || phase is AwaitingRenderTarget
        || phase is AwaitingReferenceSpace
}

/// The step that goes on with `request`.
pub open spec fn proceed(phase: NegotiationPhase, request: HostRequest) -> Transition {
    Transition { phase, step: NegotiationStep::Request { request }, commit: None }
}

/// The step that ends the negotiation without publishing anything.
pub open spec fn conclude(outcome: NegotiationOutcome) -> Transition {
    Transition {
        phase: NegotiationPhase::Finished { outcome },
        step: NegotiationStep::Finished { outcome },
        commit: None,
    }
}

/// The protocol. Each phase accepts the two replies that answer its request;
/// every other pair of phase and reply changes nothing.
pub open spec fn transition(phase: NegotiationPhase, reply: HostReply) -> Transition {
    match (phase, reply) {
        (NegotiationPhase::AwaitingSupport, HostReply::Support { supported }) => if supported {
            proceed(
                NegotiationPhase::AwaitingSession,
                HostRequest::RequestSession { mode: requested_mode(), options: requested_options() },
            )
        } else {
            conclude(NegotiationOutcome::Unsupported)
        },
        (NegotiationPhase::AwaitingSession, HostReply::SessionGranted { session }) => proceed(
            NegotiationPhase::AwaitingRenderTarget { session },
            HostRequest::BindRenderTarget { session },
        ),
        (NegotiationPhase::AwaitingSession, HostReply::SessionDenied) => conclude(
            NegotiationOutcome::Failed { reason: NegotiationError::SessionRequestFailed },
        ),
        (NegotiationPhase::AwaitingRenderTarget { session }, HostReply::RenderTargetBound) => proceed(
            NegotiationPhase::AwaitingReferenceSpace { session },
            HostRequest::RequestReferenceSpace { session, kind: requested_space() },
        ),
        (NegotiationPhase::AwaitingRenderTarget { .. }, HostReply::RenderTargetRejected) => conclude(
            NegotiationOutcome::Failed { reason: NegotiationError::RenderTargetBindFailed },
        ),
        (
            NegotiationPhase::AwaitingReferenceSpace { session },
            HostReply::ReferenceSpaceGranted { space },
        ) => Transition {
            phase: NegotiationPhase::Finished { outcome: NegotiationOutcome::Ready },
            step: NegotiationStep::Finished { outcome: NegotiationOutcome::Ready },
            commit: Some(ReadySession { session, reference_space: space }),
        },
        (NegotiationPhase::AwaitingReferenceSpace { .. }, HostReply::ReferenceSpaceDenied) => conclude(
            NegotiationOutcome::Failed { reason: NegotiationError::ReferenceSpaceUnavailable },
        ),
        _ => Transition { phase, step: NegotiationStep::Ignored, commit: None },
    }
}

/// Drives the host runtime through capability discovery and session setup.
#[derive(Debug)]
pub struct SessionNegotiator {
    phase: NegotiationPhase,
}

impl View for SessionNegotiator {
    type V = NegotiationPhase;

    closed spec fn view(&self) -> NegotiationPhase {
        self.phase
    }
}

impl SessionNegotiator {
    /// A negotiator that has not begun.
    pub fn new() -> (negotiator: SessionNegotiator)
        ensures
            negotiator@ == NegotiationPhase::Idle,
    {
        SessionNegotiator { phase: NegotiationPhase::Idle }
    }

    pub fn phase(&self) -> (phase: NegotiationPhase)
        ensures
            phase == self@,
    {
        self.phase
    }

    /// Whether a request is pending.
    pub fn is_negotiating(&self) -> (pending: bool)
        ensures
            pending == in_flight(self@),
    {
        match self.phase {
            NegotiationPhase::Idle => false,
            NegotiationPhase::Finished { .. } => false,
            _ => true,
        }
    }

    /// How the last negotiation ended, once it has.
    pub fn outcome(&self) -> (outcome: Option<NegotiationOutcome>)
        ensures
            outcome == match self@ {
                NegotiationPhase::Finished { outcome } => Some(outcome),
                _ => None,
            },
    {
        match self.phase {
            NegotiationPhase::Finished { outcome } => Some(outcome),
            _ => None,
        }
    }

    /// Begins a negotiation with the capability query. The caller keeps at
    /// most one negotiation in flight.
    pub fn begin(&mut self) -> (request: HostRequest)
        requires
            !in_flight(old(self)@),
        ensures
            final(self)@ == NegotiationPhase::AwaitingSupport,
            request == (HostRequest::QuerySupport { mode: requested_mode() }),
    {
        self.phase = NegotiationPhase::AwaitingSupport;
        HostRequest::QuerySupport { mode: SessionMode::ImmersiveVr }
    }

    /// Takes the host's reply to the pending request. The last step of a
    /// successful negotiation publishes session and reference space to
    /// `shared` together; no other step writes to it.
    pub fn on_reply(&mut self, shared: &mut SharedSession, reply: HostReply) -> (step:
        NegotiationStep)
        ensures
            final(self)@ == transition(old(self)@, reply).phase,
            step == transition(old(self)@, reply).step,
            final(shared)@ == published(old(shared)@, transition(old(self)@, reply).commit),
            step != (NegotiationStep::Finished { outcome: NegotiationOutcome::Ready })
                ==> final(shared)@ == old(shared)@,
    {
        match (self.phase, reply) {
            (NegotiationPhase::AwaitingSupport, HostReply::Support { supported }) => {
                if supported {
                    self.phase = NegotiationPhase::AwaitingSession;
                    NegotiationStep::Request {
                        request: HostRequest::RequestSession {
                            mode: SessionMode::ImmersiveVr,
                            options: SessionOptions { bounded_floor: true },
                        },
                    }
                } else {
                    self.finish(NegotiationOutcome::Unsupported)
                }
            },
            (NegotiationPhase::AwaitingSession, HostReply::SessionGranted { session }) => {
                self.phase = NegotiationPhase::AwaitingRenderTarget { session };
                NegotiationStep::Request { request: HostRequest::BindRenderTarget { session } }
            },
            (NegotiationPhase::AwaitingSession, HostReply::SessionDenied) => {
                self.finish(
                    NegotiationOutcome::Failed { reason: NegotiationError::SessionRequestFailed },
                )
            },
            (NegotiationPhase::AwaitingRenderTarget { session }, HostReply::RenderTargetBound) => {
                self.phase = NegotiationPhase::AwaitingReferenceSpace { session };
                NegotiationStep::Request {
                    request: HostRequest::RequestReferenceSpace {
                        session,
                        kind: ReferenceSpaceKind::BoundedFloor,
                    },
                }
            },
            (NegotiationPhase::AwaitingRenderTarget { .. }, HostReply::RenderTargetRejected) => {
                self.finish(
                    NegotiationOutcome::Failed { reason: NegotiationError::RenderTargetBindFailed },
                )
            },
            (
                NegotiationPhase::AwaitingReferenceSpace { session },
                HostReply::ReferenceSpaceGranted { space },
            ) => {
                shared.commit(ReadySession { session, reference_space: space });
                self.finish(NegotiationOutcome::Ready)
            },
            (NegotiationPhase::AwaitingReferenceSpace { .. }, HostReply::ReferenceSpaceDenied) => {
                self.finish(
                    NegotiationOutcome::Failed {
                        reason: NegotiationError::ReferenceSpaceUnavailable,
                    },
                )
            },
            _ => NegotiationStep::Ignored,
        }
    }

    fn finish(&mut self, outcome: NegotiationOutcome) -> (step: NegotiationStep)
        ensures
            final(self)@ == (NegotiationPhase::Finished { outcome }),
            step == (NegotiationStep::Finished { outcome }),
    {
        self.phase = NegotiationPhase::Finished { outcome };
        NegotiationStep::Finished { outcome }
    }
}

/// Session and reference space are visible exactly when the negotiation has
/// ended `Ready`.
pub open spec fn published_when_ready(phase: NegotiationPhase, shared: Option<ReadySession>) -> bool {
    shared is Some <==> phase == (NegotiationPhase::Finished { outcome: NegotiationOutcome::Ready })
}

/// The request that a step has the driver make, if any.
pub open spec fn requested(step: NegotiationStep) -> Seq<HostRequest> {
    match step {
        NegotiationStep::Request { request } => seq![request],
        _ => Seq::empty(),
    }
}

/// Where a negotiation stands after a run of replies: its phase, what the
/// shared cell holds, and the requests that the replies led to, in order.
pub struct NegotiationTrace {
    pub phase: NegotiationPhase,
    pub shared: Option<ReadySession>,
    pub requests: Seq<HostRequest>,
}

/// Feeds `replies` to the protocol one after the other.
pub open spec fn replay(
    phase: NegotiationPhase,
    shared: Option<ReadySession>,
    replies: Seq<HostReply>,
) -> NegotiationTrace
    decreases replies.len(),
{
    if replies.len() == 0 {
        NegotiationTrace { phase, shared, requests: Seq::empty() }
    } else {
        let first = transition(phase, replies.first());
        let rest = replay(first.phase, published(shared, first.commit), replies.drop_first());
        NegotiationTrace {
            phase: rest.phase,
            shared: rest.shared,
            requests: requested(first.step) + rest.requests,
        }
    }
}

/// A step publishes exactly when it ends the negotiation `Ready`, and then
/// it publishes the session granted earlier with the space just granted. A
/// step that fails, or finds the mode unsupported, publishes nothing.
pub proof fn lemma_commit_only_when_ready(phase: NegotiationPhase, reply: HostReply)
    ensures
        transition(phase, reply).commit is Some <==> transition(phase, reply).step == (
            NegotiationStep::Finished { outcome: NegotiationOutcome::Ready }),
        transition(phase, reply).commit matches Some(ready) ==> phase
            == (NegotiationPhase::AwaitingReferenceSpace { session: ready.session }) && reply == (
            HostReply::ReferenceSpaceGranted { space: ready.reference_space }),
{
}

/// While no request is pending, replies lead to no request and change
/// neither the phase nor the shared cell.
pub proof fn lemma_settled_negotiation_ignores_replies(
    phase: NegotiationPhase,
    shared: Option<ReadySession>,
    replies: Seq<HostReply>,
)
    requires
        !in_flight(phase),
    ensures
        replay(phase, shared, replies) == (NegotiationTrace {
            phase,
            shared,
            requests: Seq::empty(),
        }),
    decreases replies.len(),
{
    if replies.len() > 0 {
        lemma_settled_negotiation_ignores_replies(phase, shared, replies.drop_first());
        assert(Seq::<HostRequest>::empty() + Seq::<HostRequest>::empty() =~= Seq::<
            HostRequest,
        >::empty());
    }
}

/// When the capability query is answered in the negative, the negotiation
/// ends `Unsupported`: whatever replies follow, no session request, no
/// render target binding and no reference space request is made, and the
/// shared cell is left as it was.
pub proof fn lemma_unsupported_ends_negotiation(
    shared: Option<ReadySession>,
    replies: Seq<HostReply>,
)
    requires
        replies.len() > 0,
        replies.first() == (HostReply::Support { supported: false }),
    ensures
        replay(NegotiationPhase::AwaitingSupport, shared, replies) == (NegotiationTrace {
            phase: NegotiationPhase::Finished { outcome: NegotiationOutcome::Unsupported },
            shared,
            requests: Seq::empty(),
        }),
{
    lemma_settled_negotiation_ignores_replies(
        NegotiationPhase::Finished { outcome: NegotiationOutcome::Unsupported },
        shared,
        replies.drop_first(),
    );
    assert(Seq::<HostRequest>::empty() + Seq::<HostRequest>::empty() =~= Seq::<
        HostRequest,
    >::empty());
}

/// Publication is atomic. Through any run of replies, and at every point of
/// it, readers see session and reference space together or neither; and a
/// negotiation that began with nothing visible shows them exactly from the
/// step that ends it `Ready`.
pub proof fn lemma_publication_is_atomic(
    phase: NegotiationPhase,
    shared: Option<ReadySession>,
    replies: Seq<HostReply>,
    seen: int,
)
    requires
        0 <= seen <= replies.len(),
    ensures
        visible_session(replay(phase, shared, replies.take(seen)).shared) is Some
            <==> visible_reference_space(replay(phase, shared, replies.take(seen)).shared) is Some,
        published_when_ready(phase, shared) ==> published_when_ready(
            replay(phase, shared, replies.take(seen)).phase,
            replay(phase, shared, replies.take(seen)).shared,
        ),
{
    lemma_replay_keeps_publication(phase, shared, replies.take(seen));
}

proof fn lemma_replay_keeps_publication(
    phase: NegotiationPhase,
    shared: Option<ReadySession>,
    replies: Seq<HostReply>,
)
    ensures
        published_when_ready(phase, shared) ==> published_when_ready(
            replay(phase, shared, replies).phase,
            replay(phase, shared, replies).shared,
        ),
    decreases replies.len(),
{
    if replies.len() > 0 {
        let first = transition(phase, replies.first());
        lemma_replay_keeps_publication(
            first.phase,
            published(shared, first.commit),
            replies.drop_first(),
        );
    }
}

/// A negotiation in which the host grants every step makes the four
/// requests in order, ends `Ready`, and publishes the granted session with
/// the granted reference space.
pub proof fn lemma_granted_negotiation_is_ready(
    shared: Option<ReadySession>,
    session: SessionHandle,
    space: ReferenceSpace,
)
    ensures
        replay(
            NegotiationPhase::AwaitingSupport,
            shared,
            seq![
                HostReply::Support { supported: true },
                HostReply::SessionGranted { session },
                HostReply::RenderTargetBound,
                HostReply::ReferenceSpaceGranted { space },
            ],
        ) == (NegotiationTrace {
            phase: NegotiationPhase::Finished { outcome: NegotiationOutcome::Ready },
            shared: Some(ReadySession { session, reference_space: space }),
            requests: seq![
                HostRequest::RequestSession { mode: requested_mode(), options: requested_options() },
                HostRequest::BindRenderTarget { session },
                HostRequest::RequestReferenceSpace { session, kind: requested_space() },
            ],
        }),
{
    let replies = seq![
        HostReply::Support { supported: true },
        HostReply::SessionGranted { session },
        HostReply::RenderTargetBound,
        HostReply::ReferenceSpaceGranted { space },
    ];
    let after_support = replies.drop_first();
    let after_session = after_support.drop_first();
    let after_bind = after_session.drop_first();
    let after_space = after_bind.drop_first();
    assert(after_space.len() == 0);
    let ready = Some(ReadySession { session, reference_space: space });
    let finished = NegotiationPhase::Finished { outcome: NegotiationOutcome::Ready };
    assert(replay(finished, ready, after_space).requests =~= Seq::empty());
    let at_space = replay(NegotiationPhase::AwaitingReferenceSpace { session }, shared, after_bind);
    assert(at_space.requests =~= Seq::empty());
    assert(at_space.shared == ready);
    let at_bind = replay(NegotiationPhase::AwaitingRenderTarget { session }, shared, after_session);
    assert(at_bind.requests =~= seq![
        HostRequest::RequestReferenceSpace { session, kind: requested_space() },
    ]);
    let at_session = replay(NegotiationPhase::AwaitingSession, shared, after_support);
    assert(at_session.requests =~= seq![
        HostRequest::BindRenderTarget { session },
        HostRequest::RequestReferenceSpace { session, kind: requested_space() },
    ]);
    let whole = replay(NegotiationPhase::AwaitingSupport, shared, replies);
    assert(whole.requests =~= seq![
        HostRequest::RequestSession { mode: requested_mode(), options: requested_options() },
        HostRequest::BindRenderTarget { session },
        HostRequest::RequestReferenceSpace { session, kind: requested_space() },
    ]);
}

} // verus!
