//! The renderer as its embedder sees it: one negotiator, one frame loop,
//! and the cell through which the first hands the session to the second.

use vstd::prelude::*;
use crate::frame::{
    frame_commands, pending_tick, start_decision, FrameState, LoopState, RenderCommand,
    StartOutcome, StereoFrameLoop, TickHandle,
};
use crate::negotiation::{
    in_flight, requested_mode, transition, HostReply, HostRequest, NegotiationOutcome,
    NegotiationPhase, NegotiationStep, SessionNegotiator,
};
use crate::session::{
    published, visible_reference_space, visible_session, ReadySession, ReferenceSpace,
    SessionHandle, SharedSession,
};
use crate::surface::{context_request, create_webgl_context, ContextRequest};

verus! {

/// Everything that the renderer's decisions depend on.
pub struct AppState {
    pub surface: ContextRequest,
    pub phase: NegotiationPhase,
    pub shared: Option<ReadySession>,
    pub frame_loop: LoopState,
}

/// The renderer before anything was asked of it: a stereo-compatible
/// surface, no negotiation, nothing shared, the loop stopped.
pub open spec fn initial_state() -> AppState {
    AppState {
        surface: context_request(true),
        phase: NegotiationPhase::Idle,
        shared: None,
        frame_loop: LoopState::Stopped,
    }
}

/// An immersive stereo renderer for one session.
#[derive(Debug)]
pub struct XrApp {
    surface: ContextRequest,
    negotiator: SessionNegotiator,
    shared: SharedSession,
    frame_loop: StereoFrameLoop,
}

impl View for XrApp {
    type V = AppState;

    closed spec fn view(&self) -> AppState {
        AppState {
            surface: self.surface,
            phase: self.negotiator@,
            shared: self.shared@,
            frame_loop: self.frame_loop@,
        }
    }
}

impl XrApp {
    /// A renderer in its initial state.
    pub fn new() -> (app: XrApp)
        ensures
            app@ == initial_state(),
    {
        XrApp {
            surface: create_webgl_context(true),
            negotiator: SessionNegotiator::new(),
            shared: SharedSession::new(),
            frame_loop: StereoFrameLoop::new(),
        }
    }

    /// The graphics context that the renderer draws with.
    pub fn surface(&self) -> (request: ContextRequest)
        ensures
            request == self@.surface,
    {
        self.surface
    }

    /// Begins the negotiation: hands back the capability query for the
    /// driver to make. The caller keeps at most one negotiation in flight.
    /// What an earlier negotiation published stays visible until this one
    /// publishes.
    pub fn init(&mut self) -> (request: HostRequest)
        requires
            !in_flight(old(self)@.phase),
        ensures
            final(self)@ == (AppState { phase: NegotiationPhase::AwaitingSupport, ..old(self)@ }),
            request == (HostRequest::QuerySupport { mode: requested_mode() }),
    {
        self.negotiator.begin()
    }

    /// Whether a negotiation is in flight.
    pub fn is_negotiating(&self) -> (pending: bool)
        ensures
            pending == in_flight(self@.phase),
    {
        self.negotiator.is_negotiating()
    }

    pub fn phase(&self) -> (phase: NegotiationPhase)
        ensures
            phase == self@.phase,
    {
        self.negotiator.phase()
    }

    /// How the last negotiation ended, once it has.
    pub fn outcome(&self) -> (outcome: Option<NegotiationOutcome>)
        ensures
            outcome == match self@.phase {
                NegotiationPhase::Finished { outcome } => Some(outcome),
                _ => None,
            },
    {
        self.negotiator.outcome()
    }

    /// Takes the host's reply to the pending request and says what to do
    /// next. Session and reference space become visible together, in the
    /// step that ends the negotiation `Ready`; a negotiation that ends
    /// otherwise leaves the shared cell as it was.
    pub fn host_replied(&mut self, reply: HostReply) -> (step: NegotiationStep)
        ensures
            final(self)@ == (AppState {
                phase: transition(old(self)@.phase, reply).phase,
                shared: published(old(self)@.shared, transition(old(self)@.phase, reply).commit),
                ..old(self)@
            }),
            step == transition(old(self)@.phase, reply).step,
            step != (NegotiationStep::Finished { outcome: NegotiationOutcome::Ready })
                ==> final(self)@.shared == old(self)@.shared,
    {
        self.negotiator.on_reply(&mut self.shared, reply)
    }

    /// Whether a negotiation has published a session.
    pub fn is_ready(&self) -> (ready: bool)
        ensures
            ready == (self@.shared is Some),
    {
        self.shared.is_ready()
    }

    /// The session, once published.
    pub fn session(&self) -> (session: Option<SessionHandle>)
        ensures
            session == visible_session(self@.shared),
            session is Some <==> visible_reference_space(self@.shared) is Some,
    {
        self.shared.session()
    }

    /// The reference space, once published.
    pub fn reference_space(&self) -> (space: Option<ReferenceSpace>)
        ensures
            space == visible_reference_space(self@.shared),
            space is Some <==> visible_session(self@.shared) is Some,
    {
        self.shared.reference_space()
    }

    /// Answers a request to start rendering: nothing to do before a
    /// negotiation has completed or while the loop is alive, else the setup
    /// to carry out, which ends with the first tick registration.
    pub fn start(&self) -> (outcome: StartOutcome)
        ensures
            outcome@ == start_decision(self@.frame_loop, self@.shared),
    {
        self.frame_loop.start(&self.shared)
    }

    /// Records the tick registration that the host just made, after the
    /// setup and after each re-arm.
    pub fn tick_scheduled(&mut self, handle: TickHandle)
        ensures
            final(self)@ == (AppState {
                frame_loop: LoopState::Running { pending: handle },
                ..old(self)@
            }),
    {
        self.frame_loop.tick_scheduled(handle);
    }

    /// Whether the frame loop is alive.
    pub fn is_running(&self) -> (running: bool)
        ensures
            running == (self@.frame_loop is Running),
    {
        self.frame_loop.is_running()
    }

    /// The frame step of one tick: the calls to make, in order.
    pub fn on_tick(&self, frame: &FrameState) -> (commands: Vec<RenderCommand>)
        ensures
            commands@ == frame_commands(self@.frame_loop, self@.shared, *frame),
            self@.shared is None ==> commands@.len() == 0,
    {
        self.frame_loop.frame_step(&self.shared, frame)
    }

    /// Stops the frame loop and hands back the registration to withdraw
    /// from the host. A tick that still arrives does nothing.
    pub fn stop(&mut self) -> (withdrawn: Option<TickHandle>)
        ensures
            final(self)@ == (AppState { frame_loop: LoopState::Stopped, ..old(self)@ }),
            withdrawn == pending_tick(old(self)@.frame_loop),
    {
        self.frame_loop.stop()
    }
}

} // verus!
