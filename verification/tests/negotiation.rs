use xr_stereo::negotiation::{
    HostReply, HostRequest, NegotiationError, NegotiationOutcome, NegotiationPhase,
    NegotiationStep, ReferenceSpaceKind, SessionMode, SessionNegotiator, SessionOptions,
};
use xr_stereo::session::{ReadySession, ReferenceSpace, SessionHandle, SharedSession};
use xr_stereo::XrApp;

const SESSION: SessionHandle = SessionHandle { id: 7 };
const SPACE: ReferenceSpace = ReferenceSpace { id: 9 };

fn every_reply() -> Vec<HostReply> {
    vec![
        HostReply::Support { supported: true },
        HostReply::Support { supported: false },
        HostReply::SessionGranted { session: SESSION },
        HostReply::SessionDenied,
        HostReply::RenderTargetBound,
        HostReply::RenderTargetRejected,
        HostReply::ReferenceSpaceGranted { space: SPACE },
        HostReply::ReferenceSpaceDenied,
    ]
}

fn failed(reason: NegotiationError) -> NegotiationStep {
    NegotiationStep::Finished { outcome: NegotiationOutcome::Failed { reason } }
}

#[test]
fn new_app_is_idle_and_empty() {
    let app = XrApp::new();
    assert_eq!(app.phase(), NegotiationPhase::Idle);
    assert!(!app.is_negotiating());
    assert!(!app.is_ready());
    assert!(!app.is_running());
    assert_eq!(app.session(), None);
    assert_eq!(app.reference_space(), None);
    assert_eq!(app.outcome(), None);
}

#[test]
fn init_asks_for_immersive_vr_support() {
    let mut app = XrApp::new();
    let request = app.init();
    assert_eq!(request, HostRequest::QuerySupport { mode: SessionMode::ImmersiveVr });
    assert_eq!(app.phase(), NegotiationPhase::AwaitingSupport);
    assert!(app.is_negotiating());
    assert!(!app.is_ready());
}

#[test]
fn unsupported_mode_ends_negotiation_without_host_calls() {
    let mut app = XrApp::new();
    let mut requests = vec![app.init()];
    let step = app.host_replied(HostReply::Support { supported: false });
    assert_eq!(step, NegotiationStep::Finished { outcome: NegotiationOutcome::Unsupported });
    if let NegotiationStep::Request { request } = step {
        requests.push(request);
    }
    assert_eq!(requests, vec![HostRequest::QuerySupport { mode: SessionMode::ImmersiveVr }]);
    assert_eq!(app.outcome(), Some(NegotiationOutcome::Unsupported));
    assert!(!app.is_negotiating());
    assert!(!app.is_ready());
    assert_eq!(app.session(), None);
    assert_eq!(app.reference_space(), None);
}

#[test]
fn no_request_follows_an_unsupported_answer() {
    let mut app = XrApp::new();
    app.init();
    app.host_replied(HostReply::Support { supported: false });
    for reply in every_reply() {
        assert_eq!(app.host_replied(reply), NegotiationStep::Ignored);
        assert_eq!(app.outcome(), Some(NegotiationOutcome::Unsupported));
        assert!(!app.is_ready());
    }
}

#[test]
fn granted_negotiation_ends_ready_with_both_values() {
    let mut app = XrApp::new();
    assert_eq!(app.init(), HostRequest::QuerySupport { mode: SessionMode::ImmersiveVr });

    let step = app.host_replied(HostReply::Support { supported: true });
    assert_eq!(
        step,
        NegotiationStep::Request {
            request: HostRequest::RequestSession {
                mode: SessionMode::ImmersiveVr,
                options: SessionOptions { bounded_floor: true },
            },
        }
    );
    assert_eq!(app.phase(), NegotiationPhase::AwaitingSession);

    let step = app.host_replied(HostReply::SessionGranted { session: SESSION });
    assert_eq!(
        step,
        NegotiationStep::Request { request: HostRequest::BindRenderTarget { session: SESSION } }
    );
    assert_eq!(app.phase(), NegotiationPhase::AwaitingRenderTarget { session: SESSION });

    let step = app.host_replied(HostReply::RenderTargetBound);
    assert_eq!(
        step,
        NegotiationStep::Request {
            request: HostRequest::RequestReferenceSpace {
                session: SESSION,
                kind: ReferenceSpaceKind::BoundedFloor,
            },
        }
    );
    assert_eq!(app.phase(), NegotiationPhase::AwaitingReferenceSpace { session: SESSION });

    let step = app.host_replied(HostReply::ReferenceSpaceGranted { space: SPACE });
    assert_eq!(step, NegotiationStep::Finished { outcome: NegotiationOutcome::Ready });
    assert_eq!(app.outcome(), Some(NegotiationOutcome::Ready));
    assert!(app.is_ready());
    assert!(!app.is_negotiating());
    assert_eq!(app.session(), Some(SESSION));
    assert_eq!(app.reference_space(), Some(SPACE));
}

#[test]
fn nothing_is_visible_until_the_last_step() {
    let mut app = XrApp::new();
    app.init();
    let replies = [
        HostReply::Support { supported: true },
        HostReply::SessionGranted { session: SESSION },
        HostReply::RenderTargetBound,
    ];
    for reply in replies {
        app.host_replied(reply);
        assert_eq!(app.session(), None);
        assert_eq!(app.reference_space(), None);
        assert!(!app.is_ready());
    }
    app.host_replied(HostReply::ReferenceSpaceGranted { space: SPACE });
    assert_eq!(app.session().is_some(), app.reference_space().is_some());
    assert_eq!(app.session(), Some(SESSION));
    assert_eq!(app.reference_space(), Some(SPACE));
}

#[test]
fn denied_session_fails_the_negotiation() {
    let mut app = XrApp::new();
    app.init();
    app.host_replied(HostReply::Support { supported: true });
    let step = app.host_replied(HostReply::SessionDenied);
    assert_eq!(step, failed(NegotiationError::SessionRequestFailed));
    assert_eq!(
        app.outcome(),
        Some(NegotiationOutcome::Failed { reason: NegotiationError::SessionRequestFailed })
    );
    assert!(!app.is_ready());
    assert_eq!(app.session(), None);
}

#[test]
fn rejected_render_target_fails_the_negotiation() {
    let mut app = XrApp::new();
    app.init();
    app.host_replied(HostReply::Support { supported: true });
    app.host_replied(HostReply::SessionGranted { session: SESSION });
    let step = app.host_replied(HostReply::RenderTargetRejected);
    assert_eq!(step, failed(NegotiationError::RenderTargetBindFailed));
    assert!(!app.is_ready());
    assert_eq!(app.session(), None);
    assert_eq!(app.reference_space(), None);
}

#[test]
fn denied_reference_space_fails_the_negotiation() {
    let mut app = XrApp::new();
    app.init();
    app.host_replied(HostReply::Support { supported: true });
    app.host_replied(HostReply::SessionGranted { session: SESSION });
    app.host_replied(HostReply::RenderTargetBound);
    let step = app.host_replied(HostReply::ReferenceSpaceDenied);
    assert_eq!(step, failed(NegotiationError::ReferenceSpaceUnavailable));
    assert!(!app.is_ready());
    assert_eq!(app.session(), None);
    assert_eq!(app.reference_space(), None);
}

#[test]
fn replies_that_answer_nothing_are_ignored() {
    let mut app = XrApp::new();
    for reply in every_reply() {
        assert_eq!(app.host_replied(reply), NegotiationStep::Ignored);
        assert_eq!(app.phase(), NegotiationPhase::Idle);
    }
    app.init();
    for reply in every_reply() {
        if let HostReply::Support { .. } = reply {
            continue;
        }
        assert_eq!(app.host_replied(reply), NegotiationStep::Ignored);
        assert_eq!(app.phase(), NegotiationPhase::AwaitingSupport);
    }
    app.host_replied(HostReply::Support { supported: true });
    assert_eq!(app.host_replied(HostReply::RenderTargetBound), NegotiationStep::Ignored);
    assert_eq!(
        app.host_replied(HostReply::ReferenceSpaceGranted { space: SPACE }),
        NegotiationStep::Ignored
    );
    assert_eq!(app.phase(), NegotiationPhase::AwaitingSession);
    assert!(!app.is_ready());
}

#[test]
fn a_failed_negotiation_can_be_tried_again() {
    let mut app = XrApp::new();
    app.init();
    app.host_replied(HostReply::Support { supported: true });
    app.host_replied(HostReply::SessionDenied);
    assert!(!app.is_negotiating());
    assert_eq!(app.init(), HostRequest::QuerySupport { mode: SessionMode::ImmersiveVr });
    app.host_replied(HostReply::Support { supported: true });
    app.host_replied(HostReply::SessionGranted { session: SESSION });
    app.host_replied(HostReply::RenderTargetBound);
    app.host_replied(HostReply::ReferenceSpaceGranted { space: SPACE });
    assert_eq!(app.outcome(), Some(NegotiationOutcome::Ready));
    assert_eq!(app.session(), Some(SESSION));
}

#[test]
fn a_later_failure_keeps_what_was_published() {
    let mut app = XrApp::new();
    app.init();
    app.host_replied(HostReply::Support { supported: true });
    app.host_replied(HostReply::SessionGranted { session: SESSION });
    app.host_replied(HostReply::RenderTargetBound);
    app.host_replied(HostReply::ReferenceSpaceGranted { space: SPACE });
    app.init();
    assert_eq!(app.session(), Some(SESSION));
    app.host_replied(HostReply::Support { supported: true });
    app.host_replied(HostReply::SessionGranted { session: SessionHandle { id: 8 } });
    app.host_replied(HostReply::RenderTargetRejected);
    assert_eq!(app.session(), Some(SESSION));
    assert_eq!(app.reference_space(), Some(SPACE));
}

#[test]
fn negotiator_commits_the_pair_to_the_cell() {
    let mut negotiator = SessionNegotiator::new();
    let mut shared = SharedSession::new();
    assert_eq!(negotiator.phase(), NegotiationPhase::Idle);
    assert_eq!(shared.read(), None);
    negotiator.begin();
    negotiator.on_reply(&mut shared, HostReply::Support { supported: true });
    negotiator.on_reply(&mut shared, HostReply::SessionGranted { session: SESSION });
    assert!(negotiator.is_negotiating());
    negotiator.on_reply(&mut shared, HostReply::RenderTargetBound);
    assert_eq!(shared.read(), None);
    assert!(!shared.is_ready());
    let step = negotiator.on_reply(&mut shared, HostReply::ReferenceSpaceGranted { space: SPACE });
    assert_eq!(step, NegotiationStep::Finished { outcome: NegotiationOutcome::Ready });
    assert_eq!(negotiator.outcome(), Some(NegotiationOutcome::Ready));
    assert_eq!(shared.read(), Some(ReadySession { session: SESSION, reference_space: SPACE }));
    assert_eq!(shared.session(), Some(SESSION));
    assert_eq!(shared.reference_space(), Some(SPACE));
}

#[test]
fn commit_replaces_the_pair_as_a_whole() {
    let mut shared = SharedSession::new();
    shared.commit(ReadySession { session: SESSION, reference_space: SPACE });
    let other = ReadySession {
        session: SessionHandle { id: 1 },
        reference_space: ReferenceSpace { id: 2 },
    };
    shared.commit(other);
    assert_eq!(shared.read(), Some(other));
    assert_eq!(shared.session(), Some(other.session));
    assert_eq!(shared.reference_space(), Some(other.reference_space));
}
