use token2token::session::{authorization_header, relay_target};
use token2token::config::{Config, RunError};
use token2token::connectors::{DiscoveredModel, EngineKind, InferenceResult};
use token2token::protocol::{MessageType, ProviderMode};
use token2token::session::{
    build_catalog, confirm_enrollment, on_frame, Backoff, Frame, FrameStep, JobReply, Reconnect, Rejection,
    RelaySession, RunStep, SessionAction, SessionEnd, SessionError, SessionEvent,
};

#[test]
fn default_configuration_points_at_the_public_relay() {
    let c = Config::default();
    assert_eq!(c.relay_url, "wss://api.tokens2tokens.com/v1/nodes/connect");
    assert_eq!(c.enrollment_token, "");
    assert_eq!(c.engine, "ollama");
    assert_eq!(c.engine_url, "http://127.0.0.1:11434");
    assert_eq!(c.engine_api_key, "");
    assert_eq!(c.input_price, "0.20");
    assert_eq!(c.output_price, "0.80");
    assert_eq!(c.monthly_earnings_cap, "50000");
    assert!(!c.commercial_hosting_confirmed);
    assert_eq!(c.model_license, "unknown");
    assert_eq!(c.mode, ProviderMode::Static);
}

#[test]
fn a_node_runs_only_when_enrolled_and_terms_confirmed() {
    assert_eq!(Config::default().ensure_runnable(), Err(RunError::MissingEnrollmentToken));
    let c = Config::for_init("tok".into(), "wss://r".into(), "vllm".into(), "http://e".into(), false);
    assert_eq!(c.ensure_runnable(), Err(RunError::TermsNotConfirmed));
    assert_eq!(c.relay_url, "wss://r");
    assert_eq!(c.engine, "vllm");
    assert_eq!(c.engine_url, "http://e");
    assert_eq!(c.input_price, "0.20");
    let c = Config::for_init("tok".into(), "wss://r".into(), "vllm".into(), "http://e".into(), true);
    assert_eq!(c.ensure_runnable(), Ok(()));
    let c = Config::for_init("".into(), "wss://r".into(), "vllm".into(), "http://e".into(), true);
    assert_eq!(c.ensure_runnable(), Err(RunError::MissingEnrollmentToken));
    assert_eq!(
        RunError::TermsNotConfirmed.message(),
        "commercial hosting terms must be confirmed before publishing models"
    );
}

#[test]
fn enrollment_needs_a_hello() {
    assert_eq!(confirm_enrollment(MessageType::Hello), Ok(()));
    assert_eq!(confirm_enrollment(MessageType::Job), Err(SessionError::NotEnrolled));
    assert_eq!(SessionError::NotEnrolled.message(), "relay did not confirm node enrollment");
}

#[test]
fn catalog_publishes_every_model_in_order() {
    let mut config = Config::default();
    config.model_license = "mit".into();
    config.mode = ProviderMode::Dynamic;
    let models = vec![
        DiscoveredModel::from_ollama("A:1".into(), "".into(), "".into(), None),
        DiscoveredModel::from_ollama("b".into(), "fam".into(), "".into(), None),
    ];
    let catalog = build_catalog(models, &config);
    assert_eq!(catalog.models.len(), 2);
    assert_eq!(catalog.models[0].id, "a-1");
    assert_eq!(catalog.models[1].engine_model_id, "b");
    assert_eq!(catalog.models[1].license_id, "mit");
    assert_eq!(catalog.models[1].input_price, "0.20");
    assert_eq!(catalog.models[1].mode, ProviderMode::Dynamic);
}

#[test]
fn only_jobs_with_correlation_ids_are_served() {
    assert_eq!(on_frame(Frame::NonText), FrameStep::Ignore);
    let hb = Frame::Message { kind: MessageType::Heartbeat, correlation_id: Some(1) };
    assert_eq!(on_frame(hb), FrameStep::Ignore);
    let job = Frame::Message { kind: MessageType::Job, correlation_id: Some(42) };
    assert_eq!(on_frame(job), FrameStep::Job(42));
    let bad = Frame::Message { kind: MessageType::Job, correlation_id: None };
    assert_eq!(on_frame(bad), FrameStep::Fail(SessionError::MissingCorrelationId));
}

#[test]
fn one_job_at_a_time_and_never_past_the_cap() {
    let mut s = RelaySession::new();
    assert!(s.accepting(false));
    assert!(!s.accepting(true));
    assert_eq!(s.take_job(true), Err(Rejection::EarningsCapReached));
    assert_eq!(s.active_jobs(), 0);
    assert_eq!(s.take_job(false), Ok(()));
    assert_eq!(s.active_jobs(), 1);
    assert!(!s.accepting(false));
    assert_eq!(s.take_job(false), Err(Rejection::Busy));
    assert_eq!(s.take_job(true), Err(Rejection::EarningsCapReached));
    s.finish();
    assert_eq!(s.active_jobs(), 0);
    assert!(s.accepting(false));
    assert_eq!(Rejection::Busy.message(), "node is busy");
    assert_eq!(Rejection::EarningsCapReached.message(), "monthly earnings cap reached");
}

#[test]
fn heartbeats_report_the_slot() {
    let mut s = RelaySession::new();
    let mut config = Config::default();
    config.engine_url = "http://e".into();
    config.engine_api_key = "secret".into();
    let hb = s.heartbeat(EngineKind::Ollama, &config, "0.000000000".into(), "0.1.0".into(), false);
    assert!(hb.accepting_jobs);
    assert_eq!(hb.active_jobs, 0);
    assert_eq!(hb.engine, "ollama");
    assert_eq!(hb.earned_this_month, "0.000000000");
    s.take_job(false).unwrap();
    let hb = s.heartbeat(EngineKind::OpenAiCompatible, &config, "1".into(), "0.1.0".into(), false);
    assert_eq!(hb.engine, "openai-compatible");
    assert_eq!(hb.engine_url, "http://e");
    assert_eq!(hb.earnings_cap, "50000");
    assert!(!hb.accepting_jobs);
    assert_eq!(hb.active_jobs, 1);
}

#[test]
fn reconnection_backs_off_to_thirty_seconds() {
    let mut b = Backoff::new();
    let waits: Vec<u64> = (0..8).map(|_| b.after_failure()).collect();
    assert_eq!(waits, vec![1, 2, 4, 8, 16, 30, 30, 30]);
}

#[test]
fn a_runnable_node_publishes_only_confirmed_models() {
    let config = Config::for_init("tok".into(), "wss://r".into(), "ollama".into(), "http://e".into(), true);
    assert_eq!(config.ensure_runnable(), Ok(()));
    let models = vec![DiscoveredModel::from_ollama("m".into(), "".into(), "".into(), None)];
    let catalog = build_catalog(models, &config);
    assert!(catalog.models.iter().all(|m| m.commercial_hosting_confirmed && m.ready));
}

#[test]
fn the_relay_is_reached_with_the_enrollment_token() {
    let mut config = Config::default();
    config.enrollment_token = "abc".into();
    config.engine_api_key = "engine-secret".into();
    let target = relay_target(&config).unwrap();
    assert_eq!(target.as_str(), "wss://api.tokens2tokens.com/v1/nodes/connect");
    assert_eq!(authorization_header(&config), "Bearer abc");
    assert!(!authorization_header(&config).contains("engine-secret"));
    config.relay_url = "not a url".into();
    let err = relay_target(&config).unwrap_err();
    assert_eq!(err.cause, url::ParseError::RelativeUrlWithoutBase);
}

#[test]
fn a_job_runs_through_the_session_steps() {
    let mut s = RelaySession::new();
    let job = Frame::Message { kind: MessageType::Job, correlation_id: Some(9) };
    assert!(matches!(s.step(SessionEvent::Frame(job)), SessionAction::ReadJob(9)));
    assert!(matches!(s.step(SessionEvent::JobRead { cap_reached: false }), SessionAction::RunJob));
    assert_eq!(s.active_jobs(), 1);
    match s.step(SessionEvent::JobRead { cap_reached: false }) {
        SessionAction::Reply(JobReply::Failed(m)) => assert_eq!(m, "node is busy"),
        other => panic!("unexpected {other:?}"),
    }
    let result = InferenceResult { content: "hi".into(), prompt_tokens: 3, completion_tokens: 4 };
    match s.step(SessionEvent::EngineDone(Ok(result))) {
        SessionAction::Reply(JobReply::Completed(r)) => assert_eq!(r.content, "hi"),
        other => panic!("unexpected {other:?}"),
    }
    assert_eq!(s.active_jobs(), 0);
    match s.step(SessionEvent::JobRead { cap_reached: true }) {
        SessionAction::Reply(JobReply::Failed(m)) => assert_eq!(m, "monthly earnings cap reached"),
        other => panic!("unexpected {other:?}"),
    }
    assert!(matches!(s.step(SessionEvent::JobRead { cap_reached: false }), SessionAction::RunJob));
    match s.step(SessionEvent::EngineDone(Err("engine down".into()))) {
        SessionAction::Reply(JobReply::Failed(m)) => assert_eq!(m, "engine down"),
        other => panic!("unexpected {other:?}"),
    }
    assert!(matches!(s.step(SessionEvent::Frame(Frame::NonText)), SessionAction::Wait));
    assert!(matches!(s.step(SessionEvent::Interrupted), SessionAction::Close));
    assert!(matches!(s.step(SessionEvent::StreamEnded), SessionAction::End(SessionError::RelayClosed)));
}

#[test]
fn the_run_loop_retries_on_schedule_and_stops_when_stopped() {
    let mut r = Reconnect::new();
    let mut waits = Vec::new();
    for _ in 0..7 {
        match r.after_session(SessionEnd::Failed) {
            RunStep::Retry(secs) => waits.push(secs),
            RunStep::Return => panic!("a failed session is retried"),
        }
    }
    assert_eq!(waits, vec![1, 2, 4, 8, 16, 30, 30]);
    assert_eq!(r.after_session(SessionEnd::Stopped), RunStep::Return);
}
