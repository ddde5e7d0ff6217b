use promptivd::config::ServerConfig;
use promptivd::error::AppError;
use promptivd::ingress::job_reply;
use promptivd::liveness::TickAction;
use promptivd::manager::{Phase, Session, SinkManager, WaitOutcome};
use promptivd::models::{InsertTextRequest, Placement, SessionDirective, SourceInfo, TargetSpec};
use promptivd::protocol::{AckStatus, RelayMessage, SinkMessage};
use tokio::sync::mpsc::{unbounded_channel, UnboundedReceiver};

fn register_frame() -> SinkMessage {
    SinkMessage::Register {
        schema_version: "1.0".to_string(),
        version: "1.0.0".to_string(),
        capabilities: vec!["append".to_string()],
        providers: vec![],
    }
}

fn request(text: &str) -> InsertTextRequest {
    InsertTextRequest {
        schema_version: "1.0".to_string(),
        source: SourceInfo { client: "cli".to_string(), label: None, path: None },
        text: text.to_string(),
        placement: None,
        target: None,
        metadata: serde_json::Value::Null,
    }
}

fn connect(m: &mut SinkManager) -> (Session, UnboundedReceiver<RelayMessage>) {
    let (tx, rx) = unbounded_channel();
    (m.open_session(tx).unwrap(), rx)
}

fn registered(m: &mut SinkManager) -> (Session, UnboundedReceiver<RelayMessage>) {
    let (mut s, mut rx) = connect(m);
    let r = m.handle_sink_message(&mut s, register_frame(), 0).unwrap();
    assert!(r.is_empty());
    assert!(matches!(rx.try_recv(), Ok(RelayMessage::Policy { .. })));
    (s, rx)
}

#[test]
fn happy_path_delivers_and_acks() {
    let mut m = SinkManager::new(ServerConfig::default());
    let (mut s, mut rx) = connect(&mut m);
    m.handle_sink_message(&mut s, register_frame(), 0).unwrap();
    assert_eq!(s.phase, Phase::Registered);
    assert!(m.has_active_sink());
    match rx.try_recv() {
        Ok(RelayMessage::Policy { schema_version, supersede_on_register, max_job_bytes }) => {
            assert_eq!(schema_version, "1.0");
            assert!(supersede_on_register);
            assert_eq!(max_job_bytes, 128 * 1024);
        }
        other => panic!("first frame was not the policy: {:?}", other),
    }

    let mut pending = m.submit_job(request("hi"), 80).unwrap();
    let id = match rx.try_recv() {
        Ok(RelayMessage::InsertText { id, payload, .. }) => {
            assert_eq!(payload.text, "hi");
            id
        }
        other => panic!("expected a job frame: {:?}", other),
    };
    assert_eq!(id, pending.job_id);
    assert_eq!(id.len(), 36);

    let ack = SinkMessage::Ack { schema_version: "1.0".to_string(), id: id.clone(), status: AckStatus::Success, error: None };
    let resolved = m.handle_sink_message(&mut s, ack, 10).unwrap();
    assert_eq!(resolved.len(), 1);
    assert_eq!(resolved[0].job_id, id);

    let response = pending.reply.try_recv().unwrap();
    let outcome = m.finish_dispatch(&id, WaitOutcome::Replied(response));
    let reply = job_reply(&id, &outcome);
    assert_eq!(reply.status_code, 200);
    assert_eq!(reply.job_id.as_deref(), Some(id.as_str()));
    assert_eq!(reply.status.as_deref(), Some("ok"));
    assert_eq!(reply.error, None);
}

#[test]
fn no_sink_required_gives_503() {
    let mut config = ServerConfig::default();
    config.require_sink = true;
    let mut m = SinkManager::new(config);
    let outcome = m.submit_job(request("hi"), 80).map(|_| ());
    let err = outcome.unwrap_err();
    assert!(matches!(err, AppError::NoSink));
    let reply = job_reply("", &Err(err));
    assert_eq!(reply.status_code, 503);
    assert_eq!(reply.error.as_deref(), Some("No sink connected"));
}

#[test]
fn timeout_gives_504_and_removes_waiter() {
    let mut config = ServerConfig::default();
    config.dispatch_timeout_ms = 2000;
    let mut m = SinkManager::new(config);
    let (mut s, mut rx) = registered(&mut m);
    let mut pending = m.submit_job(request("hi"), 80).unwrap();
    assert!(matches!(rx.try_recv(), Ok(RelayMessage::InsertText { .. })));
    let outcome = m.finish_dispatch(&pending.job_id, WaitOutcome::TimedOut);
    let reply = job_reply(&pending.job_id, &outcome);
    assert_eq!(reply.status_code, 504);
    assert_eq!(reply.error.as_deref(), Some("Job dispatch timeout after 2000ms"));
    // the waiter is gone: its channel is closed and a late ack finds nothing
    assert!(pending.reply.try_recv().is_err());
    let late = SinkMessage::Ack { schema_version: "1.0".to_string(), id: pending.job_id.clone(), status: AckStatus::Success, error: None };
    assert!(m.handle_sink_message(&mut s, late, 3000).unwrap().is_empty());
}

#[test]
fn supersede_answers_old_waiters_with_retry() {
    let mut m = SinkManager::new(ServerConfig::default());
    let (mut a, mut rx_a) = registered(&mut m);
    let mut pending = m.submit_job(request("slow"), 80).unwrap();
    assert!(matches!(rx_a.try_recv(), Ok(RelayMessage::InsertText { .. })));

    let (mut b, mut rx_b) = connect(&mut m);
    let resolved = m.handle_sink_message(&mut b, register_frame(), 5).unwrap();
    assert_eq!(resolved.len(), 1);
    assert_eq!(resolved[0].job_id, pending.job_id);
    assert!(matches!(rx_b.try_recv(), Ok(RelayMessage::Policy { .. })));

    let response = pending.reply.try_recv().unwrap();
    assert_eq!(response.status, AckStatus::Retry);
    assert_eq!(response.error.as_deref(), Some("Superseded by new sink"));
    let outcome = m.finish_dispatch(&pending.job_id, WaitOutcome::Replied(response));
    let reply = job_reply(&pending.job_id, &outcome);
    assert_eq!(reply.status_code, 502);
    assert_eq!(reply.status.as_deref(), Some("retry"));
    assert_eq!(reply.error.as_deref(), Some("Superseded by new sink"));

    // sink A's queue has no sender left: its channel closes
    assert!(matches!(rx_a.try_recv(), Err(tokio::sync::mpsc::error::TryRecvError::Disconnected)));
    // and A's next tick tells it to close, without touching B's slot
    assert_eq!(m.on_tick(&mut a, 1000), TickAction::Close);
    assert!(m.close_session(&mut a).is_empty());
    assert!(m.has_active_sink());
}

#[test]
fn supersede_disabled_refuses_second_sink() {
    let mut config = ServerConfig::default();
    config.supersede_on_register = false;
    let mut m = SinkManager::new(config);
    let (_a, _rx_a) = registered(&mut m);
    let (mut b, mut rx_b) = connect(&mut m);
    let r = m.handle_sink_message(&mut b, register_frame(), 0);
    assert!(matches!(r, Err(AppError::SinkRegistrationFailed { .. })));
    assert!(rx_b.try_recv().is_err());
    assert_eq!(b.phase, Phase::Init);
}

#[test]
fn liveness_failure_closes_and_drains() {
    let mut config = ServerConfig::default();
    config.websocket_ping_interval_ms = 1000;
    config.websocket_pong_timeout_ms = 500;
    config.websocket_max_missed_pings = 2;
    let mut m = SinkManager::new(config);
    let (mut s, mut rx) = registered(&mut m);
    let mut pending = m.submit_job(request("hi"), 80).unwrap();
    assert!(matches!(rx.try_recv(), Ok(RelayMessage::InsertText { .. })));

    assert_eq!(m.on_tick(&mut s, 1000), TickAction::SendPing);
    assert!(matches!(rx.try_recv(), Ok(RelayMessage::Ping { .. })));
    assert_eq!(m.on_tick(&mut s, 1200), TickAction::Idle);
    assert!(rx.try_recv().is_err());
    assert_eq!(m.on_tick(&mut s, 1500), TickAction::SendPing);
    assert_eq!(s.liveness.missed_pings, 1);
    assert_eq!(m.on_tick(&mut s, 2000), TickAction::Close);

    let resolved = m.close_session(&mut s);
    assert_eq!(resolved.len(), 1);
    assert!(!m.has_active_sink());
    let response = pending.reply.try_recv().unwrap();
    assert_eq!(response.status, AckStatus::Retry);
    assert_eq!(response.error.as_deref(), Some("Sink disconnected"));
}

#[test]
fn pong_resets_missed_pings() {
    let mut config = ServerConfig::default();
    config.websocket_pong_timeout_ms = 500;
    config.websocket_max_missed_pings = 3;
    let mut m = SinkManager::new(config);
    let (mut s, _rx) = registered(&mut m);
    assert_eq!(m.on_tick(&mut s, 1000), TickAction::SendPing);
    assert_eq!(m.on_tick(&mut s, 1600), TickAction::SendPing);
    assert_eq!(s.liveness.missed_pings, 1);
    let pong = SinkMessage::Pong { schema_version: "1.0".to_string() };
    assert!(m.handle_sink_message(&mut s, pong, 1700).unwrap().is_empty());
    assert_eq!(s.liveness.missed_pings, 0);
    assert!(!s.liveness.awaiting_pong);
}

#[test]
fn any_frame_in_the_pong_window_counts_as_answer() {
    let mut config = ServerConfig::default();
    config.websocket_pong_timeout_ms = 500;
    let mut m = SinkManager::new(config);
    let (mut s, _rx) = registered(&mut m);
    assert_eq!(m.on_tick(&mut s, 1000), TickAction::SendPing);
    let stray = SinkMessage::Ack { schema_version: "1.0".to_string(), id: "nobody".to_string(), status: AckStatus::Failed, error: None };
    assert!(m.handle_sink_message(&mut s, stray, 1400).unwrap().is_empty());
    assert!(!s.liveness.awaiting_pong);
}

#[test]
fn ack_for_unknown_id_changes_nothing() {
    let mut m = SinkManager::new(ServerConfig::default());
    let (mut s, _rx) = registered(&mut m);
    let mut pending = m.submit_job(request("hi"), 80).unwrap();
    let stray = SinkMessage::Ack { schema_version: "1.0".to_string(), id: "unknown".to_string(), status: AckStatus::Success, error: None };
    assert!(m.handle_sink_message(&mut s, stray, 1).unwrap().is_empty());
    assert!(matches!(pending.reply.try_recv(), Err(tokio::sync::oneshot::error::TryRecvError::Empty)));
}

#[test]
fn first_frame_must_be_register() {
    let mut m = SinkManager::new(ServerConfig::default());
    let (mut s, mut rx) = connect(&mut m);
    let pong = SinkMessage::Pong { schema_version: "1.0".to_string() };
    assert!(matches!(m.handle_sink_message(&mut s, pong, 0), Err(AppError::SinkRegistrationFailed { .. })));
    assert!(!m.has_active_sink());
    assert!(m.close_session(&mut s).is_empty());
    assert!(matches!(rx.try_recv(), Err(tokio::sync::mpsc::error::TryRecvError::Disconnected)));
}

#[test]
fn register_with_wrong_schema_is_refused() {
    let mut m = SinkManager::new(ServerConfig::default());
    let (mut s, mut rx) = connect(&mut m);
    let frame = SinkMessage::Register { schema_version: "2.0".to_string(), version: "x".to_string(), capabilities: vec![], providers: vec![] };
    assert!(matches!(m.handle_sink_message(&mut s, frame, 0), Err(AppError::SinkRegistrationFailed { .. })));
    assert!(rx.try_recv().is_err());
    assert!(!m.has_active_sink());
}

#[test]
fn retry_and_failed_acks_reach_the_submitter() {
    let mut m = SinkManager::new(ServerConfig::default());
    let (mut s, _rx) = registered(&mut m);
    let mut pending = m.submit_job(request("hi"), 80).unwrap();
    let ack = SinkMessage::Ack {
        schema_version: "1.0".to_string(),
        id: pending.job_id.clone(),
        status: AckStatus::Failed,
        error: Some("boom".to_string()),
    };
    m.handle_sink_message(&mut s, ack, 1).unwrap();
    let response = pending.reply.try_recv().unwrap();
    let outcome = m.finish_dispatch(&pending.job_id, WaitOutcome::Replied(response));
    let reply = job_reply(&pending.job_id, &outcome);
    assert_eq!(reply.status_code, 502);
    assert_eq!(reply.status.as_deref(), Some("failed"));
    assert_eq!(reply.error.as_deref(), Some("boom"));
}

#[test]
fn dropped_waiter_reports_no_sink() {
    let mut m = SinkManager::new(ServerConfig::default());
    let outcome = m.finish_dispatch("job", WaitOutcome::Dropped);
    assert!(matches!(outcome, Err(AppError::NoSink)));
}

#[test]
fn providers_follow_the_registered_sink() {
    let mut m = SinkManager::new(ServerConfig::default());
    assert!(m.providers().is_none());
    let (tx, _rx) = unbounded_channel();
    let mut s = m.open_session(tx).unwrap();
    let frame = SinkMessage::Register {
        schema_version: "1.0".to_string(),
        version: "1.0.0".to_string(),
        capabilities: vec!["insert".to_string()],
        providers: vec!["alpha".to_string(), "beta".to_string()],
    };
    m.handle_sink_message(&mut s, frame, 0).unwrap();
    assert_eq!(m.providers(), Some(vec!["alpha".to_string(), "beta".to_string()]));
}

#[test]
fn job_frame_carries_the_whole_payload() {
    let mut m = SinkManager::new(ServerConfig::default());
    let (_s, mut rx) = registered(&mut m);
    let mut metadata = serde_json::Map::new();
    metadata.insert("key".to_string(), serde_json::Value::String("value".to_string()));
    let mut r = request("test content");
    r.placement = Some(Placement::Bottom);
    r.source = SourceInfo { client: "cli".to_string(), label: Some("CLI".to_string()), path: Some("/tmp/file".to_string()) };
    r.target = Some(TargetSpec { provider: Some("alpha".to_string()), session_directive: Some(SessionDirective::ReuseOrCreate) });
    r.metadata = serde_json::Value::Object(metadata.clone());
    let pending = m.submit_job(r, 200).unwrap();
    match rx.try_recv() {
        Ok(RelayMessage::InsertText { schema_version, id, payload }) => {
            assert_eq!(schema_version, "1.0");
            assert_eq!(id, pending.job_id);
            assert_eq!(payload.text, "test content");
            assert_eq!(payload.placement, Some(Placement::Bottom));
            assert_eq!(payload.source.client, "cli");
            assert_eq!(payload.source.label.as_deref(), Some("CLI"));
            assert_eq!(payload.source.path.as_deref(), Some("/tmp/file"));
            let target = payload.target.expect("target kept");
            assert_eq!(target.provider.as_deref(), Some("alpha"));
            assert_eq!(target.session_directive, Some(SessionDirective::ReuseOrCreate));
            assert_eq!(payload.metadata, serde_json::Value::Object(metadata));
        }
        other => panic!("expected a job frame: {:?}", other),
    }
}

#[test]
fn refused_register_queues_nothing() {
    let mut config = ServerConfig::default();
    config.supersede_on_register = false;
    let mut m = SinkManager::new(config);
    let (_a, _rx_a) = registered(&mut m);
    let (mut b, mut rx_b) = connect(&mut m);
    assert!(m.handle_sink_message(&mut b, register_frame(), 0).is_err());
    assert!(matches!(rx_b.try_recv(), Err(tokio::sync::mpsc::error::TryRecvError::Empty)));
    m.close_session(&mut b);
    assert!(b.outbound.is_none());
    assert!(matches!(rx_b.try_recv(), Err(tokio::sync::mpsc::error::TryRecvError::Disconnected)));
}
