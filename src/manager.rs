//! The sink slot: at most one registered sink session, its outbound queue and
//! its waiter table, with registration, supersession, acks, liveness ticks,
//! dispatch and cleanup.

use vstd::prelude::*;
use crate::config::ServerConfig;
use crate::error::AppError;
use crate::liveness::{frame_spec, tick_spec, Liveness, TickAction};
use crate::models::{Placement, SinkConnection, SourceInfo, TargetSpec};
use crate::outbound::Outbound;
use crate::platform::reply_channel;
use crate::protocol::{
    is_job_frame, is_ping_frame, is_policy_frame, ping_frame, policy_frame, schema_version_spec,
    schema_version_string, AckResponse, AckStatus, InsertTextPayload, RelayMessage, SinkMessage,
    SCHEMA_VERSION,
};
use crate::text::{clone_texts, same_text, texts};
use crate::waiters::{drain_waiters, drained, ids_of, put_waiter, take_waiter, Resolution, Waiter};
use tokio::sync::mpsc::UnboundedSender;
use tokio::sync::oneshot::Receiver;

verus! {

/// Where a sink session stands.
#[derive(Clone, Copy, Debug, PartialEq, Eq, Structural)]
pub enum Phase {
    /// Connected; no `register` frame yet.
    Init,
    /// Registered; its frames flow through the sink slot.
    Registered,
    /// Shutting down.
    Closing,
}

/// One connection from a sink, as its reader sees it.
pub struct Session {
    pub id: u64,
    pub phase: Phase,
    pub liveness: Liveness,
    /// The session's own outbound queue, until registration hands it to the slot.
    pub outbound: Option<Outbound>,
}

impl Session {
    /// A session that has not registered still holds its own outbound queue,
    /// and nothing has been queued on it yet.
    pub open spec fn wf(&self) -> bool {
        self.phase == Phase::Init ==> (self.outbound matches Some(o) && o.sent().len() == 0)
    }
}

/// The reason given to the waiters of a session that closed.
pub open spec fn disconnected_reason() -> Seq<char> {
    "Sink disconnected"@
}

/// The reason given to the waiters of a session that a new sink displaced.
pub open spec fn superseded_reason() -> Seq<char> {
    "Superseded by new sink"@
}

struct ActiveSink {
    session: u64,
    connection: SinkConnection,
    outbound: Outbound,
    waiters: Vec<Waiter>,
}

/// The registered sink as plain values.
pub struct SlotView {
    /// The session that registered it.
    pub session: u64,
    /// What it advertised on registration.
    pub connection: SinkConnection,
    /// Ids of the jobs waiting for its ack.
    pub waiting: Set<Seq<char>>,
    /// Every frame queued to it, in order.
    pub sent: Seq<RelayMessage>,
}

impl ActiveSink {
    spec fn view(&self) -> SlotView {
        SlotView {
            session: self.session,
            connection: self.connection,
            waiting: ids_of(self.waiters@).to_set(),
            sent: self.outbound.sent(),
        }
    }

    spec fn wf(&self) -> bool {
        ids_of(self.waiters@).no_duplicates()
    }
}

/// Owner of the single sink slot.
pub struct SinkManager {
    active_sink: Option<ActiveSink>,
    config: ServerConfig,
    connected: bool,
    next_session: u64,
}

impl View for SinkManager {
    type V = Option<SlotView>;

    closed spec fn view(&self) -> Option<SlotView> {
        match self.active_sink {
            Some(a) => Some(a.view()),
            None => None,
        }
    }
}

/// The slot is held by session `sid`.
pub open spec fn is_current(slot: Option<SlotView>, sid: u64) -> bool {
    match slot {
        Some(s) => s.session == sid,
        None => false,
    }
}

/// `after` is `before` with one more frame queued, and nothing else changed
/// but possibly the waiters.
pub open spec fn queued_one(before: SlotView, after: SlotView) -> bool {
    &&& after.session == before.session
    &&& after.connection == before.connection
    &&& after.sent.len() == before.sent.len() + 1
    &&& after.sent.subrange(0, before.sent.len() as int) == before.sent
}

/// The tick queued a ping to the registered sink.
pub open spec fn ping_queued(before: Option<SlotView>, after: Option<SlotView>) -> bool {
    match (before, after) {
        (Some(b), Some(a)) => queued_one(b, a) && a.waiting == b.waiting && is_ping_frame(a.sent.last()),
        _ => false,
    }
}

/// The job frame for `id` with the given payload was queued, after a waiter
/// for `id`.
pub open spec fn job_queued(
    before: Option<SlotView>,
    after: Option<SlotView>,
    id: Seq<char>,
    text: Seq<char>,
    placement: Option<Placement>,
    source: SourceInfo,
    target: Option<TargetSpec>,
    metadata: serde_json::Value,
) -> bool {
    match (before, after) {
        (Some(b), Some(a)) => queued_one(b, a) && a.waiting == b.waiting.insert(id) && is_job_frame(
            a.sent.last(),
            id,
            text,
            placement,
            source,
            target,
            metadata,
        ),
        _ => false,
    }
}

/// Session `sid` now holds the slot: it has no waiters and its only frame so
/// far is the policy; the waiters of the sink it displaced, if any, were all
/// answered with `retry` and the supersession reason.
pub open spec fn published(
    before: Option<SlotView>,
    after: Option<SlotView>,
    rs: Seq<Resolution>,
    sid: u64,
    config: ServerConfig,
    capabilities: Vec<String>,
    providers: Vec<String>,
    version: String,
) -> bool {
    match after {
        Some(t) => {
            &&& t.session == sid
            &&& t.waiting == Set::<Seq<char>>::empty()
            &&& t.sent.len() == 1
            &&& is_policy_frame(t.sent[0], config.supersede_on_register, config.max_job_bytes)
            &&& t.connection.capabilities == capabilities
            &&& t.connection.providers == providers
            &&& t.connection.version == version
            &&& match before {
                Some(b) => drained(rs, b.waiting, AckStatus::Retry, superseded_reason()),
                None => rs.len() == 0,
            }
        },
        None => false,
    }
}

/// An ack from session `sid` for `id`: if `id` waits on that session's sink,
/// its waiter is removed and answered with the ack; otherwise nothing happens.
pub open spec fn acked(
    before: Option<SlotView>,
    after: Option<SlotView>,
    sid: u64,
    id: Seq<char>,
    status: AckStatus,
    error: Option<String>,
    rs: Seq<Resolution>,
) -> bool {
    if is_current(before, sid) && before->0.waiting.contains(id) {
        &&& after == Some(SlotView { waiting: before->0.waiting.remove(id), ..before->0 })
        &&& rs.len() == 1
        &&& rs[0].job_id@ == id
        &&& rs[0].response.status == status
        &&& rs[0].response.error == error
    } else {
        after == before && rs.len() == 0
    }
}

/// How a dispatcher's wait for its ack ended.
pub enum WaitOutcome {
    /// The waiter was answered.
    Replied(AckResponse),
    /// The waiter was dropped unanswered.
    Dropped,
    /// The dispatch deadline passed first.
    TimedOut,
}

/// The one result that a dispatch settles with, given how its wait ended.
pub open spec fn settled(outcome: WaitOutcome, timeout_ms: u64) -> Result<AckResponse, AppError> {
    match outcome {
        WaitOutcome::Replied(a) => Ok(a),
        WaitOutcome::Dropped => Err(AppError::NoSink),
        WaitOutcome::TimedOut => Err(AppError::DispatchTimeout { timeout_ms }),
    }
}

/// `after` is `before` with `id` no longer waiting.
pub open spec fn without_waiter(before: Option<SlotView>, after: Option<SlotView>, id: Seq<char>) -> bool {
    match before {
        Some(b) => after == Some(SlotView { waiting: b.waiting.remove(id), ..b }),
        None => after is None,
    }
}

impl SinkManager {
    /// The slot and the fast "is a sink registered" flag agree, and no job id
    /// waits twice.
    pub closed spec fn wf(&self) -> bool {
        &&& self.connected == self.active_sink is Some
        &&& self.active_sink matches Some(a) ==> a.wf()
    }

    /// The configuration the manager runs with.
    pub closed spec fn settings(&self) -> ServerConfig {
        self.config
    }

    pub fn config(&self) -> (r: &ServerConfig)
        ensures
            *r == self.settings(),
    {
        &self.config
    }

    /// A further session can be opened.
    pub closed spec fn can_open(&self) -> bool {
        self.next_session < u64::MAX
    }

    pub fn new(config: ServerConfig) -> (r: Self)
        ensures
            r.wf(),
            r@ is None,
            r.settings() == config,
            r.can_open(),
    {
        SinkManager { active_sink: None, config, connected: false, next_session: 0 }
    }

    /// Whether a sink is registered.
    pub fn has_active_sink(&self) -> (r: bool)
        requires
            self.wf(),
        ensures
            r == self@ is Some,
    {
        self.connected
    }

    /// The providers that the registered sink advertised.
    pub fn providers(&self) -> (r: Option<Vec<String>>)
        ensures
            match self@ {
                Some(s) => r matches Some(v) && texts(v@) == texts(s.connection.providers@),
                None => r is None,
            },
    {
        match &self.active_sink {
            Some(a) => Some(clone_texts(&a.connection.providers)),
            None => None,
        }
    }

    /// Starts a session for a new connection whose frames go out on `outbound`.
    pub fn open_session(&mut self, outbound: UnboundedSender<RelayMessage>) -> (r: Option<Session>)
        requires
            old(self).wf(),
        ensures
            final(self).wf(),
            final(self)@ == old(self)@,
            final(self).settings() == old(self).settings(),
            r is Some <==> old(self).can_open(),
            r matches Some(s) ==> s.wf() && s.phase == Phase::Init && !s.liveness.awaiting_pong
                && s.liveness.missed_pings == 0,
    {
        if self.next_session == u64::MAX {
            return None;
        }
        let id = self.next_session;
        self.next_session = self.next_session + 1;
        Some(Session { id, phase: Phase::Init, liveness: Liveness::new(), outbound: Some(Outbound::new(outbound)) })
    }
    /// Queues job `job_id` to the registered sink, registering the waiter for
    /// its ack first, and hands back the receiving end of that waiter. Fails with
    /// `NoSink` when no sink is registered or its queue has closed.
    pub fn dispatch_job(
        &mut self,
        job_id: String,
        text: String,
        placement: Option<Placement>,
        source: SourceInfo,
        target: Option<TargetSpec>,
        metadata: serde_json::Value,
    ) -> (r: Result<Receiver<AckResponse>, AppError>)
        requires
            old(self).wf(),
        ensures
            final(self).wf(),
            final(self).settings() == old(self).settings(),
            final(self).can_open() == old(self).can_open(),
            r is Ok ==> job_queued(old(self)@, final(self)@, job_id@, text@, placement, source, target, metadata),
            r is Err ==> r matches Err(AppError::NoSink),
            r is Err ==> without_waiter(old(self)@, final(self)@, job_id@),
            old(self)@ is None ==> r is Err,
    {
        let mut sink = match self.active_sink.take() {
            Some(s) => s,
            None => {
                return Err(AppError::NoSink);
            },
        };
        let ghost before = sink.view();
        let (reply, receiver) = reply_channel();
        put_waiter(&mut sink.waiters, job_id.clone(), reply);
        let frame = RelayMessage::InsertText {
            schema_version: schema_version_string(),
            id: job_id.clone(),
            payload: InsertTextPayload { text, placement, source, target, metadata },
        };
        if sink.outbound.push(frame) {
            proof {
                assert(sink.view().sent.subrange(0, before.sent.len() as int) =~= before.sent);
            }
            self.active_sink = Some(sink);
            Ok(receiver)
        } else {
            let _ = take_waiter(&mut sink.waiters, job_id.as_str());
            proof {
                assert(sink.view().waiting =~= before.waiting.remove(job_id@));
            }
            self.active_sink = Some(sink);
            Err(AppError::NoSink)
        }
    }

    /// Drops the waiter for `job_id`, if the registered sink holds one.
    fn forget_waiter(&mut self, job_id: &str)
        requires
            old(self).wf(),
        ensures
            final(self).wf(),
            final(self).settings() == old(self).settings(),
            final(self).can_open() == old(self).can_open(),
            without_waiter(old(self)@, final(self)@, job_id@),
    {
        match self.active_sink.take() {
            Some(mut sink) => {
                let _ = take_waiter(&mut sink.waiters, job_id);
                self.active_sink = Some(sink);
            },
            None => {},
        }
    }

    /// Ends a dispatch: the waiter for `job_id` is gone in every case, and the
    /// outcome becomes the job's one result: the ack, `NoSink` when the session
    /// went away unanswered, or `DispatchTimeout` after the deadline.
    pub fn finish_dispatch(&mut self, job_id: &str, outcome: WaitOutcome) -> (r: Result<AckResponse, AppError>)
        requires
            old(self).wf(),
        ensures
            final(self).wf(),
            final(self).settings() == old(self).settings(),
            final(self).can_open() == old(self).can_open(),
            without_waiter(old(self)@, final(self)@, job_id@),
            r == settled(outcome, old(self).settings().dispatch_timeout_ms),
    {
        self.forget_waiter(job_id);
        match outcome {
            WaitOutcome::Replied(a) => Ok(a),
            WaitOutcome::Dropped => Err(AppError::NoSink),
            WaitOutcome::TimedOut => Err(AppError::DispatchTimeout { timeout_ms: self.config.dispatch_timeout_ms }),
        }
    }

    fn refuse(reason: &str) -> (r: Result<Vec<Resolution>, AppError>)
        ensures
            r matches Err(AppError::SinkRegistrationFailed { .. }),
    {
        Err(AppError::SinkRegistrationFailed { reason: String::from_str(reason) })
    }

    fn register(
        &mut self,
        session: &mut Session,
        schema_version: String,
        version: String,
        capabilities: Vec<String>,
        providers: Vec<String>,
    ) -> (r: Result<Vec<Resolution>, AppError>)
        requires
            old(self).wf(),
            old(session).wf(),
        ensures
            final(self).wf(),
            final(session).wf(),
            final(self).settings() == old(self).settings(),
            final(self).can_open() == old(self).can_open(),
            final(session).id == old(session).id,
            final(session).liveness == old(session).liveness,
            r is Err ==> final(self)@ == old(self)@ && final(session).phase == old(session).phase
                && final(session).outbound == old(session).outbound
                && r matches Err(AppError::SinkRegistrationFailed { .. }),
            old(session).phase != Phase::Init || schema_version@ != schema_version_spec() || (
            old(self)@ is Some && !old(self).settings().supersede_on_register) ==> r is Err,
            r is Ok ==> final(session).outbound is None,
            r matches Ok(rs) ==> final(session).phase == Phase::Registered && published(
                old(self)@,
                final(self)@,
                rs@,
                old(session).id,
                old(self).settings(),
                capabilities,
                providers,
                version,
            ),
    {
        if session.phase != Phase::Init {
            return Self::refuse("Sink is already registered on this connection");
        }
        if !same_text(schema_version.as_str(), SCHEMA_VERSION) {
            let mut reason = String::from_str("Unsupported schema version: ");
            reason.append(schema_version.as_str());
            return Err(AppError::SinkRegistrationFailed { reason });
        }
        if self.active_sink.is_some() && !self.config.supersede_on_register {
            return Self::refuse("A sink is already registered");
        }
        let mut outbound = match session.outbound.take() {
            Some(o) => o,
            None => {
                return Self::refuse("Sink is already registered on this connection");
            },
        };
        let policy = policy_frame(self.config.supersede_on_register, self.config.max_job_bytes);
        let ghost first = policy;
        if !outbound.push(policy) {
            session.outbound = Some(outbound);
            return Self::refuse("Failed to deliver policy");
        }
        let resolutions = match self.active_sink.take() {
            Some(prior) => drain_waiters(prior.waiters, AckStatus::Retry, "Superseded by new sink"),
            None => Vec::new(),
        };
        let connection = SinkConnection::new(capabilities, providers, version);
        proof {
            assert(outbound.sent() =~= seq![first]);
        }
        let sink = ActiveSink {
            session: session.id,
            connection,
            outbound,
            waiters: Vec::new(),
        };
        proof {
            assert(ids_of(sink.waiters@).to_set() =~= Set::<Seq<char>>::empty());
        }
        self.active_sink = Some(sink);
        self.connected = true;
        session.phase = Phase::Registered;
        Ok(resolutions)
    }

    fn ack(&mut self, session: &Session, id: String, status: AckStatus, error: Option<String>) -> (r: Vec<Resolution>)
        requires
            old(self).wf(),
        ensures
            final(self).wf(),
            final(self).settings() == old(self).settings(),
            final(self).can_open() == old(self).can_open(),
            acked(old(self)@, final(self)@, session.id, id@, status, error, r@),
    {
        let mut rs: Vec<Resolution> = Vec::new();
        let taken = match self.active_sink.take() {
            Some(mut sink) => {
                if sink.session == session.id {
                    let t = take_waiter(&mut sink.waiters, id.as_str());
                    self.active_sink = Some(sink);
                    t
                } else {
                    self.active_sink = Some(sink);
                    None
                }
            },
            None => None,
        };
        match taken {
            Some(reply) => {
                let copy = match &error {
                    Some(e) => Some(e.clone()),
                    None => None,
                };
                crate::platform::fulfil(reply, AckResponse { status, error: copy });
                rs.push(Resolution { job_id: id, response: AckResponse { status, error } });
            },
            None => {
                proof {
                    if is_current(old(self)@, session.id) {
                        assert(old(self)@->0.waiting.remove(id@) =~= old(self)@->0.waiting);
                    }
                }
            },
        }
        rs
    }

    /// Handles a frame from the sink of `session` that arrived at `now_ms`.
    /// A `register` is accepted only as the session's first frame, with the
    /// current schema version, and when the slot is free or supersession is on;
    /// then the policy frame is queued before anything else, the displaced
    /// sink's waiters are answered, and the session takes the slot. An `ack`
    /// answers the waiter of its job id, if there is one on this session's sink.
    /// A `pong` clears the outstanding ping. Any accepted frame inside the pong
    /// window counts as the answer to the outstanding ping. An error means the
    /// session must close.
    pub fn handle_sink_message(&mut self, session: &mut Session, message: SinkMessage, now_ms: u64) -> (r: Result<Vec<Resolution>, AppError>)
        requires
            old(self).wf(),
            old(session).wf(),
        ensures
            final(self).wf(),
            final(session).wf(),
            final(self).settings() == old(self).settings(),
            final(self).can_open() == old(self).can_open(),
            final(session).id == old(session).id,
            r is Err ==> final(self)@ == old(self)@ && final(session).phase == old(session).phase
                && final(session).liveness == old(session).liveness
                && final(session).outbound == old(session).outbound
                && r matches Err(AppError::SinkRegistrationFailed { .. }),
            !(message is Register) ==> final(session).outbound == old(session).outbound,
            match message {
                SinkMessage::Register { schema_version, version, capabilities, providers } => {
                    &&& (old(session).phase != Phase::Init || schema_version@ != schema_version_spec() || (
                    old(self)@ is Some && !old(self).settings().supersede_on_register) ==> r is Err)
                    &&& (r is Ok ==> final(session).outbound is None)
                    &&& (r matches Ok(rs) ==> final(session).phase == Phase::Registered && published(
                        old(self)@,
                        final(self)@,
                        rs@,
                        old(session).id,
                        old(self).settings(),
                        capabilities,
                        providers,
                        version,
                    ) && final(session).liveness == frame_spec(
                        old(session).liveness,
                        now_ms,
                        old(self).settings().websocket_pong_timeout_ms,
                    ))
                },
                SinkMessage::Ack { id, status, error, .. } => if old(session).phase != Phase::Registered {
                    r is Err
                } else {
                    &&& r matches Ok(rs) && acked(old(self)@, final(self)@, old(session).id, id@, status, error, rs@)
                    &&& final(session).phase == old(session).phase
                    &&& final(session).liveness == frame_spec(
                        old(session).liveness,
                        now_ms,
                        old(self).settings().websocket_pong_timeout_ms,
                    )
                },
                SinkMessage::Pong { .. } => if old(session).phase != Phase::Registered {
                    r is Err
                } else {
                    &&& r matches Ok(rs) && rs@.len() == 0
                    &&& final(self)@ == old(self)@
                    &&& final(session).phase == old(session).phase
                    &&& !final(session).liveness.awaiting_pong
                    &&& final(session).liveness.missed_pings == 0
                },
            },
    {
        match message {
            SinkMessage::Register { schema_version, version, capabilities, providers } => {
                let r = self.register(session, schema_version, version, capabilities, providers);
                if r.is_ok() {
                    session.liveness.on_frame(now_ms, self.config.websocket_pong_timeout_ms);
                }
                r
            },
            SinkMessage::Ack { id, status, error, .. } => {
                if session.phase != Phase::Registered {
                    return Self::refuse("Expected a register frame first");
                }
                let rs = self.ack(session, id, status, error);
                session.liveness.on_frame(now_ms, self.config.websocket_pong_timeout_ms);
                Ok(rs)
            },
            SinkMessage::Pong { .. } => {
                if session.phase != Phase::Registered {
                    return Self::refuse("Expected a register frame first");
                }
                session.liveness.on_pong();
                Ok(Vec::new())
            },
        }
    }

    /// A tick of the ping timer of `session` at `now_ms`. Only a registered
    /// session that still holds the slot pings; one that lost the slot is told
    /// to close. A ping that cannot be queued closes the session too.
    pub fn on_tick(&mut self, session: &mut Session, now_ms: u64) -> (r: TickAction)
        requires
            old(self).wf(),
            old(session).wf(),
        ensures
            final(self).wf(),
            final(session).wf(),
            final(self).settings() == old(self).settings(),
            final(self).can_open() == old(self).can_open(),
            final(session).id == old(session).id,
            final(session).phase == old(session).phase,
            old(session).phase != Phase::Registered ==> r == TickAction::Idle && final(self)@ == old(self)@
                && final(session).liveness == old(session).liveness,
            old(session).phase == Phase::Registered && !is_current(old(self)@, old(session).id) ==> r
                == TickAction::Close && final(self)@ == old(self)@,
            old(session).phase == Phase::Registered && is_current(old(self)@, old(session).id) ==> {
                let (next, action) = tick_spec(
                    old(session).liveness,
                    now_ms,
                    old(self).settings().websocket_pong_timeout_ms,
                    old(self).settings().websocket_max_missed_pings,
                );
                &&& final(session).liveness == next
                &&& action == TickAction::Idle ==> r == TickAction::Idle && final(self)@ == old(self)@
                &&& action == TickAction::Close ==> r == TickAction::Close && final(self)@ == old(self)@
                &&& action == TickAction::SendPing ==> (r == TickAction::SendPing && ping_queued(
                    old(self)@,
                    final(self)@,
                )) || (r == TickAction::Close && final(self)@ == old(self)@)
            },
    {
        if session.phase != Phase::Registered {
            return TickAction::Idle;
        }
        let mut sink = match self.active_sink.take() {
            Some(s) => s,
            None => {
                return TickAction::Close;
            },
        };
        if sink.session != session.id {
            self.active_sink = Some(sink);
            return TickAction::Close;
        }
        let action = session.liveness.tick(
            now_ms,
            self.config.websocket_pong_timeout_ms,
            self.config.websocket_max_missed_pings,
        );
        let ghost before = sink.view();
        let r = match action {
            TickAction::SendPing => {
                let ping = ping_frame();
                if sink.outbound.push(ping) {
                    proof {
                        assert(sink.view().sent.subrange(0, before.sent.len() as int) =~= before.sent);
                    }
                    TickAction::SendPing
                } else {
                    TickAction::Close
                }
            },
            other => other,
        };
        self.active_sink = Some(sink);
        r
    }

    /// Ends `session`: if it holds the slot, the slot is emptied and every
    /// waiter of its sink is answered with `retry` and "Sink disconnected".
    /// Its outbound queue is released either way.
    pub fn close_session(&mut self, session: &mut Session) -> (r: Vec<Resolution>)
        requires
            old(self).wf(),
        ensures
            final(self).wf(),
            final(session).wf(),
            final(self).settings() == old(self).settings(),
            final(self).can_open() == old(self).can_open(),
            final(session).id == old(session).id,
            final(session).phase == Phase::Closing,
            final(session).outbound is None,
            is_current(old(self)@, old(session).id) ==> final(self)@ is None && drained(
                r@,
                old(self)@->0.waiting,
                AckStatus::Retry,
                disconnected_reason(),
            ),
            !is_current(old(self)@, old(session).id) ==> final(self)@ == old(self)@ && r@.len() == 0,
    {
        session.outbound = None;
        session.phase = Phase::Closing;
        match self.active_sink.take() {
            Some(sink) => {
                if sink.session == session.id {
                    self.connected = false;
                    drain_waiters(sink.waiters, AckStatus::Retry, "Sink disconnected")
                } else {
                    self.active_sink = Some(sink);
                    Vec::new()
                }
            },
            None => Vec::new(),
        }
    }
}

} // verus!
