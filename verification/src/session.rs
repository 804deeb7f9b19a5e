//! The decisions of a node's relay session: enrollment, catalog, heartbeats, job
//! admission, and the pause before reconnecting.

use vstd::prelude::*;
use crate::config::{run_check, Config};
use crate::connectors::{catalogued, parse_url, parsed_url, DiscoveredModel, EngineKind, InferenceResult};
use crate::protocol::{Catalog, CatalogModel, Heartbeat, MessageType};
use crate::text::owned;

verus! {

/// Why a relay session ends with an error.
#[derive(Clone, Copy, Debug, PartialEq, Eq, Structural)]
pub enum SessionError {
    /// The relay's first message was not a `hello`.
    NotEnrolled,
    /// A job arrived without a correlation id.
    MissingCorrelationId,
    /// The relay ended the stream.
    RelayClosed,
}

impl SessionError {
    /// The text of the error.
    pub fn message(&self) -> (r: String)
        ensures
            r@ == match self {
                SessionError::NotEnrolled => "relay did not confirm node enrollment"@,
                SessionError::MissingCorrelationId => "job has no correlation id"@,
                SessionError::RelayClosed => "relay closed the connection"@,
            },
    {
        match self {
            SessionError::NotEnrolled => owned("relay did not confirm node enrollment"),
            SessionError::MissingCorrelationId => owned("job has no correlation id"),
            SessionError::RelayClosed => owned("relay closed the connection"),
        }
    }
}

/// The relay URL of a configuration does not parse; holds the parser's reason.
#[derive(Clone, Copy, Debug)]
pub struct InvalidRelayUrl {
    pub cause: url::ParseError,
}

/// The relay endpoint a node connects to: its configured relay URL, parsed.
pub fn relay_target(config: &Config) -> (r: Result<url::Url, InvalidRelayUrl>)
    ensures
        match r {
            Ok(u) => parsed_url(config.relay_url@) == Ok::<url::Url, url::ParseError>(u),
            Err(e) => parsed_url(config.relay_url@) == Err::<url::Url, url::ParseError>(e.cause),
        },
{
    match parse_url(config.relay_url.as_str()) {
        Ok(u) => Ok(u),
        Err(cause) => Err(InvalidRelayUrl { cause }),
    }
}

/// The `authorization` header a node presents to the relay: its enrollment token as a bearer token.
pub open spec fn authorization(config: Config) -> Seq<char> {
    "Bearer "@ + config.enrollment_token@
}

/// The value of the `authorization` header for the relay.
pub fn authorization_header(config: &Config) -> (r: String)
    ensures
        r@ == authorization(*config),
{
    let mut r = owned("Bearer ");
    r.append(config.enrollment_token.as_str());
    r
}

/// `c1` and `c2` differ at most in the engine's key.
pub open spec fn same_but_engine_key(c1: Config, c2: Config) -> bool {
    &&& c1.relay_url == c2.relay_url
    &&& c1.enrollment_token == c2.enrollment_token
    &&& c1.engine == c2.engine
    &&& c1.engine_url == c2.engine_url
    &&& c1.input_price == c2.input_price
    &&& c1.output_price == c2.output_price
    &&& c1.monthly_earnings_cap == c2.monthly_earnings_cap
    &&& c1.commercial_hosting_confirmed == c2.commercial_hosting_confirmed
    &&& c1.model_license == c2.model_license
    &&& c1.mode == c2.mode
}

/// The engine's key never reaches the relay: whether the node may go online, where it
/// connects, how it authenticates, what it publishes and what its heartbeats report are the
/// same for two configurations that differ only in the engine's key. (Job replies carry only
/// what the engine answered.)
pub proof fn lemma_engine_key_stays_local(
    c1: Config,
    c2: Config,
    m: DiscoveredModel,
    e: CatalogModel,
    h: Heartbeat,
    busy: bool,
    engine: EngineKind,
    earned: String,
    version: String,
    cap_reached: bool,
)
    requires
        same_but_engine_key(c1, c2),
    ensures
        run_check(c1) == run_check(c2),
        parsed_url(c1.relay_url@) == parsed_url(c2.relay_url@),
        authorization(c1) == authorization(c2),
        catalogued(m, e, c1.input_price, c1.output_price, c1.model_license, c1.commercial_hosting_confirmed, c1.mode)
            == catalogued(m, e, c2.input_price, c2.output_price, c2.model_license, c2.commercial_hosting_confirmed, c2.mode),
        reports(h, busy, engine, c1, earned, version, cap_reached) == reports(h, busy, engine, c2, earned, version, cap_reached),
{
}

/// The relay confirms a node's enrollment by opening with a `hello`.
pub fn confirm_enrollment(first: MessageType) -> (r: Result<(), SessionError>)
    ensures
        first == MessageType::Hello ==> r is Ok,
        first != MessageType::Hello ==> r == Err::<(), SessionError>(SessionError::NotEnrolled),
{
    if first != MessageType::Hello {
        return Err(SessionError::NotEnrolled);
    }
    Ok(())
}

/// The catalog a node publishes: every discovered model, in order, under the
/// configured prices, license, terms answer and mode.
pub fn build_catalog(models: Vec<DiscoveredModel>, config: &Config) -> (r: Catalog)
    ensures
        r.models@.len() == models@.len(),
        forall|i: int|
            0 <= i < models@.len() ==> catalogued(
                #[trigger] models@[i],
                r.models@[i],
                config.input_price,
                config.output_price,
                config.model_license,
                config.commercial_hosting_confirmed,
                config.mode,
            ),
{
    let mut out: Vec<CatalogModel> = Vec::new();
    let n = models.len();
    let mut rest = models;
    let ghost all = rest@;
    let mut i: usize = 0;
    while i < n
        invariant
            n == all.len(),
            i <= n,
            rest@ == all.skip(i as int),
            out@.len() == i,
            forall|j: int|
                0 <= j < i ==> catalogued(
                    #[trigger] all[j],
                    out@[j],
                    config.input_price,
                    config.output_price,
                    config.model_license,
                    config.commercial_hosting_confirmed,
                    config.mode,
                ),
        decreases n - i,
    {
        let m = rest.remove(0);
        let entry = m.into_catalog(
            config.input_price.clone(),
            config.output_price.clone(),
            config.model_license.clone(),
            config.commercial_hosting_confirmed,
            config.mode,
        );
        out.push(entry);
        i = i + 1;
    }
    Catalog { models: out }
}

/// No model is published without the operator's confirmation of the commercial hosting
/// terms: a node that may go online publishes every entry of its catalog as confirmed,
/// and a node without confirmation may not go online.
pub proof fn lemma_published_models_are_confirmed(
    config: Config,
    models: Seq<DiscoveredModel>,
    entries: Seq<CatalogModel>,
)
    requires
        entries.len() == models.len(),
        forall|i: int|
            0 <= i < models.len() ==> catalogued(
                #[trigger] models[i],
                entries[i],
                config.input_price,
                config.output_price,
                config.model_license,
                config.commercial_hosting_confirmed,
                config.mode,
            ),
    ensures
        run_check(config) is Ok ==> forall|i: int| 0 <= i < entries.len() ==> #[trigger] entries[i].commercial_hosting_confirmed,
        !config.commercial_hosting_confirmed ==> run_check(config) is Err,
{
    assert forall|i: int| 0 <= i < entries.len() implies entries[i].commercial_hosting_confirmed == config.commercial_hosting_confirmed by {
        assert(catalogued(models[i], entries[i], config.input_price, config.output_price, config.model_license,
            config.commercial_hosting_confirmed, config.mode));
    }
}

/// What the node does with one frame from the relay.
#[derive(Clone, Copy, Debug, PartialEq, Eq, Structural)]
pub enum FrameStep {
    /// Not a job: nothing to do.
    Ignore,
    /// A job whose reply is to carry this correlation id.
    Job(u128),
    /// The session cannot go on.
    Fail(SessionError),
}

/// A frame from the relay: binary and control frames, or a text message of some kind.
#[derive(Clone, Copy, Debug, PartialEq, Eq, Structural)]
pub enum Frame {
    NonText,
    Message { kind: MessageType, correlation_id: Option<u128> },
}

/// Only text messages of kind `job` are acted on, and a job must carry a correlation id.
pub fn on_frame(frame: Frame) -> (r: FrameStep)
    ensures
        r == match frame {
            Frame::NonText => FrameStep::Ignore,
            Frame::Message { kind, correlation_id } => if kind != MessageType::Job {
                FrameStep::Ignore
            } else {
                match correlation_id {
                    Some(id) => FrameStep::Job(id),
                    None => FrameStep::Fail(SessionError::MissingCorrelationId),
                }
            },
        },
{
    match frame {
        Frame::NonText => FrameStep::Ignore,
        Frame::Message { kind, correlation_id } => {
            if kind != MessageType::Job {
                FrameStep::Ignore
            } else {
                match correlation_id {
                    Some(id) => FrameStep::Job(id),
                    None => FrameStep::Fail(SessionError::MissingCorrelationId),
                }
            }
        },
    }
}

/// Why a job is turned away.
#[derive(Clone, Copy, Debug, PartialEq, Eq, Structural)]
pub enum Rejection {
    /// This month's earnings have reached the configured cap.
    EarningsCapReached,
    /// The node's one job slot is taken.
    Busy,
}

/// The text sent back to the relay for a rejected job.
pub open spec fn rejection_text(r: Rejection) -> Seq<char> {
    match r {
        Rejection::EarningsCapReached => "monthly earnings cap reached"@,
        Rejection::Busy => "node is busy"@,
    }
}

impl Rejection {
    /// The text sent back to the relay.
    pub fn message(&self) -> (r: String)
        ensures
            r@ == rejection_text(*self),
    {
        match self {
            Rejection::EarningsCapReached => owned("monthly earnings cap reached"),
            Rejection::Busy => owned("node is busy"),
        }
    }
}

/// Whether a job arriving now is taken: the earnings cap is checked first, then the slot.
pub open spec fn admission(busy: bool, cap_reached: bool) -> Result<(), Rejection> {
    if cap_reached {
        Err(Rejection::EarningsCapReached)
    } else if busy {
        Err(Rejection::Busy)
    } else {
        Ok(())
    }
}

/// A heartbeat reports the node as accepting jobs exactly when a job arriving at that
/// moment would be taken.
pub proof fn lemma_heartbeat_agrees_with_admission(busy: bool, cap_reached: bool)
    ensures
        (!busy && !cap_reached) == admission(busy, cap_reached) is Ok,
{
}

/// The earnings cap is checked before the slot: once it is reached every job is turned away
/// for that reason, busy or not; under the cap a free slot takes the job.
pub proof fn lemma_cap_checked_first(busy: bool)
    ensures
        admission(busy, true) == Err::<(), Rejection>(Rejection::EarningsCapReached),
        admission(false, false) is Ok,
        admission(true, false) == Err::<(), Rejection>(Rejection::Busy),
{
}

/// While a job is being served, every other job is turned away.
pub proof fn lemma_busy_node_turns_jobs_away(cap_reached: bool)
    ensures
        admission(true, cap_reached) is Err,
{
}

/// The job slot of a node: it serves one job at a time.
pub struct RelaySession {
    busy: bool,
}

impl RelaySession {
    /// Whether a job is being served.
    pub closed spec fn is_busy(&self) -> bool {
        self.busy
    }

    pub fn new() -> (r: RelaySession)
        ensures
            !r.is_busy(),
    {
        RelaySession { busy: false }
    }

    /// Admits a job unless the earnings cap is reached (checked first) or the slot is taken.
    /// An admitted job holds the slot; a rejected one leaves the session as it was.
    pub fn take_job(&mut self, cap_reached: bool) -> (r: Result<(), Rejection>)
        ensures
            r == admission(old(self).is_busy(), cap_reached),
            r is Ok ==> final(self).is_busy(),
            r is Err ==> final(self).is_busy() == old(self).is_busy(),
    {
        if cap_reached {
            return Err(Rejection::EarningsCapReached);
        }
        if self.busy {
            return Err(Rejection::Busy);
        }
        self.busy = true;
        Ok(())
    }

    /// The served job has ended, with whatever outcome: the slot is free again.
    pub fn finish(&mut self)
        ensures
            !final(self).is_busy(),
    {
        self.busy = false;
    }

    /// Whether the node takes jobs now: a free slot and the cap not reached.
    pub fn accepting(&self, cap_reached: bool) -> (r: bool)
        ensures
            r == (!self.is_busy() && !cap_reached),
    {
        !self.busy && !cap_reached
    }

    /// How many jobs are being served.
    pub fn active_jobs(&self) -> (r: u32)
        ensures
            r == (if self.is_busy() { 1u32 } else { 0u32 }),
    {
        if self.busy { 1 } else { 0 }
    }

    /// The heartbeat that reports this session's state, for a node running an engine of
    /// kind `engine` under `config`.
    pub fn heartbeat(
        &self,
        engine: EngineKind,
        config: &Config,
        earned_this_month: String,
        client_version: String,
        cap_reached: bool,
    ) -> (r: Heartbeat)
        ensures
            reports(r, self.is_busy(), engine, *config, earned_this_month, client_version, cap_reached),
            r.accepting_jobs == admission(self.is_busy(), cap_reached) is Ok,
    {
        Heartbeat {
            engine: owned(engine.as_str()),
            engine_url: config.engine_url.clone(),
            accepting_jobs: self.accepting(cap_reached),
            active_jobs: self.active_jobs(),
            earned_this_month,
            earnings_cap: config.monthly_earnings_cap.clone(),
            client_version,
        }
    }

    /// One step of a relay session: what the node does on `event`, and how its job slot changes.
    pub fn step(&mut self, event: SessionEvent) -> (r: SessionAction)
        ensures
            steps(old(self).is_busy(), event, final(self).is_busy(), r),
            event is EngineDone ==> !final(self).is_busy(),
    {
        match event {
            SessionEvent::Frame(frame) => match on_frame(frame) {
                FrameStep::Ignore => SessionAction::Wait,
                FrameStep::Job(id) => SessionAction::ReadJob(id),
                FrameStep::Fail(e) => SessionAction::End(e),
            },
            SessionEvent::JobRead { cap_reached } => match self.take_job(cap_reached) {
                Ok(()) => SessionAction::RunJob,
                Err(rejection) => SessionAction::Reply(JobReply::Failed(rejection.message())),
            },
            SessionEvent::EngineDone(outcome) => {
                self.finish();
                match outcome {
                    Ok(result) => SessionAction::Reply(JobReply::Completed(result)),
                    Err(message) => SessionAction::Reply(JobReply::Failed(message)),
                }
            },
            SessionEvent::Interrupted => SessionAction::Close,
            SessionEvent::StreamEnded => SessionAction::End(SessionError::RelayClosed),
        }
    }
}

/// `h` reports a node with an engine of kind `engine` under `config`, whose slot is `busy`,
/// that has earned `earned` this month, runs client version `version`, and whose earnings cap
/// is `cap_reached` or not.
pub open spec fn reports(
    h: Heartbeat,
    busy: bool,
    engine: EngineKind,
    config: Config,
    earned: String,
    version: String,
    cap_reached: bool,
) -> bool {
    &&& h.engine@ == engine.name()
    &&& h.engine_url == config.engine_url
    &&& h.accepting_jobs == (!busy && !cap_reached)
    &&& h.active_jobs == (if busy { 1u32 } else { 0u32 })
    &&& h.earned_this_month == earned
    &&& h.earnings_cap == config.monthly_earnings_cap
    &&& h.client_version == version
}

/// A heartbeat reports the node as accepting jobs exactly when a job arriving then would be
/// admitted: never once the earnings cap is reached, never while a job runs.
pub proof fn lemma_heartbeat_accepts_what_admission_takes(
    h: Heartbeat,
    busy: bool,
    engine: EngineKind,
    config: Config,
    earned: String,
    version: String,
    cap_reached: bool,
)
    requires
        reports(h, busy, engine, config, earned, version, cap_reached),
    ensures
        h.accepting_jobs == admission(busy, cap_reached) is Ok,
        cap_reached ==> !h.accepting_jobs,
        busy ==> !h.accepting_jobs,
        h.active_jobs <= 1,
{
}

/// Once the engine has answered a running job, with a result or with an error, the slot is
/// free again: the next job that arrives under the cap is run, not turned away.
pub proof fn lemma_engine_answer_frees_slot(
    busy: bool,
    outcome: Result<InferenceResult, String>,
    busy2: bool,
    action: SessionAction,
    busy3: bool,
    next: SessionAction,
)
    requires
        steps(busy, SessionEvent::EngineDone(outcome), busy2, action),
        steps(busy2, SessionEvent::JobRead { cap_reached: false }, busy3, next),
    ensures
        !busy2,
        next is RunJob,
        busy3,
        action is Reply,
{
}

/// What the relay is sent in answer to a job.
#[derive(Debug)]
pub enum JobReply {
    Completed(InferenceResult),
    Failed(String),
}

/// What happens during a relay session, as the node sees it.
#[derive(Debug)]
pub enum SessionEvent {
    /// A frame arrived from the relay.
    Frame(Frame),
    /// The payload of the announced job was read; whether this month's earnings reached the cap.
    JobRead { cap_reached: bool },
    /// The engine answered the running job, or failed with this message.
    EngineDone(Result<InferenceResult, String>),
    /// The operator asked the node to stop.
    Interrupted,
    /// The relay ended the stream.
    StreamEnded,
}

/// What the node does next.
#[derive(Debug)]
pub enum SessionAction {
    /// Nothing to send.
    Wait,
    /// Read the payload of the job with this correlation id.
    ReadJob(u128),
    /// Hand the job to the engine.
    RunJob,
    /// Answer the job, under its correlation id.
    Reply(JobReply),
    /// Close the connection and stop: the session ends well.
    Close,
    /// The session ends with this error.
    End(SessionError),
}

/// A step from a slot that is `busy` on `event` leads to a slot that is `busy2` and to `action`.
pub open spec fn steps(busy: bool, event: SessionEvent, busy2: bool, action: SessionAction) -> bool {
    match event {
        SessionEvent::Frame(frame) => busy2 == busy && match frame {
            Frame::NonText => action is Wait,
            Frame::Message { kind, correlation_id } => if kind != MessageType::Job {
                action is Wait
            } else {
                match correlation_id {
                    Some(id) => action == SessionAction::ReadJob(id),
                    None => action == SessionAction::End(SessionError::MissingCorrelationId),
                }
            },
        },
        SessionEvent::JobRead { cap_reached } => match admission(busy, cap_reached) {
            Ok(_) => busy2 && action is RunJob,
            Err(rejection) => busy2 == busy && (action matches SessionAction::Reply(JobReply::Failed(m))
                && m@ == rejection_text(rejection)),
        },
        SessionEvent::EngineDone(outcome) => !busy2 && match outcome {
            Ok(result) => action == SessionAction::Reply(JobReply::Completed(result)),
            Err(message) => action == SessionAction::Reply(JobReply::Failed(message)),
        },
        SessionEvent::Interrupted => busy2 == busy && action is Close,
        SessionEvent::StreamEnded => busy2 == busy && action == SessionAction::End(SessionError::RelayClosed),
    }
}

/// The longest pause, in seconds, between reconnection attempts.
pub const MAX_BACKOFF_SECS: u64 = 30;

/// The pause before the `k`-th reconnection attempt after `k` failed sessions:
/// one second, doubled after each failure, at most thirty.
pub open spec fn backoff_delay(k: nat) -> nat
    decreases k,
{
    if k == 0 {
        1
    } else {
        let d = 2 * backoff_delay((k - 1) as nat);
        if d < MAX_BACKOFF_SECS {
            d
        } else {
            MAX_BACKOFF_SECS as nat
        }
    }
}

/// The pause never drops below one second nor exceeds thirty, never shrinks from one
/// failure to the next, and stays at thirty from the fifth failure on.
pub proof fn lemma_backoff_schedule(k: nat)
    ensures
        1 <= backoff_delay(k) <= MAX_BACKOFF_SECS,
        backoff_delay(k) <= backoff_delay(k + 1),
        k >= 5 ==> backoff_delay(k) == MAX_BACKOFF_SECS,
        k < 5 ==> backoff_delay(k) == seq![1nat, 2, 4, 8, 16][k as int],
    decreases k,
{
    if k > 0 {
        lemma_backoff_schedule((k - 1) as nat);
    }
    if k < 5 {
        reveal_with_fuel(backoff_delay, 6);
    }
}

/// The pause between relay sessions.
pub struct Backoff {
    secs: u64,
}

impl Backoff {
    /// The current pause in seconds.
    pub closed spec fn secs(&self) -> nat {
        self.secs as nat
    }

    #[verifier::type_invariant]
    closed spec fn bounded(&self) -> bool {
        1 <= self.secs <= MAX_BACKOFF_SECS
    }

    pub fn new() -> (r: Backoff)
        ensures
            r.secs() == backoff_delay(0),
    {
        Backoff { secs: 1 }
    }

    /// After a failed session: the pause to take now, and the next pause doubled, capped at thirty.
    /// Starting from `new`, the pause taken after the `k`-th failure is `backoff_delay(k - 1)`.
    pub fn after_failure(&mut self) -> (wait: u64)
        ensures
            forall|k: nat| old(self).secs() == backoff_delay(k) ==> #[trigger] backoff_delay(k + 1) == final(self).secs(),
            wait == old(self).secs(),
            1 <= wait <= MAX_BACKOFF_SECS,
            final(self).secs() == (if 2 * old(self).secs() < MAX_BACKOFF_SECS {
                2 * old(self).secs()
            } else {
                MAX_BACKOFF_SECS as nat
            }),
    {
        proof {
            use_type_invariant(&*self);
        }
        let wait = self.secs;
        let doubled = wait * 2;
        self.secs = if doubled < MAX_BACKOFF_SECS {
            doubled
        } else {
            MAX_BACKOFF_SECS
        };
        wait
    }
}

/// How a relay session ended.
#[derive(Clone, Copy, Debug, PartialEq, Eq, Structural)]
pub enum SessionEnd {
    /// The node was stopped: the session ended well.
    Stopped,
    /// The session failed.
    Failed,
}

/// What the node does after a relay session.
#[derive(Clone, Copy, Debug, PartialEq, Eq, Structural)]
pub enum RunStep {
    /// Stop running, successfully.
    Return,
    /// Pause this many seconds, then open a new session.
    Retry(u64),
}

/// The node's run loop: sessions are retried after failures, with a growing pause.
pub struct Reconnect {
    backoff: Backoff,
    failures: Ghost<nat>,
}

impl Reconnect {
    /// How many sessions have failed so far.
    pub closed spec fn failures(&self) -> nat {
        self.failures@
    }

    /// The pause kept for the next failure is the one the schedule gives after `failures()` failures.
    pub closed spec fn wf(&self) -> bool {
        self.backoff.secs() == backoff_delay(self.failures@)
    }

    pub fn new() -> (r: Reconnect)
        ensures
            r.wf(),
            r.failures() == 0,
    {
        Reconnect { backoff: Backoff::new(), failures: Ghost(0) }
    }

    /// After a session: a stopped node stops running; after the `k`-th failed session the node
    /// pauses `backoff_delay(k - 1)` seconds (1, 2, 4, 8, 16, then 30) and tries again.
    pub fn after_session(&mut self, end: SessionEnd) -> (r: RunStep)
        requires
            old(self).wf(),
        ensures
            final(self).wf(),
            end == SessionEnd::Stopped ==> r == RunStep::Return && final(self).failures() == old(self).failures(),
            end == SessionEnd::Failed ==> r == RunStep::Retry(backoff_delay(old(self).failures()) as u64)
                && final(self).failures() == old(self).failures() + 1,
    {
        match end {
            SessionEnd::Stopped => RunStep::Return,
            SessionEnd::Failed => {
                let ghost k = self.failures@;
                let wait = self.backoff.after_failure();
                assert(backoff_delay(k + 1) == self.backoff.secs());
                self.failures = Ghost(k + 1);
                RunStep::Retry(wait)
            },
        }
    }
}

} // verus!
