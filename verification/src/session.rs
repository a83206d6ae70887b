//! The per-session state machine: negotiation, packet ingestion, liveness
//! and lifetime timeouts, and the idempotent close.
//!
//! A session decides; its driver performs. Every handler takes one event,
//! moves the session to its next state and returns what the driver has to do
//! to the media connection, the output writer and the garbage collector.
//! Times are readings of one monotonic clock, in milliseconds.

use vstd::prelude::*;
use crate::collector::ClearSession;
use crate::ident::{SessionId, UserId};

verus! {

/// Milliseconds between two liveness checks of a session.
pub const CHECKS_INTERVAL: u64 = 10_000;

/// Where a session stands in its life.
#[derive(Debug, Clone, Copy, PartialEq, Eq, Structural)]
pub enum Phase {
    /// Created; the media connection is being set up.
    Created,
    /// A remote offer has been taken.
    Negotiating,
    /// A track has arrived; packets are being read.
    Active,
    /// Closed; the teardown of the connection is under way.
    Closing,
    /// Closed and torn down.
    Terminated,
}

/// Connectivity of the media transport, as it reports it.
#[derive(Debug, Clone, Copy, PartialEq, Eq, Structural)]
pub enum IceConnectionState {
    Unspecified,
    New,
    Checking,
    Connected,
    Completed,
    Disconnected,
    Failed,
    Closed,
}

/// Which timeout has run out.
#[derive(Debug, Clone, Copy, PartialEq, Eq, Structural)]
pub enum Expiry {
    /// No packet was accepted for longer than the idle timeout.
    Idle,
    /// The session has lived longer than the total timeout.
    Total,
}

/// Request to close a session.
#[derive(Debug, Clone, Copy, PartialEq, Eq, Structural)]
pub struct CloseSession;

/// A remote offer to be answered: the description as the peer sent it.
#[derive(Debug)]
pub struct OfferRequest(pub String);

/// Why a negotiation produced no answer.
#[derive(Debug)]
pub enum NegotiationError {
    /// A step of the negotiation failed; the text is the transport's.
    Transport(String),
    /// Address gathering completed and left no local description.
    NoLocalDescription,
}

impl NegotiationError {
    /// The description of the failure.
    pub open spec fn message_spec(self) -> Seq<char> {
        match self {
            NegotiationError::Transport(text) => text@,
            NegotiationError::NoLocalDescription => "generate local_description failed"@,
        }
    }

    /// The description of the failure: the transport's own text, or a
    /// fixed sentence where no local description was left.
    pub fn message(&self) -> (text: String)
        ensures
            text@ == self.message_spec(),
    {
        match self {
            NegotiationError::Transport(text) => text.clone(),
            NegotiationError::NoLocalDescription => "generate local_description failed".to_owned(),
        }
    }
}

/// The answer to an `OfferRequest`: the finalized local description, or why
/// there is none.
#[derive(Debug)]
pub struct OfferResponse(pub Result<String, NegotiationError>);

/// What the driver of a session has to do.
#[derive(Debug)]
pub enum SessionAction {
    /// Add the audio receive capability and subscribe to track arrivals and
    /// connectivity changes.
    Setup,
    /// Apply the remote offer, create the answer, wait for address
    /// gathering and report the local description.
    Negotiate { offer: String },
    /// Start reading packets from the track that arrived.
    ReadPackets,
    /// Close the output writer.
    CloseWriter,
    /// Tear the media connection down.
    CloseConnection,
    /// Ask the garbage collector for the deferred removal.
    ScheduleCleanup(ClearSession),
}

/// What to do with a packet that was read.
#[derive(Debug, Clone, Copy, PartialEq, Eq, Structural)]
pub enum PacketVerdict {
    /// Append it to the output writer.
    Append,
    /// Drop it silently.
    Discard,
}

/// Mathematical value of a session.
pub struct SessionModel {
    pub id: SessionId,
    pub user_id: UserId,
    /// Clock reading at creation.
    pub startup: u64,
    /// Clock reading at the last accepted packet; `startup` before any.
    pub update_time: u64,
    pub total_timeout: u64,
    pub timeout: u64,
    pub phase: Phase,
}

/// Time passed from `since` to `now`; zero where the clock reads earlier.
pub open spec fn elapsed(since: u64, now: u64) -> int {
    if now >= since {
        now - since
    } else {
        0
    }
}

impl SessionModel {
    /// The last activity is never before the creation.
    pub open spec fn wf(self) -> bool {
        self.update_time >= self.startup
    }

    /// The session as created at `now`.
    pub open spec fn created(
        id: SessionId,
        user_id: UserId,
        now: u64,
        total_timeout: u64,
        timeout: u64,
    ) -> SessionModel {
        SessionModel {
            id,
            user_id,
            startup: now,
            update_time: now,
            total_timeout,
            timeout,
            phase: Phase::Created,
        }
    }

    /// Not closed yet.
    pub open spec fn live(self) -> bool {
        self.phase == Phase::Created || self.phase == Phase::Negotiating || self.phase
            == Phase::Active
    }

    /// The timeout that has run out at `now`, the idle one first.
    pub open spec fn expiry(self, now: u64) -> Option<Expiry> {
        if elapsed(self.update_time, now) > self.timeout {
            Some(Expiry::Idle)
        } else if elapsed(self.startup, now) > self.total_timeout {
            Some(Expiry::Total)
        } else {
            None
        }
    }

    /// What a close does to a live session.
    pub open spec fn close_actions(self) -> Seq<SessionAction> {
        seq![
            SessionAction::CloseWriter,
            SessionAction::CloseConnection,
            SessionAction::ScheduleCleanup(ClearSession(self.user_id, self.id)),
        ]
    }

    /// Close: a live session starts closing and has its writer closed, its
    /// connection torn down and its removal scheduled; any other stays as
    /// it is and nothing is done.
    pub open spec fn close(self) -> (SessionModel, Seq<SessionAction>) {
        if self.live() {
            (SessionModel { phase: Phase::Closing, ..self }, self.close_actions())
        } else {
            (self, Seq::empty())
        }
    }

    /// The setup of the connection ended; a failure closes the session.
    pub open spec fn setup_finished(self, ok: bool) -> (SessionModel, Seq<SessionAction>) {
        if ok {
            (self, Seq::empty())
        } else {
            self.close()
        }
    }

    /// A remote offer: a live session negotiates it.
    pub open spec fn offer(self, offer: String) -> (SessionModel, Seq<SessionAction>) {
        if self.live() {
            (
                SessionModel {
                    phase: if self.phase == Phase::Created {
                        Phase::Negotiating
                    } else {
                        self.phase
                    },
                    ..self
                },
                seq![SessionAction::Negotiate { offer }],
            )
        } else {
            (self, Seq::empty())
        }
    }

    /// A track arrived: a live session becomes active and reads from it.
    pub open spec fn track(self) -> (SessionModel, Seq<SessionAction>) {
        if self.live() {
            (SessionModel { phase: Phase::Active, ..self }, seq![SessionAction::ReadPackets])
        } else {
            (self, Seq::empty())
        }
    }

    /// Whether a packet with this payload, read at any time, is appended.
    pub open spec fn accepts(self, payload: Seq<u8>) -> bool {
        self.live() && payload.len() > 0
    }

    /// A packet was read at `now`: a live session appends it where its
    /// payload is not empty, and notes the activity.
    pub open spec fn packet(self, payload: Seq<u8>, now: u64) -> (SessionModel, PacketVerdict) {
        if self.accepts(payload) {
            (
                SessionModel {
                    update_time: if now > self.update_time {
                        now
                    } else {
                        self.update_time
                    },
                    ..self
                },
                PacketVerdict::Append,
            )
        } else {
            (self, PacketVerdict::Discard)
        }
    }

    /// The liveness check at `now`: a live session whose idle or total
    /// timeout has run out is closed.
    pub open spec fn check(self, now: u64) -> (SessionModel, Seq<SessionAction>) {
        if self.expiry(now) is Some {
            self.close()
        } else {
            (self, Seq::empty())
        }
    }

    /// The transport reports its connectivity: failed or disconnected
    /// closes the session.
    pub open spec fn connectivity(self, state: IceConnectionState) -> (
        SessionModel,
        Seq<SessionAction>,
    ) {
        if state == IceConnectionState::Failed || state == IceConnectionState::Disconnected {
            self.close()
        } else {
            (self, Seq::empty())
        }
    }

    /// The teardown of the connection ended: a closing session is
    /// terminated.
    pub open spec fn torn_down(self) -> SessionModel {
        if self.phase == Phase::Closing {
            SessionModel { phase: Phase::Terminated, ..self }
        } else {
            self
        }
    }
}

/// The outcome of a negotiation: the local description where every step
/// succeeded and gathering left one.
pub open spec fn negotiation_outcome(response: Result<Option<String>, String>) -> Result<
    String,
    NegotiationError,
> {
    match response {
        Ok(Some(description)) => Ok(description),
        Ok(None) => Err(NegotiationError::NoLocalDescription),
        Err(e) => Err(NegotiationError::Transport(e)),
    }
}

/// Turns what the negotiation steps left into the answer for the caller.
/// `Ok(None)` stands for a negotiation that ran through and has no local
/// description; `Err` carries the failure of a step.
pub fn offer_response(response: Result<Option<String>, String>) -> (answer: OfferResponse)
    ensures
        answer.0 == negotiation_outcome(response),
{
    match response {
        Ok(Some(description)) => OfferResponse(Ok(description)),
        Ok(None) => OfferResponse(Err(NegotiationError::NoLocalDescription)),
        Err(e) => OfferResponse(Err(NegotiationError::Transport(e))),
    }
}

/// Time passed from `since` to `now`, zero where the clock reads earlier.
pub fn elapsed_since(since: u64, now: u64) -> (d: u64)
    ensures
        d == elapsed(since, now),
{
    if now >= since {
        now - since
    } else {
        0
    }
}

/// One recording in progress.
#[derive(Debug)]
pub struct Session {
    id: SessionId,
    user_id: UserId,
    startup: u64,
    update_time: u64,
    total_timeout: u64,
    timeout: u64,
    phase: Phase,
}

impl View for Session {
    type V = SessionModel;

    closed spec fn view(&self) -> SessionModel {
        SessionModel {
            id: self.id,
            user_id: self.user_id,
            startup: self.startup,
            update_time: self.update_time,
            total_timeout: self.total_timeout,
            timeout: self.timeout,
            phase: self.phase,
        }
    }
}

impl Session {
    /// Creates the session `id` of `user_id` at clock reading `now`. The
    /// returned action starts the setup of its media connection.
    pub fn new(id: SessionId, user_id: UserId, now: u64, total_timeout: u64, timeout: u64) -> (created:
        (Self, SessionAction))
        ensures
            created.0@ == SessionModel::created(id, user_id, now, total_timeout, timeout),
            created.0@.wf(),
            created.0@.live(),
            created.1 == SessionAction::Setup,
    {
        let session = Session {
            id,
            user_id,
            startup: now,
            update_time: now,
            total_timeout,
            timeout,
            phase: Phase::Created,
        };
        (session, SessionAction::Setup)
    }

    pub fn id(&self) -> (id: SessionId)
        ensures
            id == self@.id,
    {
        self.id
    }

    pub fn user_id(&self) -> (user_id: UserId)
        ensures
            user_id == self@.user_id,
    {
        self.user_id
    }

    pub fn phase(&self) -> (phase: Phase)
        ensures
            phase == self@.phase,
    {
        self.phase
    }

    /// Clock reading at creation.
    pub fn startup(&self) -> (t: u64)
        ensures
            t == self@.startup,
    {
        self.startup
    }

    /// Clock reading at the last accepted packet.
    pub fn last_activity(&self) -> (t: u64)
        ensures
            t == self@.update_time,
    {
        self.update_time
    }

    /// Whether the session has not been closed.
    pub fn connected(&self) -> (live: bool)
        ensures
            live == self@.live(),
    {
        match self.phase {
            Phase::Created | Phase::Negotiating | Phase::Active => true,
            Phase::Closing | Phase::Terminated => false,
        }
    }

    /// The timeout that has run out at `now`, if any; the idle timeout is
    /// looked at first.
    pub fn expiry(&self, now: u64) -> (expired: Option<Expiry>)
        ensures
            expired == self@.expiry(now),
    {
        if elapsed_since(self.update_time, now) > self.timeout {
            Some(Expiry::Idle)
        } else if elapsed_since(self.startup, now) > self.total_timeout {
            Some(Expiry::Total)
        } else {
            None
        }
    }

    /// Closes the session. On a live session this returns, once, the
    /// closing of the writer, the teardown of the connection and the
    /// request for deferred removal; on a session that is closing or
    /// terminated it does nothing.
    pub fn close(&mut self, request: CloseSession) -> (actions: Vec<SessionAction>)
        ensures
            (final(self)@, actions@) == old(self)@.close(),
            old(self)@.wf() ==> final(self)@.wf(),
    {
        let mut actions: Vec<SessionAction> = Vec::new();
        if self.connected() {
            self.phase = Phase::Closing;
            actions.push(SessionAction::CloseWriter);
            actions.push(SessionAction::CloseConnection);
            actions.push(SessionAction::ScheduleCleanup(ClearSession(self.user_id, self.id)));
            assert(actions@ =~= old(self)@.close_actions());
        }
        actions
    }

    /// Takes the result of the connection setup; a failure closes the
    /// session.
    pub fn setup_finished(&mut self, ok: bool) -> (actions: Vec<SessionAction>)
        ensures
            (final(self)@, actions@) == old(self)@.setup_finished(ok),
            old(self)@.wf() ==> final(self)@.wf(),
    {
        if ok {
            Vec::new()
        } else {
            self.close(CloseSession)
        }
    }

    /// Takes a remote offer. A live session asks its driver to negotiate
    /// it; a closed one does nothing.
    pub fn handle_offer(&mut self, request: OfferRequest) -> (actions: Vec<SessionAction>)
        ensures
            (final(self)@, actions@) == old(self)@.offer(request.0),
            old(self)@.wf() ==> final(self)@.wf(),
    {
        let mut actions: Vec<SessionAction> = Vec::new();
        if self.connected() {
            if self.phase == Phase::Created {
                self.phase = Phase::Negotiating;
            }
            actions.push(SessionAction::Negotiate { offer: request.0 });
            assert(actions@ =~= seq![SessionAction::Negotiate { offer: request.0 }]);
        }
        actions
    }

    /// Takes the arrival of a remote track. A live session becomes active
    /// and asks its driver to read the packets of the track.
    pub fn accept_remote(&mut self) -> (actions: Vec<SessionAction>)
        ensures
            (final(self)@, actions@) == old(self)@.track(),
            old(self)@.wf() ==> final(self)@.wf(),
    {
        let mut actions: Vec<SessionAction> = Vec::new();
        if self.connected() {
            self.phase = Phase::Active;
            actions.push(SessionAction::ReadPackets);
            assert(actions@ =~= seq![SessionAction::ReadPackets]);
        }
        actions
    }

    /// Takes a packet read at `now`. A live session has a packet with a
    /// payload appended and notes the activity; an empty payload, and any
    /// packet after the close, is discarded and changes nothing.
    pub fn handle_packet(&mut self, payload: &[u8], now: u64) -> (verdict: PacketVerdict)
        ensures
            (final(self)@, verdict) == old(self)@.packet(payload@, now),
            old(self)@.wf() ==> final(self)@.wf(),
            final(self)@.update_time >= old(self)@.update_time,
    {
        if self.connected() && payload.len() > 0 {
            if now > self.update_time {
                self.update_time = now;
            }
            PacketVerdict::Append
        } else {
            PacketVerdict::Discard
        }
    }

    /// The periodic liveness check at `now`: closes the session where more
    /// than the idle timeout has passed since the last accepted packet, or
    /// more than the total timeout since the creation.
    pub fn check_timeouts(&mut self, now: u64) -> (actions: Vec<SessionAction>)
        ensures
            (final(self)@, actions@) == old(self)@.check(now),
            old(self)@.wf() ==> final(self)@.wf(),
    {
        if self.expiry(now).is_some() {
            self.close(CloseSession)
        } else {
            Vec::new()
        }
    }

    /// Takes a connectivity report of the transport: failed or
    /// disconnected closes the session, any other state changes nothing.
    pub fn connection_state_changed(&mut self, state: IceConnectionState) -> (actions: Vec<
        SessionAction,
    >)
        ensures
            (final(self)@, actions@) == old(self)@.connectivity(state),
            old(self)@.wf() ==> final(self)@.wf(),
    {
        match state {
            IceConnectionState::Failed | IceConnectionState::Disconnected => self.close(
                CloseSession,
            ),
            _ => Vec::new(),
        }
    }

    /// Takes the end of the connection teardown, whether it succeeded or
    /// not: a closing session is terminated.
    pub fn connection_closed(&mut self)
        ensures
            final(self)@ == old(self)@.torn_down(),
            old(self)@.wf() ==> final(self)@.wf(),
    {
        if self.phase == Phase::Closing {
            self.phase = Phase::Terminated;
        }
    }
}


/// A packet as it arrives: its payload and the clock reading.
pub type Arrival = (Seq<u8>, u64);

/// The payloads of a run of arrivals, in arrival order.
pub open spec fn payloads(arrivals: Seq<Arrival>) -> Seq<Seq<u8>> {
    arrivals.map_values(|a: Arrival| a.0)
}

/// Whether a payload holds anything.
pub open spec fn has_payload(payload: Seq<u8>) -> bool {
    payload.len() > 0
}

impl SessionModel {
    /// The session after a run of arrivals, and the payloads that were
    /// appended to its output, in the order of their appending.
    pub open spec fn ingest(self, arrivals: Seq<Arrival>) -> (SessionModel, Seq<Seq<u8>>)
        decreases arrivals.len(),
    {
        if arrivals.len() == 0 {
            (self, Seq::empty())
        } else {
            let (before, written) = self.ingest(arrivals.drop_last());
            let (after, verdict) = before.packet(arrivals.last().0, arrivals.last().1);
            (
                after,
                if verdict == PacketVerdict::Append {
                    written.push(arrivals.last().0)
                } else {
                    written
                },
            )
        }
    }

    /// The session after `n` closes in a row, and all that they had done.
    pub open spec fn close_times(self, n: nat) -> (SessionModel, Seq<SessionAction>)
        decreases n,
    {
        if n == 0 {
            (self, Seq::empty())
        } else {
            let (before, done) = self.close_times((n - 1) as nat);
            let (after, more) = before.close();
            (after, done + more)
        }
    }
}

/// The output of a live session holds exactly the arrived packets whose
/// payload is not empty, in arrival order: empty payloads are dropped and
/// nothing is reordered. Ingestion leaves the session live, in its phase,
/// and never moves the last activity back.
pub proof fn lemma_output_is_nonempty_packets_in_order(
    session: SessionModel,
    arrivals: Seq<Arrival>,
)
    requires
        session.live(),
    ensures
        session.ingest(arrivals).1 == payloads(arrivals).filter(|p: Seq<u8>| has_payload(p)),
        session.ingest(arrivals).0.phase == session.phase,
        session.ingest(arrivals).0.startup == session.startup,
        session.ingest(arrivals).0.update_time >= session.update_time,
    decreases arrivals.len(),
{
    reveal(Seq::filter);
    if arrivals.len() == 0 {
        assert(payloads(arrivals) =~= Seq::<Seq<u8>>::empty());
    } else {
        lemma_output_is_nonempty_packets_in_order(session, arrivals.drop_last());
        assert(payloads(arrivals).drop_last() =~= payloads(arrivals.drop_last()));
        assert(payloads(arrivals).last() == arrivals.last().0);
    }
}

/// Nothing is written once a session is closed: whatever arrives is
/// discarded and the session stays as it is.
pub proof fn lemma_closed_session_writes_nothing(session: SessionModel, arrivals: Seq<Arrival>)
    requires
        !session.live(),
    ensures
        session.ingest(arrivals) == (session, Seq::<Seq<u8>>::empty()),
    decreases arrivals.len(),
{
    if arrivals.len() > 0 {
        lemma_closed_session_writes_nothing(session, arrivals.drop_last());
    }
}

/// Close is idempotent: however often a live session is closed, at least
/// once, the writer is closed once, the connection is torn down once and
/// the removal is scheduled once; closes of a session that was closed
/// before do nothing at all.
pub proof fn lemma_close_is_idempotent(session: SessionModel, n: nat)
    ensures
        session.live() && n >= 1 ==> session.close_times(n) == (
            SessionModel { phase: Phase::Closing, ..session },
            session.close_actions(),
        ),
        !session.live() ==> session.close_times(n) == (session, Seq::<SessionAction>::empty()),
    decreases n,
{
    if n > 0 {
        lemma_close_is_idempotent(session, (n - 1) as nat);
        let (before, done) = session.close_times((n - 1) as nat);
        let (after, more) = before.close();
        if session.live() {
            assert(done + more =~= session.close_actions());
        } else {
            assert(done + more =~= Seq::<SessionAction>::empty());
        }
    }
}

/// A closed session is inert: no event makes it act or change, but the end
/// of the teardown, which terminates it.
pub proof fn lemma_closed_session_is_inert(
    session: SessionModel,
    offer: String,
    payload: Seq<u8>,
    now: u64,
    state: IceConnectionState,
    ok: bool,
)
    requires
        !session.live(),
    ensures
        session.close() == (session, Seq::<SessionAction>::empty()),
        session.setup_finished(ok) == (session, Seq::<SessionAction>::empty()),
        session.offer(offer) == (session, Seq::<SessionAction>::empty()),
        session.track() == (session, Seq::<SessionAction>::empty()),
        session.packet(payload, now) == (session, PacketVerdict::Discard),
        session.check(now) == (session, Seq::<SessionAction>::empty()),
        session.connectivity(state) == (session, Seq::<SessionAction>::empty()),
        !session.torn_down().live(),
{
}

/// Every transition keeps the creation time, never moves the last activity
/// back, and so keeps the last activity at or after the creation.
pub proof fn lemma_activity_is_monotonic(
    session: SessionModel,
    offer: String,
    payload: Seq<u8>,
    now: u64,
    state: IceConnectionState,
    ok: bool,
)
    requires
        session.wf(),
    ensures
        session.close().0.wf() && session.close().0.update_time >= session.update_time,
        session.setup_finished(ok).0.wf() && session.setup_finished(ok).0.update_time
            >= session.update_time,
        session.offer(offer).0.wf() && session.offer(offer).0.update_time >= session.update_time,
        session.track().0.wf() && session.track().0.update_time >= session.update_time,
        session.packet(payload, now).0.wf() && session.packet(payload, now).0.update_time
            >= session.update_time,
        session.check(now).0.wf() && session.check(now).0.update_time >= session.update_time,
        session.connectivity(state).0.wf() && session.connectivity(state).0.update_time
            >= session.update_time,
        session.torn_down().wf() && session.torn_down().update_time >= session.update_time,
{
}


/// The place of a phase in the life of a session.
pub open spec fn phase_rank(phase: Phase) -> int {
    match phase {
        Phase::Created => 0,
        Phase::Negotiating => 1,
        Phase::Active => 2,
        Phase::Closing => 3,
        Phase::Terminated => 4,
    }
}

/// A session only moves forward: from created through negotiating and
/// active to closing and terminated. No event takes it back to an earlier
/// phase, it is terminated only out of closing, and it starts closing only
/// together with the actions of its close.
pub proof fn lemma_session_moves_forward(
    session: SessionModel,
    offer: String,
    payload: Seq<u8>,
    now: u64,
    state: IceConnectionState,
    ok: bool,
)
    ensures
        phase_rank(session.close().0.phase) >= phase_rank(session.phase),
        phase_rank(session.setup_finished(ok).0.phase) >= phase_rank(session.phase),
        phase_rank(session.offer(offer).0.phase) >= phase_rank(session.phase),
        phase_rank(session.track().0.phase) >= phase_rank(session.phase),
        session.packet(payload, now).0.phase == session.phase,
        phase_rank(session.check(now).0.phase) >= phase_rank(session.phase),
        phase_rank(session.connectivity(state).0.phase) >= phase_rank(session.phase),
        phase_rank(session.torn_down().phase) >= phase_rank(session.phase),
        session.torn_down().phase == Phase::Terminated ==> !session.live(),
        session.live() ==> session.offer(offer).0.live() && session.track().0.live(),
        session.live() && !session.close().0.live() ==> session.close().1 == session.close_actions(),
        session.live() && !session.check(now).0.live() ==> session.check(now).1
            == session.close_actions(),
        session.live() && !session.connectivity(state).0.live() ==> session.connectivity(state).1
            == session.close_actions(),
        session.live() && !session.setup_finished(ok).0.live() ==> session.setup_finished(ok).1
            == session.close_actions(),
{
}

/// The liveness check closes a live session exactly when more than the
/// idle timeout has passed since the last accepted packet or more than the
/// total timeout since the creation.
pub proof fn lemma_liveness_check(session: SessionModel, now: u64)
    requires
        session.live(),
    ensures
        !session.check(now).0.live() <==> elapsed(session.update_time, now) > session.timeout
            || elapsed(session.startup, now) > session.total_timeout,
        session.expiry(now) == Some(Expiry::Idle) <==> elapsed(session.update_time, now)
            > session.timeout,
{
}

} // verus!
