//! Control-session timing and states: heartbeat bookkeeping on the
//! monotonic clock, timeouts, and the states a session passes through.

use vstd::prelude::*;

use crate::protocol::clock::{mono_now_ns, ClockMode, SYNC_ROUNDS};
use crate::protocol::SessionStatus;
use crate::traffic::packet::timestamp_of;

verus! {

/// Heartbeat interval, in seconds.
pub const HEARTBEAT_INTERVAL_SECS: u64 = 5;

/// Number of missed heartbeats before session timeout.
pub const HEARTBEAT_MISS_LIMIT: u32 = 3;

/// Heartbeat timeout (interval times miss limit), in seconds.
pub const HEARTBEAT_TIMEOUT_SECS: u64 = 15;

/// TCP stream connect timeout, in seconds.
pub const STREAM_CONNECT_TIMEOUT_SECS: u64 = 5;

/// Graceful shutdown timeout after SIGINT/SIGTERM, in seconds.
pub const SHUTDOWN_TIMEOUT_SECS: u64 = 5;

/// Heartbeat interval, in nanoseconds.
pub const HEARTBEAT_INTERVAL_NS: u128 = 5_000_000_000;

/// Heartbeat timeout, in nanoseconds.
pub const HEARTBEAT_TIMEOUT_NS: u128 = 15_000_000_000;

/// The timeout is the interval times the number of heartbeats that may be
/// missed, in seconds and in nanoseconds alike.
pub proof fn lemma_timeout_is_missed_heartbeats()
    ensures
        HEARTBEAT_TIMEOUT_SECS == HEARTBEAT_INTERVAL_SECS * HEARTBEAT_MISS_LIMIT as u64,
        HEARTBEAT_INTERVAL_NS == HEARTBEAT_INTERVAL_SECS * 1_000_000_000,
        HEARTBEAT_TIMEOUT_NS == HEARTBEAT_TIMEOUT_SECS * 1_000_000_000,
{
}

/// Session states of the control channel.
#[derive(Debug, Clone, Copy, PartialEq, Eq, Structural)]
pub enum SessionState {
    /// Before hello is sent or received.
    Init,
    /// Hello exchanged, waiting for ready.
    Negotiating,
    /// Clock sync in progress.
    Syncing,
    /// Ready to start data streams.
    Ready,
    /// Data streams are running.
    Running,
    /// Stop sent, collecting results.
    Collecting,
    /// Results exchanged, session complete.
    Done,
    /// Session failed.
    Failed(FailureReason),
}

/// Why a session failed.
#[derive(Debug, Clone, Copy, PartialEq, Eq, Structural)]
pub enum FailureReason {
    /// Control channel heartbeat timeout.
    HeartbeatTimeout,
    /// Control channel TCP connection lost.
    ControlChannelLost,
    /// Clock sync failed or produced an unreasonable offset.
    ClockSyncFailed,
    /// Interrupted by signal (SIGINT/SIGTERM).
    SignalInterrupt,
    /// Unexpected message type.
    ProtocolError,
}

/// Nanoseconds from `since` to `now`; zero when `now` is earlier.
pub open spec fn elapsed(since: u128, now: u128) -> nat {
    if now >= since {
        (now - since) as nat
    } else {
        0
    }
}

/// Heartbeat bookkeeping for one side of the connection, on the monotonic
/// clock in nanoseconds.
pub struct HeartbeatTracker {
    last_received: u128,
    last_sent: u128,
}

impl HeartbeatTracker {
    /// When a heartbeat was last received (or the tracker was made).
    pub closed spec fn last_received_ns(&self) -> u128 {
        self.last_received
    }

    /// When a heartbeat was last sent (or the tracker was made).
    pub closed spec fn last_sent_ns(&self) -> u128 {
        self.last_sent
    }

    /// A tracker that starts counting now, as if a heartbeat had just
    /// been both sent and received.
    pub fn new() -> (r: Self)
        ensures
            r.last_received_ns() == r.last_sent_ns(),
            exists|sec: u64, nsec: u32| r.last_sent_ns() as nat == timestamp_of(sec, nsec),
    {
        let now = mono_now_ns();
        Self::starting_at(now)
    }

    /// A tracker that starts counting at `now_ns`.
    pub fn starting_at(now_ns: u128) -> (r: Self)
        ensures
            r.last_received_ns() == now_ns,
            r.last_sent_ns() == now_ns,
    {
        HeartbeatTracker { last_received: now_ns, last_sent: now_ns }
    }

    /// Records that a heartbeat was received now.
    pub fn received(&mut self)
        ensures
            final(self).last_sent_ns() == old(self).last_sent_ns(),
            exists|sec: u64, nsec: u32|
                final(self).last_received_ns() as nat == timestamp_of(sec, nsec),
    {
        let now = mono_now_ns();
        self.received_at(now);
    }

    /// Records that a heartbeat was received at `now_ns`.
    pub fn received_at(&mut self, now_ns: u128)
        ensures
            final(self).last_received_ns() == now_ns,
            final(self).last_sent_ns() == old(self).last_sent_ns(),
    {
        self.last_received = now_ns;
    }

    /// Records that a heartbeat was sent now.
    pub fn sent(&mut self)
        ensures
            final(self).last_received_ns() == old(self).last_received_ns(),
            exists|sec: u64, nsec: u32| final(self).last_sent_ns() as nat == timestamp_of(sec, nsec),
    {
        let now = mono_now_ns();
        self.sent_at(now);
    }

    /// Records that a heartbeat was sent at `now_ns`.
    pub fn sent_at(&mut self, now_ns: u128)
        ensures
            final(self).last_sent_ns() == now_ns,
            final(self).last_received_ns() == old(self).last_received_ns(),
    {
        self.last_sent = now_ns;
    }

    /// Whether a heartbeat should be sent now: the answer at some reading
    /// of the clock.
    pub fn should_send(&self) -> (r: bool)
        ensures
            exists|sec: u64, nsec: u32|
                r == (elapsed(self.last_sent_ns(), timestamp_of(sec, nsec) as u128)
                    >= HEARTBEAT_INTERVAL_NS),
    {
        let now = mono_now_ns();
        self.should_send_at(now)
    }

    /// Whether a heartbeat is due at `now_ns`: an interval has passed
    /// since the last one was sent.
    pub fn should_send_at(&self, now_ns: u128) -> (r: bool)
        ensures
            r == (elapsed(self.last_sent_ns(), now_ns) >= HEARTBEAT_INTERVAL_NS),
    {
        now_ns.saturating_sub(self.last_sent) >= HEARTBEAT_INTERVAL_NS
    }

    /// Whether the remote side has timed out now: the answer at some
    /// reading of the clock.
    pub fn is_timed_out(&self) -> (r: bool)
        ensures
            exists|sec: u64, nsec: u32|
                r == (elapsed(self.last_received_ns(), timestamp_of(sec, nsec) as u128)
                    >= HEARTBEAT_TIMEOUT_NS),
    {
        let now = mono_now_ns();
        self.is_timed_out_at(now)
    }

    /// Whether the remote side has timed out at `now_ns`: nothing was
    /// received for the heartbeat timeout.
    pub fn is_timed_out_at(&self, now_ns: u128) -> (r: bool)
        ensures
            r == (elapsed(self.last_received_ns(), now_ns) >= HEARTBEAT_TIMEOUT_NS),
    {
        now_ns.saturating_sub(self.last_received) >= HEARTBEAT_TIMEOUT_NS
    }

    /// Nanoseconds until the next heartbeat should be sent, from now: the
    /// answer at some reading of the clock, never more than the interval.
    pub fn time_until_send(&self) -> (r: u128)
        ensures
            r <= HEARTBEAT_INTERVAL_NS,
            exists|sec: u64, nsec: u32|
                r == (if elapsed(self.last_sent_ns(), timestamp_of(sec, nsec) as u128)
                    >= HEARTBEAT_INTERVAL_NS {
                    0
                } else {
                    HEARTBEAT_INTERVAL_NS - elapsed(self.last_sent_ns(), timestamp_of(sec, nsec) as u128)
                }),
    {
        let now = mono_now_ns();
        self.time_until_send_at(now)
    }

    /// Nanoseconds until the next heartbeat is due, from `now_ns`; zero
    /// when it is already due.
    pub fn time_until_send_at(&self, now_ns: u128) -> (r: u128)
        ensures
            r == (if elapsed(self.last_sent_ns(), now_ns) >= HEARTBEAT_INTERVAL_NS {
                0
            } else {
                HEARTBEAT_INTERVAL_NS - elapsed(self.last_sent_ns(), now_ns)
            }),
    {
        HEARTBEAT_INTERVAL_NS.saturating_sub(now_ns.saturating_sub(self.last_sent))
    }
}

/// A heartbeat is due exactly when no time is left until it.
pub proof fn lemma_due_iff_no_time_left(last_sent: u128, now: u128)
    ensures
        (elapsed(last_sent, now) >= HEARTBEAT_INTERVAL_NS) <==> (if elapsed(last_sent, now)
            >= HEARTBEAT_INTERVAL_NS {
            0int
        } else {
            HEARTBEAT_INTERVAL_NS - elapsed(last_sent, now)
        }) == 0,
{
}

impl Default for HeartbeatTracker {
    fn default() -> (r: Self)
        ensures
            r.last_received_ns() == r.last_sent_ns(),
    {
        Self::new()
    }
}

// --- Server side of a control session ---
/// The kind of a control message received from the client; a hello
/// carries whether the client wants clock-offset estimation.
#[derive(Debug, Clone, Copy, PartialEq, Eq, Structural)]
pub enum ControlMessage {
    Hello { cross_host: bool },
    Ready,
    ClockSync,
    Start,
    Heartbeat,
    Stop,
    Results,
    Error,
}

/// What happened on the server's side of a session.
#[derive(Debug, Clone, Copy, PartialEq, Eq, Structural)]
pub enum SessionEvent {
    /// A message arrived on the control connection.
    Received(ControlMessage),
    /// The client closed the control connection.
    Closed,
    /// Reading from the control connection failed.
    ReadFailed,
    /// The heartbeat timer fired.
    HeartbeatDue,
    /// A heartbeat was written to the client.
    HeartbeatSent,
    /// Writing a heartbeat failed.
    HeartbeatSendFailed,
    /// The data receiver has stopped and its measurements are ready.
    ReceiverFinished,
}

/// What the server has to do next.
#[derive(Debug, Clone, Copy, PartialEq, Eq, Structural)]
pub enum SessionAction {
    /// Nothing; wait for the next event.
    Wait,
    /// Accept the hello: open the data socket and send Ready.
    SendReady,
    /// Answer a clock sync probe with the server's timestamps.
    ReplyClockSync,
    /// The first message was not a hello: tell the client, then end.
    RejectNotHello,
    /// End: the client left before its hello.
    EndClosedBeforeHello,
    /// End: a message other than start came while waiting for start.
    EndUnexpectedBeforeStart,
    /// End: the client left before starting.
    EndClosedBeforeStart,
    /// End: the control connection could not be read before the data phase.
    EndReadError,
    /// Start receiving data.
    StartReceiving,
    /// Send a heartbeat to the client.
    SendHeartbeat,
    /// Stop receiving data; the session status is decided.
    StopReceiving,
    /// Send the results with the session status; the session is done.
    SendResults,
}

/// The server's view of a control session.
pub struct ServerSession {
    state: SessionState,
    cross_host: bool,
    sync_replies: usize,
    status: SessionStatus,
    last_received: u128,
    last_sent: u128,
}

/// The session as plain values.
pub struct ServerSessionView {
    pub state: SessionState,
    pub cross_host: bool,
    pub sync_replies: nat,
    pub status: SessionStatus,
    pub last_received: u128,
    pub last_sent: u128,
}

/// The session state and action after the data phase ends with `status`.
pub open spec fn stop_with(s: ServerSessionView, status: SessionStatus) -> (
    ServerSessionView,
    SessionAction,
) {
    (ServerSessionView { state: SessionState::Collecting, status, ..s }, SessionAction::StopReceiving)
}

/// The session's next view and action on an event at time `now`.
///
/// Before the data phase the server expects, in turn, a hello, up to
/// `SYNC_ROUNDS` clock sync probes when the client asked for clock-offset
/// estimation (any other message, or the client closing, ends the probes),
/// and a start. Anything else ends the session. While data runs, a stop
/// ends it as complete; losing the control connection, failing to send a
/// heartbeat, or hearing no heartbeat for `HEARTBEAT_TIMEOUT_NS` when one
/// is sent ends it as interrupted. Once the receiver has stopped, the
/// results are sent. Ended and failed sessions ignore further events.
pub open spec fn session_next(s: ServerSessionView, e: SessionEvent, now: u128) -> (
    ServerSessionView,
    SessionAction,
) {
    match s.state {
        SessionState::Init => match e {
            SessionEvent::Received(ControlMessage::Hello { cross_host }) => (
                ServerSessionView {
                    state: if cross_host {
                        SessionState::Syncing
                    } else {
                        SessionState::Ready
                    },
                    cross_host,
                    ..s
                },
                SessionAction::SendReady,
            ),
            SessionEvent::Received(_) => (
                ServerSessionView {
                    state: SessionState::Failed(FailureReason::ProtocolError),
                    ..s
                },
                SessionAction::RejectNotHello,
            ),
            SessionEvent::Closed => (
                ServerSessionView {
                    state: SessionState::Failed(FailureReason::ControlChannelLost),
                    ..s
                },
                SessionAction::EndClosedBeforeHello,
            ),
            SessionEvent::ReadFailed => (
                ServerSessionView {
                    state: SessionState::Failed(FailureReason::ControlChannelLost),
                    ..s
                },
                SessionAction::EndReadError,
            ),
            _ => (s, SessionAction::Wait),
        },
        SessionState::Syncing => match e {
            SessionEvent::Received(ControlMessage::ClockSync) => (
                ServerSessionView {
                    state: if s.sync_replies + 1 < SYNC_ROUNDS {
                        SessionState::Syncing
                    } else {
                        SessionState::Ready
                    },
                    sync_replies: s.sync_replies + 1,
                    ..s
                },
                SessionAction::ReplyClockSync,
            ),
            SessionEvent::Received(_) | SessionEvent::Closed => (
                ServerSessionView { state: SessionState::Ready, ..s },
                SessionAction::Wait,
            ),
            SessionEvent::ReadFailed => (
                ServerSessionView {
                    state: SessionState::Failed(FailureReason::ControlChannelLost),
                    ..s
                },
                SessionAction::EndReadError,
            ),
            _ => (s, SessionAction::Wait),
        },
        SessionState::Ready => match e {
            SessionEvent::Received(ControlMessage::Start) => (
                ServerSessionView {
                    state: SessionState::Running,
                    last_received: now,
                    last_sent: now,
                    ..s
                },
                SessionAction::StartReceiving,
            ),
            SessionEvent::Received(_) => (
                ServerSessionView {
                    state: SessionState::Failed(FailureReason::ProtocolError),
                    ..s
                },
                SessionAction::EndUnexpectedBeforeStart,
            ),
            SessionEvent::Closed => (
                ServerSessionView {
                    state: SessionState::Failed(FailureReason::ControlChannelLost),
                    ..s
                },
                SessionAction::EndClosedBeforeStart,
            ),
            SessionEvent::ReadFailed => (
                ServerSessionView {
                    state: SessionState::Failed(FailureReason::ControlChannelLost),
                    ..s
                },
                SessionAction::EndReadError,
            ),
            _ => (s, SessionAction::Wait),
        },
        SessionState::Running => match e {
            SessionEvent::Received(ControlMessage::Heartbeat) => (
                ServerSessionView { last_received: now, ..s },
                SessionAction::Wait,
            ),
            SessionEvent::Received(ControlMessage::Stop) => stop_with(s, SessionStatus::Complete),
            SessionEvent::Received(_) => (s, SessionAction::Wait),
            SessionEvent::Closed => stop_with(s, SessionStatus::Interrupted),
            SessionEvent::ReadFailed => stop_with(s, SessionStatus::Interrupted),
            SessionEvent::HeartbeatDue => (s, SessionAction::SendHeartbeat),
            SessionEvent::HeartbeatSent => if elapsed(s.last_received, now)
                >= HEARTBEAT_TIMEOUT_NS {
                stop_with(
                    ServerSessionView { last_sent: now, ..s },
                    SessionStatus::Interrupted,
                )
            } else {
                (ServerSessionView { last_sent: now, ..s }, SessionAction::Wait)
            },
            SessionEvent::HeartbeatSendFailed => stop_with(s, SessionStatus::Interrupted),
            SessionEvent::ReceiverFinished => (s, SessionAction::Wait),
        },
        SessionState::Collecting => match e {
            SessionEvent::ReceiverFinished => (
                ServerSessionView { state: SessionState::Done, ..s },
                SessionAction::SendResults,
            ),
            _ => (s, SessionAction::Wait),
        },
        _ => (s, SessionAction::Wait),
    }
}

/// The session after a sequence of events, each with its time.
pub open spec fn session_run(s: ServerSessionView, events: Seq<(SessionEvent, u128)>) -> ServerSessionView
    decreases events.len(),
{
    if events.len() == 0 {
        s
    } else {
        session_next(session_run(s, events.drop_last()), events.last().0, events.last().1).0
    }
}

/// A fresh session, waiting for the client's hello.
pub open spec fn session_start() -> ServerSessionView {
    ServerSessionView {
        state: SessionState::Init,
        cross_host: false,
        sync_replies: 0,
        status: SessionStatus::Partial,
        last_received: 0,
        last_sent: 0,
    }
}

/// A hello arrived.
pub open spec fn is_hello(e: SessionEvent) -> bool {
    e matches SessionEvent::Received(ControlMessage::Hello { .. })
}

/// The session has received a hello, and a start after it, somewhere in
/// `events`.
pub open spec fn hello_then_start(events: Seq<(SessionEvent, u128)>) -> bool {
    exists|i: int, j: int|
        0 <= i < j < events.len() && is_hello((#[trigger] events[i]).0) && (#[trigger] events[j]).0 == SessionEvent::Received(ControlMessage::Start)
}

/// The session has received a hello somewhere in `events`.
pub open spec fn has_hello(events: Seq<(SessionEvent, u128)>) -> bool {
    exists|i: int|
        0 <= i < events.len() && is_hello((#[trigger] events[i]).0)
}

/// The phases reached only after a hello was accepted.
pub open spec fn past_hello(st: SessionState) -> bool {
    st == SessionState::Syncing || st == SessionState::Ready || past_start(st)
}

/// The phases reached only after a start was accepted.
pub open spec fn past_start(st: SessionState) -> bool {
    st == SessionState::Running || st == SessionState::Collecting || st == SessionState::Done
}

proof fn lemma_run_history(events: Seq<(SessionEvent, u128)>)
    ensures
        past_hello(session_run(session_start(), events).state) ==> has_hello(events),
        past_start(session_run(session_start(), events).state) ==> hello_then_start(events),
        session_run(session_start(), events).sync_replies <= SYNC_ROUNDS,
        session_run(session_start(), events).state == SessionState::Syncing ==> session_run(
            session_start(),
            events,
        ).sync_replies < SYNC_ROUNDS,
        session_run(session_start(), events).state == SessionState::Init ==> session_run(
            session_start(),
            events,
        ).sync_replies == 0,
    decreases events.len(),
{
    if events.len() > 0 {
        let t = events.drop_last();
        lemma_run_history(t);
        let prev = session_run(session_start(), t);
        let e = events.last();
        let last = events.len() - 1;
        assert(events[last] == e);
        if has_hello(t) {
            let i = choose|i: int|
                0 <= i < t.len() && is_hello((#[trigger] t[i]).0);
            assert(events[i] == t[i]);
        }
        if hello_then_start(t) {
            let (i, j) = choose|i: int, j: int|
                0 <= i < j < t.len() && is_hello((#[trigger] t[i]).0) && (#[trigger] t[j]).0 == SessionEvent::Received(ControlMessage::Start);
            assert(events[i] == t[i]);
            assert(events[j] == t[j]);
        }
        if prev.state == SessionState::Init && past_hello(session_run(session_start(), events).state) {
            assert(events[last].0 matches SessionEvent::Received(ControlMessage::Hello { .. }));
        }
        if prev.state == SessionState::Ready && past_start(session_run(session_start(), events).state) {
            let i = choose|i: int|
                0 <= i < t.len() && is_hello((#[trigger] t[i]).0);
            assert(events[i] == t[i]);
            assert(events[last].0 == SessionEvent::Received(ControlMessage::Start));
        }
    }
}

/// Whatever the client sends, the server starts receiving data only once
/// it has accepted a hello and then a start: any run of events from a
/// fresh session that reaches the data phase (or a later one) holds a
/// hello followed by a start. It answers at most `SYNC_ROUNDS` clock sync
/// probes.
pub proof fn lemma_data_phase_needs_hello_and_start(events: Seq<(SessionEvent, u128)>)
    ensures
        past_start(session_run(session_start(), events).state) ==> hello_then_start(events),
        session_run(session_start(), events).sync_replies <= SYNC_ROUNDS,
{
    lemma_run_history(events);
}

/// A session that has ended or failed stays as it is, whatever comes.
pub proof fn lemma_end_states_absorb(s: ServerSessionView, e: SessionEvent, now: u128)
    requires
        s.state == SessionState::Done || s.state is Failed,
    ensures
        session_next(s, e, now) == (s, SessionAction::Wait),
{
}

/// While data runs, a stop ends the session as complete and anything that
/// loses the client (the connection closing or failing, a heartbeat that
/// cannot be sent) ends it as interrupted; either way the receiver is
/// stopped. Results are only sent after the receiver has stopped.
pub proof fn lemma_running_outcomes(s: ServerSessionView, e: SessionEvent, now: u128)
    ensures
        s.state == SessionState::Running && e == SessionEvent::Received(ControlMessage::Stop)
            ==> session_next(s, e, now).0.status == SessionStatus::Complete && session_next(
            s,
            e,
            now,
        ).1 == SessionAction::StopReceiving,
        s.state == SessionState::Running && (e == SessionEvent::Closed || e
            == SessionEvent::ReadFailed || e == SessionEvent::HeartbeatSendFailed)
            ==> session_next(s, e, now).0.status == SessionStatus::Interrupted && session_next(
            s,
            e,
            now,
        ).1 == SessionAction::StopReceiving,
        session_next(s, e, now).1 == SessionAction::SendResults ==> s.state
            == SessionState::Collecting,
        session_next(s, e, now).1 == SessionAction::StartReceiving ==> s.state
            == SessionState::Ready && e == SessionEvent::Received(ControlMessage::Start),
{
}

/// A heartbeat from the client keeps a running session alive: after one
/// arrives at `heard`, sending heartbeats at any time `sent` before the
/// heartbeat timeout has passed since `heard` leaves the session running,
/// with nothing to do, whatever was heard or sent before.
pub proof fn lemma_heartbeat_keeps_session(s: ServerSessionView, heard: u128, sent: u128)
    requires
        s.state == SessionState::Running,
        heard <= sent,
        sent - heard < HEARTBEAT_TIMEOUT_NS,
    ensures
        ({
            let s1 = session_next(s, SessionEvent::Received(ControlMessage::Heartbeat), heard);
            let s2 = session_next(s1.0, SessionEvent::HeartbeatSent, sent);
            &&& s1.1 == SessionAction::Wait
            &&& s2.0.state == SessionState::Running
            &&& s2.1 == SessionAction::Wait
        }),
{
}

/// Sending a heartbeat after the client has been silent for the heartbeat
/// timeout ends a running session as interrupted.
pub proof fn lemma_silent_client_times_out(s: ServerSessionView, now: u128)
    requires
        s.state == SessionState::Running,
        elapsed(s.last_received, now) >= HEARTBEAT_TIMEOUT_NS,
    ensures
        session_next(s, SessionEvent::HeartbeatSent, now).0.state == SessionState::Collecting,
        session_next(s, SessionEvent::HeartbeatSent, now).0.status == SessionStatus::Interrupted,
        session_next(s, SessionEvent::HeartbeatSent, now).1 == SessionAction::StopReceiving,
{
}

impl ServerSession {
    /// The session as plain values.
    pub closed spec fn view(&self) -> ServerSessionView {
        ServerSessionView {
            state: self.state,
            cross_host: self.cross_host,
            sync_replies: self.sync_replies as nat,
            status: self.status,
            last_received: self.last_received,
            last_sent: self.last_sent,
        }
    }

    /// Well-formedness: no more clock sync replies than rounds, and fewer
    /// while still syncing.
    pub closed spec fn wf(&self) -> bool {
        &&& self.sync_replies <= SYNC_ROUNDS
        &&& self.state == SessionState::Syncing ==> self.sync_replies < SYNC_ROUNDS
        &&& self.state == SessionState::Init ==> self.sync_replies == 0
    }

    /// A fresh session waiting for the client's hello.
    pub fn new() -> (r: Self)
        ensures
            r.wf(),
            r.view() == session_start(),
    {
        ServerSession {
            state: SessionState::Init,
            cross_host: false,
            sync_replies: 0,
            status: SessionStatus::Partial,
            last_received: 0,
            last_sent: 0,
        }
    }

    /// The current state.
    pub fn state(&self) -> (r: SessionState)
        ensures
            r == self.view().state,
    {
        self.state
    }

    /// The session status (decided when the data phase ends).
    pub fn status(&self) -> (r: SessionStatus)
        ensures
            r == self.view().status,
    {
        self.status
    }

    /// The clock mode the client asked for in its hello.
    pub fn clock_mode(&self) -> (r: ClockMode)
        ensures
            r == (if self.view().cross_host {
                ClockMode::SyncEstimated { offset_ns: 0 }
            } else {
                ClockMode::SameHost
            }),
    {
        if self.cross_host {
            ClockMode::SyncEstimated { offset_ns: 0 }
        } else {
            ClockMode::SameHost
        }
    }

    fn stop(&mut self, status: SessionStatus) -> (r: SessionAction)
        requires
            old(self).wf(),
        ensures
            final(self).wf(),
            (final(self).view(), r) == stop_with(old(self).view(), status),
    {
        self.state = SessionState::Collecting;
        self.status = status;
        SessionAction::StopReceiving
    }

    /// Advances the session on an event at time `now_ns` and says what to
    /// do next.
    pub fn step(&mut self, event: SessionEvent, now_ns: u128) -> (r: SessionAction)
        requires
            old(self).wf(),
        ensures
            final(self).wf(),
            (final(self).view(), r) == session_next(old(self).view(), event, now_ns),
    {
        match self.state {
            SessionState::Init => match event {
                SessionEvent::Received(ControlMessage::Hello { cross_host }) => {
                    self.cross_host = cross_host;
                    self.state = if cross_host {
                        SessionState::Syncing
                    } else {
                        SessionState::Ready
                    };
                    SessionAction::SendReady
                },
                SessionEvent::Received(_) => {
                    self.state = SessionState::Failed(FailureReason::ProtocolError);
                    SessionAction::RejectNotHello
                },
                SessionEvent::Closed => {
                    self.state = SessionState::Failed(FailureReason::ControlChannelLost);
                    SessionAction::EndClosedBeforeHello
                },
                SessionEvent::ReadFailed => {
                    self.state = SessionState::Failed(FailureReason::ControlChannelLost);
                    SessionAction::EndReadError
                },
                _ => SessionAction::Wait,
            },
            SessionState::Syncing => match event {
                SessionEvent::Received(ControlMessage::ClockSync) => {
                    if self.sync_replies + 1 < SYNC_ROUNDS {
                        self.state = SessionState::Syncing;
                    } else {
                        self.state = SessionState::Ready;
                    }
                    self.sync_replies = self.sync_replies + 1;
                    SessionAction::ReplyClockSync
                },
                SessionEvent::Received(_) | SessionEvent::Closed => {
                    self.state = SessionState::Ready;
                    SessionAction::Wait
                },
                SessionEvent::ReadFailed => {
                    self.state = SessionState::Failed(FailureReason::ControlChannelLost);
                    SessionAction::EndReadError
                },
                _ => SessionAction::Wait,
            },
            SessionState::Ready => match event {
                SessionEvent::Received(ControlMessage::Start) => {
                    self.state = SessionState::Running;
                    self.last_received = now_ns;
                    self.last_sent = now_ns;
                    SessionAction::StartReceiving
                },
                SessionEvent::Received(_) => {
                    self.state = SessionState::Failed(FailureReason::ProtocolError);
                    SessionAction::EndUnexpectedBeforeStart
                },
                SessionEvent::Closed => {
                    self.state = SessionState::Failed(FailureReason::ControlChannelLost);
                    SessionAction::EndClosedBeforeStart
                },
                SessionEvent::ReadFailed => {
                    self.state = SessionState::Failed(FailureReason::ControlChannelLost);
                    SessionAction::EndReadError
                },
                _ => SessionAction::Wait,
            },
            SessionState::Running => match event {
                SessionEvent::Received(ControlMessage::Heartbeat) => {
                    self.last_received = now_ns;
                    SessionAction::Wait
                },
                SessionEvent::Received(ControlMessage::Stop) => self.stop(SessionStatus::Complete),
                SessionEvent::Received(_) => SessionAction::Wait,
                SessionEvent::Closed => self.stop(SessionStatus::Interrupted),
                SessionEvent::ReadFailed => self.stop(SessionStatus::Interrupted),
                SessionEvent::HeartbeatDue => SessionAction::SendHeartbeat,
                SessionEvent::HeartbeatSent => {
                    self.last_sent = now_ns;
                    if now_ns.saturating_sub(self.last_received) >= HEARTBEAT_TIMEOUT_NS {
                        self.stop(SessionStatus::Interrupted)
                    } else {
                        SessionAction::Wait
                    }
                },
                SessionEvent::HeartbeatSendFailed => self.stop(SessionStatus::Interrupted),
                SessionEvent::ReceiverFinished => SessionAction::Wait,
            },
            SessionState::Collecting => match event {
                SessionEvent::ReceiverFinished => {
                    self.state = SessionState::Done;
                    SessionAction::SendResults
                },
                _ => SessionAction::Wait,
            },
            _ => SessionAction::Wait,
        }
    }
}

} // verus!
