//! Client side of a control session: which message to send or what to do
//! next, given what the server answered. The binary performs each action
//! (writes messages, runs the traffic) and reports back what happened.

use vstd::prelude::*;

use crate::protocol::clock::SYNC_ROUNDS;
use crate::protocol::session::{ControlMessage, FailureReason, SessionState};

verus! {

/// What happened on the client's side of a session.
#[derive(Debug, Clone, Copy, PartialEq, Eq, Structural)]
pub enum ClientEvent {
    /// The control connection to the server is up.
    Connected,
    /// A message arrived from the server.
    Received(ControlMessage),
    /// The server closed the control connection.
    Closed,
    /// Reading from the control connection failed.
    ReadFailed,
    /// The test traffic has been sent (or was interrupted).
    TrafficDone,
}

/// What the client has to do next.
#[derive(Debug, Clone, Copy, PartialEq, Eq, Structural)]
pub enum ClientAction {
    /// Nothing; wait for the next event.
    Wait,
    /// Send the hello describing the test.
    SendHello,
    /// Send a clock sync probe stamped with the client's time.
    SendClockProbe,
    /// Send start and run the test traffic.
    StartTraffic,
    /// Tell the server to stop and wait for its results.
    SendStop,
    /// Report the results the server sent, with the server's status.
    ReportResults,
    /// Report without server results, as a partial session.
    ReportPartial,
    /// End: the server answered the hello with an error.
    FailServerError,
    /// End: the server answered the hello with something other than ready,
    /// or closed the connection.
    FailExpectedReady,
    /// End: the control connection could not be read.
    FailReadError,
}

/// The client's view of a control session.
pub struct ClientSession {
    state: SessionState,
    cross_host: bool,
    probes: usize,
}

/// The session as plain values.
pub struct ClientSessionView {
    pub state: SessionState,
    pub cross_host: bool,
    pub probes: nat,
}

/// A fresh session for a test that asks (`cross_host`) or not for clock
/// offset estimation.
pub open spec fn client_start(cross_host: bool) -> ClientSessionView {
    ClientSessionView { state: SessionState::Init, cross_host, probes: 0 }
}

/// The session failed for `reason`, with `action` to take.
pub open spec fn client_fail(s: ClientSessionView, reason: FailureReason, action: ClientAction) -> (
    ClientSessionView,
    ClientAction,
) {
    (ClientSessionView { state: SessionState::Failed(reason), ..s }, action)
}

/// The client's next view and action on an event.
///
/// Once connected the client sends its hello and expects ready; an error
/// or anything else ends the session. With clock-offset estimation it then
/// sends up to `SYNC_ROUNDS` probes, one after each clock sync reply; any
/// other answer, or the server closing, ends the probing. It then starts
/// the traffic, sends stop when the traffic is done, and reports the
/// server's results, or a partial session when something else comes. A
/// read error ends the session at any point where the client reads.
pub open spec fn client_next(s: ClientSessionView, e: ClientEvent) -> (ClientSessionView, ClientAction) {
    match s.state {
        SessionState::Init => match e {
            ClientEvent::Connected => (
                ClientSessionView { state: SessionState::Negotiating, ..s },
                ClientAction::SendHello,
            ),
            _ => (s, ClientAction::Wait),
        },
        SessionState::Negotiating => match e {
            ClientEvent::Received(ControlMessage::Ready) => if s.cross_host {
                (
                    ClientSessionView { state: SessionState::Syncing, probes: 1, ..s },
                    ClientAction::SendClockProbe,
                )
            } else {
                (
                    ClientSessionView { state: SessionState::Running, ..s },
                    ClientAction::StartTraffic,
                )
            },
            ClientEvent::Received(ControlMessage::Error) => client_fail(
                s,
                FailureReason::ProtocolError,
                ClientAction::FailServerError,
            ),
            ClientEvent::Received(_) => client_fail(
                s,
                FailureReason::ProtocolError,
                ClientAction::FailExpectedReady,
            ),
            ClientEvent::Closed => client_fail(
                s,
                FailureReason::ControlChannelLost,
                ClientAction::FailExpectedReady,
            ),
            ClientEvent::ReadFailed => client_fail(
                s,
                FailureReason::ControlChannelLost,
                ClientAction::FailReadError,
            ),
            _ => (s, ClientAction::Wait),
        },
        SessionState::Syncing => match e {
            ClientEvent::Received(ControlMessage::ClockSync) => if s.probes < SYNC_ROUNDS {
                (ClientSessionView { probes: s.probes + 1, ..s }, ClientAction::SendClockProbe)
            } else {
                (
                    ClientSessionView { state: SessionState::Running, ..s },
                    ClientAction::StartTraffic,
                )
            },
            ClientEvent::Received(_) | ClientEvent::Closed => (
                ClientSessionView { state: SessionState::Running, ..s },
                ClientAction::StartTraffic,
            ),
            ClientEvent::ReadFailed => client_fail(
                s,
                FailureReason::ControlChannelLost,
                ClientAction::FailReadError,
            ),
            _ => (s, ClientAction::Wait),
        },
        SessionState::Running => match e {
            ClientEvent::TrafficDone => (
                ClientSessionView { state: SessionState::Collecting, ..s },
                ClientAction::SendStop,
            ),
            _ => (s, ClientAction::Wait),
        },
        SessionState::Collecting => match e {
            ClientEvent::Received(ControlMessage::Results) => (
                ClientSessionView { state: SessionState::Done, ..s },
                ClientAction::ReportResults,
            ),
            ClientEvent::Received(_) | ClientEvent::Closed => (
                ClientSessionView { state: SessionState::Done, ..s },
                ClientAction::ReportPartial,
            ),
            ClientEvent::ReadFailed => client_fail(
                s,
                FailureReason::ControlChannelLost,
                ClientAction::FailReadError,
            ),
            _ => (s, ClientAction::Wait),
        },
        _ => (s, ClientAction::Wait),
    }
}

/// The session after a sequence of events.
pub open spec fn client_run(s: ClientSessionView, events: Seq<ClientEvent>) -> ClientSessionView
    decreases events.len(),
{
    if events.len() == 0 {
        s
    } else {
        client_next(client_run(s, events.drop_last()), events.last()).0
    }
}

/// The phases reached only after the server's ready.
pub open spec fn client_past_ready(st: SessionState) -> bool {
    st == SessionState::Syncing || st == SessionState::Running || st == SessionState::Collecting
        || st == SessionState::Done
}

/// The server's ready is among `events`.
pub open spec fn has_ready(events: Seq<ClientEvent>) -> bool {
    exists|i: int|
        0 <= i < events.len() && #[trigger] events[i] == ClientEvent::Received(ControlMessage::Ready)
}

/// What holds of every view a run from a fresh session reaches.
pub open spec fn client_run_ok(v: ClientSessionView, cross_host: bool) -> bool {
    &&& v.cross_host == cross_host
    &&& v.probes <= SYNC_ROUNDS
    &&& !cross_host ==> v.probes == 0
    &&& v.state == SessionState::Syncing ==> 1 <= v.probes
    &&& (v.state == SessionState::Init || v.state == SessionState::Negotiating) ==> v.probes == 0
}

proof fn lemma_client_history(cross_host: bool, events: Seq<ClientEvent>)
    ensures
        client_run_ok(client_run(client_start(cross_host), events), cross_host),
        client_past_ready(client_run(client_start(cross_host), events).state) ==> has_ready(events),
    decreases events.len(),
{
    if events.len() > 0 {
        let t = events.drop_last();
        lemma_client_history(cross_host, t);
        let prev = client_run(client_start(cross_host), t);
        let last = events.len() - 1;
        if has_ready(t) {
            let i = choose|i: int|
                0 <= i < t.len() && #[trigger] t[i] == ClientEvent::Received(ControlMessage::Ready);
            assert(events[i] == t[i]);
        }
        if prev.state == SessionState::Negotiating && client_past_ready(
            client_run(client_start(cross_host), events).state,
        ) {
            assert(events[last] == ClientEvent::Received(ControlMessage::Ready));
        }
    }
}

/// Whatever the server answers, the client sends traffic (and everything
/// after it) only once the server has said ready; it sends at most
/// `SYNC_ROUNDS` clock sync probes, and none when the test does not ask
/// for clock-offset estimation.
pub proof fn lemma_traffic_needs_ready(cross_host: bool, events: Seq<ClientEvent>)
    ensures
        client_past_ready(client_run(client_start(cross_host), events).state) ==> has_ready(events),
        client_run(client_start(cross_host), events).probes <= SYNC_ROUNDS,
        !cross_host ==> client_run(client_start(cross_host), events).probes == 0,
{
    lemma_client_history(cross_host, events);
}

/// A session that has ended or failed stays as it is, whatever comes.
pub proof fn lemma_client_end_states_absorb(s: ClientSessionView, e: ClientEvent)
    requires
        s.state == SessionState::Done || s.state is Failed,
    ensures
        client_next(s, e) == (s, ClientAction::Wait),
{
}

/// Results are reported only after stop was sent, and stop only after the
/// traffic was started and is done.
pub proof fn lemma_report_after_stop(s: ClientSessionView, e: ClientEvent)
    ensures
        (client_next(s, e).1 == ClientAction::ReportResults || client_next(s, e).1
            == ClientAction::ReportPartial) ==> s.state == SessionState::Collecting,
        client_next(s, e).1 == ClientAction::SendStop ==> s.state == SessionState::Running && e
            == ClientEvent::TrafficDone,
        client_next(s, e).1 == ClientAction::StartTraffic ==> (s.state == SessionState::Negotiating
            || s.state == SessionState::Syncing),
{
}

impl ClientSession {
    /// The session as plain values.
    pub closed spec fn view(&self) -> ClientSessionView {
        ClientSessionView { state: self.state, cross_host: self.cross_host, probes: self.probes as nat }
    }

    /// Well-formedness: no more probes than rounds.
    pub closed spec fn wf(&self) -> bool {
        self.probes <= SYNC_ROUNDS
    }

    /// A fresh session for a test that asks (`cross_host`) or not for
    /// clock-offset estimation.
    pub fn new(cross_host: bool) -> (r: Self)
        ensures
            r.wf(),
            r.view() == client_start(cross_host),
    {
        ClientSession { state: SessionState::Init, cross_host, probes: 0 }
    }

    /// The current state.
    pub fn state(&self) -> (r: SessionState)
        ensures
            r == self.view().state,
    {
        self.state
    }

    /// Clock sync probes sent so far.
    pub fn probes(&self) -> (r: usize)
        ensures
            r == self.view().probes,
    {
        self.probes
    }

    /// Advances the session on an event and says what to do next.
    pub fn step(&mut self, event: ClientEvent) -> (r: ClientAction)
        requires
            old(self).wf(),
        ensures
            final(self).wf(),
            (final(self).view(), r) == client_next(old(self).view(), event),
    {
        match self.state {
            SessionState::Init => match event {
                ClientEvent::Connected => {
                    self.state = SessionState::Negotiating;
                    ClientAction::SendHello
                },
                _ => ClientAction::Wait,
            },
            SessionState::Negotiating => match event {
                ClientEvent::Received(ControlMessage::Ready) => {
                    if self.cross_host {
                        self.state = SessionState::Syncing;
                        self.probes = 1;
                        ClientAction::SendClockProbe
                    } else {
                        self.state = SessionState::Running;
                        ClientAction::StartTraffic
                    }
                },
                ClientEvent::Received(ControlMessage::Error) => {
                    self.state = SessionState::Failed(FailureReason::ProtocolError);
                    ClientAction::FailServerError
                },
                ClientEvent::Received(_) => {
                    self.state = SessionState::Failed(FailureReason::ProtocolError);
                    ClientAction::FailExpectedReady
                },
                ClientEvent::Closed => {
                    self.state = SessionState::Failed(FailureReason::ControlChannelLost);
                    ClientAction::FailExpectedReady
                },
                ClientEvent::ReadFailed => {
                    self.state = SessionState::Failed(FailureReason::ControlChannelLost);
                    ClientAction::FailReadError
                },
                _ => ClientAction::Wait,
            },
            SessionState::Syncing => match event {
                ClientEvent::Received(ControlMessage::ClockSync) => {
                    if self.probes < SYNC_ROUNDS {
                        self.probes = self.probes + 1;
                        ClientAction::SendClockProbe
                    } else {
                        self.state = SessionState::Running;
                        ClientAction::StartTraffic
                    }
                },
                ClientEvent::Received(_) | ClientEvent::Closed => {
                    self.state = SessionState::Running;
                    ClientAction::StartTraffic
                },
                ClientEvent::ReadFailed => {
                    self.state = SessionState::Failed(FailureReason::ControlChannelLost);
                    ClientAction::FailReadError
                },
                _ => ClientAction::Wait,
            },
            SessionState::Running => match event {
                ClientEvent::TrafficDone => {
                    self.state = SessionState::Collecting;
                    ClientAction::SendStop
                },
                _ => ClientAction::Wait,
            },
            SessionState::Collecting => match event {
                ClientEvent::Received(ControlMessage::Results) => {
                    self.state = SessionState::Done;
                    ClientAction::ReportResults
                },
                ClientEvent::Received(_) | ClientEvent::Closed => {
                    self.state = SessionState::Done;
                    ClientAction::ReportPartial
                },
                ClientEvent::ReadFailed => {
                    self.state = SessionState::Failed(FailureReason::ControlChannelLost);
                    ClientAction::FailReadError
                },
                _ => ClientAction::Wait,
            },
            _ => ClientAction::Wait,
        }
    }
}

} // verus!
