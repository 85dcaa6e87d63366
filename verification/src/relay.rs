//! The relay transport's decisions. The transport listens on a loopback port,
//! serves one peer connection at a time, and for that connection interleaves
//! two sources: the queue of outbound frames and the peer's inbound messages.
//!
//! The waiting, reading and writing are done by whoever drives the transport.
//! After each thing that happens the driver reports it with [`RelayTransport::step`]
//! and does what the returned action says.
//!
//! Connections are numbered from one in the order in which they are accepted.
//! A connection is closed by going back to `Listening`; a connection that is
//! accepted while another is served supersedes it.

use crate::handler::ElectronUiHandler;
use vstd::prelude::*;

verus! {

/// The port on which the transport listens unless told otherwise.
pub const DEFAULT_PORT: u16 = 21118;

/// The loopback address on which the transport listens.
pub const LOOPBACK_HOST: &'static str = "127.0.0.1";

/// Where the transport stands.
#[derive(Debug, Clone, Copy, PartialEq, Eq)]
pub enum Phase {
    /// The listener is not bound yet.
    Binding,
    /// Waiting for a peer to connect.
    Listening,
    /// A raw connection is accepted and is being upgraded.
    Accepted { conn: u64 },
    /// The connection is upgraded and is being served.
    Streaming { conn: u64 },
    /// Binding failed: the bridge is given up.
    Aborted,
}

/// Something that happened on the transport.
#[derive(Debug, Clone, Copy, PartialEq, Eq)]
pub enum TransportEvent {
    /// The listener is bound.
    Bound,
    /// The listener could not be bound.
    BindFailed,
    /// The listener accepted a raw connection.
    PeerAccepted,
    /// The upgrade of connection `conn` succeeded.
    HandshakeCompleted { conn: u64 },
    /// The upgrade of connection `conn` failed.
    HandshakeFailed { conn: u64 },
    /// The outbound queue has a frame.
    FrameReady,
    /// Writing a frame to connection `conn` failed.
    WriteFailed { conn: u64 },
    /// Connection `conn` delivered a text message.
    TextReceived { conn: u64 },
    /// Connection `conn` delivered a message of another kind.
    OtherReceived { conn: u64 },
    /// Connection `conn` delivered a close frame.
    CloseReceived { conn: u64 },
    /// Reading from connection `conn` failed.
    StreamFailed { conn: u64 },
    /// The stream of connection `conn` ended.
    StreamEnded { conn: u64 },
}

/// What the driver is to do next.
#[derive(Debug, Clone, Copy, PartialEq, Eq)]
pub enum TransportAction {
    /// Start accepting connections.
    Accept,
    /// Give up the bridge.
    Abort,
    /// Upgrade the connection just accepted, which is number `conn`. The
    /// connection `superseded`, if any, is no longer served.
    Upgrade { conn: u64, superseded: Option<u64> },
    /// Drop the connection just accepted: no number is left for it.
    Refuse,
    /// Serve connection `conn`: wait for frames and for its messages.
    Stream { conn: u64 },
    /// The upgrade failed: drop the connection and accept the next.
    Listen { conn: u64 },
    /// Write the frame to connection `conn`.
    Write { conn: u64 },
    /// Leave the frame in the queue: no connection is served.
    Hold,
    /// Hand the text to the input event translator.
    Dispatch { conn: u64 },
    /// Drop connection `conn` and accept the next.
    Close { conn: u64 },
    /// Nothing: the event concerns no connection that is served.
    Ignore,
}

/// The state of the transport as plain values.
pub struct TransportState {
    pub phase: Phase,
    /// How many connections were accepted so far.
    pub accepted: u64,
}

/// The connection that the transport is busy with, if any.
pub open spec fn current(state: TransportState) -> Option<u64> {
    match state.phase {
        Phase::Accepted { conn } => Some(conn),
        Phase::Streaming { conn } => Some(conn),
        _ => None,
    }
}

/// The connection that drains the outbound queue, if any.
pub open spec fn consumer(state: TransportState) -> Option<u64> {
    match state.phase {
        Phase::Streaming { conn } => Some(conn),
        _ => None,
    }
}

/// A state is well formed when the connection it is busy with has a number
/// that was given out.
pub open spec fn well_formed(state: TransportState) -> bool {
    match current(state) {
        Some(conn) => 1 <= conn <= state.accepted,
        None => true,
    }
}

/// The state after `event` and the action that answers it.
pub open spec fn spec_step(state: TransportState, event: TransportEvent) -> (
    TransportState,
    TransportAction,
) {
    let stay = |action: TransportAction| (state, action);
    let go = |phase: Phase, action: TransportAction|
        (TransportState { phase, accepted: state.accepted }, action);
    match event {
        TransportEvent::Bound => if state.phase == Phase::Binding {
            go(Phase::Listening, TransportAction::Accept)
        } else {
            stay(TransportAction::Ignore)
        },
        TransportEvent::BindFailed => if state.phase == Phase::Binding {
            go(Phase::Aborted, TransportAction::Abort)
        } else {
            stay(TransportAction::Ignore)
        },
        TransportEvent::PeerAccepted => if state.phase == Phase::Binding || state.phase
            == Phase::Aborted {
            stay(TransportAction::Ignore)
        } else if state.accepted == u64::MAX {
            stay(TransportAction::Refuse)
        } else {
            let conn = (state.accepted + 1) as u64;
            (
                TransportState { phase: Phase::Accepted { conn }, accepted: conn },
                TransportAction::Upgrade { conn, superseded: current(state) },
            )
        },
        TransportEvent::HandshakeCompleted { conn } => if state.phase == (Phase::Accepted {
            conn,
        }) {
            go(Phase::Streaming { conn }, TransportAction::Stream { conn })
        } else {
            stay(TransportAction::Ignore)
        },
        TransportEvent::HandshakeFailed { conn } => if state.phase == (Phase::Accepted { conn }) {
            go(Phase::Listening, TransportAction::Listen { conn })
        } else {
            stay(TransportAction::Ignore)
        },
        TransportEvent::FrameReady => match state.phase {
            Phase::Streaming { conn } => stay(TransportAction::Write { conn }),
            _ => stay(TransportAction::Hold),
        },
        TransportEvent::TextReceived { conn } => if state.phase == (Phase::Streaming { conn }) {
            stay(TransportAction::Dispatch { conn })
        } else {
            stay(TransportAction::Ignore)
        },
        TransportEvent::OtherReceived { conn } => stay(TransportAction::Ignore),
        TransportEvent::WriteFailed { conn } => spec_close(state, conn),
        TransportEvent::CloseReceived { conn } => spec_close(state, conn),
        TransportEvent::StreamFailed { conn } => spec_close(state, conn),
        TransportEvent::StreamEnded { conn } => spec_close(state, conn),
    }
}

/// The end of connection `conn`: where it is the one that is served, the
/// transport goes back to listening; a connection that is not served any more
/// changes nothing.
pub open spec fn spec_close(state: TransportState, conn: u64) -> (
    TransportState,
    TransportAction,
) {
    if state.phase == (Phase::Streaming { conn }) {
        (
            TransportState { phase: Phase::Listening, accepted: state.accepted },
            TransportAction::Close { conn },
        )
    } else {
        (state, TransportAction::Ignore)
    }
}

/// The state after a run of events, and the actions that answer them.
pub open spec fn spec_run(state: TransportState, events: Seq<TransportEvent>) -> (
    TransportState,
    Seq<TransportAction>,
)
    decreases events.len(),
{
    if events.len() == 0 {
        (state, Seq::<TransportAction>::empty())
    } else {
        let (next, action) = spec_step(state, events[0]);
        let (last, actions) = spec_run(next, events.drop_first());
        (last, seq![action] + actions)
    }
}

/// Every step keeps the state well formed.
pub proof fn lemma_step_keeps_well_formed(state: TransportState, event: TransportEvent)
    requires
        well_formed(state),
    ensures
        well_formed(spec_step(state, event).0),
        spec_step(state, event).0.accepted >= state.accepted,
{
}

/// A frame is written only when the queue has one, and only to the connection
/// that drains the queue.
pub proof fn lemma_frames_go_to_the_consumer(state: TransportState, event: TransportEvent)
    ensures
        spec_step(state, event).1 matches TransportAction::Write { conn } ==> event
            == TransportEvent::FrameReady && consumer(state) == Some(conn),
{
}

/// A connection whose number was given out and that the transport is not busy
/// with is never written to again, whatever happens.
pub proof fn lemma_connection_left_is_left_for_good(
    state: TransportState,
    left: u64,
    events: Seq<TransportEvent>,
)
    requires
        well_formed(state),
        left <= state.accepted,
        current(state) != Some(left),
    ensures
        forall|i: int|
            0 <= i < spec_run(state, events).1.len() ==> #[trigger] spec_run(state, events).1[i]
                != (TransportAction::Write { conn: left }),
    decreases events.len(),
{
    if events.len() > 0 {
        let (next, action) = spec_step(state, events[0]);
        lemma_step_keeps_well_formed(state, events[0]);
        lemma_connection_left_is_left_for_good(next, left, events.drop_first());
        let rest = spec_run(next, events.drop_first()).1;
        assert forall|i: int| 0 <= i < spec_run(state, events).1.len() implies #[trigger] spec_run(
            state,
            events,
        ).1[i] != (TransportAction::Write { conn: left }) by {
            if i > 0 {
                assert(spec_run(state, events).1[i] == rest[i - 1]);
            }
        }
    }
}

/// The transport has one consumer. Once a second connection is accepted while
/// a first one is served, no further frame is written to the first: it no
/// longer drains the queue.
pub proof fn lemma_second_connection_supersedes_first(
    state: TransportState,
    first: u64,
    events: Seq<TransportEvent>,
)
    requires
        well_formed(state),
        current(state) == Some(first),
        spec_step(state, TransportEvent::PeerAccepted).1 is Upgrade,
    ensures
        ({
            let (after, action) = spec_step(state, TransportEvent::PeerAccepted);
            let actions = spec_run(after, events).1;
            &&& action matches TransportAction::Upgrade { conn, superseded } && conn != first
                && superseded == Some(first)
            &&& forall|i: int|
                0 <= i < actions.len() ==> #[trigger] actions[i] != (TransportAction::Write {
                    conn: first,
                })
        }),
{
    let after = spec_step(state, TransportEvent::PeerAccepted).0;
    lemma_step_keeps_well_formed(state, TransportEvent::PeerAccepted);
    lemma_connection_left_is_left_for_good(after, first, events);
}

/// The relay transport of one bridge.
pub struct RelayTransport {
    port: u16,
    state: TransportState,
}

impl View for RelayTransport {
    type V = TransportState;

    closed spec fn view(&self) -> TransportState {
        self.state
    }
}

impl RelayTransport {
    #[verifier::type_invariant]
    spec fn valid(&self) -> bool {
        well_formed(self.state)
    }

    /// The port that the transport listens on.
    pub closed spec fn spec_port(&self) -> u16 {
        self.port
    }

    /// A transport for `port`, before its listener is bound.
    pub fn new(port: u16) -> (transport: Self)
        ensures
            transport@ == (TransportState { phase: Phase::Binding, accepted: 0 }),
            transport.spec_port() == port,
    {
        RelayTransport { port, state: TransportState { phase: Phase::Binding, accepted: 0 } }
    }

    /// The port that the transport listens on.
    pub fn port(&self) -> (port: u16)
        ensures
            port == self.spec_port(),
    {
        self.port
    }

    /// Where the transport stands.
    pub fn phase(&self) -> (phase: Phase)
        ensures
            phase == self@.phase,
            well_formed(self@),
    {
        proof {
            use_type_invariant(self);
        }
        self.state.phase
    }

    /// How many connections were accepted so far.
    pub fn accepted(&self) -> (count: u64)
        ensures
            count == self@.accepted,
    {
        self.state.accepted
    }

    /// Whether the driver is to take frames from the outbound queue: only
    /// while a connection is served.
    pub fn wants_frames(&self) -> (wanted: bool)
        ensures
            wanted == consumer(self@) is Some,
    {
        match self.state.phase {
            Phase::Streaming { .. } => true,
            _ => false,
        }
    }

    /// Ends connection `conn` if it is the one that is served.
    fn close(&mut self, conn: u64) -> (action: TransportAction)
        ensures
            (final(self)@, action) == spec_close(old(self)@, conn),
            final(self).spec_port() == old(self).spec_port(),
    {
        proof {
            use_type_invariant(&*self);
        }
        if is_streaming(self.state.phase, conn) {
            let accepted: u64 = self.state.accepted;
            self.state = TransportState { phase: Phase::Listening, accepted };
            TransportAction::Close { conn }
        } else {
            TransportAction::Ignore
        }
    }

    /// Takes note of `event` and says what is to be done.
    pub fn step(&mut self, event: TransportEvent) -> (action: TransportAction)
        ensures
            (final(self)@, action) == spec_step(old(self)@, event),
            final(self).spec_port() == old(self).spec_port(),
            well_formed(final(self)@),
    {
        proof {
            use_type_invariant(&*self);
            lemma_step_keeps_well_formed(self.state, event);
        }
        let accepted: u64 = self.state.accepted;
        let phase: Phase = self.state.phase;
        match event {
            TransportEvent::Bound => match phase {
                Phase::Binding => {
                    self.state = TransportState { phase: Phase::Listening, accepted };
                    TransportAction::Accept
                },
                _ => TransportAction::Ignore,
            },
            TransportEvent::BindFailed => match phase {
                Phase::Binding => {
                    self.state = TransportState { phase: Phase::Aborted, accepted };
                    TransportAction::Abort
                },
                _ => TransportAction::Ignore,
            },
            TransportEvent::PeerAccepted => {
                let superseded: Option<u64> = match phase {
                    Phase::Binding => {
                        return TransportAction::Ignore;
                    },
                    Phase::Aborted => {
                        return TransportAction::Ignore;
                    },
                    Phase::Listening => None,
                    Phase::Accepted { conn } => Some(conn),
                    Phase::Streaming { conn } => Some(conn),
                };
                if accepted == u64::MAX {
                    return TransportAction::Refuse;
                }
                let conn: u64 = accepted + 1;
                self.state = TransportState { phase: Phase::Accepted { conn }, accepted: conn };
                TransportAction::Upgrade { conn, superseded }
            },
            TransportEvent::HandshakeCompleted { conn } => {
                if is_accepted(phase, conn) {
                    self.state = TransportState { phase: Phase::Streaming { conn }, accepted };
                    TransportAction::Stream { conn }
                } else {
                    TransportAction::Ignore
                }
            },
            TransportEvent::HandshakeFailed { conn } => {
                if is_accepted(phase, conn) {
                    self.state = TransportState { phase: Phase::Listening, accepted };
                    TransportAction::Listen { conn }
                } else {
                    TransportAction::Ignore
                }
            },
            TransportEvent::FrameReady => match phase {
                Phase::Streaming { conn } => TransportAction::Write { conn },
                _ => TransportAction::Hold,
            },
            TransportEvent::TextReceived { conn } => {
                if is_streaming(phase, conn) {
                    TransportAction::Dispatch { conn }
                } else {
                    TransportAction::Ignore
                }
            },
            TransportEvent::OtherReceived { conn } => TransportAction::Ignore,
            TransportEvent::WriteFailed { conn } => self.close(conn),
            TransportEvent::CloseReceived { conn } => self.close(conn),
            TransportEvent::StreamFailed { conn } => self.close(conn),
            TransportEvent::StreamEnded { conn } => self.close(conn),
        }
    }
}

/// Whether `phase` is the upgrade of connection `conn`.
fn is_accepted(phase: Phase, conn: u64) -> (yes: bool)
    ensures
        yes == (phase == (Phase::Accepted { conn })),
{
    match phase {
        Phase::Accepted { conn: pending } => pending == conn,
        _ => false,
    }
}

/// Whether `phase` is the serving of connection `conn`.
fn is_streaming(phase: Phase, conn: u64) -> (yes: bool)
    ensures
        yes == (phase == (Phase::Streaming { conn })),
{
    match phase {
        Phase::Streaming { conn: served } => served == conn,
        _ => false,
    }
}

/// Sets up the bridge for `port`: the transport, not yet bound, and the
/// handler through which the session engine's frames reach the outbound queue.
/// The driver binds [`LOOPBACK_HOST`] and the port and reports how that went
/// as the transport's first event; a failure to bind ends the bridge.
pub fn start_electron_server<V, I>(port: u16, video_sender: V, input_sender: I) -> (started: (
    RelayTransport,
    ElectronUiHandler<V, I>,
))
    ensures
        started.0@ == (TransportState { phase: Phase::Binding, accepted: 0 }),
        started.0.spec_port() == port,
        started.1.video_sender() == Some(video_sender),
        started.1.input_sender() == input_sender,
{
    (RelayTransport::new(port), ElectronUiHandler::new(video_sender, input_sender))
}

} // verus!
