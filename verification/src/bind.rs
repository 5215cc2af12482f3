//! The server's side of `BindTcp`: one listener on an external port, and the
//! stream that tells the client of each connection that comes in.
//!
//! The program around the library owns the listener. It asks the session
//! what to send first, reports each accepted connection, and releases the
//! session when the stream is dropped.

use vstd::prelude::*;
use vstd::string::*;
use crate::pending::{parked_on, PendingConnections};
use crate::ports::{invalid_port_message, is_port, parse_port};
use crate::schema::{TcpAcceptRequestView, TcpBindRequest, TcpBindResponse};
use crate::status::{Code, Status, StatusView};
use crate::tunnel::{claimed, no_pending_message};

verus! {

/// The port to listen on for a request, zero standing for any free port, or
/// the error that rejects the request.
pub open spec fn requested_port(request: TcpBindRequest) -> Result<u16, StatusView> {
    let port = match request.port {
        Some(port) => port,
        None => 0i32,
    };
    if is_port(port as int) {
        Ok(port as u16)
    } else {
        Err(StatusView { code: Code::InvalidArgument, message: invalid_port_message(port as int) })
    }
}

/// Reads a `BindTcp` request: the port to listen on. An absent port and zero
/// both ask the system for any free port.
pub fn bind_tcp(request: TcpBindRequest) -> (r: Result<u16, Status>)
    ensures
        (match r {
            Ok(port) => Ok(port),
            Err(status) => Err(status@),
        }) == requested_port(request),
{
    let port = match request.port {
        Some(port) => port,
        None => 0,
    };
    parse_port(port)
}

/// The error for a listener that could not be opened, from the system's
/// description of what went wrong.
pub fn bind_failure(detail: &str) -> (status: Status)
    ensures
        status@ == (StatusView {
            code: Code::Internal,
            message: "failed to start a new tcp server:\n"@ + detail@,
        }),
{
    let mut message = String::from_str("failed to start a new tcp server:\n");
    message.append(detail);
    Status::internal(message)
}

/// The error for a listener that failed after it was opened.
pub fn listener_failure(detail: &str) -> (status: Status)
    ensures
        status@ == (StatusView { code: Code::Internal, message: detail@ }),
{
    Status::internal(String::from_str(detail))
}

/// What a session sends next.
#[derive(Debug, Clone, Copy, PartialEq, Eq, Structural)]
pub enum BindMode {
    /// Nothing was sent yet: the bound port goes out first.
    Metadata,
    /// The bound port was sent: one notice goes out for each connection.
    Connection,
}

/// Where a session stands.
pub struct BindState {
    pub port: u16,
    pub mode: BindMode,
}

/// One `BindTcp` call on the server.
#[derive(Debug)]
pub struct BindSession {
    port: u16,
    mode: BindMode,
}

impl View for BindSession {
    type V = BindState;

    closed spec fn view(&self) -> BindState {
        BindState { port: self.port, mode: self.mode }
    }
}

/// What the stream of a session is asked, or told.
pub enum BindEvent {
    /// The stream is asked for its next message.
    Poll,
    /// The listener accepted this connection.
    Accepted(u64),
}

/// The rule of the stream: the next state, and the message that goes out, if
/// one does. The listener is not consulted before the bound port has gone
/// out, so a connection can only be reported after it.
pub open spec fn bind_step(state: BindState, event: BindEvent) -> (BindState, Option<TcpBindResponse>) {
    match (state.mode, event) {
        (BindMode::Metadata, BindEvent::Poll) => (
            BindState { mode: BindMode::Connection, ..state },
            Some(TcpBindResponse::Metadata { port: state.port as i32 }),
        ),
        (BindMode::Connection, BindEvent::Accepted(_)) => (state, Some(TcpBindResponse::Connection)),
        _ => (state, None),
    }
}

/// The queues after an event: an accepted connection is parked at the back
/// of the session's port.
pub open spec fn bind_parks(state: BindState, event: BindEvent, queues: Map<u16, Seq<u64>>) -> Map<u16, Seq<u64>> {
    match (state.mode, event) {
        (BindMode::Connection, BindEvent::Accepted(connection)) => queues.insert(
            state.port,
            parked_on(queues, state.port).push(connection),
        ),
        _ => queues,
    }
}

impl BindSession {
    /// Starts a session for a listener that is bound to `port`, with a fresh,
    /// empty queue. Connections that an earlier session left on the port are
    /// handed back to be closed: no call of this session can claim them.
    pub fn new(port: u16, pending: &mut PendingConnections) -> (r: (BindSession, Vec<u64>))
        ensures
            r.0@ == (BindState { port, mode: BindMode::Metadata }),
            final(pending)@ == old(pending)@.insert(port, Seq::empty()),
            r.1@ == parked_on(old(pending)@, port),
    {
        let stale = pending.register(port);
        (BindSession { port, mode: BindMode::Metadata }, stale)
    }

    /// The port that the listener is bound to.
    pub fn port(&self) -> (port: u16)
        ensures
            port == self@.port,
    {
        self.port
    }

    /// What the session sends next.
    pub fn mode(&self) -> (mode: BindMode)
        ensures
            mode == self@.mode,
    {
        self.mode
    }

    /// Asked for the next message: the bound port if it has not gone out yet.
    /// Otherwise nothing, and the caller waits for the listener.
    pub fn poll_next(&mut self) -> (message: Option<TcpBindResponse>)
        ensures
            (final(self)@, message) == bind_step(old(self)@, BindEvent::Poll),
    {
        match self.mode {
            BindMode::Metadata => {
                self.mode = BindMode::Connection;
                Some(TcpBindResponse::Metadata { port: self.port as i32 })
            },
            BindMode::Connection => None,
        }
    }

    /// The listener accepted a connection: it is parked on the session's port
    /// and the answer is the notice for the client. Before the bound port
    /// has gone out no connection is taken: the answer is nothing, and the
    /// connection stays with the caller.
    pub fn accepted(&mut self, pending: &mut PendingConnections, connection: u64) -> (message: Option<TcpBindResponse>)
        ensures
            (final(self)@, message) == bind_step(old(self)@, BindEvent::Accepted(connection)),
            final(pending)@ == bind_parks(old(self)@, BindEvent::Accepted(connection), old(pending)@),
    {
        match self.mode {
            BindMode::Metadata => None,
            BindMode::Connection => {
                pending.push(self.port, connection);
                Some(TcpBindResponse::Connection)
            },
        }
    }

    /// Ends the session: its queue goes away, and what was still parked on it
    /// is handed back to be closed.
    pub fn release(self, pending: &mut PendingConnections) -> (unclaimed: Vec<u64>)
        ensures
            final(pending)@ == old(pending)@.remove(self@.port),
            unclaimed@ == parked_on(old(pending)@, self@.port),
    {
        pending.remove(self.port)
    }
}

/// The messages that a run of events sends, in order.
pub open spec fn responses(state: BindState, events: Seq<BindEvent>) -> Seq<TcpBindResponse>
    decreases events.len(),
{
    if events.len() == 0 {
        Seq::empty()
    } else {
        let (next, message) = bind_step(state, events[0]);
        let rest = responses(next, events.drop_first());
        match message {
            Some(message) => seq![message] + rest,
            None => rest,
        }
    }
}

/// Whatever a session is asked and told, the first message it sends is the
/// bound port, and every message after that is a notice of a connection.
pub proof fn lemma_metadata_comes_first(port: u16, events: Seq<BindEvent>)
    ensures
        ({
            let sent = responses(BindState { port, mode: BindMode::Metadata }, events);
            &&& sent.len() > 0 ==> sent[0] == (TcpBindResponse::Metadata { port: port as i32 })
            &&& forall|i: int| 0 < i < sent.len() ==> sent[i] == TcpBindResponse::Connection
        }),
    decreases events.len(),
{
    let fresh = BindState { port, mode: BindMode::Metadata };
    if events.len() > 0 {
        let (next, message) = bind_step(fresh, events[0]);
        let rest = events.drop_first();
        match events[0] {
            BindEvent::Poll => {
                lemma_only_connections_follow(next, rest);
            },
            BindEvent::Accepted(_) => {
                lemma_metadata_comes_first(port, rest);
            },
        }
    }
}

/// After the bound port has gone out, only notices of connections follow.
pub proof fn lemma_only_connections_follow(state: BindState, events: Seq<BindEvent>)
    requires
        state.mode == BindMode::Connection,
    ensures
        forall|i: int| 0 <= i < responses(state, events).len() ==> (#[trigger] responses(state, events)[i]) == TcpBindResponse::Connection,
    decreases events.len(),
{
    if events.len() > 0 {
        lemma_only_connections_follow(state, events.drop_first());
    }
}

/// After a session is released nothing can be claimed on its port.
pub proof fn lemma_released_port_has_nothing(queues: Map<u16, Seq<u64>>, port: u16)
    ensures
        parked_on(queues.remove(port), port).len() == 0,
        ({
            let first = Some(Ok(TcpAcceptRequestView::Metadata { port: port as i32 }));
            &&& claimed(queues.remove(port), first) is Err
            &&& claimed(queues.remove(port), first)->Err_0 == (StatusView {
                code: Code::InvalidArgument,
                message: no_pending_message(port),
            })
        }),
{
}

} // verus!
