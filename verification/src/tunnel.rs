//! The server's side of one tunnel: claiming a parked connection, then
//! shuttling bytes between it and the RPC stream of the call.
//!
//! The program around the library waits on the socket and on the stream. It
//! reports what happened as a `TunnelEvent` and carries out the
//! `TunnelAction` that `TunnelSession::step` answers with.

use vstd::prelude::*;
use vstd::string::*;
use crate::pending::{parked_on, PendingConnections};
use crate::ports::{invalid_port_message, is_port, parse_port};
use crate::schema::{Packet, TcpAcceptRequest, TcpAcceptRequestView};
use crate::status::{Code, Status, StatusView};
use crate::text::{decimal, decimal_text};

verus! {

/// What the request stream gave when it was first asked for a message:
/// nothing, a transport error, or a message.
pub open spec fn first_view(first: Option<Result<TcpAcceptRequest, Status>>) -> Option<Result<TcpAcceptRequestView, StatusView>> {
    match first {
        None => None,
        Some(Ok(message)) => Some(Ok(message@)),
        Some(Err(status)) => Some(Err(status@)),
    }
}

/// The text of the error for a port on which nothing is parked.
pub open spec fn no_pending_message(port: u16) -> Seq<char> {
    "there are no pending connections on port: "@ + decimal(port as nat)
}

/// The port that the first message names, or the error that rejects the call.
pub open spec fn named_port(first: Option<Result<TcpAcceptRequestView, StatusView>>) -> Result<u16, StatusView> {
    match first {
        None => Err(StatusView { code: Code::Cancelled, message: "empty request"@ }),
        Some(Err(status)) => Err(status),
        Some(Ok(TcpAcceptRequestView::Metadata { port })) => {
            if is_port(port as int) {
                Ok(port as u16)
            } else {
                Err(StatusView { code: Code::InvalidArgument, message: invalid_port_message(port as int) })
            }
        },
        Some(Ok(_)) => Err(
            StatusView {
                code: Code::InvalidArgument,
                message: "the first message needs to contain metadata"@,
            },
        ),
    }
}

/// The session that a call starts with, or the error that rejects it.
pub open spec fn claimed(queues: Map<u16, Seq<u64>>, first: Option<Result<TcpAcceptRequestView, StatusView>>) -> Result<TunnelState, StatusView> {
    match named_port(first) {
        Err(status) => Err(status),
        Ok(port) => {
            if parked_on(queues, port).len() > 0 {
                Ok(
                    TunnelState {
                        port,
                        connection: parked_on(queues, port).last(),
                        client_eof: false,
                        ended: false,
                    },
                )
            } else {
                Err(StatusView { code: Code::InvalidArgument, message: no_pending_message(port) })
            }
        },
    }
}

/// The queues after a call was started or rejected.
pub open spec fn after_claim(queues: Map<u16, Seq<u64>>, first: Option<Result<TcpAcceptRequestView, StatusView>>) -> Map<u16, Seq<u64>> {
    match claimed(queues, first) {
        Ok(state) => queues.insert(state.port, parked_on(queues, state.port).drop_last()),
        Err(_) => queues,
    }
}

/// Where a tunnel stands.
pub struct TunnelState {
    /// The external port that the connection came in on.
    pub port: u16,
    /// The claimed connection.
    pub connection: u64,
    /// The external peer has closed its sending side.
    pub client_eof: bool,
    /// The call is over.
    pub ended: bool,
}

/// One tunnel on the server: a claimed connection and the call that serves it.
#[derive(Debug)]
pub struct TunnelSession {
    port: u16,
    connection: u64,
    client_eof: bool,
    ended: bool,
}

impl View for TunnelSession {
    type V = TunnelState;

    closed spec fn view(&self) -> TunnelState {
        TunnelState {
            port: self.port,
            connection: self.connection,
            client_eof: self.client_eof,
            ended: self.ended,
        }
    }
}

/// What happened on the socket or on the request stream.
#[derive(Debug, Clone, PartialEq, Eq)]
pub enum TunnelEvent {
    /// A read from the external socket gave these bytes; none means end of file.
    ExternalRead(Vec<u8>),
    /// A read from the external socket failed.
    ExternalReadFailed,
    /// The request stream gave a message.
    Request(TcpAcceptRequest),
    /// The request stream failed.
    RequestFailed(Status),
    /// The request stream is over.
    RequestsEnded,
    /// Writing to the external socket failed, with this reason.
    ExternalWriteFailed(String),
}

pub enum TunnelEventView {
    ExternalRead(Seq<u8>),
    ExternalReadFailed,
    Request(TcpAcceptRequestView),
    RequestFailed(StatusView),
    RequestsEnded,
    ExternalWriteFailed(Seq<char>),
}

impl View for TunnelEvent {
    type V = TunnelEventView;

    open spec fn view(&self) -> TunnelEventView {
        match self {
            TunnelEvent::ExternalRead(data) => TunnelEventView::ExternalRead(data@),
            TunnelEvent::ExternalReadFailed => TunnelEventView::ExternalReadFailed,
            TunnelEvent::Request(message) => TunnelEventView::Request(message@),
            TunnelEvent::RequestFailed(status) => TunnelEventView::RequestFailed(status@),
            TunnelEvent::RequestsEnded => TunnelEventView::RequestsEnded,
            TunnelEvent::ExternalWriteFailed(reason) => TunnelEventView::ExternalWriteFailed(reason@),
        }
    }
}

/// What to do next.
#[derive(Debug, Clone, PartialEq, Eq)]
pub enum TunnelAction {
    /// Send this packet to the client.
    Send(Packet),
    /// Write these bytes to the external socket.
    Write(Vec<u8>),
    /// Send this error to the client and end the call.
    Fail(Status),
    /// Nothing to do: keep waiting.
    Continue,
    /// End the call.
    Finish,
}

pub enum TunnelActionView {
    Send(Seq<u8>),
    Write(Seq<u8>),
    Fail(StatusView),
    Continue,
    Finish,
}

impl View for TunnelAction {
    type V = TunnelActionView;

    open spec fn view(&self) -> TunnelActionView {
        match self {
            TunnelAction::Send(packet) => TunnelActionView::Send(packet@),
            TunnelAction::Write(data) => TunnelActionView::Write(data@),
            TunnelAction::Fail(status) => TunnelActionView::Fail(status@),
            TunnelAction::Continue => TunnelActionView::Continue,
            TunnelAction::Finish => TunnelActionView::Finish,
        }
    }
}

/// The tunnel with its call over.
pub open spec fn ended(state: TunnelState) -> TunnelState {
    TunnelState { ended: true, ..state }
}

/// The rule of the shuttle: the next state and the action for each event.
///
/// Bytes read from the socket go to the client as one packet, and the empty
/// read that marks end of file goes out as an empty packet, once; later reads
/// are ignored. A failed read is ignored. A packet from the client is written
/// to the socket. Any other message, a failure of the stream or of a write,
/// and the end of the stream end the call.
pub open spec fn tunnel_step(state: TunnelState, event: TunnelEventView) -> (TunnelState, TunnelActionView) {
    if state.ended {
        (state, TunnelActionView::Finish)
    } else {
        match event {
            TunnelEventView::ExternalRead(data) => {
                if state.client_eof {
                    (state, TunnelActionView::Continue)
                } else {
                    (TunnelState { client_eof: data.len() == 0, ..state }, TunnelActionView::Send(data))
                }
            },
            TunnelEventView::ExternalReadFailed => (state, TunnelActionView::Continue),
            TunnelEventView::Request(TcpAcceptRequestView::Packet(data)) => (state, TunnelActionView::Write(data)),
            TunnelEventView::Request(_) => (
                ended(state),
                TunnelActionView::Fail(
                    StatusView {
                        code: Code::InvalidArgument,
                        message: "all messages, except the first one, need to contain a packet"@,
                    },
                ),
            ),
            TunnelEventView::RequestFailed(status) => (ended(state), TunnelActionView::Fail(status)),
            TunnelEventView::RequestsEnded => (ended(state), TunnelActionView::Finish),
            TunnelEventView::ExternalWriteFailed(reason) => (
                ended(state),
                TunnelActionView::Fail(StatusView { code: Code::Io, message: reason }),
            ),
        }
    }
}

/// Starts an `AcceptTcpConnection` call from the first message of its request
/// stream: the message must be metadata that names a port on which a
/// connection is parked. The connection parked last is claimed. A call that
/// is rejected leaves every queue as it was.
pub fn accept_tcp_connection(pending: &mut PendingConnections, first: Option<Result<TcpAcceptRequest, Status>>) -> (r: Result<TunnelSession, Status>)
    ensures
        (match r {
            Ok(session) => Ok(session@),
            Err(status) => Err(status@),
        }) == claimed(old(pending)@, first_view(first)),
        final(pending)@ == after_claim(old(pending)@, first_view(first)),
{
    let message = match first {
        None => {
            return Err(Status::cancelled(String::from_str("empty request")));
        },
        Some(Err(status)) => {
            return Err(status);
        },
        Some(Ok(message)) => message,
    };
    let port = match message {
        TcpAcceptRequest::Metadata { port } => port,
        _ => {
            return Err(
                Status::invalid_argument(String::from_str("the first message needs to contain metadata")),
            );
        },
    };
    let port = match parse_port(port) {
        Ok(port) => port,
        Err(status) => {
            return Err(status);
        },
    };
    match pending.pop(port) {
        Some(connection) => Ok(TunnelSession { port, connection, client_eof: false, ended: false }),
        None => {
            let mut message = String::from_str("there are no pending connections on port: ");
            let digits = decimal_text(port as u32);
            message.append(digits.as_str());
            Err(Status::invalid_argument(message))
        },
    }
}

impl TunnelSession {
    /// The external port that the connection came in on.
    pub fn port(&self) -> (port: u16)
        ensures
            port == self@.port,
    {
        self.port
    }

    /// The claimed connection.
    pub fn connection(&self) -> (connection: u64)
        ensures
            connection == self@.connection,
    {
        self.connection
    }

    /// Whether the call is over.
    pub fn is_ended(&self) -> (ended: bool)
        ensures
            ended == self@.ended,
    {
        self.ended
    }

    /// Whether to wait for bytes from the external socket: not after its end
    /// of file, and not after the call is over.
    pub fn reads_external(&self) -> (reads: bool)
        ensures
            reads == (!self@.client_eof && !self@.ended),
    {
        !self.client_eof && !self.ended
    }

    /// Takes one event and says what to do.
    pub fn step(&mut self, event: TunnelEvent) -> (action: TunnelAction)
        ensures
            (final(self)@, action@) == tunnel_step(old(self)@, event@),
    {
        if self.ended {
            return TunnelAction::Finish;
        }
        match event {
            TunnelEvent::ExternalRead(data) => {
                if self.client_eof {
                    TunnelAction::Continue
                } else {
                    self.client_eof = data.len() == 0;
                    TunnelAction::Send(Packet { data })
                }
            },
            TunnelEvent::ExternalReadFailed => TunnelAction::Continue,
            TunnelEvent::Request(TcpAcceptRequest::Packet(packet)) => TunnelAction::Write(packet.data),
            TunnelEvent::Request(_) => {
                self.ended = true;
                TunnelAction::Fail(
                    Status::invalid_argument(
                        String::from_str("all messages, except the first one, need to contain a packet"),
                    ),
                )
            },
            TunnelEvent::RequestFailed(status) => {
                self.ended = true;
                TunnelAction::Fail(status)
            },
            TunnelEvent::RequestsEnded => {
                self.ended = true;
                TunnelAction::Finish
            },
            TunnelEvent::ExternalWriteFailed(reason) => {
                self.ended = true;
                TunnelAction::Fail(Status::io(reason))
            },
        }
    }
}

/// A call whose first message is not metadata is rejected as an invalid
/// argument and claims nothing.
pub proof fn lemma_first_message_must_be_metadata(queues: Map<u16, Seq<u64>>, message: TcpAcceptRequestView)
    requires
        !(message is Metadata),
    ensures
        claimed(queues, Some(Ok(message))) is Err,
        claimed(queues, Some(Ok(message)))->Err_0.code == Code::InvalidArgument,
        after_claim(queues, Some(Ok(message))) == queues,
{
}

/// A call that is rejected, for whatever reason, leaves every queue as it
/// was. A call that names a port on which nothing is parked is rejected as an
/// invalid argument.
pub proof fn lemma_rejected_call_changes_nothing(queues: Map<u16, Seq<u64>>, first: Option<Result<TcpAcceptRequestView, StatusView>>)
    ensures
        claimed(queues, first) is Err ==> after_claim(queues, first) == queues,
        (named_port(first) matches Ok(port) && parked_on(queues, port).len() == 0) ==> {
            &&& claimed(queues, first) is Err
            &&& claimed(queues, first)->Err_0.code == Code::InvalidArgument
            &&& claimed(queues, first)->Err_0.message == no_pending_message(named_port(first)->Ok_0)
        },
{
}

/// A call that is accepted takes exactly one connection, the one parked last
/// on the port it named, and touches no other port.
pub proof fn lemma_accepted_call_claims_one(queues: Map<u16, Seq<u64>>, first: Option<Result<TcpAcceptRequestView, StatusView>>, other: u16)
    requires
        claimed(queues, first) is Ok,
    ensures
        ({
            let state = claimed(queues, first)->Ok_0;
            let after = after_claim(queues, first);
            &&& parked_on(queues, state.port) == parked_on(after, state.port).push(state.connection)
            &&& other != state.port ==> parked_on(after, other) == parked_on(queues, other)
            &&& other != state.port ==> after.contains_key(other) == queues.contains_key(other)
        }),
{
    let state = claimed(queues, first)->Ok_0;
    let after = after_claim(queues, first);
    assert(parked_on(queues, state.port) =~= parked_on(after, state.port).push(state.connection));
}

/// The actions that a run of events leads to, one for each event.
pub open spec fn run_actions(state: TunnelState, events: Seq<TunnelEventView>) -> Seq<TunnelActionView>
    decreases events.len(),
{
    if events.len() == 0 {
        Seq::empty()
    } else {
        let (next, action) = tunnel_step(state, events[0]);
        seq![action] + run_actions(next, events.drop_first())
    }
}

/// The state after a run of events.
pub open spec fn run_state(state: TunnelState, events: Seq<TunnelEventView>) -> TunnelState
    decreases events.len(),
{
    if events.len() == 0 {
        state
    } else {
        run_state(tunnel_step(state, events[0]).0, events.drop_first())
    }
}

/// The packets that the actions send to the client, in order.
pub open spec fn sent(actions: Seq<TunnelActionView>) -> Seq<Seq<u8>>
    decreases actions.len(),
{
    if actions.len() == 0 {
        Seq::empty()
    } else {
        match actions[0] {
            TunnelActionView::Send(data) => seq![data] + sent(actions.drop_first()),
            _ => sent(actions.drop_first()),
        }
    }
}

/// The runs of bytes that the actions write to the external socket, in order.
pub open spec fn written(actions: Seq<TunnelActionView>) -> Seq<Seq<u8>>
    decreases actions.len(),
{
    if actions.len() == 0 {
        Seq::empty()
    } else {
        match actions[0] {
            TunnelActionView::Write(data) => seq![data] + written(actions.drop_first()),
            _ => written(actions.drop_first()),
        }
    }
}

/// What the reads among the events gave, in order.
pub open spec fn reads(events: Seq<TunnelEventView>) -> Seq<Seq<u8>>
    decreases events.len(),
{
    if events.len() == 0 {
        Seq::empty()
    } else {
        match events[0] {
            TunnelEventView::ExternalRead(data) => seq![data] + reads(events.drop_first()),
            _ => reads(events.drop_first()),
        }
    }
}

/// What the packets among the events carried, in order.
pub open spec fn requested(events: Seq<TunnelEventView>) -> Seq<Seq<u8>>
    decreases events.len(),
{
    if events.len() == 0 {
        Seq::empty()
    } else {
        match events[0] {
            TunnelEventView::Request(TcpAcceptRequestView::Packet(data)) => seq![data] + requested(
                events.drop_first(),
            ),
            _ => requested(events.drop_first()),
        }
    }
}

/// An event that does not end a call: a read, a failed read, or a packet.
pub open spec fn keeps_open(event: TunnelEventView) -> bool {
    match event {
        TunnelEventView::ExternalRead(_) => true,
        TunnelEventView::ExternalReadFailed => true,
        TunnelEventView::Request(TcpAcceptRequestView::Packet(_)) => true,
        _ => false,
    }
}

/// The chunks up to the first empty one, that one included.
pub open spec fn until_eof(chunks: Seq<Seq<u8>>) -> Seq<Seq<u8>>
    decreases chunks.len(),
{
    if chunks.len() == 0 {
        Seq::empty()
    } else if chunks[0].len() == 0 {
        seq![chunks[0]]
    } else {
        seq![chunks[0]] + until_eof(chunks.drop_first())
    }
}

/// While a call stays open, each direction is first in, first out, whatever
/// the other does. What the socket gave goes to the client read by read, up
/// to the empty read that marks its end of file, which goes out once and is
/// the last. What the client sent is written to the socket packet by packet.
pub proof fn lemma_tunnel_is_fifo(state: TunnelState, events: Seq<TunnelEventView>)
    requires
        !state.ended,
        forall|i: int| 0 <= i < events.len() ==> keeps_open(#[trigger] events[i]),
    ensures
        !run_state(state, events).ended,
        sent(run_actions(state, events)) == if state.client_eof {
            Seq::<Seq<u8>>::empty()
        } else {
            until_eof(reads(events))
        },
        written(run_actions(state, events)) == requested(events),
    decreases events.len(),
{
    if events.len() > 0 {
        let (next, action) = tunnel_step(state, events[0]);
        let rest = events.drop_first();
        let all = run_actions(state, events);
        assert(keeps_open(events[0]));
        assert forall|i: int| 0 <= i < rest.len() implies keeps_open(#[trigger] rest[i]) by {
            assert(rest[i] == events[i + 1]);
        }
        lemma_tunnel_is_fifo(next, rest);
        assert(all[0] == action);
        assert(all.drop_first() =~= run_actions(next, rest));
        match events[0] {
            TunnelEventView::ExternalRead(data) => {
                let chunks = reads(events);
                assert(chunks[0] == data);
                assert(chunks.drop_first() =~= reads(rest));
            },
            _ => {},
        }
    }
}

/// Once a call is over, no event has any effect.
pub proof fn lemma_ended_call_stays_ended(state: TunnelState, events: Seq<TunnelEventView>)
    requires
        state.ended,
    ensures
        run_state(state, events) == state,
        sent(run_actions(state, events)).len() == 0,
        written(run_actions(state, events)).len() == 0,
    decreases events.len(),
{
    if events.len() > 0 {
        lemma_ended_call_stays_ended(state, events.drop_first());
        let all = run_actions(state, events);
        assert(all[0] == TunnelActionView::Finish);
        assert(all.drop_first() =~= run_actions(state, events.drop_first()));
    }
}

} // verus!
