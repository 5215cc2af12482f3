//! The client's side: the control stream of `BindTcp`, and one task for each
//! external connection that pumps bytes between the local service and an
//! `AcceptTcpConnection` call.
//!
//! The program around the library owns the sockets and the streams. It
//! reports what happened as an event and carries out the action that the
//! `step` of the session or task answers with.

use vstd::prelude::*;
use vstd::string::*;
use crate::ports::{invalid_port_message, is_port, parse_port};
use crate::schema::{Packet, TcpAcceptRequest, TcpAcceptRequestView, TcpBindRequest, TcpBindResponse};
use crate::status::{Code, Status, StatusView};
use crate::text::{decimal, decimal_text, digit_char, lemma_decimal_digits};

verus! {

/// How many packets from the local service may wait to be sent before the
/// reader of the local socket is held back.
pub const LOCAL_SERVER_PACKET_BACK_PRESSURE: usize = 10;

/// The request that asks the server for an external port, or for any free
/// one where none is given.
pub fn bind_request(external_port: Option<u16>) -> (request: TcpBindRequest)
    ensures
        request.port == match external_port {
            Some(port) => Some(port as i32),
            None => None,
        },
{
    match external_port {
        Some(port) => TcpBindRequest { port: Some(port as i32) },
        None => TcpBindRequest { port: None },
    }
}

/// The line that tells the user which external port was bound.
pub open spec fn listening_line(port: u16) -> Seq<char> {
    "Reverse proxy listening on port: "@ + decimal(port as nat) + "\n"@
}

/// The line that announces a port is the fixed words, then one or more
/// decimal digits and nothing else, then the end of the line.
pub proof fn lemma_listening_line_shape(port: u16)
    ensures
        listening_line(port) == "Reverse proxy listening on port: "@ + decimal(port as nat) + "\n"@,
        decimal(port as nat).len() >= 1,
        forall|k: int| 0 <= k < decimal(port as nat).len() ==> exists|d: int| 0 <= d < 10 && #[trigger] decimal(port as nat)[k] == digit_char(d),
{
    lemma_decimal_digits(port as nat);
}

/// The text of the error for a control stream that does not start with the
/// bound port.
pub open spec fn metadata_expected() -> Seq<char> {
    "the first message from the server should always contain metadata"@
}

/// Where the control stream stands.
pub struct ExposeState {
    /// The local port that is exposed.
    pub local_port: u16,
    /// The external port, once the server has named it.
    pub external_port: Option<u16>,
    /// The stream is over.
    pub finished: bool,
}

/// The control stream of one `expose`.
#[derive(Debug)]
pub struct ExposeSession {
    local_port: u16,
    external_port: Option<u16>,
    finished: bool,
}

impl View for ExposeSession {
    type V = ExposeState;

    closed spec fn view(&self) -> ExposeState {
        ExposeState {
            local_port: self.local_port,
            external_port: self.external_port,
            finished: self.finished,
        }
    }
}

/// What the control stream gave.
#[derive(Debug, Clone, PartialEq, Eq)]
pub enum ExposeEvent {
    /// A message.
    Response(TcpBindResponse),
    /// A failure of the call or of the stream.
    Failed(Status),
    /// The end of the stream.
    Ended,
}

pub enum ExposeEventView {
    Response(TcpBindResponse),
    Failed(StatusView),
    Ended,
}

impl View for ExposeEvent {
    type V = ExposeEventView;

    open spec fn view(&self) -> ExposeEventView {
        match self {
            ExposeEvent::Response(message) => ExposeEventView::Response(*message),
            ExposeEvent::Failed(status) => ExposeEventView::Failed(status@),
            ExposeEvent::Ended => ExposeEventView::Ended,
        }
    }
}

/// What to do next on the control stream.
#[derive(Debug, Clone, PartialEq, Eq)]
pub enum ExposeAction {
    /// Print this line: the external port is bound.
    Announce(String),
    /// Start a task for a new external connection.
    Spawn(ConnectionTask, TcpAcceptRequest),
    /// Nothing to do: keep reading.
    Continue,
    /// The stream is over: return.
    Finish,
    /// Stop with this error.
    Fail(Status),
}

pub enum ExposeActionView {
    Announce(Seq<char>),
    Spawn(TaskState, TcpAcceptRequestView),
    Continue,
    Finish,
    Fail(StatusView),
}

impl View for ExposeAction {
    type V = ExposeActionView;

    open spec fn view(&self) -> ExposeActionView {
        match self {
            ExposeAction::Announce(line) => ExposeActionView::Announce(line@),
            ExposeAction::Spawn(task, opening) => ExposeActionView::Spawn(task@, opening@),
            ExposeAction::Continue => ExposeActionView::Continue,
            ExposeAction::Finish => ExposeActionView::Finish,
            ExposeAction::Fail(status) => ExposeActionView::Fail(status@),
        }
    }
}

/// The control stream with its end reached.
pub open spec fn finished(state: ExposeState) -> ExposeState {
    ExposeState { finished: true, ..state }
}

/// The rule of the control stream. The first message must be metadata with a
/// port in range, which is announced. After that each notice of a connection
/// starts a task, and any other message is passed over. A failure ends the
/// stream with that failure; the end of the stream ends it in peace, unless
/// it comes before the metadata.
pub open spec fn expose_step(state: ExposeState, event: ExposeEventView) -> (ExposeState, ExposeActionView) {
    if state.finished {
        (state, ExposeActionView::Finish)
    } else {
        match (state.external_port, event) {
            (_, ExposeEventView::Failed(status)) => (finished(state), ExposeActionView::Fail(status)),
            (None, ExposeEventView::Response(TcpBindResponse::Metadata { port })) => {
                if is_port(port as int) {
                    (
                        ExposeState { external_port: Some(port as u16), ..state },
                        ExposeActionView::Announce(listening_line(port as u16)),
                    )
                } else {
                    (
                        finished(state),
                        ExposeActionView::Fail(
                            StatusView {
                                code: Code::InvalidArgument,
                                message: invalid_port_message(port as int),
                            },
                        ),
                    )
                }
            },
            (None, ExposeEventView::Response(_)) => (
                finished(state),
                ExposeActionView::Fail(
                    StatusView { code: Code::InvalidArgument, message: metadata_expected() },
                ),
            ),
            (None, ExposeEventView::Ended) => (
                finished(state),
                ExposeActionView::Fail(StatusView { code: Code::Cancelled, message: metadata_expected() }),
            ),
            (Some(external_port), ExposeEventView::Response(TcpBindResponse::Connection)) => (
                state,
                ExposeActionView::Spawn(
                    new_task(state.local_port, external_port),
                    opening_request(external_port),
                ),
            ),
            (Some(_), ExposeEventView::Response(_)) => (state, ExposeActionView::Continue),
            (Some(_), ExposeEventView::Ended) => (finished(state), ExposeActionView::Finish),
        }
    }
}

impl ExposeSession {
    /// A control stream that has given nothing yet.
    pub fn new(local_port: u16) -> (session: ExposeSession)
        ensures
            session@ == (ExposeState { local_port, external_port: None, finished: false }),
    {
        ExposeSession { local_port, external_port: None, finished: false }
    }

    /// The external port, once the server has named it.
    pub fn external_port(&self) -> (port: Option<u16>)
        ensures
            port == self@.external_port,
    {
        self.external_port
    }

    /// Whether the stream is over.
    pub fn is_finished(&self) -> (finished: bool)
        ensures
            finished == self@.finished,
    {
        self.finished
    }

    /// Takes what the control stream gave and says what to do.
    pub fn step(&mut self, event: ExposeEvent) -> (action: ExposeAction)
        ensures
            (final(self)@, action@) == expose_step(old(self)@, event@),
    {
        if self.finished {
            return ExposeAction::Finish;
        }
        match event {
            ExposeEvent::Failed(status) => {
                self.finished = true;
                ExposeAction::Fail(status)
            },
            ExposeEvent::Response(message) => {
                match self.external_port {
                    None => {
                        match message {
                            TcpBindResponse::Metadata { port } => {
                                match parse_port(port) {
                                    Ok(port) => {
                                        self.external_port = Some(port);
                                        let mut line = String::from_str("Reverse proxy listening on port: ");
                                        let digits = decimal_text(port as u32);
                                        line.append(digits.as_str());
                                        line.append("\n");
                                        ExposeAction::Announce(line)
                                    },
                                    Err(status) => {
                                        self.finished = true;
                                        ExposeAction::Fail(status)
                                    },
                                }
                            },
                            _ => {
                                self.finished = true;
                                ExposeAction::Fail(
                                    Status::invalid_argument(
                                        String::from_str(
                                            "the first message from the server should always contain metadata",
                                        ),
                                    ),
                                )
                            },
                        }
                    },
                    Some(external_port) => {
                        match message {
                            TcpBindResponse::Connection => {
                                let (task, opening) = ConnectionTask::new(self.local_port, external_port);
                                ExposeAction::Spawn(task, opening)
                            },
                            _ => ExposeAction::Continue,
                        }
                    },
                }
            },
            ExposeEvent::Ended => {
                self.finished = true;
                match self.external_port {
                    None => ExposeAction::Fail(
                        Status::cancelled(
                            String::from_str(
                                "the first message from the server should always contain metadata",
                            ),
                        ),
                    ),
                    Some(_) => ExposeAction::Finish,
                }
            },
        }
    }
}

/// One direction of a task.
#[derive(Debug, Clone, PartialEq, Eq)]
pub enum Pump {
    /// Bytes still flow.
    Running,
    /// The direction reached its end.
    Done,
    /// The direction failed, for this reason.
    Failed(String),
}

pub enum PumpView {
    Running,
    Done,
    Failed(Seq<char>),
}

impl View for Pump {
    type V = PumpView;

    open spec fn view(&self) -> PumpView {
        match self {
            Pump::Running => PumpView::Running,
            Pump::Done => PumpView::Done,
            Pump::Failed(reason) => PumpView::Failed(reason@),
        }
    }
}

/// Where a task stands.
pub struct TaskState {
    /// The local service's port.
    pub local_port: u16,
    /// The external port that the connection came in on.
    pub external_port: u16,
    /// From the local service to the server.
    pub upload: PumpView,
    /// From the server to the local service.
    pub download: PumpView,
}

/// The task that serves one external connection on the client.
#[derive(Debug, Clone, PartialEq, Eq)]
pub struct ConnectionTask {
    local_port: u16,
    external_port: u16,
    upload: Pump,
    download: Pump,
}

impl View for ConnectionTask {
    type V = TaskState;

    closed spec fn view(&self) -> TaskState {
        TaskState {
            local_port: self.local_port,
            external_port: self.external_port,
            upload: self.upload@,
            download: self.download@,
        }
    }
}

/// What happened on the local socket or on the response stream.
#[derive(Debug, Clone, PartialEq, Eq)]
pub enum TaskEvent {
    /// A read from the local socket gave these bytes; none means end of file.
    LocalRead(Vec<u8>),
    /// A read from the local socket failed, for this reason.
    LocalReadFailed(String),
    /// The server sent a packet.
    Response(Packet),
    /// The response stream failed.
    ResponseFailed(Status),
    /// The response stream is over.
    ResponsesEnded,
    /// Writing to the local socket, or shutting its writing side down, failed,
    /// for this reason.
    LocalWriteFailed(String),
}

pub enum TaskEventView {
    LocalRead(Seq<u8>),
    LocalReadFailed(Seq<char>),
    Response(Seq<u8>),
    ResponseFailed(StatusView),
    ResponsesEnded,
    LocalWriteFailed(Seq<char>),
}

impl View for TaskEvent {
    type V = TaskEventView;

    open spec fn view(&self) -> TaskEventView {
        match self {
            TaskEvent::LocalRead(data) => TaskEventView::LocalRead(data@),
            TaskEvent::LocalReadFailed(reason) => TaskEventView::LocalReadFailed(reason@),
            TaskEvent::Response(packet) => TaskEventView::Response(packet@),
            TaskEvent::ResponseFailed(status) => TaskEventView::ResponseFailed(status@),
            TaskEvent::ResponsesEnded => TaskEventView::ResponsesEnded,
            TaskEvent::LocalWriteFailed(reason) => TaskEventView::LocalWriteFailed(reason@),
        }
    }
}

/// What to do next in a task.
#[derive(Debug, Clone, PartialEq, Eq)]
pub enum TaskAction {
    /// Send this message to the server.
    Send(TcpAcceptRequest),
    /// End the request stream, and read the local socket no more.
    CloseRequests,
    /// Write all of these bytes to the local socket.
    Write(Vec<u8>),
    /// Shut down the writing side of the local socket, and read the response
    /// stream no more.
    Shutdown,
    /// Read the response stream no more.
    StopResponses,
    /// Nothing to do.
    Continue,
}

pub enum TaskActionView {
    Send(TcpAcceptRequestView),
    CloseRequests,
    Write(Seq<u8>),
    Shutdown,
    StopResponses,
    Continue,
}

impl View for TaskAction {
    type V = TaskActionView;

    open spec fn view(&self) -> TaskActionView {
        match self {
            TaskAction::Send(message) => TaskActionView::Send(message@),
            TaskAction::CloseRequests => TaskActionView::CloseRequests,
            TaskAction::Write(data) => TaskActionView::Write(data@),
            TaskAction::Shutdown => TaskActionView::Shutdown,
            TaskAction::StopResponses => TaskActionView::StopResponses,
            TaskAction::Continue => TaskActionView::Continue,
        }
    }
}

/// A task that has moved nothing yet.
pub open spec fn new_task(local_port: u16, external_port: u16) -> TaskState {
    TaskState { local_port, external_port, upload: PumpView::Running, download: PumpView::Running }
}

/// The message that opens an `AcceptTcpConnection` call: the external port
/// to claim a connection from.
pub open spec fn opening_request(external_port: u16) -> TcpAcceptRequestView {
    TcpAcceptRequestView::Metadata { port: external_port as i32 }
}

/// The rule of a task. Each direction runs until its end and does not hold
/// the other back.
///
/// From the local service: bytes read go to the server as one packet; end of
/// file ends the request stream, and no empty packet is sent; a failed read
/// ends it too. From the server: a packet with bytes is written to the local
/// socket; an empty packet shuts the writing side of the local socket down
/// and ends the direction; so do the end and a failure of the response
/// stream, and a failed write. Events of a direction that is over are
/// passed over.
pub open spec fn task_step(state: TaskState, event: TaskEventView) -> (TaskState, TaskActionView) {
    match event {
        TaskEventView::LocalRead(data) => {
            if !(state.upload is Running) {
                (state, TaskActionView::Continue)
            } else if data.len() == 0 {
                (TaskState { upload: PumpView::Done, ..state }, TaskActionView::CloseRequests)
            } else {
                (state, TaskActionView::Send(TcpAcceptRequestView::Packet(data)))
            }
        },
        TaskEventView::LocalReadFailed(reason) => {
            if !(state.upload is Running) {
                (state, TaskActionView::Continue)
            } else {
                (TaskState { upload: PumpView::Failed(reason), ..state }, TaskActionView::CloseRequests)
            }
        },
        TaskEventView::Response(data) => {
            if !(state.download is Running) {
                (state, TaskActionView::Continue)
            } else if data.len() == 0 {
                (TaskState { download: PumpView::Done, ..state }, TaskActionView::Shutdown)
            } else {
                (state, TaskActionView::Write(data))
            }
        },
        TaskEventView::ResponseFailed(status) => {
            if !(state.download is Running) {
                (state, TaskActionView::Continue)
            } else {
                (
                    TaskState { download: PumpView::Failed(status.message), ..state },
                    TaskActionView::StopResponses,
                )
            }
        },
        TaskEventView::ResponsesEnded => {
            if !(state.download is Running) {
                (state, TaskActionView::Continue)
            } else {
                (TaskState { download: PumpView::Done, ..state }, TaskActionView::StopResponses)
            }
        },
        TaskEventView::LocalWriteFailed(reason) => {
            if state.download is Failed {
                (state, TaskActionView::Continue)
            } else {
                (TaskState { download: PumpView::Failed(reason), ..state }, TaskActionView::StopResponses)
            }
        },
    }
}

/// How a task ended: nothing while a direction still runs; then the failure
/// of the upload, else that of the download, else success.
pub open spec fn task_outcome(state: TaskState) -> Option<Result<(), Seq<char>>> {
    if state.upload is Running || state.download is Running {
        None
    } else {
        match (state.upload, state.download) {
            (PumpView::Failed(reason), _) => Some(Err(reason)),
            (_, PumpView::Failed(reason)) => Some(Err(reason)),
            _ => Some(Ok(())),
        }
    }
}

impl ConnectionTask {
    /// A task for a connection that came in on `external_port`, with the
    /// message that opens its call.
    pub fn new(local_port: u16, external_port: u16) -> (r: (ConnectionTask, TcpAcceptRequest))
        ensures
            r.0@ == new_task(local_port, external_port),
            r.1@ == opening_request(external_port),
    {
        (
            ConnectionTask { local_port, external_port, upload: Pump::Running, download: Pump::Running },
            TcpAcceptRequest::Metadata { port: external_port as i32 },
        )
    }

    /// The local service's port.
    pub fn local_port(&self) -> (port: u16)
        ensures
            port == self@.local_port,
    {
        self.local_port
    }

    /// The external port that the connection came in on.
    pub fn external_port(&self) -> (port: u16)
        ensures
            port == self@.external_port,
    {
        self.external_port
    }

    /// Whether to go on reading the local socket.
    pub fn reads_local(&self) -> (reads: bool)
        ensures
            reads == (self@.upload is Running),
    {
        match self.upload {
            Pump::Running => true,
            _ => false,
        }
    }

    /// Whether to go on reading the response stream.
    pub fn reads_responses(&self) -> (reads: bool)
        ensures
            reads == (self@.download is Running),
    {
        match self.download {
            Pump::Running => true,
            _ => false,
        }
    }

    /// Takes one event and says what to do.
    pub fn step(&mut self, event: TaskEvent) -> (action: TaskAction)
        ensures
            (final(self)@, action@) == task_step(old(self)@, event@),
    {
        match event {
            TaskEvent::LocalRead(data) => {
                if !self.reads_local() {
                    TaskAction::Continue
                } else if data.len() == 0 {
                    self.upload = Pump::Done;
                    TaskAction::CloseRequests
                } else {
                    TaskAction::Send(TcpAcceptRequest::Packet(Packet { data }))
                }
            },
            TaskEvent::LocalReadFailed(reason) => {
                if !self.reads_local() {
                    TaskAction::Continue
                } else {
                    self.upload = Pump::Failed(reason);
                    TaskAction::CloseRequests
                }
            },
            TaskEvent::Response(packet) => {
                if !self.reads_responses() {
                    TaskAction::Continue
                } else if packet.data.len() == 0 {
                    self.download = Pump::Done;
                    TaskAction::Shutdown
                } else {
                    TaskAction::Write(packet.data)
                }
            },
            TaskEvent::ResponseFailed(status) => {
                if !self.reads_responses() {
                    TaskAction::Continue
                } else {
                    self.download = Pump::Failed(status.message);
                    TaskAction::StopResponses
                }
            },
            TaskEvent::ResponsesEnded => {
                if !self.reads_responses() {
                    TaskAction::Continue
                } else {
                    self.download = Pump::Done;
                    TaskAction::StopResponses
                }
            },
            TaskEvent::LocalWriteFailed(reason) => {
                let failed = match self.download {
                    Pump::Failed(_) => true,
                    _ => false,
                };
                if failed {
                    TaskAction::Continue
                } else {
                    self.download = Pump::Failed(reason);
                    TaskAction::StopResponses
                }
            },
        }
    }

    /// How the task ended, once both directions are over.
    pub fn outcome(&self) -> (r: Option<Result<(), String>>)
        ensures
            (match r {
                None => None,
                Some(Ok(())) => Some(Ok(())),
                Some(Err(reason)) => Some(Err(reason@)),
            }) == task_outcome(self@),
    {
        if self.reads_local() || self.reads_responses() {
            return None;
        }
        match &self.upload {
            Pump::Failed(reason) => Some(Err(reason.clone())),
            _ => match &self.download {
                Pump::Failed(reason) => Some(Err(reason.clone())),
                _ => Some(Ok(())),
            },
        }
    }
}

/// The error of a task that could not reach the local service.
pub fn connect_failure(local_port: u16) -> (reason: String)
    ensures
        reason@ == "failed to connect to the local server at: "@ + decimal(local_port as nat),
{
    let mut reason = String::from_str("failed to connect to the local server at: ");
    let digits = decimal_text(local_port as u32);
    reason.append(digits.as_str());
    reason
}

/// The line that reports a task that failed.
pub fn termination_notice(reason: &str) -> (line: String)
    ensures
        line@ == "A client connection was terminated: "@ + reason@ + "\n"@,
{
    let mut line = String::from_str("A client connection was terminated: ");
    line.append(reason);
    line.append("\n");
    line
}

/// The actions that a run of events leads to, one for each event.
pub open spec fn task_actions(state: TaskState, events: Seq<TaskEventView>) -> Seq<TaskActionView>
    decreases events.len(),
{
    if events.len() == 0 {
        Seq::empty()
    } else {
        let (next, action) = task_step(state, events[0]);
        seq![action] + task_actions(next, events.drop_first())
    }
}

/// The packets that the actions send to the server, in order.
pub open spec fn uploaded(actions: Seq<TaskActionView>) -> Seq<Seq<u8>>
    decreases actions.len(),
{
    if actions.len() == 0 {
        Seq::empty()
    } else {
        match actions[0] {
            TaskActionView::Send(TcpAcceptRequestView::Packet(data)) => seq![data] + uploaded(
                actions.drop_first(),
            ),
            _ => uploaded(actions.drop_first()),
        }
    }
}

/// The runs of bytes that the actions write to the local socket, in order.
pub open spec fn delivered(actions: Seq<TaskActionView>) -> Seq<Seq<u8>>
    decreases actions.len(),
{
    if actions.len() == 0 {
        Seq::empty()
    } else {
        match actions[0] {
            TaskActionView::Write(data) => seq![data] + delivered(actions.drop_first()),
            _ => delivered(actions.drop_first()),
        }
    }
}

/// What the reads of the local socket among the events gave, in order.
pub open spec fn local_reads(events: Seq<TaskEventView>) -> Seq<Seq<u8>>
    decreases events.len(),
{
    if events.len() == 0 {
        Seq::empty()
    } else {
        match events[0] {
            TaskEventView::LocalRead(data) => seq![data] + local_reads(events.drop_first()),
            _ => local_reads(events.drop_first()),
        }
    }
}

/// What the packets from the server among the events carried, in order.
pub open spec fn received(events: Seq<TaskEventView>) -> Seq<Seq<u8>>
    decreases events.len(),
{
    if events.len() == 0 {
        Seq::empty()
    } else {
        match events[0] {
            TaskEventView::Response(data) => seq![data] + received(events.drop_first()),
            _ => received(events.drop_first()),
        }
    }
}

/// An event that carries bytes, or their end: a read or a packet.
pub open spec fn moves_bytes(event: TaskEventView) -> bool {
    event is LocalRead || event is Response
}

/// The chunks before the first empty one.
pub open spec fn before_eof(chunks: Seq<Seq<u8>>) -> Seq<Seq<u8>>
    decreases chunks.len(),
{
    if chunks.len() == 0 || chunks[0].len() == 0 {
        Seq::empty()
    } else {
        seq![chunks[0]] + before_eof(chunks.drop_first())
    }
}

/// While nothing fails, each direction of a task is first in, first out,
/// whatever the other does. What the local socket gave goes to the server
/// read by read until its end of file. What the server sent is written to
/// the local socket packet by packet until the empty packet.
pub proof fn lemma_task_is_fifo(state: TaskState, events: Seq<TaskEventView>)
    requires
        forall|i: int| 0 <= i < events.len() ==> moves_bytes(#[trigger] events[i]),
    ensures
        uploaded(task_actions(state, events)) == if state.upload is Running {
            before_eof(local_reads(events))
        } else {
            Seq::<Seq<u8>>::empty()
        },
        delivered(task_actions(state, events)) == if state.download is Running {
            before_eof(received(events))
        } else {
            Seq::<Seq<u8>>::empty()
        },
    decreases events.len(),
{
    if events.len() > 0 {
        let (next, action) = task_step(state, events[0]);
        let rest = events.drop_first();
        let all = task_actions(state, events);
        assert(moves_bytes(events[0]));
        assert forall|i: int| 0 <= i < rest.len() implies moves_bytes(#[trigger] rest[i]) by {
            assert(rest[i] == events[i + 1]);
        }
        lemma_task_is_fifo(next, rest);
        assert(all[0] == action);
        assert(all.drop_first() =~= task_actions(next, rest));
        match events[0] {
            TaskEventView::LocalRead(data) => {
                let chunks = local_reads(events);
                assert(chunks[0] == data);
                assert(chunks.drop_first() =~= local_reads(rest));
            },
            TaskEventView::Response(data) => {
                let chunks = received(events);
                assert(chunks[0] == data);
                assert(chunks.drop_first() =~= received(rest));
            },
            _ => {},
        }
    }
}

/// Whatever happens, a task sends the server packets only, and none that is
/// empty: the message that names the port is the one that opens the call.
pub proof fn lemma_task_sends_packets_only(state: TaskState, event: TaskEventView)
    ensures
        task_step(state, event).1 matches TaskActionView::Send(message) ==> (message matches TcpAcceptRequestView::Packet(
            data,
        ) && data.len() > 0),
{
}

/// No chunk before the end of file is empty: a task never sends an empty
/// packet and never writes an empty run of bytes.
pub proof fn lemma_before_eof_has_bytes(chunks: Seq<Seq<u8>>)
    ensures
        before_eof(chunks).len() <= chunks.len(),
        forall|i: int| 0 <= i < before_eof(chunks).len() ==> (#[trigger] before_eof(chunks)[i]).len() > 0,
        forall|i: int| 0 <= i < before_eof(chunks).len() ==> (#[trigger] before_eof(chunks)[i]) == chunks[i],
        (forall|i: int| 0 <= i < chunks.len() ==> (#[trigger] chunks[i]).len() > 0) ==> before_eof(chunks) == chunks,
    decreases chunks.len(),
{
    if chunks.len() > 0 && chunks[0].len() > 0 {
        let rest = chunks.drop_first();
        lemma_before_eof_has_bytes(rest);
        let kept = before_eof(chunks);
        assert forall|i: int| 0 <= i < kept.len() implies (#[trigger] kept[i]).len() > 0 && kept[i] == chunks[i] by {
            if i > 0 {
                assert(kept[i] == before_eof(rest)[i - 1]);
                assert(rest[i - 1] == chunks[i]);
            }
        }
        if forall|i: int| 0 <= i < chunks.len() ==> (#[trigger] chunks[i]).len() > 0 {
            assert forall|i: int| 0 <= i < rest.len() implies (#[trigger] rest[i]).len() > 0 by {
                assert(rest[i] == chunks[i + 1]);
            }
            assert(kept =~= chunks);
        }
    } else if chunks.len() > 0 {
        assert(chunks[0].len() == 0);
    }
}

} // verus!
