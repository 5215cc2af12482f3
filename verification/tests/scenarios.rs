use std::collections::HashMap;

use rrp::allow_list::{authorize, Auth, Client};
use rrp::bind::{bind_tcp, BindSession};
use rrp::driver::{bind_request, ConnectionTask, ExposeAction, ExposeEvent, ExposeSession, TaskAction, TaskEvent};
use rrp::pending::PendingConnections;
use rrp::schema::{TcpAcceptRequest, READ_BUFFER_SIZE};
use rrp::status::Code;
use rrp::token::{generate_token, hash_token};
use rrp::tunnel::{accept_tcp_connection, TunnelAction, TunnelEvent, TunnelSession};

/// One tunnel with both of its ends held in memory.
struct Tunnel {
    server: TunnelSession,
    client: ConnectionTask,
    /// What the external peer received.
    to_peer: Vec<u8>,
    /// What the local service received.
    to_local: Vec<u8>,
    /// The local service saw the end of what the peer sends.
    local_saw_eof: bool,
    /// The call is over on the server.
    call_over: bool,
}

impl Tunnel {
    /// The external peer sends bytes; none stands for closing its sending side.
    fn peer_sends(&mut self, data: &[u8]) {
        match self.server.step(TunnelEvent::ExternalRead(data.to_vec())) {
            TunnelAction::Send(packet) => match self.client.step(TaskEvent::Response(packet)) {
                TaskAction::Write(bytes) => self.to_local.extend(bytes),
                TaskAction::Shutdown => self.local_saw_eof = true,
                other => panic!("the packet was not delivered: {:?}", other),
            },
            TunnelAction::Continue => {}
            other => panic!("the read was not forwarded: {:?}", other),
        }
    }

    /// The local service sends bytes; none stands for closing its socket.
    fn local_sends(&mut self, data: &[u8]) {
        match self.client.step(TaskEvent::LocalRead(data.to_vec())) {
            TaskAction::Send(message) => match self.server.step(TunnelEvent::Request(message)) {
                TunnelAction::Write(bytes) => self.to_peer.extend(bytes),
                other => panic!("the packet was not written: {:?}", other),
            },
            TaskAction::CloseRequests => match self.server.step(TunnelEvent::RequestsEnded) {
                TunnelAction::Finish => {
                    self.call_over = true;
                    self.client.step(TaskEvent::ResponsesEnded);
                }
                other => panic!("the call did not end: {:?}", other),
            },
            other => panic!("the read was not sent: {:?}", other),
        }
    }
}

/// A server with one client on its allow-list, and that client's token.
fn server_with_client(identifier: &str) -> (Auth, String) {
    let token = generate_token();
    let auth = Auth::new(&vec![Client::new(identifier.to_string(), hash_token(&token).unwrap())]);
    (auth, token)
}

/// Binds `external` for the client and hands back both ends of the control
/// stream and the line that the client prints.
fn expose(pending: &mut PendingConnections, local: u16, external: Option<u16>, assigned: u16) -> (BindSession, ExposeSession, String) {
    let asked = bind_tcp(bind_request(external)).unwrap();
    let bound = if asked == 0 { assigned } else { asked };
    let (mut bind, stale) = BindSession::new(bound, pending);
    assert!(stale.is_empty());
    let mut control = ExposeSession::new(local);
    let first = bind.poll_next().unwrap();
    let line = match control.step(ExposeEvent::Response(first)) {
        ExposeAction::Announce(line) => line,
        other => panic!("the port was not announced: {:?}", other),
    };
    assert_eq!(bind.poll_next(), None);
    (bind, control, line)
}

/// An external peer connects: the connection is parked, the client is told
/// and claims it.
fn connect(pending: &mut PendingConnections, bind: &mut BindSession, control: &mut ExposeSession, connection: u64) -> Tunnel {
    let notice = bind.accepted(pending, connection).unwrap();
    let (client, opening) = match control.step(ExposeEvent::Response(notice)) {
        ExposeAction::Spawn(task, opening) => (task, opening),
        other => panic!("no task was started: {:?}", other),
    };
    let server = accept_tcp_connection(pending, Some(Ok(opening))).unwrap();
    Tunnel { server, client, to_peer: Vec::new(), to_local: Vec::new(), local_saw_eof: false, call_over: false }
}

fn random_bytes(seed: u64, len: usize) -> Vec<u8> {
    let mut state = seed;
    let mut bytes = Vec::with_capacity(len);
    for _ in 0..len {
        state = state.wrapping_mul(6364136223846793005).wrapping_add(1442695040888963407);
        bytes.push((state >> 33) as u8);
    }
    bytes
}

#[test]
fn happy_path_echoes_in_upper_case() {
    let (auth, token) = server_with_client("c1");
    assert_eq!(authorize(&auth, Some(&token)).unwrap().identifier(), "c1");
    let mut pending = PendingConnections::new();
    let (mut bind, mut control, line) = expose(&mut pending, 9000, Some(18080), 0);
    assert_eq!(line, "Reverse proxy listening on port: 18080\n");
    assert_eq!(bind.port(), 18080);

    let mut tunnel = connect(&mut pending, &mut bind, &mut control, 1);
    assert_eq!(tunnel.server.connection(), 1);
    assert_eq!(tunnel.client.local_port(), 9000);

    tunnel.peer_sends(b"hello\n");
    assert_eq!(tunnel.to_local, b"hello\n");
    let reply = tunnel.to_local.to_ascii_uppercase();
    tunnel.local_sends(&reply);
    assert_eq!(tunnel.to_peer, b"HELLO\n");

    tunnel.peer_sends(b"");
    assert!(tunnel.local_saw_eof);
    tunnel.local_sends(b"");
    assert!(tunnel.call_over);
    assert!(tunnel.server.is_ended());
    assert_eq!(tunnel.client.outcome(), Some(Ok(())));
    assert_eq!(tunnel.to_peer, b"HELLO\n");
    assert_eq!(tunnel.to_local, b"hello\n");
}

#[test]
fn ephemeral_port_is_announced_on_one_line() {
    let mut pending = PendingConnections::new();
    let (mut bind, mut control, line) = expose(&mut pending, 9000, None, 40123);
    let port = line.strip_prefix("Reverse proxy listening on port: ").unwrap().strip_suffix('\n').unwrap();
    assert!(!port.is_empty());
    assert!(port.chars().all(|c| c.is_ascii_digit()));
    assert_eq!(line.lines().count(), 1);
    assert_eq!(port, "40123");
    assert_eq!(control.external_port(), Some(40123));

    let mut tunnel = connect(&mut pending, &mut bind, &mut control, 1);
    assert_eq!(tunnel.server.port(), 40123);
    tunnel.peer_sends(b"ping");
    assert_eq!(tunnel.to_local, b"ping");
}

#[test]
fn token_not_on_the_allow_list_is_rejected() {
    let (auth, _) = server_with_client("c1");
    let other = generate_token();
    let status = authorize(&auth, Some(&other)).unwrap_err();
    assert_eq!(status.code, Code::Unauthenticated);
    assert!(status.message.contains("No valid auth token was provided"));

    let mut control = ExposeSession::new(9000);
    match control.step(ExposeEvent::Failed(status)) {
        ExposeAction::Fail(failure) => {
            assert!(failure.message.contains("No valid auth token was provided"));
        }
        other => panic!("expose did not fail: {:?}", other),
    }
    assert!(control.is_finished());
}

#[test]
fn concurrent_tunnels_do_not_mix() {
    let mut pending = PendingConnections::new();
    let (mut bind, mut control, _) = expose(&mut pending, 9000, Some(18080), 0);

    // two peers connect before the client claims either
    let first_notice = bind.accepted(&mut pending, 1).unwrap();
    let second_notice = bind.accepted(&mut pending, 2).unwrap();
    let mut tunnels: HashMap<u64, Tunnel> = HashMap::new();
    for notice in [first_notice, second_notice] {
        let (client, opening) = match control.step(ExposeEvent::Response(notice)) {
            ExposeAction::Spawn(task, opening) => (task, opening),
            other => panic!("no task was started: {:?}", other),
        };
        let server = accept_tcp_connection(&mut pending, Some(Ok(opening))).unwrap();
        let connection = server.connection();
        let tunnel = Tunnel { server, client, to_peer: Vec::new(), to_local: Vec::new(), local_saw_eof: false, call_over: false };
        assert!(tunnels.insert(connection, tunnel).is_none());
    }
    assert_eq!(tunnels.len(), 2);
    assert!(accept_tcp_connection(&mut pending, Some(Ok(TcpAcceptRequest::Metadata { port: 18080 }))).is_err());

    let sent: HashMap<u64, Vec<u8>> = [(1u64, random_bytes(1, 1 << 20)), (2u64, random_bytes(2, 1 << 20))].into_iter().collect();
    assert_ne!(sent[&1], sent[&2]);
    let chunks = (1 << 20) / READ_BUFFER_SIZE;
    for i in 0..chunks {
        for connection in [1u64, 2u64] {
            let tunnel = tunnels.get_mut(&connection).unwrap();
            let chunk = &sent[&connection][i * READ_BUFFER_SIZE..(i + 1) * READ_BUFFER_SIZE];
            tunnel.peer_sends(chunk);
            let from = tunnel.to_local.len() - chunk.len();
            let echo = tunnel.to_local[from..].to_vec();
            tunnel.local_sends(&echo);
        }
    }
    for connection in [1u64, 2u64] {
        let tunnel = &tunnels[&connection];
        assert_eq!(tunnel.to_local, sent[&connection]);
        assert_eq!(tunnel.to_peer, sent[&connection]);
    }
}

#[test]
fn half_close_lets_the_reply_through() {
    let mut pending = PendingConnections::new();
    let (mut bind, mut control, _) = expose(&mut pending, 9000, Some(18080), 0);
    let mut tunnel = connect(&mut pending, &mut bind, &mut control, 1);

    tunnel.peer_sends(b"0123456789");
    tunnel.peer_sends(b"");
    assert_eq!(tunnel.to_local, b"0123456789");
    assert!(tunnel.local_saw_eof);
    assert!(!tunnel.server.reads_external());
    assert!(!tunnel.server.is_ended());

    tunnel.local_sends(b"abcde");
    assert_eq!(tunnel.to_peer, b"abcde");
    tunnel.local_sends(b"");
    assert!(tunnel.call_over);
    assert_eq!(tunnel.to_peer, b"abcde");
    assert_eq!(tunnel.to_local, b"0123456789");
    assert_eq!(tunnel.client.outcome(), Some(Ok(())));
}

#[test]
fn listener_teardown_closes_the_parked_and_refuses_claims() {
    let mut pending = PendingConnections::new();
    let (mut bind, mut control, _) = expose(&mut pending, 9000, Some(18080), 0);
    let claimed = connect(&mut pending, &mut bind, &mut control, 1);
    bind.accepted(&mut pending, 2);
    bind.accepted(&mut pending, 3);

    // the client drops the control stream
    let closed = bind.release(&mut pending);
    assert_eq!(closed, vec![2, 3]);
    let status = accept_tcp_connection(&mut pending, Some(Ok(TcpAcceptRequest::Metadata { port: 18080 }))).unwrap_err();
    assert_eq!(status.code, Code::InvalidArgument);
    assert_eq!(status.message, "there are no pending connections on port: 18080");

    // the tunnel that was claimed before goes on
    let mut tunnel = claimed;
    tunnel.peer_sends(b"still here");
    assert_eq!(tunnel.to_local, b"still here");
}
