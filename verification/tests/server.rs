use rrp::bind::{BindMode, BindSession};
use rrp::pending::PendingConnections;
use rrp::schema::{Packet, TcpAcceptRequest, TcpBindResponse};
use rrp::status::{Code, Status};
use rrp::tunnel::{accept_tcp_connection, TunnelAction, TunnelEvent, TunnelSession};

fn metadata(port: i32) -> Option<Result<TcpAcceptRequest, Status>> {
    Some(Ok(TcpAcceptRequest::Metadata { port }))
}

fn packet(data: &[u8]) -> TcpAcceptRequest {
    TcpAcceptRequest::Packet(Packet { data: data.to_vec() })
}

fn tunnel_on(port: u16, connection: u64) -> TunnelSession {
    let mut pending = PendingConnections::new();
    pending.push(port, connection);
    accept_tcp_connection(&mut pending, metadata(port as i32)).unwrap()
}

#[test]
fn session_sends_the_bound_port_first() {
    let mut pending = PendingConnections::new();
    let (mut session, stale) = BindSession::new(18080, &mut pending);
    assert!(stale.is_empty());
    assert_eq!(session.port(), 18080);
    assert_eq!(session.mode(), BindMode::Metadata);
    assert_eq!(session.poll_next(), Some(TcpBindResponse::Metadata { port: 18080 }));
    assert_eq!(session.mode(), BindMode::Connection);
}

#[test]
fn session_sends_the_bound_port_once() {
    let mut pending = PendingConnections::new();
    let (mut session, _) = BindSession::new(65535, &mut pending);
    assert_eq!(session.poll_next(), Some(TcpBindResponse::Metadata { port: 65535 }));
    assert_eq!(session.poll_next(), None);
    assert_eq!(session.poll_next(), None);
}

#[test]
fn session_parks_each_connection_and_tells_the_client() {
    let mut pending = PendingConnections::new();
    let (mut session, _) = BindSession::new(18080, &mut pending);
    session.poll_next();
    assert_eq!(session.accepted(&mut pending, 11), Some(TcpBindResponse::Connection));
    assert_eq!(session.accepted(&mut pending, 12), Some(TcpBindResponse::Connection));
    assert_eq!(session.poll_next(), None);
    assert_eq!(pending.pop(18080), Some(12));
    assert_eq!(pending.pop(18080), Some(11));
    assert_eq!(pending.pop(18080), None);
}

#[test]
fn session_takes_no_connection_before_the_bound_port_went_out() {
    let mut pending = PendingConnections::new();
    let (mut session, _) = BindSession::new(18080, &mut pending);
    assert_eq!(session.accepted(&mut pending, 11), None);
    assert_eq!(session.mode(), BindMode::Metadata);
    assert_eq!(pending.pop(18080), None);
    assert_eq!(session.poll_next(), Some(TcpBindResponse::Metadata { port: 18080 }));
    assert_eq!(session.accepted(&mut pending, 11), Some(TcpBindResponse::Connection));
    assert_eq!(pending.pop(18080), Some(11));
}

#[test]
fn session_starts_with_a_fresh_queue() {
    let mut pending = PendingConnections::new();
    pending.push(18080, 99);
    let (mut session, stale) = BindSession::new(18080, &mut pending);
    assert_eq!(stale, vec![99]);
    session.poll_next();
    assert!(accept_tcp_connection(&mut pending, metadata(18080)).is_err());
}

#[test]
fn release_hands_back_the_unclaimed_and_drops_the_queue() {
    let mut pending = PendingConnections::new();
    let (mut session, _) = BindSession::new(18080, &mut pending);
    session.poll_next();
    session.accepted(&mut pending, 1);
    session.accepted(&mut pending, 2);
    session.accepted(&mut pending, 3);
    let claimed = accept_tcp_connection(&mut pending, metadata(18080)).unwrap();
    assert_eq!(claimed.connection(), 3);
    assert_eq!(session.release(&mut pending), vec![1, 2]);
    assert!(accept_tcp_connection(&mut pending, metadata(18080)).is_err());
}

#[test]
fn release_leaves_other_sessions_alone() {
    let mut pending = PendingConnections::new();
    let (mut a, _) = BindSession::new(1000, &mut pending);
    let (mut b, _) = BindSession::new(2000, &mut pending);
    a.poll_next();
    b.poll_next();
    a.accepted(&mut pending, 1);
    b.accepted(&mut pending, 2);
    assert_eq!(a.release(&mut pending), vec![1]);
    assert_eq!(accept_tcp_connection(&mut pending, metadata(2000)).unwrap().connection(), 2);
}

#[test]
fn call_without_a_first_message_is_cancelled() {
    let mut pending = PendingConnections::new();
    pending.push(18080, 1);
    let status = accept_tcp_connection(&mut pending, None).unwrap_err();
    assert_eq!(status, Status { code: Code::Cancelled, message: "empty request".to_string() });
    assert_eq!(pending.remove(18080), vec![1]);
}

#[test]
fn call_whose_stream_fails_at_once_fails_the_same_way() {
    let mut pending = PendingConnections::new();
    pending.push(18080, 1);
    let failure = Status { code: Code::Io, message: "connection reset".to_string() };
    let status = accept_tcp_connection(&mut pending, Some(Err(failure.clone()))).unwrap_err();
    assert_eq!(status, failure);
    assert_eq!(pending.remove(18080), vec![1]);
}

#[test]
fn call_that_starts_with_a_packet_is_rejected_and_claims_nothing() {
    let mut pending = PendingConnections::new();
    pending.push(18080, 1);
    let status = accept_tcp_connection(&mut pending, Some(Ok(packet(b"hello")))).unwrap_err();
    assert_eq!(
        status,
        Status {
            code: Code::InvalidArgument,
            message: "the first message needs to contain metadata".to_string()
        }
    );
    assert_eq!(pending.remove(18080), vec![1]);
}

#[test]
fn call_that_starts_with_an_empty_message_is_rejected_and_claims_nothing() {
    let mut pending = PendingConnections::new();
    pending.push(18080, 1);
    let status = accept_tcp_connection(&mut pending, Some(Ok(TcpAcceptRequest::Empty))).unwrap_err();
    assert_eq!(status.code, Code::InvalidArgument);
    assert_eq!(status.message, "the first message needs to contain metadata");
    assert_eq!(pending.remove(18080), vec![1]);
}

#[test]
fn call_that_names_a_bad_port_is_rejected() {
    let mut pending = PendingConnections::new();
    pending.push(18080, 1);
    let status = accept_tcp_connection(&mut pending, metadata(65536)).unwrap_err();
    assert_eq!(status, Status { code: Code::InvalidArgument, message: "invalid port number: 65536".to_string() });
    let status = accept_tcp_connection(&mut pending, metadata(-18080)).unwrap_err();
    assert_eq!(status, Status { code: Code::InvalidArgument, message: "invalid port number: -18080".to_string() });
    assert_eq!(pending.remove(18080), vec![1]);
}

#[test]
fn call_that_names_a_port_without_a_queue_is_rejected_without_effect() {
    let mut pending = PendingConnections::new();
    pending.push(18080, 1);
    let status = accept_tcp_connection(&mut pending, metadata(18081)).unwrap_err();
    assert_eq!(
        status,
        Status {
            code: Code::InvalidArgument,
            message: "there are no pending connections on port: 18081".to_string()
        }
    );
    assert_eq!(pending.register(18081), Vec::<u64>::new());
    assert_eq!(pending.remove(18080), vec![1]);
}

#[test]
fn call_that_names_a_port_with_an_empty_queue_is_rejected() {
    let mut pending = PendingConnections::new();
    let (mut session, _) = BindSession::new(18080, &mut pending);
    session.poll_next();
    let status = accept_tcp_connection(&mut pending, metadata(18080)).unwrap_err();
    assert_eq!(status.code, Code::InvalidArgument);
    assert_eq!(status.message, "there are no pending connections on port: 18080");
    session.accepted(&mut pending, 4);
    assert_eq!(accept_tcp_connection(&mut pending, metadata(18080)).unwrap().connection(), 4);
}

#[test]
fn call_on_port_zero_reports_port_zero() {
    let mut pending = PendingConnections::new();
    let status = accept_tcp_connection(&mut pending, metadata(0)).unwrap_err();
    assert_eq!(status.message, "there are no pending connections on port: 0");
}

#[test]
fn accepted_call_claims_one_connection() {
    let mut pending = PendingConnections::new();
    pending.push(18080, 1);
    pending.push(18080, 2);
    let tunnel = accept_tcp_connection(&mut pending, metadata(18080)).unwrap();
    assert_eq!(tunnel.port(), 18080);
    assert_eq!(tunnel.connection(), 2);
    assert!(tunnel.reads_external());
    assert!(!tunnel.is_ended());
    assert_eq!(pending.remove(18080), vec![1]);
}

#[test]
fn bytes_from_the_socket_go_out_as_one_packet() {
    let mut tunnel = tunnel_on(18080, 1);
    assert_eq!(
        tunnel.step(TunnelEvent::ExternalRead(b"hello\n".to_vec())),
        TunnelAction::Send(Packet { data: b"hello\n".to_vec() })
    );
    assert!(tunnel.reads_external());
}

#[test]
fn end_of_file_goes_out_as_an_empty_packet_once() {
    let mut tunnel = tunnel_on(18080, 1);
    assert_eq!(tunnel.step(TunnelEvent::ExternalRead(Vec::new())), TunnelAction::Send(Packet { data: Vec::new() }));
    assert!(!tunnel.reads_external());
    assert!(!tunnel.is_ended());
    assert_eq!(tunnel.step(TunnelEvent::ExternalRead(Vec::new())), TunnelAction::Continue);
    assert_eq!(tunnel.step(TunnelEvent::ExternalRead(b"late".to_vec())), TunnelAction::Continue);
}

#[test]
fn packets_are_still_written_after_end_of_file() {
    let mut tunnel = tunnel_on(18080, 1);
    tunnel.step(TunnelEvent::ExternalRead(Vec::new()));
    assert_eq!(tunnel.step(TunnelEvent::Request(packet(b"reply"))), TunnelAction::Write(b"reply".to_vec()));
    assert!(!tunnel.is_ended());
}

#[test]
fn failed_read_is_passed_over() {
    let mut tunnel = tunnel_on(18080, 1);
    assert_eq!(tunnel.step(TunnelEvent::ExternalReadFailed), TunnelAction::Continue);
    assert!(tunnel.reads_external());
    assert!(!tunnel.is_ended());
    assert_eq!(
        tunnel.step(TunnelEvent::ExternalRead(b"x".to_vec())),
        TunnelAction::Send(Packet { data: b"x".to_vec() })
    );
}

#[test]
fn packet_from_the_client_is_written_to_the_socket() {
    let mut tunnel = tunnel_on(18080, 1);
    assert_eq!(tunnel.step(TunnelEvent::Request(packet(b"HELLO\n"))), TunnelAction::Write(b"HELLO\n".to_vec()));
    assert_eq!(tunnel.step(TunnelEvent::Request(packet(b""))), TunnelAction::Write(Vec::new()));
    assert!(!tunnel.is_ended());
}

#[test]
fn second_metadata_ends_the_call_as_an_invalid_argument() {
    let mut tunnel = tunnel_on(18080, 1);
    assert_eq!(
        tunnel.step(TunnelEvent::Request(TcpAcceptRequest::Metadata { port: 18080 })),
        TunnelAction::Fail(Status {
            code: Code::InvalidArgument,
            message: "all messages, except the first one, need to contain a packet".to_string()
        })
    );
    assert!(tunnel.is_ended());
    assert!(!tunnel.reads_external());
}

#[test]
fn empty_message_ends_the_call_as_an_invalid_argument() {
    let mut tunnel = tunnel_on(18080, 1);
    let action = tunnel.step(TunnelEvent::Request(TcpAcceptRequest::Empty));
    assert_eq!(
        action,
        TunnelAction::Fail(Status {
            code: Code::InvalidArgument,
            message: "all messages, except the first one, need to contain a packet".to_string()
        })
    );
    assert!(tunnel.is_ended());
}

#[test]
fn failure_of_the_request_stream_ends_the_call_with_it() {
    let mut tunnel = tunnel_on(18080, 1);
    let failure = Status { code: Code::Io, message: "stream reset".to_string() };
    assert_eq!(tunnel.step(TunnelEvent::RequestFailed(failure.clone())), TunnelAction::Fail(failure));
    assert!(tunnel.is_ended());
}

#[test]
fn failed_write_ends_the_call_as_io() {
    let mut tunnel = tunnel_on(18080, 1);
    assert_eq!(
        tunnel.step(TunnelEvent::ExternalWriteFailed("broken pipe".to_string())),
        TunnelAction::Fail(Status { code: Code::Io, message: "broken pipe".to_string() })
    );
    assert!(tunnel.is_ended());
}

#[test]
fn end_of_the_request_stream_ends_the_call() {
    let mut tunnel = tunnel_on(18080, 1);
    assert_eq!(tunnel.step(TunnelEvent::RequestsEnded), TunnelAction::Finish);
    assert!(tunnel.is_ended());
    assert!(!tunnel.reads_external());
}

#[test]
fn nothing_happens_after_the_call_is_over() {
    let mut tunnel = tunnel_on(18080, 1);
    tunnel.step(TunnelEvent::RequestsEnded);
    assert_eq!(tunnel.step(TunnelEvent::ExternalRead(b"x".to_vec())), TunnelAction::Finish);
    assert_eq!(tunnel.step(TunnelEvent::Request(packet(b"x"))), TunnelAction::Finish);
    assert_eq!(tunnel.step(TunnelEvent::ExternalWriteFailed("x".to_string())), TunnelAction::Finish);
    assert!(tunnel.is_ended());
}

#[test]
fn each_direction_keeps_its_order_whatever_the_other_does() {
    let mut tunnel = tunnel_on(18080, 1);
    let events = vec![
        TunnelEvent::ExternalRead(b"ab".to_vec()),
        TunnelEvent::Request(packet(b"12")),
        TunnelEvent::ExternalReadFailed,
        TunnelEvent::ExternalRead(b"c".to_vec()),
        TunnelEvent::Request(packet(b"3")),
        TunnelEvent::ExternalRead(Vec::new()),
        TunnelEvent::Request(packet(b"45")),
        TunnelEvent::ExternalRead(b"lost".to_vec()),
    ];
    let mut sent = Vec::new();
    let mut written = Vec::new();
    let mut empties = 0;
    for event in events {
        match tunnel.step(event) {
            TunnelAction::Send(p) => {
                if p.data.is_empty() {
                    empties += 1;
                }
                sent.extend(p.data);
            }
            TunnelAction::Write(data) => written.extend(data),
            TunnelAction::Continue => {}
            other => panic!("the call ended: {:?}", other),
        }
    }
    assert_eq!(sent, b"abc".to_vec());
    assert_eq!(written, b"12345".to_vec());
    assert_eq!(empties, 1);
}
