//! The messages of the `ReverseProxy` service.
//!
//! `BindTcp` takes one `TcpBindRequest` and answers with a stream of
//! `TcpBindResponse`. `AcceptTcpConnection` takes a stream of
//! `TcpAcceptRequest` and answers with a stream of `Packet`. Ports travel as
//! `i32`; whoever receives one checks its range.

use vstd::prelude::*;

verus! {

/// Size of the buffer that a socket is read into.
pub const READ_BUFFER_SIZE: usize = 4096;

/// A run of tunneled bytes. From server to client an empty one says that the
/// external peer has closed its sending side.
#[derive(Debug, Clone, PartialEq, Eq)]
pub struct Packet {
    pub data: Vec<u8>,
}

impl View for Packet {
    type V = Seq<u8>;

    open spec fn view(&self) -> Seq<u8> {
        self.data@
    }
}

/// The request of `BindTcp`. A port that is absent or zero asks for any free port.
#[derive(Debug, Clone, Copy, PartialEq, Eq, Structural)]
pub struct TcpBindRequest {
    pub port: Option<i32>,
}

/// A message of the `BindTcp` response stream.
#[derive(Debug, Clone, Copy, PartialEq, Eq, Structural)]
pub enum TcpBindResponse {
    /// The port that was bound. Always first.
    Metadata { port: i32 },
    /// One external connection was accepted and parked.
    Connection,
    /// A message whose body is absent.
    Empty,
}

/// A message of the `AcceptTcpConnection` request stream.
#[derive(Debug, Clone, PartialEq, Eq)]
pub enum TcpAcceptRequest {
    /// The external port to claim a parked connection from. Always first.
    Metadata { port: i32 },
    /// Bytes for the external peer.
    Packet(Packet),
    /// A message whose body is absent.
    Empty,
}

pub enum TcpAcceptRequestView {
    Metadata { port: i32 },
    Packet(Seq<u8>),
    Empty,
}

impl View for TcpAcceptRequest {
    type V = TcpAcceptRequestView;

    open spec fn view(&self) -> TcpAcceptRequestView {
        match self {
            TcpAcceptRequest::Metadata { port } => TcpAcceptRequestView::Metadata { port: *port },
            TcpAcceptRequest::Packet(packet) => TcpAcceptRequestView::Packet(packet@),
            TcpAcceptRequest::Empty => TcpAcceptRequestView::Empty,
        }
    }
}

} // verus!
