//! Verified core of a reverse proxy that exposes a TCP port of a machine
//! behind NAT through a publicly reachable server.
//!
//! The crate holds the decisions of both peers: the token model, the
//! allow-list check, the queue of parked connections, and the state machines
//! that drive a bind session and a tunnel. Sockets, the RPC transport and the
//! files on disk belong to the program around it.

pub mod encoding;
pub mod text;
pub mod token;
pub mod status;
pub mod schema;
pub mod ports;
pub mod pending;
pub mod allow_list;
pub mod tunnel;
pub mod bind;
pub mod driver;
pub mod pipeline;
pub mod servers;
pub mod config;
pub mod cli;
