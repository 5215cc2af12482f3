//! What a tunnel carries from end to end: the server's shuttle and the
//! client's task, joined by the two streams of one `AcceptTcpConnection`
//! call.

use vstd::prelude::*;
use crate::driver::{before_eof, delivered, lemma_task_is_fifo, local_reads, moves_bytes, received, task_actions, uploaded, TaskEventView, TaskState};
use crate::tunnel::{keeps_open, lemma_tunnel_is_fifo, reads, requested, run_actions, sent, until_eof, written, TunnelEventView, TunnelState};

verus! {

/// The client stops at the packet at which the server stops: what comes
/// before the end of file is the same on both sides.
pub proof fn lemma_eof_agrees(chunks: Seq<Seq<u8>>)
    ensures
        before_eof(until_eof(chunks)) == before_eof(chunks),
    decreases chunks.len(),
{
    if chunks.len() > 0 && chunks[0].len() > 0 {
        let rest = chunks.drop_first();
        lemma_eof_agrees(rest);
        let forwarded = until_eof(chunks);
        assert(forwarded[0] == chunks[0]);
        assert(forwarded.drop_first() =~= until_eof(rest));
    } else if chunks.len() > 0 {
        let forwarded = until_eof(chunks);
        assert(forwarded[0].len() == 0);
    }
}

/// From the external peer to the local service. Take a tunnel that is open
/// and a task whose download runs, any events on the server that keep the
/// call open, and any events on the client that carry bytes, such that the
/// client receives the packets that the server sent. Then what is written to
/// the local socket is what the server read from the external socket before
/// its end of file, chunk by chunk and so byte by byte, in order.
pub proof fn lemma_external_bytes_reach_local(
    tunnel: TunnelState,
    task: TaskState,
    server_events: Seq<TunnelEventView>,
    client_events: Seq<TaskEventView>,
)
    requires
        !tunnel.ended,
        !tunnel.client_eof,
        task.download is Running,
        forall|i: int| 0 <= i < server_events.len() ==> keeps_open(#[trigger] server_events[i]),
        forall|i: int| 0 <= i < client_events.len() ==> moves_bytes(#[trigger] client_events[i]),
        received(client_events) == sent(run_actions(tunnel, server_events)),
    ensures
        delivered(task_actions(task, client_events)) == before_eof(reads(server_events)),
        delivered(task_actions(task, client_events)).flatten() == before_eof(reads(server_events)).flatten(),
{
    lemma_tunnel_is_fifo(tunnel, server_events);
    lemma_task_is_fifo(task, client_events);
    lemma_eof_agrees(reads(server_events));
}

/// From the local service to the external peer. Take a task whose upload
/// runs and a tunnel that is open, any events on the client that carry
/// bytes, and any events on the server that keep the call open, such that
/// the server receives the packets that the client sent. Then what is
/// written to the external socket is what the client read from the local
/// socket before its end of file, chunk by chunk and so byte by byte, in
/// order.
pub proof fn lemma_local_bytes_reach_external(
    tunnel: TunnelState,
    task: TaskState,
    server_events: Seq<TunnelEventView>,
    client_events: Seq<TaskEventView>,
)
    requires
        !tunnel.ended,
        task.upload is Running,
        forall|i: int| 0 <= i < server_events.len() ==> keeps_open(#[trigger] server_events[i]),
        forall|i: int| 0 <= i < client_events.len() ==> moves_bytes(#[trigger] client_events[i]),
        requested(server_events) == uploaded(task_actions(task, client_events)),
    ensures
        written(run_actions(tunnel, server_events)) == before_eof(local_reads(client_events)),
        written(run_actions(tunnel, server_events)).flatten() == before_eof(local_reads(client_events)).flatten(),
{
    lemma_tunnel_is_fifo(tunnel, server_events);
    lemma_task_is_fifo(task, client_events);
}

} // verus!
