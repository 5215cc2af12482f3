//! Connections that were accepted on an external port and wait to be claimed.
//!
//! Each bound port has a queue of its own. A connection is an integer handle
//! that the program around the library gave to the accepted socket.

use vstd::prelude::*;
use dashmap::DashMap;

verus! {

/// `dashmap::DashMap`, a concurrent hash map. What one holds is known only
/// through `parked` and `allowed`.
#[verifier::external_type_specification]
#[verifier::external_body]
#[verifier::reject_recursive_types(K)]
#[verifier::reject_recursive_types(V)]
#[verifier::reject_recursive_types(S)]
pub struct ExDashMap<K, V, S>(DashMap<K, V, S>);

/// What a map of queues holds: for each port that has an entry, its connections in
/// the order in which they were parked.
pub uninterp spec fn parked(queues: DashMap<u16, Vec<u64>>) -> Map<u16, Seq<u64>>;

/// No port has a queue.
pub open spec fn nothing_parked() -> Map<u16, Seq<u64>> {
    Map::empty()
}

/// The connections parked on `port`: none where the port has no queue.
pub open spec fn parked_on(queues: Map<u16, Seq<u64>>, port: u16) -> Seq<u64> {
    if queues.contains_key(port) {
        queues[port]
    } else {
        Seq::empty()
    }
}

/// `DashMap::new`: a map without entries.
#[verifier::external_body]
fn queues_new() -> (queues: DashMap<u16, Vec<u64>>)
    ensures
        parked(queues) == nothing_parked(),
{
    DashMap::new()
}

/// `DashMap::insert`: sets the entry of `port`, and gives back the value that
/// the port had before, if it had one. No other entry changes.
#[verifier::external_body]
fn queues_insert(queues: &mut DashMap<u16, Vec<u64>>, port: u16, connections: Vec<u64>) -> (previous: Option<Vec<u64>>)
    ensures
        parked(*final(queues)) == parked(*old(queues)).insert(port, connections@),
        previous is Some <==> parked(*old(queues)).contains_key(port),
        previous matches Some(list) ==> list@ == parked(*old(queues))[port],
{
    queues.insert(port, connections)
}

/// `DashMap::remove`: takes the entry of `port` out and gives back its value,
/// if the port had one. No other entry changes.
#[verifier::external_body]
fn queues_remove(queues: &mut DashMap<u16, Vec<u64>>, port: u16) -> (removed: Option<Vec<u64>>)
    ensures
        parked(*final(queues)) == parked(*old(queues)).remove(port),
        removed is Some <==> parked(*old(queues)).contains_key(port),
        removed matches Some(list) ==> list@ == parked(*old(queues))[port],
{
    queues.remove(&port).map(|entry| entry.1)
}

/// The queues of all bound ports.
pub struct PendingConnections {
    queues: DashMap<u16, Vec<u64>>,
}

impl View for PendingConnections {
    type V = Map<u16, Seq<u64>>;

    closed spec fn view(&self) -> Map<u16, Seq<u64>> {
        parked(self.queues)
    }
}

impl PendingConnections {
    /// No port is bound yet.
    pub fn new() -> (pending: PendingConnections)
        ensures
            pending@ == nothing_parked(),
    {
        PendingConnections { queues: queues_new() }
    }

    /// Gives `port` a fresh, empty queue. Connections that an earlier session
    /// left on the port are handed back to be closed.
    pub fn register(&mut self, port: u16) -> (stale: Vec<u64>)
        ensures
            final(self)@ == old(self)@.insert(port, Seq::empty()),
            stale@ == parked_on(old(self)@, port),
    {
        match queues_insert(&mut self.queues, port, Vec::new()) {
            Some(list) => list,
            None => Vec::new(),
        }
    }

    /// Parks a connection at the back of the queue of `port`, which comes into
    /// being if the port had none.
    pub fn push(&mut self, port: u16, connection: u64)
        ensures
            final(self)@ == old(self)@.insert(port, parked_on(old(self)@, port).push(connection)),
    {
        let mut list = match queues_remove(&mut self.queues, port) {
            Some(list) => list,
            None => Vec::new(),
        };
        list.push(connection);
        let _ = queues_insert(&mut self.queues, port, list);
        assert(final(self)@ =~= old(self)@.insert(port, parked_on(old(self)@, port).push(connection)));
    }

    /// Claims the connection that was parked last on `port`. A port without a
    /// queue, or with an empty one, gives nothing and gets no entry.
    pub fn pop(&mut self, port: u16) -> (claimed: Option<u64>)
        ensures
            claimed is Some <==> parked_on(old(self)@, port).len() > 0,
            claimed matches Some(connection) ==> {
                &&& connection == parked_on(old(self)@, port).last()
                &&& final(self)@ == old(self)@.insert(port, parked_on(old(self)@, port).drop_last())
            },
            claimed is None ==> final(self)@ == old(self)@,
    {
        match queues_remove(&mut self.queues, port) {
            Some(mut list) => {
                let claimed = list.pop();
                let _ = queues_insert(&mut self.queues, port, list);
                proof {
                    if claimed is None {
                        assert(final(self)@ =~= old(self)@);
                    } else {
                        assert(final(self)@ =~= old(self)@.insert(port, parked_on(old(self)@, port).drop_last()));
                    }
                }
                claimed
            },
            None => {
                assert(final(self)@ =~= old(self)@);
                None
            },
        }
    }

    /// Takes the queue of `port` away and hands back what was still parked on
    /// it, to be closed.
    pub fn remove(&mut self, port: u16) -> (unclaimed: Vec<u64>)
        ensures
            final(self)@ == old(self)@.remove(port),
            unclaimed@ == parked_on(old(self)@, port),
    {
        match queues_remove(&mut self.queues, port) {
            Some(list) => list,
            None => Vec::new(),
        }
    }
}

} // verus!
