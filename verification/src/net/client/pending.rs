use vstd::prelude::*;

use std::collections::HashMap;

use crate::net::packet::PacketId;

verus! {

broadcast use vstd::std_specs::hash::group_hash_axioms;

/// The number under which a request waiting for `id` is kept: the id's byte,
/// plus 256 for a packet from the server, so that no two ids share one.
pub open spec fn spec_request_key(id: PacketId) -> u16 {
    match id {
        PacketId::FromClient(c) => c.spec_value() as u16,
        PacketId::FromServer(s) => (256 + s.spec_value()) as u16,
    }
}

/// The number under which a request waiting for `id` is kept (see
/// `spec_request_key`).
pub fn request_key(id: PacketId) -> (k: u16)
    ensures
        k == spec_request_key(id),
{
    match id {
        PacketId::FromClient(c) => c.value() as u16,
        PacketId::FromServer(s) => 256 + s.value() as u16,
    }
}

/// No two ids are kept under the same number.
pub proof fn lemma_request_key_injective(a: PacketId, b: PacketId)
    ensures
        spec_request_key(a) == spec_request_key(b) ==> a == b,
{
    match (a, b) {
        (PacketId::FromClient(x), PacketId::FromClient(y)) => {
            crate::net::packet::from_client::lemma_from_client_value_roundtrip(x, y.spec_value());
        },
        (PacketId::FromServer(x), PacketId::FromServer(y)) => {
            crate::net::packet::from_server::lemma_from_server_value_roundtrip(x, y.spec_value());
        },
        _ => {},
    }
}

/// The requests waiting for a response, each kept by the id of the packet that
/// answers it (under its `spec_request_key`): at most one per id, a new one
/// replacing the older.
pub struct PendingRequests<T> {
    waiting: HashMap<u16, T>,
}

impl<T> View for PendingRequests<T> {
    /// The waiting requests by the number of the id of their answer.
    type V = Map<u16, T>;

    closed spec fn view(&self) -> Map<u16, T> {
        self.waiting@
    }
}

impl<T> PendingRequests<T> {
    /// No request is waiting.
    pub fn new() -> (p: Self)
        ensures
            p@ == Map::<u16, T>::empty(),
    {
        Self { waiting: HashMap::new() }
    }

    /// Whether a request waits for `id`.
    pub fn contains(&self, id: PacketId) -> (r: bool)
        ensures
            r == self@.dom().contains(spec_request_key(id)),
    {
        let k = request_key(id);
        self.waiting.contains_key(&k)
    }

    /// Takes the request waiting for `id`, if one is: it receives the answer.
    pub fn remove(&mut self, id: PacketId) -> (r: Option<T>)
        ensures
            r == old(self)@.get(spec_request_key(id)),
            final(self)@ == old(self)@.remove(spec_request_key(id)),
    {
        let k = request_key(id);
        self.waiting.remove(&k)
    }

    /// Registers a request waiting for `id`; a request that was waiting for
    /// the same id is replaced and given back.
    pub fn insert(&mut self, id: PacketId, waiter: T) -> (r: Option<T>)
        ensures
            r == old(self)@.get(spec_request_key(id)),
            final(self)@ == old(self)@.insert(spec_request_key(id), waiter),
    {
        let k = request_key(id);
        self.waiting.insert(k, waiter)
    }

    /// How many requests wait.
    pub fn len(&self) -> (n: usize)
        ensures
            n == self@.len(),
    {
        self.waiting.len()
    }
}

/// A response reaches the request registered for its id, and taking it leaves
/// the other requests as they were: after `insert(id, w)`, `remove(id)` gives
/// `w` back and leaves what `remove(id)` would have left before; a request
/// registered for another id is not reached.
pub proof fn lemma_response_reaches_its_request<T>(
    requests: Map<u16, T>,
    id: PacketId,
    other: PacketId,
    w: T,
)
    ensures
        requests.insert(spec_request_key(id), w).get(spec_request_key(id)) == Some(w),
        requests.insert(spec_request_key(id), w).remove(spec_request_key(id)) == requests.remove(
            spec_request_key(id),
        ),
        other != id ==> requests.insert(spec_request_key(id), w).get(spec_request_key(other))
            == requests.get(spec_request_key(other)),
{
    lemma_request_key_injective(id, other);
    assert(requests.insert(spec_request_key(id), w).remove(spec_request_key(id)) =~= requests.remove(
        spec_request_key(id),
    ));
}

} // verus!
