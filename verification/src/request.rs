//! Requests for a connection.

use crate::random::{law_draws_are_made, random_i32, was_drawn_i32};
use tokio::time::Instant;
use vstd::prelude::*;

verus! {

/// `tokio::time::Instant`, a reading of the monotonic clock.
#[verifier::external_type_specification]
#[verifier::external_body]
pub struct ExInstant(tokio::time::Instant);

/// `tokio::time::Instant::now`. What time it is depends on the machine, so
/// nothing is claimed of the reading.
pub assume_specification[ tokio::time::Instant::now ]() -> (now: tokio::time::Instant)
;

/// Identity of a client, as in PostgreSQL's message of the same name.
#[derive(Clone, Copy, Debug, PartialEq, Eq, Structural)]
pub struct BackendKeyData {
    pub pid: i32,
    pub secret: i32,
}

impl BackendKeyData {
    /// A key drawn at random; any key may come back.
    pub(crate) fn new() -> (key: Self)
        ensures
            was_drawn_i32(key.pid),
            was_drawn_i32(key.secret),
    {
        let pid: i32 = random_i32();
        let secret: i32 = random_i32();
        proof {
            law_draws_are_made(0, 0, 0, pid);
            law_draws_are_made(0, 0, 0, secret);
        }
        BackendKeyData::from_draws(pid, secret)
    }

    /// The key of two draws: process first, then secret.
    pub fn from_draws(pid: i32, secret: i32) -> (key: Self)
        ensures
            key == (BackendKeyData { pid, secret }),
    {
        BackendKeyData { pid, secret }
    }
}

/// Connection request.
#[derive(Clone, Copy, Debug)]
pub struct Request {
    pub id: BackendKeyData,
    pub created_at: Instant,
    pub read: bool,
    /// Stable per-client index used by the client-affinity load balancing
    /// strategy to pin the client to one replica. Ignored by other strategies.
    pub replica_affinity: Option<usize>,
}

impl Default for Request {
    /// An unrouted request under a random key.
    fn default() -> (request: Self)
        ensures
            !request.read,
            request.replica_affinity is None,
            was_drawn_i32(request.id.pid),
            was_drawn_i32(request.id.secret),
            call_ensures(Instant::now, (), request.created_at),
    {
        Request::unrouted(BackendKeyData::new())
    }
}

impl Request {
    /// The request, pinned to an index and otherwise as it was.
    pub open spec fn pinned(self, index: usize) -> Self {
        Request { replica_affinity: Some(index), ..self }
    }

    /// A request made at `created_at`.
    pub fn at(id: BackendKeyData, created_at: Instant, read: bool) -> (request: Self)
        ensures
            request == (Request { id, created_at, read, replica_affinity: None }),
    {
        Request { id, created_at, read, replica_affinity: None }
    }

    /// A request made now.
    pub fn new(id: BackendKeyData, read: bool) -> (request: Self)
        ensures
            request == (Request {
                id,
                created_at: request.created_at,
                read,
                replica_affinity: None,
            }),
            call_ensures(Instant::now, (), request.created_at),
    {
        Request::at(id, Instant::now(), read)
    }

    /// A request made now that does not say whether it reads.
    pub fn unrouted(id: BackendKeyData) -> (request: Self)
        ensures
            request == (Request {
                id,
                created_at: request.created_at,
                read: false,
                replica_affinity: None,
            }),
            call_ensures(Instant::now, (), request.created_at),
    {
        Request::at(id, Instant::now(), false)
    }

    /// Pin replica selection to a stable per-client index (used by the
    /// client-affinity strategy).
    pub fn with_replica_affinity(self, index: usize) -> (request: Self)
        ensures
            request == self.pinned(index),
    {
        let mut request = self;
        request.replica_affinity = Some(index);
        request
    }
}

/// Pinning touches the affinity alone, and the last pin is the one that holds.
pub proof fn law_last_pin_holds(request: Request, first: usize, last: usize)
    ensures
        request.pinned(last).replica_affinity == Some(last),
        request.pinned(last).id == request.id,
        request.pinned(last).created_at == request.created_at,
        request.pinned(last).read == request.read,
        request.pinned(first).pinned(last) == request.pinned(last),
{
}

} // verus!
