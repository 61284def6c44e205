use pgdog::request::{BackendKeyData, Request};
use tokio::time::Instant;

const KEY: BackendKeyData = BackendKeyData { pid: 4, secret: -5 };

#[test]
fn new_request() {
    let before = Instant::now();
    let request = Request::new(KEY, true);
    assert_eq!(request.id, KEY);
    assert!(request.read);
    assert_eq!(request.replica_affinity, None);
    assert!(before <= request.created_at && request.created_at <= Instant::now());
    assert!(!Request::new(KEY, false).read);
}

#[test]
fn unrouted_request() {
    let before = Instant::now();
    let request = Request::unrouted(KEY);
    assert_eq!(request.id, KEY);
    assert!(!request.read);
    assert_eq!(request.replica_affinity, None);
    assert!(before <= request.created_at && request.created_at <= Instant::now());
}

#[test]
fn request_at_an_instant() {
    let at = Instant::now();
    let request = Request::at(KEY, at, true);
    assert_eq!(request.id, KEY);
    assert_eq!(request.created_at, at);
    assert!(request.read);
    assert_eq!(request.replica_affinity, None);
}

#[test]
fn last_pin_holds() {
    let request = Request::new(KEY, true);
    let pinned = request.with_replica_affinity(3).with_replica_affinity(8);
    assert_eq!(pinned.replica_affinity, Some(8));
    assert_eq!(pinned.id, KEY);
    assert_eq!(pinned.created_at, request.created_at);
    assert!(pinned.read);
}

#[test]
fn default_requests_have_keys_of_their_own() {
    let requests: Vec<Request> = (0..8).map(|_| Request::default()).collect();
    for request in &requests {
        assert!(!request.read);
        assert_eq!(request.replica_affinity, None);
    }
    assert!(requests.iter().any(|request| request.id != requests[0].id));
    assert!(requests.iter().any(|request| request.id.pid != request.id.secret));
}

#[test]
fn key_of_two_draws() {
    assert_eq!(BackendKeyData::from_draws(4, -5), KEY);
}
