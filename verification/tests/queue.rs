use bearer_auth::auth::session::SessionMetadata;
use bearer_auth::queue::session::SessionQueue;

fn metadata(ip: &str, user_agent: &str) -> SessionMetadata {
    SessionMetadata { ip: ip.to_string(), user_agent: user_agent.to_string() }
}

#[test]
fn new_queue_is_empty() {
    let mut queue = SessionQueue::new();
    assert_eq!(queue.len(), 0);
    assert!(queue.take().is_empty());
}

#[test]
fn each_session_waits_once() {
    let mut queue = SessionQueue::new();
    queue.add(1, metadata("10.0.0.1", "a"));
    queue.add(2, metadata("10.0.0.2", "b"));
    queue.add(1, metadata("10.0.0.3", "c"));
    assert_eq!(queue.len(), 2);
}

#[test]
fn last_touch_of_a_session_wins() {
    let mut queue = SessionQueue::new();
    queue.add(1, metadata("10.0.0.1", "first"));
    queue.add(2, metadata("10.0.0.2", "other"));
    queue.add(1, metadata("10.0.0.9", "last"));
    let taken = queue.take();
    assert_eq!(taken.len(), 2);
    assert_eq!(taken.get(&1), Some(&metadata("10.0.0.9", "last")));
    assert_eq!(taken.get(&2), Some(&metadata("10.0.0.2", "other")));
}

#[test]
fn take_leaves_the_queue_empty() {
    let mut queue = SessionQueue::new();
    queue.add(5, metadata("::1", "curl"));
    let taken = queue.take();
    assert_eq!(taken.len(), 1);
    assert_eq!(queue.len(), 0);
    assert!(queue.take().is_empty());
    queue.add(6, metadata("::1", "curl"));
    assert_eq!(queue.len(), 1);
}

#[test]
fn negative_session_ids_are_kept_apart() {
    let mut queue = SessionQueue::new();
    queue.add(-1, metadata("a", "a"));
    queue.add(1, metadata("b", "b"));
    let taken = queue.take();
    assert_eq!(taken.get(&-1), Some(&metadata("a", "a")));
    assert_eq!(taken.get(&1), Some(&metadata("b", "b")));
}
