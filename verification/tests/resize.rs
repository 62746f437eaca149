use converge::dimensions::Dimensions;
use converge::resize::{announce_command, commit_batch, ResizeCall, ResizeRequests};
use converge::stream::Decision;

fn size(cols: i64, rows: i64) -> Dimensions {
    Dimensions::new(cols, rows).unwrap()
}

fn attached_at(cols: i64, rows: i64) -> ResizeRequests {
    let mut requests = ResizeRequests::new();
    requests.attach(size(cols, rows));
    requests
}

#[test]
fn new_record_is_empty() {
    let requests = ResizeRequests::new();
    assert_eq!(requests.current(), None);
    assert_eq!(requests.requested(), None);
    assert_eq!(requests.committing(), None);
    assert!(!requests.is_active());
}

#[test]
fn request_before_first_report_is_ignored() {
    let mut requests = ResizeRequests::new();
    assert_eq!(requests.request_size(size(100, 30), true), Decision::Ignored);
    assert_eq!(requests.current(), None);
    assert_eq!(requests.requested(), None);
    assert!(!requests.is_active());
    assert_eq!(requests.next_commit(), None);
}

#[test]
fn request_without_session_is_ignored() {
    let mut requests = attached_at(80, 24);
    assert_eq!(requests.request_size(size(100, 30), false), Decision::Ignored);
    assert_eq!(requests.current(), Some(size(80, 24)));
    assert_eq!(requests.requested(), None);
    assert!(!requests.is_active());
}

#[test]
fn first_report_seeds_current_without_a_commit() {
    let mut requests = ResizeRequests::new();
    requests.attach(size(80, 24));
    assert_eq!(requests.current(), Some(size(80, 24)));
    assert_eq!(requests.requested(), None);
    assert_eq!(requests.committing(), None);
    assert!(!requests.is_active());
}

#[test]
fn later_reports_do_not_change_current() {
    let mut requests = attached_at(80, 24);
    requests.attach(size(120, 40));
    assert_eq!(requests.current(), Some(size(80, 24)));
}

#[test]
fn request_for_new_size_asks_for_a_worker() {
    let mut requests = attached_at(80, 24);
    assert_eq!(requests.request_size(size(100, 30), true), Decision::Spawn);
    assert_eq!(requests.requested(), Some(size(100, 30)));
    assert!(requests.is_active());
    assert_eq!(requests.current(), Some(size(80, 24)));
}

#[test]
fn request_while_worker_exists_is_queued() {
    let mut requests = attached_at(80, 24);
    assert_eq!(requests.request_size(size(100, 30), true), Decision::Spawn);
    assert_eq!(requests.request_size(size(101, 30), true), Decision::Queued);
    assert_eq!(requests.request_size(size(101, 30), true), Decision::Queued);
    assert_eq!(requests.requested(), Some(size(101, 30)));
}

#[test]
fn request_for_current_size_is_settled() {
    let mut requests = attached_at(80, 24);
    assert_eq!(requests.request_size(size(80, 24), true), Decision::Settled);
    assert_eq!(requests.requested(), None);
    assert!(!requests.is_active());
    assert_eq!(requests.next_commit(), None);
}

#[test]
fn worker_takes_the_waiting_size() {
    let mut requests = attached_at(80, 24);
    requests.request_size(size(100, 30), true);
    assert_eq!(requests.next_commit(), Some(size(100, 30)));
    assert_eq!(requests.requested(), None);
    assert_eq!(requests.committing(), Some(size(100, 30)));
    assert_eq!(requests.current(), Some(size(80, 24)));
    assert!(requests.is_active());
}

#[test]
fn current_changes_only_on_acknowledgment() {
    let mut requests = attached_at(80, 24);
    requests.request_size(size(100, 30), true);
    requests.next_commit();
    assert_eq!(requests.current(), Some(size(80, 24)));
    requests.acknowledge();
    assert_eq!(requests.current(), Some(size(100, 30)));
    assert_eq!(requests.committing(), None);
    assert!(requests.is_active());
}

#[test]
fn worker_ends_when_nothing_waits() {
    let mut requests = attached_at(80, 24);
    requests.request_size(size(100, 30), true);
    requests.next_commit();
    requests.acknowledge();
    assert_eq!(requests.next_commit(), None);
    assert!(!requests.is_active());
    assert_eq!(requests.current(), Some(size(100, 30)));
}

#[test]
fn acknowledgment_without_commit_changes_nothing() {
    let mut requests = attached_at(80, 24);
    requests.acknowledge();
    assert_eq!(requests.current(), Some(size(80, 24)));
    requests.request_size(size(100, 30), true);
    requests.acknowledge();
    assert_eq!(requests.current(), Some(size(80, 24)));
    assert_eq!(requests.requested(), Some(size(100, 30)));
    assert!(requests.is_active());
}

#[test]
fn acknowledgment_withdraws_a_request_for_the_confirmed_size() {
    let mut requests = attached_at(80, 24);
    requests.request_size(size(100, 30), true);
    assert_eq!(requests.next_commit(), Some(size(100, 30)));
    assert_eq!(requests.request_size(size(100, 30), true), Decision::Queued);
    requests.acknowledge();
    assert_eq!(requests.current(), Some(size(100, 30)));
    assert_eq!(requests.requested(), None);
    assert_eq!(requests.next_commit(), None);
    assert!(!requests.is_active());
}

#[test]
fn unconfirmed_commit_is_given_up_at_the_next_look() {
    let mut requests = attached_at(80, 24);
    requests.request_size(size(100, 30), true);
    assert_eq!(requests.next_commit(), Some(size(100, 30)));
    assert_eq!(requests.request_size(size(120, 40), true), Decision::Queued);
    assert_eq!(requests.next_commit(), Some(size(120, 40)));
    assert_eq!(requests.committing(), Some(size(120, 40)));
    assert_eq!(requests.current(), Some(size(80, 24)));
    requests.acknowledge();
    assert_eq!(requests.current(), Some(size(120, 40)));
}

#[test]
fn request_during_wait_is_committed_after_late_acknowledgment() {
    let mut requests = attached_at(80, 24);
    requests.request_size(size(100, 30), true);
    requests.next_commit();
    assert_eq!(requests.request_size(size(120, 40), true), Decision::Queued);
    requests.acknowledge();
    assert_eq!(requests.next_commit(), Some(size(120, 40)));
}

#[test]
fn abort_ends_the_worker_and_drops_the_work() {
    let mut requests = attached_at(80, 24);
    requests.request_size(size(100, 30), true);
    requests.next_commit();
    requests.request_size(size(120, 40), true);
    requests.abort();
    assert!(!requests.is_active());
    assert_eq!(requests.requested(), None);
    assert_eq!(requests.committing(), None);
    assert_eq!(requests.current(), Some(size(80, 24)));
}

#[test]
fn request_after_worker_ended_asks_for_a_new_worker() {
    let mut requests = attached_at(80, 24);
    requests.request_size(size(100, 30), true);
    requests.next_commit();
    requests.acknowledge();
    requests.next_commit();
    assert_eq!(requests.request_size(size(80, 24), true), Decision::Spawn);
    assert_eq!(requests.next_commit(), Some(size(80, 24)));
}

#[test]
fn failed_commit_does_not_stop_later_requests() {
    let mut requests = attached_at(80, 24);
    requests.request_size(size(100, 30), true);
    assert_eq!(requests.next_commit(), Some(size(100, 30)));
    // the commit fails: no confirmation is recorded, the worker looks again
    assert_eq!(requests.next_commit(), None);
    assert!(!requests.is_active());
    assert_eq!(requests.current(), Some(size(80, 24)));
    assert_eq!(requests.request_size(size(100, 30), true), Decision::Spawn);
    assert_eq!(requests.next_commit(), Some(size(100, 30)));
    requests.acknowledge();
    assert_eq!(requests.current(), Some(size(100, 30)));
}

#[test]
fn commit_batch_sets_up_the_announcement_before_the_resize() {
    assert_eq!(
        commit_batch(size(100, 30)),
        vec![ResizeCall::AnnounceOnce, ResizeCall::TryResize { cols: 100, rows: 30 }]
    );
}

#[test]
fn announce_command_text() {
    assert_eq!(announce_command(), "au VimResized * ++once cal rpcnotify(1, 'resized')");
}
