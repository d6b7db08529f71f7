use std::time::Duration;
use vxsuite::crawler::{
    fetch_failure_line, is_quiescent, settle_fetch, ControlLoop, Crawler, DiscoveryBatch, Signals,
};
use vxsuite::error::{Error, Reach};
use vxsuite::frontier::Frontier;

fn urls(v: &[&str]) -> Vec<String> {
    v.iter().map(|s| s.to_string()).collect()
}

fn idle() -> Signals {
    Signals { pending_batches: 0, pending_urls: 0, active_fetches: 0 }
}

fn batch(source: &str, found: &[&str]) -> DiscoveryBatch {
    DiscoveryBatch { source: source.to_string(), discovered: urls(found) }
}

#[test]
fn self_loop_and_new_link() {
    let (mut control, first) = ControlLoop::start(&urls(&["A"]));
    assert_eq!(first, urls(&["A"]));

    let report = settle_fetch("A".to_string(), Ok((vec!["i1"], urls(&["B", "A"]))));
    assert_eq!(report.items, vec!["i1"]);
    assert_eq!(report.batch.source, "A");

    let action = control.step(Some(report.batch), &idle());
    assert_eq!(action.enqueue, urls(&["B"]));
    assert!(!action.shutdown);

    let report_b = settle_fetch::<&str>("B".to_string(), Ok((vec![], vec![])));
    assert!(report_b.items.is_empty());
    let action = control.step(Some(report_b.batch), &idle());
    assert!(action.enqueue.is_empty());
    assert!(!action.shutdown);

    let action = control.step(None, &idle());
    assert!(action.enqueue.is_empty());
    assert!(action.shutdown);
}

#[test]
fn three_seeds_each_fetched_once() {
    let crawler = Crawler::new(Duration::from_millis(0), 2, 1);
    assert_eq!(crawler.concurrency_count(), 2);
    let (mut control, first) = ControlLoop::start(&urls(&["A", "B", "C"]));
    assert_eq!(first, urls(&["A", "B", "C"]));

    for (i, url) in ["A", "B", "C"].iter().enumerate() {
        let report = settle_fetch::<u8>(url.to_string(), Ok((vec![], vec![])));
        let action = control.step(Some(report.batch), &idle());
        assert!(action.enqueue.is_empty());
        assert!(!action.shutdown);
        let poll = control.step(None, &idle());
        assert_eq!(poll.shutdown, i == 2);
    }
}

#[test]
fn failed_fetch_yields_nothing_and_is_reported() {
    let (mut control, _) = ControlLoop::start(&urls(&["A"]));
    let outcome: Result<(Vec<u8>, Vec<String>), Error> = Err(Error::Transport("timed out".to_string()));
    let line = match &outcome {
        Err(e) => fetch_failure_line("A", e),
        Ok(_) => unreachable!(),
    };
    assert_eq!(line, "fetch failed: A : Reqwest : timed out");
    let report = settle_fetch("A".to_string(), outcome);
    assert!(report.items.is_empty());
    assert_eq!(report.batch.source, "A");
    assert!(report.batch.discovered.is_empty());
    let action = control.step(Some(report.batch), &idle());
    assert!(action.enqueue.is_empty());
    assert!(!action.shutdown);
    assert!(control.step(None, &idle()).shutdown);
}

#[test]
fn no_shutdown_while_work_is_visible() {
    let (mut control, _) = ControlLoop::start(&urls(&["A"]));
    control.step(Some(batch("A", &[])), &idle());
    let busy = [
        Signals { pending_batches: 1, pending_urls: 0, active_fetches: 0 },
        Signals { pending_batches: 0, pending_urls: 1, active_fetches: 0 },
        Signals { pending_batches: 0, pending_urls: 0, active_fetches: 1 },
    ];
    for s in busy.iter() {
        assert!(!is_quiescent(s));
        assert!(!control.step(None, s).shutdown);
    }
    assert!(is_quiescent(&idle()));
    assert!(control.step(None, &idle()).shutdown);
}

#[test]
fn no_shutdown_before_any_batch_arrives() {
    let (mut control, first) = ControlLoop::start(&urls(&["A"]));
    assert_eq!(first.len(), 1);
    assert!(!control.step(None, &idle()).shutdown);
}

#[test]
fn empty_seed_list_is_quiescent_at_once() {
    let (mut control, first) = ControlLoop::start(&Vec::new());
    assert!(first.is_empty());
    assert!(control.step(None, &idle()).shutdown);
}

#[test]
fn duplicate_seeds_enqueued_once() {
    let (_, first) = ControlLoop::start(&urls(&["A", "B", "A", "B"]));
    assert_eq!(first, urls(&["A", "B"]));
}

#[test]
fn concurrent_discoveries_enqueued_once() {
    let (mut control, _) = ControlLoop::start(&urls(&["A", "B"]));
    let first = control.step(Some(batch("A", &["C", "D", "C"])), &idle());
    assert_eq!(first.enqueue, urls(&["C", "D"]));
    let second = control.step(Some(batch("B", &["D", "E", "A"])), &idle());
    assert_eq!(second.enqueue, urls(&["E"]));
}

#[test]
fn frontier_merge_and_contains() {
    let mut f = Frontier::new();
    assert_eq!(f.len(), 0);
    assert!(!f.contains("x"));
    let fresh = f.merge(&urls(&["x", "y", "x"]));
    assert_eq!(fresh, urls(&["x", "y"]));
    assert_eq!(f.len(), 2);
    assert!(f.contains("x"));
    assert!(f.contains("y"));
    assert!(!f.contains("z"));
    let again = f.merge(&urls(&["y", "z", "x"]));
    assert_eq!(again, urls(&["z"]));
    assert_eq!(f.len(), 3);
}

#[test]
fn urls_differ_by_exact_text() {
    let mut f = Frontier::new();
    let fresh = f.merge(&urls(&["http://a/", "http://a", "HTTP://a/"]));
    assert_eq!(fresh.len(), 3);
}

#[test]
fn crawler_configuration() {
    let c = Crawler::new(Duration::from_millis(200), 2, 500);
    assert_eq!(c.delay(), Duration::from_millis(200));
    assert_eq!(c.concurrency_count(), 2);
    assert_eq!(c.processing_count(), 500);
    assert_eq!(c.fetch_queue_capacity(), 800);
    assert_eq!(c.item_queue_capacity(), 5000);
}

#[test]
fn error_messages() {
    assert_eq!(Error::Internal("x".to_string()).message(), "Internal");
    assert_eq!(Error::InvalidSpider("foo".to_string()).message(), "Spider is not valid! : foo");
    assert_eq!(Error::Transport("t".to_string()).message(), "Reqwest : t");
    assert_eq!(Error::SessionFailure("s".to_string()).message(), "WebDriver : s");
    assert_eq!(Error::ConcurrencyJoinFailure("j".to_string()).message(), "tokio join error : j");
    assert_eq!(Error::InvalidResponse("r".to_string()).message(), "r : Invalid HTTP response");
}

#[test]
fn error_reach() {
    assert_eq!(Error::Transport(String::new()).reach(), Reach::Local);
    assert_eq!(Error::SessionFailure(String::new()).reach(), Reach::Local);
    assert_eq!(Error::InvalidResponse(String::new()).reach(), Reach::Local);
    assert_eq!(Error::InvalidSpider(String::new()).reach(), Reach::Caller);
    assert_eq!(Error::Internal(String::new()).reach(), Reach::Fatal);
    assert_eq!(Error::ConcurrencyJoinFailure(String::new()).reach(), Reach::Fatal);
    assert!(Error::Internal(String::new()).is_fatal());
    assert!(Error::ConcurrencyJoinFailure(String::new()).is_fatal());
    assert!(!Error::Transport(String::new()).is_fatal());
    assert!(!Error::InvalidSpider(String::new()).is_fatal());
}

#[test]
fn cycle_in_discovery_graph_terminates() {
    let (mut control, first) = ControlLoop::start(&urls(&["A"]));
    assert_eq!(first, urls(&["A"]));
    let a = control.step(Some(batch("A", &["B"])), &idle());
    assert_eq!(a.enqueue, urls(&["B"]));
    let b = control.step(Some(batch("B", &["A", "B"])), &idle());
    assert!(b.enqueue.is_empty());
    assert!(control.step(None, &idle()).shutdown);
}
