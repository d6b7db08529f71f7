//! The crawl engine's decisions: its configuration, what a fetch worker hands
//! on after one fetch, and each step of the control loop that owns the
//! frontier and decides when the crawl is over.

use vstd::prelude::*;
use core::time::Duration;
use crate::error::Error;
use crate::frontier::{Frontier, accepted, url_seq};

verus! {

/// Each pending-URL and discovery queue holds this many entries per fetch worker.
pub const FETCH_QUEUE_FACTOR: usize = 400;

/// The item queue holds this many entries per process worker.
pub const ITEM_QUEUE_FACTOR: usize = 10;

/// Milliseconds the control loop idles between two polls that found nothing.
pub const POLL_INTERVAL_MS: u64 = 5;

/// The configuration of a crawl: the delay after each fetch and the sizes of
/// the fetch and process pools.
pub struct Crawler {
    delay: Duration,
    concurrency_count: usize,
    processing_count: usize,
}

impl Crawler {
    pub closed spec fn delay_spec(&self) -> Duration {
        self.delay
    }

    pub closed spec fn fetchers(&self) -> usize {
        self.concurrency_count
    }

    pub closed spec fn processors(&self) -> usize {
        self.processing_count
    }

    pub fn new(delay: Duration, concurrency_count: usize, processing_count: usize) -> (r: Crawler)
        ensures
            r.delay_spec() == delay,
            r.fetchers() == concurrency_count,
            r.processors() == processing_count,
    {
        Crawler { delay, concurrency_count, processing_count }
    }

    /// The pause each fetch worker takes after each fetch.
    pub fn delay(&self) -> (r: Duration)
        ensures
            r == self.delay_spec(),
    {
        self.delay
    }

    /// The number of fetch workers.
    pub fn concurrency_count(&self) -> (r: usize)
        ensures
            r == self.fetchers(),
    {
        self.concurrency_count
    }

    /// The number of process workers.
    pub fn processing_count(&self) -> (r: usize)
        ensures
            r == self.processors(),
    {
        self.processing_count
    }

    /// The capacity of the pending-URL queue and of the discovery queue.
    pub fn fetch_queue_capacity(&self) -> (r: usize)
        requires
            self.fetchers() * FETCH_QUEUE_FACTOR <= usize::MAX,
        ensures
            r == self.fetchers() * FETCH_QUEUE_FACTOR,
    {
        self.concurrency_count * FETCH_QUEUE_FACTOR
    }

    /// The capacity of the item queue.
    pub fn item_queue_capacity(&self) -> (r: usize)
        requires
            self.processors() * ITEM_QUEUE_FACTOR <= usize::MAX,
        ensures
            r == self.processors() * ITEM_QUEUE_FACTOR,
    {
        self.processing_count * ITEM_QUEUE_FACTOR
    }
}

/// The URLs found while fetching `source`, sent to the control loop.
pub struct DiscoveryBatch {
    pub source: String,
    pub discovered: Vec<String>,
}

/// What a fetch worker hands on after fetching one URL: the items for the
/// process pool and the discovery batch for the control loop.
pub struct FetchReport<T> {
    pub items: Vec<T>,
    pub batch: DiscoveryBatch,
}

/// Turns the outcome of fetching `url` into what the worker hands on. A
/// failed fetch yields no items and an empty discovery batch, so that the
/// control loop still learns that `url` was dealt with.
pub fn settle_fetch<T>(url: String, outcome: Result<(Vec<T>, Vec<String>), Error>) -> (r: FetchReport<T>)
    ensures
        r.batch.source == url,
        match outcome {
            Ok((items, found)) => r.items == items && r.batch.discovered == found,
            Err(_) => r.items@.len() == 0 && r.batch.discovered@.len() == 0,
        },
{
    match outcome {
        Ok((items, found)) => FetchReport { items, batch: DiscoveryBatch { source: url, discovered: found } },
        Err(_) => FetchReport { items: Vec::new(), batch: DiscoveryBatch { source: url, discovered: Vec::new() } },
    }
}

/// The log line for a failed fetch of `url`.
pub fn fetch_failure_line(url: &str, err: &Error) -> (r: String)
    ensures
        r@ == "fetch failed: "@ + url@ + " : "@ + err.text(),
{
    let mut r = String::from_str("fetch failed: ");
    r.append(url);
    r.append(" : ");
    let m = err.message();
    r.append(m.as_str());
    r
}

/// What the control loop observed of the other tasks at one poll.
pub struct Signals {
    /// Discovery batches sent but not yet received.
    pub pending_batches: usize,
    /// URLs enqueued but not yet taken by a fetch worker.
    pub pending_urls: usize,
    /// Fetch workers between taking a URL and finishing its delay.
    pub active_fetches: usize,
}

/// What the control loop does after one poll.
pub struct ControlAction {
    /// URLs to enqueue for fetching, in this order.
    pub enqueue: Vec<String>,
    /// Whether the crawl is over: close the pending-URL queue and wait for the pools.
    pub shutdown: bool,
}

/// The number of URLs still owed a discovery batch after one batch arrives
/// and `fresh` new URLs are enqueued.
pub open spec fn owed_after(owed: nat, fresh: nat) -> nat {
    (if owed > 0 { (owed - 1) as nat } else { 0 }) + fresh
}

/// The control loop: it alone owns the frontier and decides what is enqueued.
/// Besides the frontier it counts the URLs it enqueued whose discovery batch
/// has not come back yet: each fetch, failed or not, sends exactly one.
pub struct ControlLoop {
    frontier: Frontier,
    owed: usize,
}

impl ControlLoop {
    /// Every URL accepted so far, in order of acceptance.
    pub closed spec fn visited(&self) -> Seq<Seq<char>> {
        self.frontier@
    }

    /// The URLs enqueued whose discovery batch has not arrived.
    pub closed spec fn outstanding(&self) -> nat {
        self.owed as nat
    }

    pub closed spec fn wf(&self) -> bool {
        &&& self.frontier.wf()
        &&& self.owed <= self.frontier@.len()
    }

    /// Seeds a new crawl: returns the loop and the seed URLs to enqueue, each
    /// once, in order.
    pub fn start(seeds: &Vec<String>) -> (r: (ControlLoop, Vec<String>))
        ensures
            r.0.wf(),
            url_seq(r.1@) == accepted(Seq::empty(), url_seq(seeds@)),
            r.0.visited() == url_seq(r.1@),
            r.0.outstanding() == r.1@.len(),
            r.0.visited().no_duplicates(),
    {
        let mut frontier = Frontier::new();
        let fresh = frontier.merge(seeds);
        assert(Seq::<Seq<char>>::empty() + url_seq(fresh@) == url_seq(fresh@));
        (ControlLoop { frontier, owed: fresh.len() }, fresh)
    }

    /// One step of the loop. With a batch, its unseen URLs are accepted and
    /// returned for enqueueing, and the crawl goes on. Without one, nothing
    /// changes, and the crawl is over exactly when no batch is owed, no batch
    /// and no URL is queued, and no fetch is active.
    pub fn step(&mut self, polled: Option<DiscoveryBatch>, signals: &Signals) -> (r: ControlAction)
        requires
            old(self).wf(),
        ensures
            final(self).wf(),
            final(self).visited().no_duplicates(),
            final(self).visited() == old(self).visited() + url_seq(r.enqueue@),
            match polled {
                Some(b) => {
                    &&& url_seq(r.enqueue@) == accepted(old(self).visited(), url_seq(b.discovered@))
                    &&& final(self).outstanding() == owed_after(old(self).outstanding(), r.enqueue@.len())
                    &&& !r.shutdown
                },
                None => {
                    &&& r.enqueue@.len() == 0
                    &&& final(self).outstanding() == old(self).outstanding()
                    &&& r.shutdown == (old(self).outstanding() == 0 && signals.pending_batches == 0
                        && signals.pending_urls == 0 && signals.active_fetches == 0)
                },
            },
    {
        match polled {
            Some(b) => {
                let fresh = self.frontier.merge(&b.discovered);
                // The frontier's length is a `usize`, and it bounds the count.
                let _accepted = self.frontier.len();
                if self.owed > 0 {
                    self.owed = self.owed - 1;
                }
                self.owed = self.owed + fresh.len();
                ControlAction { enqueue: fresh, shutdown: false }
            },
            None => {
                let done = self.owed == 0 && is_quiescent(signals);
                let none: Vec<String> = Vec::new();
                assert(self.visited() + url_seq(none@) =~= self.visited());
                ControlAction { enqueue: none, shutdown: done }
            },
        }
    }
}

/// Whether no batch and no URL is queued and no fetch is active.
pub fn is_quiescent(signals: &Signals) -> (r: bool)
    ensures
        r == (signals.pending_batches == 0 && signals.pending_urls == 0 && signals.active_fetches == 0),
{
    signals.pending_batches == 0 && signals.pending_urls == 0 && signals.active_fetches == 0
}

/// A fetch that failed hands the control loop an empty batch: merging it
/// accepts no URL, and the count of URLs owed a batch drops back by one, so a
/// failed fetch neither leaves the loop waiting nor inflates what it waits on.
pub proof fn lemma_failed_fetch_settles(visited: Seq<Seq<char>>, owed: nat)
    requires
        owed > 0,
    ensures
        accepted(visited, Seq::<Seq<char>>::empty()) == Seq::<Seq<char>>::empty(),
        owed_after(owed, 0) == owed - 1,
{
}

} // verus!
