//! The frontier of a crawl: every URL ever accepted for fetching, in the order
//! of acceptance. A URL is accepted at most once; the list never shrinks.

use vstd::prelude::*;
use crate::text::same_chars;

verus! {

/// The characters of each string of a list.
pub open spec fn url_seq(v: Seq<String>) -> Seq<Seq<char>> {
    v.map_values(|s: String| s@)
}

/// The URLs of `batch` that a frontier which has already seen `seen` accepts,
/// each once, in the order of their first occurrence in `batch`.
pub open spec fn accepted(seen: Seq<Seq<char>>, batch: Seq<Seq<char>>) -> Seq<Seq<char>>
    decreases batch.len(),
{
    if batch.len() == 0 {
        Seq::empty()
    } else {
        let prev = accepted(seen, batch.drop_last());
        let u = batch.last();
        if seen.contains(u) || prev.contains(u) {
            prev
        } else {
            prev.push(u)
        }
    }
}

/// The set of visited URLs, kept as the list of acceptances.
pub struct Frontier {
    visited: Vec<String>,
}

impl View for Frontier {
    type V = Seq<Seq<char>>;

    closed spec fn view(&self) -> Seq<Seq<char>> {
        url_seq(self.visited@)
    }
}

impl Frontier {
    /// No URL is recorded twice.
    pub open spec fn wf(&self) -> bool {
        self@.no_duplicates()
    }

    /// An empty frontier.
    pub fn new() -> (r: Frontier)
        ensures
            r@ == Seq::<Seq<char>>::empty(),
            r.wf(),
    {
        Frontier { visited: Vec::new() }
    }

    /// The number of URLs accepted so far.
    pub fn len(&self) -> (r: usize)
        ensures
            r == self@.len(),
    {
        self.visited.len()
    }

    /// Whether `url` has been accepted.
    pub fn contains(&self, url: &str) -> (r: bool)
        ensures
            r == self@.contains(url@),
    {
        let mut i: usize = 0;
        while i < self.visited.len()
            invariant
                i <= self.visited@.len(),
                forall|j: int| 0 <= j < i ==> self@[j] != url@,
            decreases self.visited@.len() - i,
        {
            if same_chars(self.visited[i].as_str(), url) {
                assert(self@[i as int] == url@);
                return true;
            }
            i += 1;
        }
        false
    }

    /// Accepts the URLs of `batch` that were never accepted before, and
    /// returns them, each once, in the order of their first occurrence: these
    /// are the URLs to enqueue for fetching.
    pub fn merge(&mut self, batch: &Vec<String>) -> (fresh: Vec<String>)
        requires
            old(self).wf(),
        ensures
            final(self).wf(),
            url_seq(fresh@) == accepted(old(self)@, url_seq(batch@)),
            final(self)@ == old(self)@ + url_seq(fresh@),
    {
        let ghost seen = self@;
        let ghost b = url_seq(batch@);
        let mut fresh: Vec<String> = Vec::new();
        let mut i: usize = 0;
        while i < batch.len()
            invariant
                i <= batch@.len(),
                b == url_seq(batch@),
                seen.no_duplicates(),
                url_seq(fresh@) == accepted(seen, b.take(i as int)),
                self@ == seen + url_seq(fresh@),
                self.wf(),
            decreases batch@.len() - i,
        {
            let url = &batch[i];
            proof {
                assert(b.take(i + 1).drop_last() == b.take(i as int));
                assert(b.take(i + 1).last() == url@);
                lemma_concat_contains(seen, url_seq(fresh@), url@);
            }
            if !self.contains(url.as_str()) {
                let kept = url.clone();
                let out = url.clone();
                let ghost before = self@;
                let ghost fresh_before = url_seq(fresh@);
                proof {
                    lemma_push_fresh(self@, url@);
                }
                self.visited.push(kept);
                fresh.push(out);
                proof {
                    assert(self@ =~= before.push(url@));
                    assert(url_seq(fresh@) =~= fresh_before.push(url@));
                    assert(self@ =~= seen + url_seq(fresh@));
                }
            }
            i += 1;
        }
        assert(b.take(batch@.len() as int) == b);
        fresh
    }
}

proof fn lemma_concat_contains(a: Seq<Seq<char>>, b: Seq<Seq<char>>, u: Seq<char>)
    ensures
        (a + b).contains(u) <==> (a.contains(u) || b.contains(u)),
{
    if a.contains(u) {
        let k = choose|k: int| 0 <= k < a.len() && a[k] == u;
        assert((a + b)[k] == u);
    }
    if b.contains(u) {
        let k = choose|k: int| 0 <= k < b.len() && b[k] == u;
        assert((a + b)[a.len() + k] == u);
    }
    if (a + b).contains(u) {
        let k = choose|k: int| 0 <= k < (a + b).len() && (a + b)[k] == u;
        if k < a.len() {
            assert(a[k] == u);
        } else {
            assert(b[k - a.len()] == u);
        }
    }
}

proof fn lemma_push_fresh(s: Seq<Seq<char>>, u: Seq<char>)
    requires
        s.no_duplicates(),
        !s.contains(u),
    ensures
        s.push(u).no_duplicates(),
{
    assert forall|i: int, j: int| 0 <= i < s.push(u).len() && 0 <= j < s.push(u).len() && i != j
        implies s.push(u)[i] != s.push(u)[j] by {
        if i == s.len() {
            assert(s[j] != u);
        } else if j == s.len() {
            assert(s[i] != u);
        }
    }
}

/// The URLs accepted over a run of merges, one batch after the other, starting
/// from a frontier that has seen `seen`: the concatenation of what each merge
/// returned.
pub open spec fn accepted_log(seen: Seq<Seq<char>>, batches: Seq<Seq<Seq<char>>>) -> Seq<Seq<char>>
    decreases batches.len(),
{
    if batches.len() == 0 {
        Seq::empty()
    } else {
        let log = accepted_log(seen, batches.drop_last());
        log + accepted(seen + log, batches.last())
    }
}

/// A merge accepts only URLs that the frontier had not seen when the merge
/// began, accepts each of them once, accepts nothing outside the batch, and
/// leaves every URL of the batch seen.
pub proof fn lemma_merge_accepts_only_unseen(seen: Seq<Seq<char>>, batch: Seq<Seq<char>>)
    ensures
        accepted(seen, batch).no_duplicates(),
        forall|u: Seq<char>| #[trigger] accepted(seen, batch).contains(u)
            ==> !seen.contains(u) && batch.contains(u),
        forall|u: Seq<char>| #[trigger] batch.contains(u)
            ==> seen.contains(u) || accepted(seen, batch).contains(u),
    decreases batch.len(),
{
    if batch.len() > 0 {
        let prev = accepted(seen, batch.drop_last());
        let u = batch.last();
        lemma_merge_accepts_only_unseen(seen, batch.drop_last());
        assert forall|x: Seq<char>| #[trigger] batch.drop_last().contains(x) implies batch.contains(x) by {
            let k = choose|k: int| 0 <= k < batch.drop_last().len() && batch.drop_last()[k] == x;
            assert(batch[k] == x);
        }
        assert(batch[batch.len() - 1] == u);
        if !(seen.contains(u) || prev.contains(u)) {
            lemma_push_fresh(prev, u);
            assert forall|x: Seq<char>| #[trigger] prev.push(u).contains(x)
                implies prev.contains(x) || x == u by {
                let k = choose|k: int| 0 <= k < prev.push(u).len() && prev.push(u)[k] == x;
                if k < prev.len() {
                    assert(prev[k] == x);
                }
            }
            assert forall|x: Seq<char>| #[trigger] prev.contains(x) implies prev.push(u).contains(x) by {
                let k = choose|k: int| 0 <= k < prev.len() && prev[k] == x;
                assert(prev.push(u)[k] == x);
            }
            assert(prev.push(u)[prev.len() as int] == u);
        }
        assert forall|x: Seq<char>| #[trigger] batch.contains(x)
            implies batch.drop_last().contains(x) || x == u by {
            let k = choose|k: int| 0 <= k < batch.len() && batch[k] == x;
            if k < batch.len() - 1 {
                assert(batch.drop_last()[k] == x);
            }
        }
    }
}

/// Over any run of merges the frontier only grows, and no URL is accepted
/// (that is, enqueued) twice: the URLs seen at the start followed by every URL
/// accepted since hold no repetition.
pub proof fn lemma_merges_never_repeat(seen: Seq<Seq<char>>, batches: Seq<Seq<Seq<char>>>)
    requires
        seen.no_duplicates(),
    ensures
        (seen + accepted_log(seen, batches)).no_duplicates(),
    decreases batches.len(),
{
    if batches.len() > 0 {
        let log = accepted_log(seen, batches.drop_last());
        lemma_merges_never_repeat(seen, batches.drop_last());
        let now = seen + log;
        let fresh = accepted(now, batches.last());
        lemma_merge_accepts_only_unseen(now, batches.last());
        lemma_concat_no_dup(now, fresh);
        assert(seen + (log + fresh) =~= now + fresh);
    }
}

/// A frontier whose URLs all come from a finite set of candidates holds at
/// most as many URLs as there are candidates: with finitely many URLs ever
/// offered, only finitely many fetches are ever started.
pub proof fn lemma_frontier_bounded(visited: Seq<Seq<char>>, candidates: Set<Seq<char>>)
    requires
        visited.no_duplicates(),
        candidates.finite(),
        forall|i: int| 0 <= i < visited.len() ==> candidates.contains(#[trigger] visited[i]),
    ensures
        visited.len() <= candidates.len(),
{
    visited.unique_seq_to_set();
    assert(visited.to_set().subset_of(candidates));
    vstd::set_lib::lemma_len_subset(visited.to_set(), candidates);
}

proof fn lemma_concat_no_dup(a: Seq<Seq<char>>, b: Seq<Seq<char>>)
    requires
        a.no_duplicates(),
        b.no_duplicates(),
        forall|u: Seq<char>| #[trigger] b.contains(u) ==> !a.contains(u),
    ensures
        (a + b).no_duplicates(),
{
    assert forall|i: int, j: int| 0 <= i < (a + b).len() && 0 <= j < (a + b).len() && i != j
        implies (a + b)[i] != (a + b)[j] by {
        if i < a.len() && j >= a.len() {
            assert(b.contains(b[j - a.len()]));
        } else if j < a.len() && i >= a.len() {
            assert(b.contains(b[i - a.len()]));
        }
    }
}

} // verus!
