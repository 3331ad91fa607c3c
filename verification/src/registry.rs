use crate::error::ConfigError;
use vstd::prelude::*;

verus! {

/// A configured feed together with its mutable scheduling state.
pub struct Feed {
    /// Display label.
    pub name: String,
    /// Source location; the stable identifier of the feed within the registry.
    pub url: String,
    /// Free-form classification; used neither for scheduling nor for deduplication.
    pub category: String,
    /// Seconds between refreshes, at least one.
    pub interval: u64,
    /// Seconds-since-epoch of the last refresh attempt, if one was made.
    pub updated_at: Option<u64>,
}

/// A feed is due when it was never refreshed, or when more than `interval`
/// seconds have passed since its last refresh attempt.
pub open spec fn feed_is_due(f: Feed, now: u64) -> bool {
    match f.updated_at {
        Option::None => true,
        Option::Some(t) => now - t > f.interval,
    }
}

/// At least one feed, every interval at least one second, and every url
/// naming at most one feed.
pub open spec fn registry_well_formed(feeds: Seq<Feed>) -> bool {
    &&& feeds.len() > 0
    &&& forall|i: int| 0 <= i < feeds.len() ==> #[trigger] feeds[i].interval >= 1
    &&& forall|i: int, j: int|
        0 <= i < j < feeds.len() ==> #[trigger] feeds[i].url@ != #[trigger] feeds[j].url@
}

/// The ordered set of configured feeds, owner of their scheduling state.
pub struct Registry {
    feeds: Vec<Feed>,
}

impl View for Registry {
    type V = Seq<Feed>;

    closed spec fn view(&self) -> Seq<Feed> {
        self.feeds@
    }
}

impl Registry {
    /// Accepts a configuration exactly when it is well formed: rejects an
    /// empty feed list, an interval below one second, and a duplicated url,
    /// in that order of precedence.
    pub fn new(feeds: Vec<Feed>) -> (r: Result<Registry, ConfigError>)
        ensures
            r matches Ok(reg) ==> reg@ == feeds@ && registry_well_formed(feeds@),
            r is Err ==> !registry_well_formed(feeds@),
            r == Err::<Registry, ConfigError>(ConfigError::NoFeeds) <==> feeds@.len() == 0,
            r matches Err(e) && e == ConfigError::ZeroInterval ==> (exists|i: int|
                0 <= i < feeds@.len() && #[trigger] feeds@[i].interval < 1),
            r matches Err(e) && e == ConfigError::DuplicateUrl ==> (exists|i: int, j: int|
                0 <= i < j < feeds@.len()
                && #[trigger] feeds@[i].url@ == #[trigger] feeds@[j].url@),
    {
        let n = feeds.len();
        if n == 0 {
            return Err(ConfigError::NoFeeds);
        }
        let mut i: usize = 0;
        while i < n
            invariant
                n == feeds@.len(),
                i <= n,
                forall|k: int| 0 <= k < i ==> #[trigger] feeds@[k].interval >= 1,
            decreases n - i,
        {
            if feeds[i].interval < 1 {
                return Err(ConfigError::ZeroInterval);
            }
            i += 1;
        }
        let mut a: usize = 0;
        while a < n
            invariant
                n == feeds@.len(),
                a <= n,
                forall|k: int| 0 <= k < n ==> #[trigger] feeds@[k].interval >= 1,
                forall|p: int, q: int|
                    0 <= p < q < n && p < a ==> #[trigger] feeds@[p].url@ != #[trigger] feeds@[q].url@,
            decreases n - a,
        {
            let mut b: usize = a + 1;
            while b < n
                invariant
                    n == feeds@.len(),
                    a < n,
                    a < b,
                    forall|p: int, q: int|
                        0 <= p < q < n && p < a ==> #[trigger] feeds@[p].url@ != #[trigger] feeds@[q].url@,
                    forall|q: int| a < q < b ==> feeds@[a as int].url@ != #[trigger] feeds@[q].url@,
                decreases n - b,
            {
                if feeds[a].url == feeds[b].url {
                    return Err(ConfigError::DuplicateUrl);
                }
                b += 1;
            }
            a += 1;
        }
        Ok(Registry { feeds })
    }

    /// The number of configured feeds.
    pub fn len(&self) -> (n: usize)
        ensures
            n == self@.len(),
    {
        self.feeds.len()
    }

    /// The feed at `index`, in configured order.
    pub fn get(&self, index: usize) -> (f: &Feed)
        requires
            index < self@.len(),
        ensures
            *f == self@[index as int],
    {
        &self.feeds[index]
    }

    /// The indices of every due feed, in configured order: sound (each returned
    /// feed is due), complete (every due feed is returned), strictly increasing.
    pub fn due_feeds(&self, now: u64) -> (r: Vec<usize>)
        ensures
            forall|a: int, b: int| 0 <= a < b < r@.len() ==> r@[a] < r@[b],
            forall|a: int|
                0 <= a < r@.len() ==> r@[a] < self@.len() && feed_is_due(
                    self@[#[trigger] r@[a] as int],
                    now,
                ),
            forall|i: usize|
                i < self@.len() && feed_is_due(self@[i as int], now) ==> #[trigger] r@.contains(i),
    {
        let n = self.feeds.len();
        let mut r: Vec<usize> = Vec::new();
        let mut i: usize = 0;
        while i < n
            invariant
                n == self@.len(),
                i <= n,
                forall|a: int, b: int| 0 <= a < b < r@.len() ==> r@[a] < r@[b],
                forall|a: int|
                    0 <= a < r@.len() ==> r@[a] < i && feed_is_due(
                        self@[#[trigger] r@[a] as int],
                        now,
                    ),
                forall|k: usize|
                    k < i && feed_is_due(self@[k as int], now) ==> #[trigger] r@.contains(k),
            decreases n - i,
        {
            let f = &self.feeds[i];
            let due = match f.updated_at {
                Option::None => true,
                Option::Some(t) => t < now && now - t > f.interval,
            };
            if due {
                let ghost prior = r@;
                r.push(i);
                proof {
                    assert forall|k: usize| k <= i && feed_is_due(self@[k as int], now) implies r@.contains(
                        k,
                    ) by {
                        if k < i {
                            assert(prior.contains(k));
                            let a = choose|a: int| 0 <= a < prior.len() && prior[a] == k;
                            assert(r@[a] == k);
                        } else {
                            assert(r@[r@.len() - 1] == i);
                        }
                    }
                }
            }
            i += 1;
        }
        r
    }

    /// Stamps the feed at `index` as refreshed at `at`, whatever the refresh
    /// pass found: a failed attempt consumes the interval window too. Every
    /// other field and every other feed is left as it was.
    pub fn mark_refreshed(&mut self, index: usize, at: u64)
        requires
            index < old(self)@.len(),
        ensures
            final(self)@ == old(self)@.update(
                index as int,
                (Feed { updated_at: Some(at), ..old(self)@[index as int] }),
            ),
    {
        self.feeds[index].updated_at = Some(at);
    }
}

/// Cold start: a feed whose `updated_at` is absent is due at every instant,
/// so `due_feeds` includes it whatever `now` is.
pub proof fn lemma_cold_start_due(feeds: Seq<Feed>, now: u64, i: int)
    requires
        0 <= i < feeds.len(),
        feeds[i].updated_at is None,
    ensures
        feed_is_due(feeds[i], now),
{
}

/// Refresh window: once a feed is stamped as refreshed at `t`, it stays out
/// of the due set exactly until more than `interval` seconds have passed.
pub proof fn lemma_refresh_window(f: Feed, t: u64, now: u64)
    ensures
        ({
            let stamped = (Feed { updated_at: Some(t), ..f });
            feed_is_due(stamped, now) <==> now - t > f.interval
        }),
{
}

/// The registry form of the refresh window: after `mark_refreshed` stamps
/// feed `i` with `t`, that feed is due at `now` if and only if more than its
/// interval has passed since `t`; no other feed's due state moves.
pub proof fn lemma_marked_due_iff(feeds: Seq<Feed>, i: int, t: u64, now: u64)
    requires
        0 <= i < feeds.len(),
    ensures
        ({
            let stamped = feeds.update(i, (Feed { updated_at: Some(t), ..feeds[i] }));
            &&& (feed_is_due(stamped[i], now) <==> now - t > feeds[i].interval)
            &&& forall|j: int|
                0 <= j < feeds.len() && j != i ==> (feed_is_due(#[trigger] stamped[j], now)
                    <==> feed_is_due(feeds[j], now))
        }),
{
}

} // verus!
