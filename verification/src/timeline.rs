use vstd::prelude::*;

use crate::bucket::{advanced_rel, incremented_rel, BucketSet};

verus! {

/// Nanoseconds in one minute.
pub const NANOS_PER_MINUTE: i64 = 60_000_000_000;

/// Nanoseconds in one hour.
pub const NANOS_PER_HOUR: i64 = 3_600_000_000_000;

/// Nanoseconds in one day.
pub const NANOS_PER_DAY: i64 = 86_400_000_000_000;

/// Nanoseconds in one twelfth of a year, approximated as 30 days.
pub const NANOS_PER_TWELFTH_YEAR: i64 = 2_592_000_000_000_000;

/// Nanoseconds in one year of 365 days.
pub const NANOS_PER_YEAR: i64 = 31_536_000_000_000_000;

/// The closed set of time granularities a timeline records.
#[derive(Clone, Copy, PartialEq, Eq, Structural, Debug)]
pub enum Granularity {
    Minute,
    Hour,
    Day,
    TwelfthYear,
    Year,
}

/// A named group of `BucketSet`s, one per granularity, advanced with the
/// same event timestamps and incremented together.
pub struct TimelineSet {
    pub name: String,
    pub bucket_sets: Vec<(Granularity, BucketSet)>,
}

/// First position holding granularity `g`, scanning from index `i`.
pub open spec fn index_of_from(s: Seq<(Granularity, BucketSet)>, g: Granularity, i: int) -> Option<
    int,
>
    decreases s.len() - i,
{
    if i < 0 || i >= s.len() {
        None
    } else if s[i].0 == g {
        Some(i)
    } else {
        index_of_from(s, g, i + 1)
    }
}

/// First position holding granularity `g`, if any.
pub open spec fn index_of(s: Seq<(Granularity, BucketSet)>, g: Granularity) -> Option<int> {
    index_of_from(s, g, 0)
}

/// All bucket sets of `post` are those of `pre` advanced to time `t`, with
/// the granularity labels kept in place.
pub open spec fn advanced_all_rel(pre: TimelineSet, post: TimelineSet, t: i64) -> bool {
    &&& post.name == pre.name
    &&& post.bucket_sets@.len() == pre.bucket_sets@.len()
    &&& forall|i: int|
        0 <= i < pre.bucket_sets@.len() ==> (#[trigger] post.bucket_sets@[i]).0
            == pre.bucket_sets@[i].0 && advanced_rel(
            pre.bucket_sets@[i].1,
            post.bucket_sets@[i].1,
            t,
        )
}

/// All bucket sets of `post` are those of `pre` with the current bucket
/// incremented, the granularity labels kept in place.
pub open spec fn incremented_all_rel(pre: TimelineSet, post: TimelineSet) -> bool {
    &&& post.name == pre.name
    &&& post.bucket_sets@.len() == pre.bucket_sets@.len()
    &&& forall|i: int|
        0 <= i < pre.bucket_sets@.len() ==> (#[trigger] post.bucket_sets@[i]).0
            == pre.bucket_sets@[i].0 && incremented_rel(
            pre.bucket_sets@[i].1,
            post.bucket_sets@[i].1,
        )
}

impl TimelineSet {
    /// Internal consistency: every bucket set is well formed and no
    /// granularity occurs twice.
    pub open spec fn wf(&self) -> bool {
        &&& forall|i: int|
            0 <= i < self.bucket_sets@.len() ==> (#[trigger] self.bucket_sets@[i]).1.wf()
        &&& forall|i: int, j: int|
            0 <= i < j < self.bucket_sets@.len() ==> (#[trigger] self.bucket_sets@[i].0) != (
            #[trigger] self.bucket_sets@[j].0)
    }

    pub fn new(name: String) -> (r: TimelineSet)
        ensures
            r.wf(),
            r.name == name,
            r.bucket_sets@.len() == 0,
    {
        TimelineSet { name, bucket_sets: Vec::new() }
    }

    pub fn get_name(&self) -> (r: &String)
        ensures
            r == &self.name,
    {
        &self.name
    }

    /// Add a fresh bucket set for granularity `name`, replacing any bucket
    /// set that granularity already had.
    pub fn add_bucket_set(&mut self, name: Granularity, duration: i64, max_buckets: usize)
        requires
            old(self).wf(),
            duration > 0,
            max_buckets >= 1,
        ensures
            final(self).wf(),
            final(self).name == old(self).name,
            ({
                let obs = old(self).bucket_sets@;
                let nbs = final(self).bucket_sets@;
                match index_of(obs, name) {
                    None => {
                        &&& nbs.len() == obs.len() + 1
                        &&& nbs.subrange(0, obs.len() as int) == obs
                        &&& nbs.last().0 == name
                        &&& is_fresh_bucket_set(nbs.last().1, duration, max_buckets)
                    },
                    Some(i) => {
                        &&& nbs.len() == obs.len()
                        &&& forall|j: int| 0 <= j < obs.len() && j != i ==> nbs[j] == obs[j]
                        &&& nbs[i].0 == name
                        &&& is_fresh_bucket_set(nbs[i].1, duration, max_buckets)
                    },
                }
            }),
    {
        let fresh = BucketSet::new(duration, max_buckets);
        let n = self.bucket_sets.len();
        let mut idx: usize = 0;
        while idx < n
            invariant
                old(self).wf(),
                *self == *old(self),
                is_fresh_bucket_set(fresh, duration, max_buckets),
                n == self.bucket_sets@.len(),
                0 <= idx <= n,
                forall|j: int| 0 <= j < idx ==> (#[trigger] self.bucket_sets@[j]).0 != name,
                index_of(self.bucket_sets@, name) == index_of_from(
                    self.bucket_sets@,
                    name,
                    idx as int,
                ),
            decreases n - idx,
        {
            if self.bucket_sets[idx].0 == name {
                self.bucket_sets[idx].1 = fresh;
                return ;
            }
            idx += 1;
        }
        self.bucket_sets.push((name, fresh));
        proof {
            assert(self.bucket_sets@.subrange(0, old(self).bucket_sets@.len() as int) =~= old(
                self,
            ).bucket_sets@);
        }
    }

    /// Read access to the bucket set of one granularity, if present.
    pub fn get_bucket_set(&self, bucket_set_name: Granularity) -> (r: Option<&BucketSet>)
        ensures
            match index_of(self.bucket_sets@, bucket_set_name) {
                None => r is None,
                Some(i) => r matches Some(b) && *b == self.bucket_sets@[i].1,
            },
    {
        let n = self.bucket_sets.len();
        let mut idx: usize = 0;
        while idx < n
            invariant
                n == self.bucket_sets@.len(),
                0 <= idx <= n,
                index_of(self.bucket_sets@, bucket_set_name) == index_of_from(
                    self.bucket_sets@,
                    bucket_set_name,
                    idx as int,
                ),
            decreases n - idx,
        {
            if self.bucket_sets[idx].0 == bucket_set_name {
                return Some(&self.bucket_sets[idx].1);
            }
            idx += 1;
        }
        None
    }

    /// Advance every bucket set to the new current time, each on its own
    /// schedule; `None` (no known time yet) leaves everything unchanged.
    pub fn update_current_time(&mut self, new_time: Option<i64>)
        requires
            old(self).wf(),
        ensures
            final(self).wf(),
            new_time is None ==> *final(self) == *old(self),
            new_time matches Some(t) ==> advanced_all_rel(*old(self), *final(self), t),
    {
        let t = match new_time {
            None => { return ; },
            Some(t) => t,
        };
        let n = self.bucket_sets.len();
        let mut idx: usize = 0;
        while idx < n
            invariant
                n == self.bucket_sets@.len(),
                n == old(self).bucket_sets@.len(),
                0 <= idx <= n,
                self.name == old(self).name,
                forall|j: int|
                    0 <= j < n ==> (#[trigger] self.bucket_sets@[j]).0
                        == old(self).bucket_sets@[j].0,
                forall|j: int|
                    0 <= j < idx ==> advanced_rel(
                        old(self).bucket_sets@[j].1,
                        (#[trigger] self.bucket_sets@[j]).1,
                        t,
                    ),
                forall|j: int|
                    idx <= j < n ==> (#[trigger] self.bucket_sets@[j]).1
                        == old(self).bucket_sets@[j].1,
                forall|j: int| 0 <= j < n ==> (#[trigger] self.bucket_sets@[j]).1.wf(),
                forall|i: int, j: int|
                    0 <= i < j < n ==> (#[trigger] self.bucket_sets@[i].0) != (
                    #[trigger] self.bucket_sets@[j].0),
            decreases n - idx,
        {
            self.bucket_sets[idx].1.advance_to(t);
            idx += 1;
        }
    }

    /// Increment the current bucket of every owned bucket set.
    pub fn increment_value(&mut self)
        requires
            old(self).wf(),
        ensures
            final(self).wf(),
            incremented_all_rel(*old(self), *final(self)),
    {
        let n = self.bucket_sets.len();
        let mut idx: usize = 0;
        while idx < n
            invariant
                n == self.bucket_sets@.len(),
                n == old(self).bucket_sets@.len(),
                0 <= idx <= n,
                self.name == old(self).name,
                forall|j: int|
                    0 <= j < n ==> (#[trigger] self.bucket_sets@[j]).0
                        == old(self).bucket_sets@[j].0,
                forall|j: int|
                    0 <= j < idx ==> incremented_rel(
                        old(self).bucket_sets@[j].1,
                        (#[trigger] self.bucket_sets@[j]).1,
                    ),
                forall|j: int|
                    idx <= j < n ==> (#[trigger] self.bucket_sets@[j]).1
                        == old(self).bucket_sets@[j].1,
                forall|j: int| 0 <= j < n ==> (#[trigger] self.bucket_sets@[j]).1.wf(),
                forall|i: int, j: int|
                    0 <= i < j < n ==> (#[trigger] self.bucket_sets@[i].0) != (
                    #[trigger] self.bucket_sets@[j].0),
            decreases n - idx,
        {
            self.bucket_sets[idx].1.increment_value();
            idx += 1;
        }
    }
}

/// A bucket set just built for one granularity: unanchored, the given
/// configuration, and a single zero bucket.
pub open spec fn is_fresh_bucket_set(b: BucketSet, duration: i64, max_buckets: usize) -> bool {
    &&& b.wf()
    &&& b.bucket_time is None
    &&& b.bucket_duration == duration
    &&& b.max_buckets == max_buckets
    &&& b.buckets@ == seq![0u64]
}

/// Law: advancing a `TimelineSet` twice in a row to the same timestamp
/// produces no additional bucket creation or value change beyond the first
/// advance: every bucket set keeps its anchor and its bucket values.
pub proof fn lemma_timeline_advance_idempotent(
    pre: TimelineSet,
    mid: TimelineSet,
    post: TimelineSet,
    t: i64,
)
    requires
        pre.wf(),
        advanced_all_rel(pre, mid, t),
        advanced_all_rel(mid, post, t),
    ensures
        forall|i: int|
            0 <= i < pre.bucket_sets@.len() ==> (#[trigger] post.bucket_sets@[i]).1.bucket_time
                == mid.bucket_sets@[i].1.bucket_time && post.bucket_sets@[i].1.buckets@
                == mid.bucket_sets@[i].1.buckets@,
{
    assert forall|i: int| 0 <= i < pre.bucket_sets@.len() implies (#[trigger] post.bucket_sets@[i]).1.bucket_time
        == mid.bucket_sets@[i].1.bucket_time && post.bucket_sets@[i].1.buckets@
        == mid.bucket_sets@[i].1.buckets@ by {
        crate::bucket::lemma_advance_to_idempotent(
            pre.bucket_sets@[i].1,
            mid.bucket_sets@[i].1,
            post.bucket_sets@[i].1,
            t,
        );
    }
}

} // verus!
