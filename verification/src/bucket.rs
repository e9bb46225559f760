use vstd::prelude::*;

verus! {

/// A bounded sliding window of counting buckets at one fixed granularity.
///
/// A `BucketSet` starts with a single zero-valued bucket and no anchored
/// start time.  Once a start time is anchored, advancing the window far
/// enough appends fresh zero-valued buckets, evicting the oldest bucket
/// whenever the window would exceed `max_buckets`.  The last bucket is the
/// "current" one, the only bucket that `increment_value` and
/// `set_bucket_value` touch.  Times are instants in nanoseconds since the
/// Unix epoch; durations are a positive number of nanoseconds.
pub struct BucketSet {
    /// Start time of the current (last) bucket; `None` until anchored.
    pub bucket_time: Option<i64>,
    /// Derived: `bucket_duration * max_buckets`; never independently mutated.
    pub total_duration: i128,
    /// Width of one bucket, in nanoseconds.
    pub bucket_duration: i64,
    /// Bound on the number of retained buckets.
    pub max_buckets: usize,
    /// The window itself; the last element is the current bucket.
    pub buckets: Vec<u64>,
}

/// The window after one bucket boundary is crossed: a fresh zero bucket is
/// appended and, if the window would exceed `max`, the oldest bucket leaves.
pub open spec fn push_evict(bs: Seq<u64>, max: int) -> Seq<u64> {
    let grown = bs.push(0u64);
    if grown.len() > max {
        grown.drop_first()
    } else {
        grown
    }
}

/// Anchor and window after advancing to time `t`: while one whole bucket
/// duration fits between the anchor and `t`, the anchor moves forward by one
/// duration and the window rotates by `push_evict`.
pub open spec fn advance_state(anchor: int, dur: int, max: int, bs: Seq<u64>, t: int) -> (int, Seq<
    u64,
>)
    decreases t - anchor,
{
    if dur > 0 && anchor + dur <= t {
        advance_state(anchor + dur, dur, max, push_evict(bs, max), t)
    } else {
        (anchor, bs)
    }
}

/// Saturating increment, the arithmetic used on bucket values and counters.
pub open spec fn inc_sat(v: u64) -> u64 {
    if v == u64::MAX {
        v
    } else {
        (v + 1) as u64
    }
}

/// How a `BucketSet` advanced to time `t` relates to its previous state:
/// configuration unchanged; an unanchored window anchors at `t` without
/// touching the buckets; an anchored window rotates per `advance_state`.
pub open spec fn advanced_rel(pre: BucketSet, post: BucketSet, t: i64) -> bool {
    &&& post.bucket_duration == pre.bucket_duration
    &&& post.max_buckets == pre.max_buckets
    &&& post.total_duration == pre.total_duration
    &&& match pre.bucket_time {
        None => post.bucket_time == Some(t) && post.buckets@ == pre.buckets@,
        Some(a) => {
            let st = advance_state(
                a as int,
                pre.bucket_duration as int,
                pre.max_buckets as int,
                pre.buckets@,
                t as int,
            );
            &&& post.bucket_time matches Some(a2) && a2 == st.0
            &&& post.buckets@ == st.1
        },
    }
}

/// How a `BucketSet` whose current bucket was incremented relates to its
/// previous state: everything unchanged but the last bucket, which grew by
/// one (saturating).
pub open spec fn incremented_rel(pre: BucketSet, post: BucketSet) -> bool {
    &&& post.bucket_duration == pre.bucket_duration
    &&& post.max_buckets == pre.max_buckets
    &&& post.total_duration == pre.total_duration
    &&& post.bucket_time == pre.bucket_time
    &&& post.buckets@ == pre.buckets@.update(pre.buckets@.len() - 1, inc_sat(pre.buckets@.last()))
}

/// Law: advancing keeps the window within its bound.  Starting from a
/// window holding between 1 and `max` buckets, the window after any
/// `advance_state` still holds between 1 and `max` buckets, whatever the
/// target time; so `len(buckets) <= max_buckets` holds after any sequence
/// of `advance_to` calls.
pub proof fn lemma_advance_len_bounded(anchor: int, dur: int, max: int, bs: Seq<u64>, t: int)
    requires
        1 <= bs.len() <= max,
    ensures
        1 <= advance_state(anchor, dur, max, bs, t).1.len() <= max,
    decreases t - anchor,
{
    if dur > 0 && anchor + dur <= t {
        lemma_advance_len_bounded(anchor + dur, dur, max, push_evict(bs, max), t);
    }
}

/// Law: a target time before the end of the current bucket — in particular
/// any time at or before the anchor itself — neither removes nor mutates
/// existing buckets: the advance is the identity.
pub proof fn lemma_advance_before_end(anchor: int, dur: int, max: int, bs: Seq<u64>, t: int)
    requires
        t < anchor + dur,
    ensures
        advance_state(anchor, dur, max, bs, t) == (anchor, bs),
{
}

/// After any advance the new anchor's bucket reaches past the target time.
pub proof fn lemma_advance_exit(anchor: int, dur: int, max: int, bs: Seq<u64>, t: int)
    requires
        dur > 0,
    ensures
        advance_state(anchor, dur, max, bs, t).0 + dur > t,
    decreases t - anchor,
{
    if anchor + dur <= t {
        lemma_advance_exit(anchor + dur, dur, max, push_evict(bs, max), t);
    }
}

/// Law: advancing a second time with the same or an earlier time is the
/// identity: it creates no bucket and changes no value beyond the first
/// advance.
pub proof fn lemma_advance_nonincreasing(
    anchor: int,
    dur: int,
    max: int,
    bs: Seq<u64>,
    t: int,
    t2: int,
)
    requires
        dur > 0,
        t2 <= t,
    ensures
        ({
            let st = advance_state(anchor, dur, max, bs, t);
            advance_state(st.0, dur, max, st.1, t2) == st
        }),
{
    let st = advance_state(anchor, dur, max, bs, t);
    lemma_advance_exit(anchor, dur, max, bs, t);
    lemma_advance_before_end(st.0, dur, max, st.1, t2);
}

/// Law: advancing a whole `BucketSet` twice in a row to the same time makes
/// the second advance a no-op, whether or not the set was anchored before.
pub proof fn lemma_advance_to_idempotent(pre: BucketSet, mid: BucketSet, post: BucketSet, t: i64)
    requires
        pre.wf(),
        advanced_rel(pre, mid, t),
        advanced_rel(mid, post, t),
    ensures
        post.bucket_time == mid.bucket_time,
        post.buckets@ == mid.buckets@,
{
    let dur = pre.bucket_duration as int;
    let max = pre.max_buckets as int;
    match pre.bucket_time {
        None => {
            lemma_advance_before_end(t as int, dur, max, mid.buckets@, t as int);
        },
        Some(a) => {
            lemma_advance_nonincreasing(a as int, dur, max, pre.buckets@, t as int, t as int);
        },
    }
}

impl BucketSet {
    /// Internal consistency: positive duration, at least one bucket, never
    /// more than `max_buckets`, and `total_duration` is the derived product.
    pub open spec fn wf(&self) -> bool {
        &&& self.bucket_duration > 0
        &&& self.max_buckets >= 1
        &&& 1 <= self.buckets@.len() <= self.max_buckets
        &&& self.total_duration == self.bucket_duration as int * self.max_buckets as int
    }

    pub fn new(bucket_duration: i64, max_buckets: usize) -> (r: BucketSet)
        requires
            bucket_duration > 0,
            max_buckets >= 1,
        ensures
            r.wf(),
            r.bucket_time is None,
            r.bucket_duration == bucket_duration,
            r.max_buckets == max_buckets,
            r.buckets@ == seq![0u64],
    {
        proof {
            assert((bucket_duration as i128) * (max_buckets as i128) <= i128::MAX && (
            bucket_duration as i128) * (max_buckets as i128) >= 0) by (nonlinear_arith)
                requires
                    0 < bucket_duration <= i64::MAX,
                    0 < max_buckets <= u64::MAX,
            ;
        }
        let mut buckets: Vec<u64> = Vec::new();
        buckets.push(0);
        let r = BucketSet {
            bucket_time: None,
            total_duration: (bucket_duration as i128) * (max_buckets as i128),
            bucket_duration,
            max_buckets,
            buckets,
        };
        proof {
            assert(r.buckets@ =~= seq![0u64]);
        }
        r
    }

    /// Advance the window to `new_time`.  An unanchored window merely anchors
    /// there; an anchored one appends one zero bucket per whole bucket
    /// duration between the anchor and `new_time`, evicting the oldest bucket
    /// beyond `max_buckets`.  A `new_time` at or before the current anchor's
    /// bucket end changes nothing.
    pub fn advance_to(&mut self, new_time: i64)
        requires
            old(self).wf(),
        ensures
            final(self).wf(),
            advanced_rel(*old(self), *final(self), new_time),
    {
        match self.bucket_time {
            None => {
                self.bucket_time = Some(new_time);
            },
            Some(anchor0) => {
                let ghost dur = self.bucket_duration as int;
                let ghost max = self.max_buckets as int;
                let ghost st0 = advance_state(
                    anchor0 as int,
                    dur,
                    max,
                    old(self).buckets@,
                    new_time as int,
                );
                let mut anchor = anchor0;
                while (anchor as i128) + (self.bucket_duration as i128) <= (new_time as i128)
                    invariant
                        self.wf(),
                        dur == self.bucket_duration as int,
                        max == self.max_buckets as int,
                        self.bucket_duration == old(self).bucket_duration,
                        self.max_buckets == old(self).max_buckets,
                        self.total_duration == old(self).total_duration,
                        self.bucket_time == old(self).bucket_time,
                        advance_state(anchor as int, dur, max, self.buckets@, new_time as int)
                            == st0,
                    decreases new_time as int - anchor as int,
                {
                    let ghost prev_anchor = anchor as int;
                    let ghost prev_buckets = self.buckets@;
                    assert(i64::MIN <= prev_anchor + dur <= i64::MAX);
                    let next_time: i64 = ((anchor as i128) + (self.bucket_duration as i128)) as i64;
                    anchor = next_time;
                    self.buckets.push(0);
                    if self.buckets.len() > self.max_buckets {
                        self.buckets.remove(0);
                    }
                    proof {
                        assert(self.buckets@ =~= push_evict(prev_buckets, max));
                        assert(advance_state(prev_anchor, dur, max, prev_buckets, new_time as int)
                            == advance_state(
                            prev_anchor + dur,
                            dur,
                            max,
                            push_evict(prev_buckets, max),
                            new_time as int,
                        ));
                    }
                }
                self.bucket_time = Some(anchor);
            },
        }
    }

    /// Overwrite the current (last) bucket with an absolute value.
    pub fn set_bucket_value(&mut self, value: u64)
        requires
            old(self).wf(),
        ensures
            final(self).wf(),
            final(self).bucket_time == old(self).bucket_time,
            final(self).bucket_duration == old(self).bucket_duration,
            final(self).max_buckets == old(self).max_buckets,
            final(self).total_duration == old(self).total_duration,
            final(self).buckets@ == old(self).buckets@.update(old(self).buckets@.len() - 1, value),
    {
        let index = self.buckets.len() - 1;
        self.buckets[index] = value;
    }

    /// Add one to the current (last) bucket, saturating at `u64::MAX`.
    pub fn increment_value(&mut self)
        requires
            old(self).wf(),
        ensures
            final(self).wf(),
            incremented_rel(*old(self), *final(self)),
    {
        let index = self.buckets.len() - 1;
        let v = self.buckets[index];
        if v < u64::MAX {
            self.buckets[index] = v + 1;
        }
        proof {
            if v == u64::MAX {
                assert(self.buckets@ =~= old(self).buckets@.update(
                    old(self).buckets@.len() - 1,
                    inc_sat(old(self).buckets@.last()),
                ));
            }
        }
    }

    /// Read access to the ordered bucket sequence, oldest first.
    pub fn buckets(&self) -> (r: &Vec<u64>)
        ensures
            r@ == self.buckets@,
    {
        &self.buckets
    }

    /// Mutable access to the ordered bucket sequence.  What the caller
    /// writes through the borrow becomes the window's content; the
    /// configuration fields stay as they were.
    pub fn buckets_mut(&mut self) -> (r: &mut Vec<u64>)
        ensures
            *r == old(self).buckets,
            final(self).bucket_time == old(self).bucket_time,
            final(self).bucket_duration == old(self).bucket_duration,
            final(self).max_buckets == old(self).max_buckets,
            final(self).total_duration == old(self).total_duration,
            final(self).buckets == *final(r),
    {
        &mut self.buckets
    }
}

} // verus!
