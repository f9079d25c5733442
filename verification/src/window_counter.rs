//! A fixed-bucket rolling counter that approximates the sum of signed integer
//! events over a trailing time window.
//!
//! The window is divided into [`NUM_BUCKETS`] buckets. Expiry is entirely
//! pull-based: every operation first advances the active bucket to the
//! present, zeroing the buckets whose time span has passed, so the counter
//! never needs a background timer and never retains unbounded history. A
//! bucket's contents persist until it is reused, so the true window covered
//! lies between `(NUM_BUCKETS - 1)` and `NUM_BUCKETS` bucket durations.
//!
//! All logic is verified over explicit millisecond timestamps (the `_at`
//! methods); [`WindowedCounter::add`], [`WindowedCounter::total`] and
//! [`WindowedCounter::clear`] obtain the timestamp from the clock and are
//! therefore specified for every possible clock reading.

use vstd::prelude::*;

verus! {

/// How many buckets a window is divided into.
pub const NUM_BUCKETS: usize = 8;

/// The mathematical state of a [`WindowedCounter`]: the bucket contents, the
/// per-bucket duration, the time the active bucket started, and which bucket
/// is active.
#[verifier::ext_equal]
pub ghost struct CounterView {
    pub buckets: Seq<i64>,
    pub bucket_ms: int,
    pub epoch_ms: int,
    pub active: int,
}

impl CounterView {
    /// Well-formedness: exactly [`NUM_BUCKETS`] buckets, a positive bucket
    /// duration, and every scalar within its machine range.
    pub open spec fn wf(self) -> bool {
        &&& self.buckets.len() == NUM_BUCKETS
        &&& 0 <= self.active < NUM_BUCKETS as int
        &&& 1 <= self.bucket_ms <= u64::MAX as int
        &&& 0 <= self.epoch_ms <= u64::MAX as int
    }
}

/// Clamps an unbounded integer into the `i64` range (saturation).
pub open spec fn clamp_i64(x: int) -> int {
    if x > i64::MAX as int {
        i64::MAX as int
    } else if x < i64::MIN as int {
        i64::MIN as int
    } else {
        x
    }
}

/// The sum, as an unbounded integer, of a sequence of buckets.
pub open spec fn sum_seq(s: Seq<i64>) -> int
    decreases s.len(),
{
    if s.len() == 0 {
        0
    } else {
        sum_seq(s.drop_last()) + s.last()
    }
}

/// `s` with the `count` elements starting at `start` replaced by zero.
pub open spec fn zero_range(s: Seq<i64>, start: int, count: int) -> Seq<i64> {
    Seq::new(s.len(), |i: int| if start <= i < start + count { 0i64 } else { s[i] })
}

/// Milliseconds elapsed since the active bucket started; a clock reading
/// before the epoch counts as no time passed.
pub open spec fn spec_elapsed(v: CounterView, now: int) -> int {
    if now >= v.epoch_ms {
        now - v.epoch_ms
    } else {
        0
    }
}

/// The bucket-advance step: if less than one bucket duration has elapsed the
/// state is unchanged; otherwise the cursor moves one bucket ahead, every
/// bucket skipped entirely is zeroed (clamped to [`NUM_BUCKETS`]; the wrap
/// around the buffer boundary is the two contiguous zero-fills), the new
/// active bucket is zeroed, and the epoch is re-anchored to `now`.
pub open spec fn spec_advance(v: CounterView, now: int) -> CounterView {
    let elapsed = spec_elapsed(v, now);
    if elapsed < v.bucket_ms {
        v
    } else {
        let n = NUM_BUCKETS as int;
        let b1 = (v.active + 1) % n;
        let q = elapsed / v.bucket_ms;
        let skipped = if q - 1 >= n {
            n
        } else {
            q - 1
        };
        let right = if skipped <= n - b1 {
            skipped
        } else {
            n - b1
        };
        let left = skipped - right;
        let b2 = (b1 + skipped) % n;
        CounterView {
            buckets: zero_range(zero_range(v.buckets, b1, right), 0, left).update(b2, 0i64),
            bucket_ms: v.bucket_ms,
            epoch_ms: now,
            active: b2,
        }
    }
}

/// What `add` does to the state: advance, then add `amount` into the active
/// bucket, saturating at the `i64` bounds.
pub open spec fn spec_add(v: CounterView, now: int, amount: int) -> CounterView {
    let w = spec_advance(v, now);
    CounterView {
        buckets: w.buckets.update(w.active, clamp_i64(w.buckets[w.active] + amount) as i64),
        bucket_ms: w.bucket_ms,
        epoch_ms: w.epoch_ms,
        active: w.active,
    }
}

/// What `total` returns: advance, then the saturating sum of all buckets.
pub open spec fn spec_total(v: CounterView, now: int) -> int {
    clamp_i64(sum_seq(spec_advance(v, now).buckets))
}

/// What `clear` does to the state: every bucket zeroed and the epoch
/// re-anchored to `now`; the cursor stays where it was.
pub open spec fn spec_clear(v: CounterView, now: int) -> CounterView {
    CounterView {
        buckets: Seq::new(v.buckets.len(), |i: int| 0i64),
        bucket_ms: v.bucket_ms,
        epoch_ms: now,
        active: v.active,
    }
}

/// A rolling counter over a trailing time window.
#[derive(Debug)]
pub struct WindowedCounter {
    /// The bucket contents.
    pub buckets: Vec<i64>,
    /// The duration of one bucket, in milliseconds.
    pub bucket_ms: u64,
    /// When the active bucket started, in milliseconds on the caller's
    /// timeline (for the self-clocked methods: since `origin`).
    pub epoch_ms: u64,
    /// Which bucket is active.
    pub bucket: usize,
    /// The clock anchor used by the self-clocked methods.
    pub origin: tokio::time::Instant,
}

impl View for WindowedCounter {
    type V = CounterView;

    open spec fn view(&self) -> CounterView {
        CounterView {
            buckets: self.buckets@,
            bucket_ms: self.bucket_ms as int,
            epoch_ms: self.epoch_ms as int,
            active: self.bucket as int,
        }
    }
}

/// Zeroes `count` elements of `buckets` starting at `start`.
fn zero_fill(buckets: &mut Vec<i64>, start: usize, count: usize)
    requires
        start + count <= old(buckets)@.len(),
    ensures
        final(buckets)@ == zero_range(old(buckets)@, start as int, count as int),
{
    let ghost orig = buckets@;
    let n: usize = buckets.len();
    let end: usize = start + count;
    let mut i: usize = start;
    while i < end
        invariant
            start <= i <= end,
            end == start + count,
            end <= n,
            n == buckets@.len(),
            buckets@.len() == orig.len(),
            forall|j: int|
                0 <= j < buckets@.len() ==> buckets@[j] == (if start <= j < i {
                    0i64
                } else {
                    orig[j]
                }),
        decreases start + count - i,
    {
        buckets[i] = 0;
        i = i + 1;
    }
    proof {
        assert(buckets@ =~= zero_range(orig, start as int, count as int));
    }
}

/// Adds two `i64` values, saturating at the `i64` bounds.
fn saturating_add_i64(a: i64, b: i64) -> (r: i64)
    ensures
        r as int == clamp_i64(a + b),
{
    let wide: i128 = a as i128 + b as i128;
    if wide > i64::MAX as i128 {
        i64::MAX
    } else if wide < i64::MIN as i128 {
        i64::MIN
    } else {
        wide as i64
    }
}

impl WindowedCounter {
    /// Well-formedness of the counter.
    pub open spec fn wf(&self) -> bool {
        self@.wf()
    }

    /// Returns a counter over a window of `window_ms` milliseconds, starting
    /// empty at time zero of the caller's timeline. The window must give each
    /// of the [`NUM_BUCKETS`] buckets at least one millisecond.
    pub fn new(window_ms: u64) -> (c: WindowedCounter)
        requires
            window_ms >= NUM_BUCKETS as u64,
        ensures
            c.wf(),
            c@.bucket_ms == window_ms as int / NUM_BUCKETS as int,
            c@.epoch_ms == 0,
            c@.active == 0,
            forall|i: int| 0 <= i < NUM_BUCKETS as int ==> c@.buckets[i] == 0i64,
    {
        let mut buckets: Vec<i64> = Vec::new();
        let mut i: usize = 0;
        while i < NUM_BUCKETS
            invariant
                i == buckets@.len(),
                i <= NUM_BUCKETS,
                forall|j: int| 0 <= j < i ==> buckets@[j] == 0i64,
            decreases NUM_BUCKETS - i,
        {
            buckets.push(0);
            i = i + 1;
        }
        let bucket_ms: u64 = window_ms / (NUM_BUCKETS as u64);
        proof {
            vstd::arithmetic::div_mod::lemma_div_is_ordered(
                NUM_BUCKETS as int,
                window_ms as int,
                NUM_BUCKETS as int,
            );
        }
        WindowedCounter { buckets, bucket_ms, epoch_ms: 0, bucket: 0, origin: crate::clock::instant_now() }
    }

    /// Advances the active bucket to `now_ms`, zeroing expired buckets.
    fn advance_at(&mut self, now_ms: u64)
        requires
            old(self).wf(),
        ensures
            final(self).wf(),
            final(self)@ == spec_advance(old(self)@, now_ms as int),
    {
        let elapsed: u64 = if now_ms >= self.epoch_ms {
            now_ms - self.epoch_ms
        } else {
            0
        };
        if elapsed < self.bucket_ms {
            return;
        }
        let start: usize = (self.bucket + 1) % NUM_BUCKETS;
        let q: u64 = elapsed / self.bucket_ms;
        proof {
            vstd::arithmetic::div_mod::lemma_div_is_ordered(
                self.bucket_ms as int,
                elapsed as int,
                self.bucket_ms as int,
            );
            vstd::arithmetic::div_mod::lemma_div_by_self(self.bucket_ms as int);
        }
        let skipped: usize = if q - 1 >= NUM_BUCKETS as u64 {
            NUM_BUCKETS
        } else {
            (q - 1) as usize
        };
        let right: usize = if skipped <= NUM_BUCKETS - start {
            skipped
        } else {
            NUM_BUCKETS - start
        };
        let left: usize = skipped - right;
        zero_fill(&mut self.buckets, start, right);
        zero_fill(&mut self.buckets, 0, left);
        let b2: usize = (start + skipped) % NUM_BUCKETS;
        self.buckets[b2] = 0;
        self.bucket = b2;
        self.epoch_ms = now_ms;
        proof {
            assert(self@ =~= spec_advance(old(self)@, now_ms as int));
        }
    }

    /// Lazily advances to `now_ms`, then adds `amount` into the active
    /// bucket, saturating at the `i64` bounds.
    pub fn add_at(&mut self, now_ms: u64, amount: i64)
        requires
            old(self).wf(),
        ensures
            final(self).wf(),
            final(self)@ == spec_add(old(self)@, now_ms as int, amount as int),
    {
        self.advance_at(now_ms);
        let idx: usize = self.bucket;
        let cur: i64 = self.buckets[idx];
        let updated: i64 = saturating_add_i64(cur, amount);
        self.buckets[idx] = updated;
        proof {
            assert(self@ =~= spec_add(old(self)@, now_ms as int, amount as int));
        }
    }

    /// Lazily advances to `now_ms`, then returns the saturating sum of all
    /// buckets. Never panics on overflow; saturates at the `i64` bounds.
    pub fn total_at(&mut self, now_ms: u64) -> (total: i64)
        requires
            old(self).wf(),
        ensures
            final(self).wf(),
            final(self)@ == spec_advance(old(self)@, now_ms as int),
            total as int == spec_total(old(self)@, now_ms as int),
    {
        self.advance_at(now_ms);
        let mut acc: i128 = 0;
        let mut i: usize = 0;
        while i < NUM_BUCKETS
            invariant
                0 <= i <= NUM_BUCKETS,
                self.buckets@.len() == NUM_BUCKETS,
                acc == sum_seq(self.buckets@.take(i as int)),
                (i64::MIN as int) * (i as int) <= acc <= (i64::MAX as int) * (i as int),
            decreases NUM_BUCKETS - i,
        {
            proof {
                lemma_sum_take_step(self.buckets@, i as int);
            }
            acc = acc + self.buckets[i] as i128;
            i = i + 1;
        }
        proof {
            assert(self.buckets@.take(NUM_BUCKETS as int) =~= self.buckets@);
        }
        if acc > i64::MAX as i128 {
            i64::MAX
        } else if acc < i64::MIN as i128 {
            i64::MIN
        } else {
            acc as i64
        }
    }

    /// Zeroes all buckets and re-anchors the epoch to `now_ms`.
    pub fn clear_at(&mut self, now_ms: u64)
        requires
            old(self).wf(),
        ensures
            final(self).wf(),
            final(self)@ == spec_clear(old(self)@, now_ms as int),
    {
        zero_fill(&mut self.buckets, 0, NUM_BUCKETS);
        self.epoch_ms = now_ms;
        proof {
            assert(self@ =~= spec_clear(old(self)@, now_ms as int));
        }
    }

    /// Adds `amount` at the present time, read from the clock.
    pub fn add(&mut self, amount: i64)
        requires
            old(self).wf(),
        ensures
            final(self).wf(),
            exists|now_ms: u64| final(self)@ == spec_add(old(self)@, now_ms as int, amount as int),
    {
        let now = crate::clock::instant_now();
        let now_ms = crate::clock::millis_between(&self.origin, &now);
        self.add_at(now_ms, amount);
    }

    /// Returns the saturating sum of all buckets at the present time, read
    /// from the clock.
    pub fn total(&mut self) -> (total: i64)
        requires
            old(self).wf(),
        ensures
            final(self).wf(),
            exists|now_ms: u64|
                final(self)@ == spec_advance(old(self)@, now_ms as int) && total as int
                    == spec_total(old(self)@, now_ms as int),
    {
        let now = crate::clock::instant_now();
        let now_ms = crate::clock::millis_between(&self.origin, &now);
        self.total_at(now_ms)
    }

    /// Zeroes all buckets and re-anchors the epoch to the present time, read
    /// from the clock.
    pub fn clear(&mut self)
        requires
            old(self).wf(),
        ensures
            final(self).wf(),
            exists|now_ms: u64| final(self)@ == spec_clear(old(self)@, now_ms as int),
    {
        let now = crate::clock::instant_now();
        let now_ms = crate::clock::millis_between(&self.origin, &now);
        self.clear_at(now_ms);
    }
}

/// Adding one element to a prefix extends its sum by that element.
proof fn lemma_sum_take_step(s: Seq<i64>, i: int)
    requires
        0 <= i < s.len(),
    ensures
        sum_seq(s.take(i + 1)) == sum_seq(s.take(i)) + s[i],
{
    assert(s.take(i + 1).drop_last() =~= s.take(i));
    assert(s.take(i + 1).last() == s[i]);
}

/// An all-zero sequence sums to zero.
pub proof fn lemma_sum_all_zero(s: Seq<i64>)
    requires
        forall|i: int| 0 <= i < s.len() ==> s[i] == 0i64,
    ensures
        sum_seq(s) == 0,
    decreases s.len(),
{
    if s.len() > 0 {
        lemma_sum_all_zero(s.drop_last());
    }
}

/// Replacing one element changes the sum by the difference.
pub proof fn lemma_sum_update(s: Seq<i64>, i: int, x: i64)
    requires
        0 <= i < s.len(),
    ensures
        sum_seq(s.update(i, x)) == sum_seq(s) - s[i] + x,
    decreases s.len(),
{
    if i == s.len() - 1 {
        assert(s.update(i, x).drop_last() =~= s.drop_last());
    } else {
        lemma_sum_update(s.drop_last(), i, x);
        assert(s.update(i, x).drop_last() =~= s.drop_last().update(i, x));
        assert(s.update(i, x).last() == s.last());
    }
}

/// Law: advancing within the active bucket's duration changes nothing.
pub proof fn lemma_advance_within_bucket(v: CounterView, now: int)
    requires
        v.wf(),
        now < v.epoch_ms + v.bucket_ms,
    ensures
        spec_advance(v, now) == v,
{
}

/// Law: advancing only ever zeroes buckets, so an empty counter stays empty.
pub proof fn lemma_advance_preserves_empty(v: CounterView, now: int)
    requires
        v.wf(),
        forall|i: int| 0 <= i < NUM_BUCKETS as int ==> v.buckets[i] == 0i64,
    ensures
        forall|i: int|
            0 <= i < NUM_BUCKETS as int ==> spec_advance(v, now).buckets[i] == 0i64,
        sum_seq(spec_advance(v, now).buckets) == 0,
{
    lemma_sum_all_zero(spec_advance(v, now).buckets);
}

/// Law: advancing only ever zeroes buckets, so nonnegative buckets stay
/// nonnegative.
pub proof fn lemma_advance_preserves_nonneg(v: CounterView, now: int)
    requires
        v.wf(),
        forall|i: int| 0 <= i < NUM_BUCKETS as int ==> v.buckets[i] >= 0i64,
    ensures
        forall|i: int|
            0 <= i < NUM_BUCKETS as int ==> spec_advance(v, now).buckets[i] >= 0i64,
{
}

/// Law: once at least the full window has elapsed since the active bucket
/// started, advancing zeroes every bucket — the total decays fully, and no
/// stale bucket data leaks back in on wrap-around.
pub proof fn lemma_full_window_decay(v: CounterView, now: int)
    requires
        v.wf(),
        spec_elapsed(v, now) >= NUM_BUCKETS as int * v.bucket_ms,
    ensures
        forall|i: int|
            0 <= i < NUM_BUCKETS as int ==> spec_advance(v, now).buckets[i] == 0i64,
        spec_total(v, now) == 0,
{
    let n = NUM_BUCKETS as int;
    let elapsed = spec_elapsed(v, now);
    assert(n * v.bucket_ms == v.bucket_ms * n);
    vstd::arithmetic::div_mod::lemma_div_is_ordered(n * v.bucket_ms, elapsed, v.bucket_ms);
    vstd::arithmetic::div_mod::lemma_div_multiples_vanish(n, v.bucket_ms);
    let q = elapsed / v.bucket_ms;
    assert(q >= n);
    vstd::arithmetic::div_mod::lemma_mod_pos_bound(v.active + 1, n);
    let b1 = (v.active + 1) % n;
    let skipped = if q - 1 >= n {
        n
    } else {
        q - 1
    };
    let right = if skipped <= n - b1 {
        skipped
    } else {
        n - b1
    };
    let left = skipped - right;
    vstd::arithmetic::div_mod::lemma_mod_pos_bound(b1 + skipped, n);
    let b2 = (b1 + skipped) % n;
    let w = spec_advance(v, now);
    assert forall|i: int| 0 <= i < n implies w.buckets[i] == 0i64 by {
        if skipped == n - 1 && b1 >= 1 {
            vstd::arithmetic::div_mod::lemma_mod_add_multiples_vanish(b1 - 1, n);
            vstd::arithmetic::div_mod::lemma_small_mod((b1 - 1) as nat, n as nat);
            assert(b2 == b1 - 1);
        }
        if skipped == n - 1 && b1 == 0 {
            vstd::arithmetic::div_mod::lemma_small_mod((n - 1) as nat, n as nat);
            assert(b2 == n - 1);
        }
    }
    lemma_sum_all_zero(w.buckets);
}

/// The counter state after a sequence of timestamped `add` calls, each given
/// as `(now_ms, amount)`.
pub open spec fn spec_apply_adds(v: CounterView, calls: Seq<(u64, i64)>) -> CounterView
    decreases calls.len(),
{
    if calls.len() == 0 {
        v
    } else {
        spec_add(
            spec_apply_adds(v, calls.drop_last()),
            calls.last().0 as int,
            calls.last().1 as int,
        )
    }
}

/// The exact sum of the amounts of a sequence of `add` calls.
pub open spec fn sum_amounts(calls: Seq<(u64, i64)>) -> int
    decreases calls.len(),
{
    if calls.len() == 0 {
        0
    } else {
        sum_amounts(calls.drop_last()) + calls.last().1
    }
}

/// Law: for any sequence of `add` calls whose timestamps stay within one
/// bucket duration of the epoch, nothing expires prematurely: only the active
/// bucket changes, accumulating exactly the amounts added, and `total`
/// observed within that same bucket duration is the exact sum of the prior
/// contents plus every amount added — provided the active bucket's running
/// value never leaves the `i64` range.
pub proof fn lemma_no_premature_expiry(v: CounterView, calls: Seq<(u64, i64)>, t: int)
    requires
        v.wf(),
        forall|k: int|
            0 <= k < calls.len() ==> v.epoch_ms <= (#[trigger] calls[k]).0 < v.epoch_ms
                + v.bucket_ms,
        v.epoch_ms <= t < v.epoch_ms + v.bucket_ms,
        forall|k: int|
            0 <= k <= calls.len() ==> i64::MIN <= v.buckets[v.active] + sum_amounts(
                #[trigger] calls.take(k),
            ) <= i64::MAX,
    ensures
        spec_apply_adds(v, calls) == (CounterView {
            buckets: v.buckets.update(
                v.active,
                (v.buckets[v.active] + sum_amounts(calls)) as i64,
            ),
            bucket_ms: v.bucket_ms,
            epoch_ms: v.epoch_ms,
            active: v.active,
        }),
        spec_total(spec_apply_adds(v, calls), t) == clamp_i64(
            sum_seq(v.buckets) + sum_amounts(calls),
        ),
    decreases calls.len(),
{
    assert(calls.take(calls.len() as int) =~= calls);
    let s_all = sum_amounts(calls);
    let goal = CounterView {
        buckets: v.buckets.update(v.active, (v.buckets[v.active] + s_all) as i64),
        bucket_ms: v.bucket_ms,
        epoch_ms: v.epoch_ms,
        active: v.active,
    };
    if calls.len() == 0 {
        assert(sum_amounts(calls.take(0)) == 0);
        assert(goal.buckets =~= v.buckets);
        assert(spec_apply_adds(v, calls) =~= goal);
    } else {
        let pre = calls.drop_last();
        assert(pre =~= calls.take(calls.len() - 1));
        assert forall|k: int| 0 <= k <= pre.len() implies i64::MIN <= v.buckets[v.active]
            + sum_amounts(#[trigger] pre.take(k)) <= i64::MAX by {
            assert(pre.take(k) =~= calls.take(k));
        }
        lemma_no_premature_expiry(v, pre, t);
        let mid = spec_apply_adds(v, pre);
        let s_pre = sum_amounts(pre);
        let tau = calls.last().0 as int;
        let a = calls.last().1 as int;
        // the last call still falls inside the active bucket, so its advance
        // is a no-op
        assert(spec_advance(mid, tau) == mid) by {
            lemma_advance_within_bucket(mid, tau);
        }
        assert(mid.buckets[v.active] == (v.buckets[v.active] + s_pre) as i64);
        assert(i64::MIN <= v.buckets[v.active] + s_pre <= i64::MAX);
        assert(i64::MIN <= v.buckets[v.active] + s_all <= i64::MAX);
        assert(mid.buckets[v.active] + a == v.buckets[v.active] + s_all);
        assert(clamp_i64(mid.buckets[v.active] + a) == v.buckets[v.active] + s_all);
        assert(spec_apply_adds(v, calls).buckets =~= goal.buckets);
        assert(spec_apply_adds(v, calls) =~= goal);
    }
    // the observation at `t` is also within the active bucket
    lemma_advance_within_bucket(goal, t);
    lemma_sum_update(v.buckets, v.active, (v.buckets[v.active] + s_all) as i64);
}

} // verus!
