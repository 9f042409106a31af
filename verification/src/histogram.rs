use vstd::arithmetic::div_mod::{
    lemma_div_pos_is_pos, lemma_fundamental_div_mod_converse_div, lemma_multiply_divide_lt,
};
use vstd::prelude::*;

use crate::audit::RelayedInfo;
use crate::stats::{
    rel_in_window, spec_relayed_count, spec_relayed_volume, spec_total_relay_volume, vol_weight,
    window_pred,
};
use crate::sums::{
    count_by, lemma_count_by_bounds, lemma_count_by_take_step, lemma_elem_le_total,
    lemma_sum_by_le, lemma_sum_by_take_le, lemma_sum_by_take_step, lemma_total_update,
    lemma_total_zero, sum_by, total_u64,
};

verus! {

/// The trailing window the activity sparklines cover: one day.
pub const LINE_PERIOD: u64 = 24 * 3600;

/// Columns reserved for border rendering; a line of display width `w` has
/// `w - LINE_MARGINS` buckets.
pub const LINE_MARGINS: u16 = 2;

// ---------------------------------------------------------------------------
// Binning.
// ---------------------------------------------------------------------------

/// The bucket an in-window event falls into: with `t0 = now - window` and
/// `n` the last bucket index, `floor((ts - t0) / window * n)`, clamped to
/// `n` (timestamps beyond `now` land in the last bucket).
pub open spec fn spec_bucket_index(ts: u64, now: u64, window: u64, width: u16) -> int {
    let n = width - 3;
    let raw = (ts - (now - window)) * n / (window as int);
    if raw > n {
        n as int
    } else {
        raw
    }
}

pub open spec fn count_bucket_pred(now: u64, window: u64, width: u16, b: int) -> spec_fn(
    RelayedInfo,
) -> bool {
    |e: RelayedInfo| rel_in_window(e, now, window) && spec_bucket_index(
        e.timestamp.unix,
        now,
        window,
        width,
    ) == b
}

pub open spec fn vol_bucket_weight(now: u64, window: u64, width: u16, b: int) -> spec_fn(
    RelayedInfo,
) -> int {
    |e: RelayedInfo| if rel_in_window(e, now, window) && spec_bucket_index(
        e.timestamp.unix,
        now,
        window,
        width,
    ) == b {
        e.amount_in as int
    } else {
        0int
    }
}

/// Number of in-window events falling into bucket `b`.
pub open spec fn spec_count_bucket(
    s: Seq<RelayedInfo>,
    now: u64,
    window: u64,
    width: u16,
    b: int,
) -> int {
    count_by(s, count_bucket_pred(now, window, width, b))
}

/// Volume of in-window events falling into bucket `b`.
pub open spec fn spec_volume_bucket(
    s: Seq<RelayedInfo>,
    now: u64,
    window: u64,
    width: u16,
    b: int,
) -> int {
    sum_by(s, vol_bucket_weight(now, window, width, b))
}

/// Compute the bucket of an in-window event, in arithmetic wide enough
/// never to wrap.
fn bucket_index(ts: u64, now: u64, window: u64, width: u16) -> (r: usize)
    requires
        width >= 3,
        window >= 1,
        ts > now - window,
    ensures
        r == spec_bucket_index(ts, now, window, width),
        r <= width - 3,
{
    let n: u128 = (width - 3) as u128;
    // ts > now - window, so ts + window > now and the subtraction stays
    // in range.
    let off: u128 = (ts as u128) + (window as u128) - (now as u128);
    proof {
        vstd::arithmetic::mul::lemma_mul_upper_bound(
            off as int,
            0x2_0000_0000_0000_0000,
            n as int,
            0x1_0000,
        );
    }
    let raw: u128 = off * n / (window as u128);
    let idx: u128 = if raw > n {
        n
    } else {
        raw
    };
    idx as usize
}

/// Bin the relay events of the trailing window into `width - 2` buckets by
/// count.  The sum of all buckets equals the number of in-window events.
pub fn bin_relay_counts(relayed: &Vec<RelayedInfo>, now: u64, window: u64, width: u16) -> (r: Vec<
    u64,
>)
    requires
        width >= 3,
        window >= 1,
    ensures
        r@.len() == width - 2,
        forall|b: int|
            0 <= b < r@.len() ==> r@[b] == spec_count_bucket(relayed@, now, window, width, b),
        total_u64(r@) == spec_relayed_count(relayed@, now, window),
{
    let nbuckets: usize = (width - 2) as usize;
    let mut buckets: Vec<u64> = Vec::new();
    while buckets.len() < nbuckets
        invariant
            buckets@.len() <= nbuckets,
            forall|i: int| 0 <= i < buckets@.len() ==> buckets@[i] == 0,
        decreases nbuckets - buckets.len(),
    {
        buckets.push(0);
    }
    proof {
        assert(relayed@.take(0) =~= Seq::<RelayedInfo>::empty());
        lemma_total_zero(buckets@);
    }
    let mut k: usize = 0;
    while k < relayed.len()
        invariant
            0 <= k <= relayed@.len(),
            width >= 3,
            window >= 1,
            buckets@.len() == width - 2,
            forall|b: int|
                0 <= b < buckets@.len() ==> buckets@[b] == spec_count_bucket(
                    relayed@.take(k as int),
                    now,
                    window,
                    width,
                    b,
                ),
            total_u64(buckets@) == spec_relayed_count(relayed@.take(k as int), now, window),
        decreases relayed@.len() - k,
    {
        let e = &relayed[k];
        proof {
            lemma_count_by_take_step(relayed@, window_pred(now, window), k as int);
            lemma_count_by_bounds(relayed@.take(k as int), window_pred(now, window));
            assert forall|b: int| 0 <= b < buckets@.len() implies spec_count_bucket(
                relayed@.take(k as int + 1),
                now,
                window,
                width,
                b,
            ) == spec_count_bucket(relayed@.take(k as int), now, window, width, b) + (
            if count_bucket_pred(now, window, width, b)(relayed@[k as int]) {
                1int
            } else {
                0int
            }) by {
                lemma_count_by_take_step(relayed@, count_bucket_pred(now, window, width, b), k as int);
            }
        }
        if in_window_exec(e.timestamp.unix, now, window) {
            let idx = bucket_index(e.timestamp.unix, now, window, width);
            let ghost bv = buckets@;
            let old_val = buckets[idx];
            proof {
                lemma_elem_le_total(bv, idx as int);
            }
            buckets[idx] = old_val + 1;
            proof {
                lemma_total_update(bv, idx as int, (old_val + 1) as u64);
            }
        }
        k = k + 1;
    }
    proof {
        assert(relayed@.take(relayed@.len() as int) =~= relayed@);
    }
    buckets
}

/// Bin the relay events of the trailing window into `width - 2` buckets by
/// volume: each bucket holds the sum of the amounts received within it.
pub fn bin_relay_volumes(relayed: &Vec<RelayedInfo>, now: u64, window: u64, width: u16) -> (r: Vec<
    u64,
>)
    requires
        width >= 3,
        window >= 1,
        spec_total_relay_volume(relayed@) <= u64::MAX,
    ensures
        r@.len() == width - 2,
        forall|b: int|
            0 <= b < r@.len() ==> r@[b] == spec_volume_bucket(relayed@, now, window, width, b),
        total_u64(r@) == spec_relayed_volume(relayed@, now, window),
{
    proof {
        assert(forall|j: int|
            0 <= j < relayed@.len() ==> #[trigger] vol_weight(now, window)(relayed@[j]) >= 0);
        assert(forall|j: int|
            0 <= j < relayed@.len() ==> #[trigger] vol_weight(now, window)(relayed@[j])
                <= crate::stats::relay_volume_total_weight()(relayed@[j]));
    }
    let nbuckets: usize = (width - 2) as usize;
    let mut buckets: Vec<u64> = Vec::new();
    while buckets.len() < nbuckets
        invariant
            buckets@.len() <= nbuckets,
            forall|i: int| 0 <= i < buckets@.len() ==> buckets@[i] == 0,
        decreases nbuckets - buckets.len(),
    {
        buckets.push(0);
    }
    proof {
        assert(relayed@.take(0) =~= Seq::<RelayedInfo>::empty());
        lemma_total_zero(buckets@);
    }
    let mut k: usize = 0;
    while k < relayed.len()
        invariant
            0 <= k <= relayed@.len(),
            width >= 3,
            window >= 1,
            spec_total_relay_volume(relayed@) <= u64::MAX,
            buckets@.len() == width - 2,
            forall|b: int|
                0 <= b < buckets@.len() ==> buckets@[b] == spec_volume_bucket(
                    relayed@.take(k as int),
                    now,
                    window,
                    width,
                    b,
                ),
            total_u64(buckets@) == spec_relayed_volume(relayed@.take(k as int), now, window),
            forall|j: int|
                0 <= j < relayed@.len() ==> #[trigger] vol_weight(now, window)(relayed@[j]) >= 0,
            forall|j: int|
                0 <= j < relayed@.len() ==> #[trigger] vol_weight(now, window)(relayed@[j])
                    <= crate::stats::relay_volume_total_weight()(relayed@[j]),
        decreases relayed@.len() - k,
    {
        let e = &relayed[k];
        proof {
            lemma_sum_by_take_step(relayed@, vol_weight(now, window), k as int);
            lemma_sum_by_take_le(relayed@, vol_weight(now, window), k as int + 1);
            lemma_sum_by_le(
                relayed@,
                vol_weight(now, window),
                crate::stats::relay_volume_total_weight(),
            );
            assert forall|b: int| 0 <= b < buckets@.len() implies spec_volume_bucket(
                relayed@.take(k as int + 1),
                now,
                window,
                width,
                b,
            ) == spec_volume_bucket(relayed@.take(k as int), now, window, width, b)
                + vol_bucket_weight(now, window, width, b)(relayed@[k as int]) by {
                lemma_sum_by_take_step(relayed@, vol_bucket_weight(now, window, width, b), k as int);
            }
        }
        if in_window_exec(e.timestamp.unix, now, window) {
            let idx = bucket_index(e.timestamp.unix, now, window, width);
            let ghost bv = buckets@;
            let old_val = buckets[idx];
            proof {
                lemma_elem_le_total(bv, idx as int);
            }
            buckets[idx] = old_val + e.amount_in;
            proof {
                lemma_total_update(bv, idx as int, (old_val + e.amount_in) as u64);
            }
        }
        k = k + 1;
    }
    proof {
        assert(relayed@.take(relayed@.len() as int) =~= relayed@);
    }
    buckets
}

/// Is the event's timestamp strictly newer than `now - window`?
fn in_window_exec(ts: u64, now: u64, window: u64) -> (r: bool)
    ensures
        r == (ts > now - window),
{
    (ts as i128) > (now as i128) - (window as i128)
}

// ---------------------------------------------------------------------------
// Normalization.
// ---------------------------------------------------------------------------

/// The largest value of a sequence of machine integers, 0 when empty.
pub open spec fn seq_max_u64(s: Seq<u64>) -> int
    decreases s.len(),
{
    if s.len() == 0 {
        0
    } else if s.last() as int > seq_max_u64(s.drop_last()) {
        s.last() as int
    } else {
        seq_max_u64(s.drop_last())
    }
}

pub proof fn lemma_seq_max_take_step(s: Seq<u64>, i: int)
    requires
        0 <= i < s.len(),
    ensures
        seq_max_u64(s.take(i + 1)) == if s[i] as int > seq_max_u64(s.take(i)) {
            s[i] as int
        } else {
            seq_max_u64(s.take(i))
        },
{
    assert(s.take(i + 1).drop_last() =~= s.take(i));
    assert(s.take(i + 1).last() == s[i]);
}

/// Every entry is at most the maximum.
pub proof fn lemma_seq_max_ge(s: Seq<u64>, i: int)
    requires
        0 <= i < s.len(),
    ensures
        s[i] <= seq_max_u64(s),
    decreases s.len(),
{
    if i < s.len() - 1 {
        assert(s.drop_last()[i] == s[i]);
        lemma_seq_max_ge(s.drop_last(), i);
    }
}

/// A bucket value rescaled to a 0-100 percentage of the maximum, rounded
/// to the nearest integer (round half up).
pub open spec fn spec_norm(b: int, m: int) -> int {
    (200 * b + m) / (2 * m)
}

pub proof fn lemma_norm_bounds(b: int, m: int)
    requires
        0 <= b <= m,
        1 <= m,
    ensures
        0 <= spec_norm(b, m) <= 100,
        b == m ==> spec_norm(b, m) == 100,
{
    lemma_div_pos_is_pos(200 * b + m, 2 * m);
    assert(200 * b + m < (2 * m) * 101);
    lemma_multiply_divide_lt(200 * b + m, 2 * m, 101);
    if b == m {
        assert(200 * m + m == 100 * (2 * m) + m);
        lemma_fundamental_div_mod_converse_div(200 * m + m, 2 * m, 100, m);
    }
}

/// Rescale one bucket.
fn norm_bucket(b: u64, m: u64) -> (r: u64)
    requires
        1 <= m,
        b <= m,
    ensures
        r == spec_norm(b as int, m as int),
        r <= 100,
        b == m ==> r == 100,
{
    proof {
        lemma_norm_bounds(b as int, m as int);
    }
    (((200u128 * (b as u128)) + (m as u128)) / (2u128 * (m as u128))) as u64
}

/// The largest bucket value, together with the index of one bucket
/// attaining it (meaningful when the maximum is positive).
fn max_with_index(v: &Vec<u64>) -> (r: (u64, usize))
    ensures
        r.0 == seq_max_u64(v@),
        r.0 > 0 ==> r.1 < v@.len() && v@[r.1 as int] == r.0,
{
    let mut m: u64 = 0;
    let mut mi: usize = 0;
    let mut k: usize = 0;
    proof {
        assert(v@.take(0) =~= Seq::<u64>::empty());
    }
    while k < v.len()
        invariant
            0 <= k <= v@.len(),
            m == seq_max_u64(v@.take(k as int)),
            m > 0 ==> mi < k && v@[mi as int] == m,
        decreases v@.len() - k,
    {
        proof {
            lemma_seq_max_take_step(v@, k as int);
        }
        if v[k] > m {
            m = v[k];
            mi = k;
        }
        k = k + 1;
    }
    proof {
        assert(v@.take(v@.len() as int) =~= v@);
    }
    (m, mi)
}

/// Normalize a raw histogram into a 0-100 percentage series.  When the
/// largest bucket is 0 (no events, or only zero weights) the series is
/// empty and the reported maximum is 0; otherwise every bucket is rescaled
/// relative to the maximum, the largest bucket landing exactly on 100.
pub fn normalize_line(buckets: &Vec<u64>) -> (r: (Vec<u64>, u64))
    ensures
        r.1 == seq_max_u64(buckets@),
        r.1 == 0 ==> r.0@.len() == 0,
        r.1 > 0 ==> r.0@.len() == buckets@.len() && forall|i: int|
            0 <= i < buckets@.len() ==> r.0@[i] == spec_norm(buckets@[i] as int, r.1 as int),
        r.1 > 0 ==> forall|i: int| 0 <= i < r.0@.len() ==> r.0@[i] <= 100,
        r.1 > 0 ==> exists|i: int| 0 <= i < r.0@.len() && r.0@[i] == 100,
{
    let (m, mi) = max_with_index(buckets);
    if m == 0 {
        let empty: Vec<u64> = Vec::new();
        return (empty, 0);
    }
    let mut line: Vec<u64> = Vec::new();
    let mut k: usize = 0;
    while k < buckets.len()
        invariant
            0 <= k <= buckets@.len(),
            m == seq_max_u64(buckets@),
            m > 0,
            mi < buckets@.len(),
            buckets@[mi as int] == m,
            line@.len() == k,
            forall|i: int|
                0 <= i < k ==> line@[i] == spec_norm(buckets@[i] as int, m as int) && line@[i]
                    <= 100,
            forall|i: int| 0 <= i < k && i == mi ==> line@[i] == 100,
        decreases buckets@.len() - k,
    {
        proof {
            lemma_seq_max_ge(buckets@, k as int);
        }
        let v = norm_bucket(buckets[k], m);
        line.push(v);
        k = k + 1;
    }
    proof {
        assert(line@[mi as int] == 100);
    }
    (line, m)
}

// ---------------------------------------------------------------------------
// The two sparkline series.
// ---------------------------------------------------------------------------

/// The largest value of `f` over `0 <= b < n`, 0 when the range is empty.
pub open spec fn max_upto(f: spec_fn(int) -> int, n: int) -> int
    decreases n,
{
    if n <= 0 {
        0
    } else if f(n - 1) > max_upto(f, n - 1) {
        f(n - 1)
    } else {
        max_upto(f, n - 1)
    }
}

/// A sequence that agrees with `f` has, over any prefix, the maximum of
/// `f` over the same range (all values being nonnegative machine words).
pub proof fn lemma_seq_max_is_max_upto(s: Seq<u64>, f: spec_fn(int) -> int, n: int)
    requires
        0 <= n <= s.len(),
        forall|i: int| 0 <= i < s.len() ==> s[i] == f(i),
    ensures
        seq_max_u64(s.take(n)) == max_upto(f, n),
    decreases n,
{
    if n > 0 {
        lemma_seq_max_is_max_upto(s, f, n - 1);
        assert(s.take(n).drop_last() =~= s.take(n - 1));
        assert(s.take(n).last() == s[n - 1]);
    } else {
        assert(s.take(0) =~= Seq::<u64>::empty());
    }
}

pub open spec fn count_bucket_fn(
    relayed: Seq<RelayedInfo>,
    now: u64,
    window: u64,
    width: u16,
) -> spec_fn(int) -> int {
    |b: int| spec_count_bucket(relayed, now, window, width, b)
}

pub open spec fn vol_bucket_fn(
    relayed: Seq<RelayedInfo>,
    now: u64,
    window: u64,
    width: u16,
) -> spec_fn(int) -> int {
    |b: int| spec_volume_bucket(relayed, now, window, width, b)
}

/// The largest count bucket of the trailing-day histogram.
pub open spec fn spec_count_max(relayed: Seq<RelayedInfo>, now: u64, window: u64, width: u16) -> int {
    max_upto(count_bucket_fn(relayed, now, window, width), width - 2)
}

/// The largest volume bucket of the trailing-day histogram.
pub open spec fn spec_volume_max(
    relayed: Seq<RelayedInfo>,
    now: u64,
    window: u64,
    width: u16,
) -> int {
    max_upto(vol_bucket_fn(relayed, now, window, width), width - 2)
}

/// With no relay events at all, every count bucket is 0 and so is their
/// maximum over any prefix of buckets.
pub proof fn lemma_count_max_upto_empty(
    relayed: Seq<RelayedInfo>,
    now: u64,
    window: u64,
    width: u16,
    n: int,
)
    requires
        relayed.len() == 0,
    ensures
        max_upto(count_bucket_fn(relayed, now, window, width), n) == 0,
    decreases n,
{
    if n > 0 {
        lemma_count_max_upto_empty(relayed, now, window, width, n - 1);
        assert(count_bucket_fn(relayed, now, window, width)(n - 1) == 0);
    }
}

/// With no relay events at all, every volume bucket is 0 and so is their
/// maximum over any prefix of buckets.
pub proof fn lemma_vol_max_upto_empty(
    relayed: Seq<RelayedInfo>,
    now: u64,
    window: u64,
    width: u16,
    n: int,
)
    requires
        relayed.len() == 0,
    ensures
        max_upto(vol_bucket_fn(relayed, now, window, width), n) == 0,
    decreases n,
{
    if n > 0 {
        lemma_vol_max_upto_empty(relayed, now, window, width, n - 1);
        assert(vol_bucket_fn(relayed, now, window, width)(n - 1) == 0);
    }
}

/// The normalized trailing-day relay-count sparkline, and the raw maximum
/// bucket value for the caption.
pub fn get_relays_amounts_line(relayed: &Vec<RelayedInfo>, now: u64, width: u16) -> (r: (
    Vec<u64>,
    u64,
))
    requires
        width >= 3,
    ensures
        r.1 == spec_count_max(relayed@, now, LINE_PERIOD, width),
        r.1 == 0 ==> r.0@.len() == 0,
        r.1 > 0 ==> r.0@.len() == width - 2 && forall|b: int|
            0 <= b < width - 2 ==> r.0@[b] == spec_norm(
                spec_count_bucket(relayed@, now, LINE_PERIOD, width, b),
                r.1 as int,
            ),
{
    let buckets = bin_relay_counts(relayed, now, LINE_PERIOD, width);
    proof {
        lemma_seq_max_is_max_upto(
            buckets@,
            count_bucket_fn(relayed@, now, LINE_PERIOD, width),
            buckets@.len() as int,
        );
        assert(buckets@.take(buckets@.len() as int) =~= buckets@);
    }
    normalize_line(&buckets)
}

/// The normalized trailing-day relay-volume sparkline, and the raw maximum
/// bucket value for the caption.
pub fn get_relays_volumes_line(relayed: &Vec<RelayedInfo>, now: u64, width: u16) -> (r: (
    Vec<u64>,
    u64,
))
    requires
        width >= 3,
        spec_total_relay_volume(relayed@) <= u64::MAX,
    ensures
        r.1 == spec_volume_max(relayed@, now, LINE_PERIOD, width),
        r.1 == 0 ==> r.0@.len() == 0,
        r.1 > 0 ==> r.0@.len() == width - 2 && forall|b: int|
            0 <= b < width - 2 ==> r.0@[b] == spec_norm(
                spec_volume_bucket(relayed@, now, LINE_PERIOD, width, b),
                r.1 as int,
            ),
{
    let buckets = bin_relay_volumes(relayed, now, LINE_PERIOD, width);
    proof {
        lemma_seq_max_is_max_upto(
            buckets@,
            vol_bucket_fn(relayed@, now, LINE_PERIOD, width),
            buckets@.len() as int,
        );
        assert(buckets@.take(buckets@.len() as int) =~= buckets@);
    }
    normalize_line(&buckets)
}

} // verus!
