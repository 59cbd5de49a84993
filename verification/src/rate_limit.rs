//! Per-IP rate limiting with a sliding window of one minute.
//!
//! Each client address owns a bucket of the instants (nanoseconds on the
//! host's monotonic clock) of its accepted requests. A request prunes the
//! bucket to the last minute; it is refused when the pruned bucket already
//! holds `limit` entries, and accepted (and recorded) otherwise.

use vstd::prelude::*;
use dashmap::DashMap;

verus! {

/// A client address: 4 and the IPv4 address, or 6 and the IPv6 address.
pub type IpKey = (u8, u128);

#[verifier::external_type_specification]
#[verifier::external_body]
#[verifier::reject_recursive_types(K)]
#[verifier::reject_recursive_types(V)]
#[verifier::reject_recursive_types(S)]
pub struct ExDashMap<K, V, S>(DashMap<K, V, S>);

/// Buckets of request instants, by client address.
pub type BucketMap = DashMap<IpKey, Vec<u64>>;

/// What a bucket map holds: for each address, the instants in its bucket.
pub uninterp spec fn bucket_contents(m: BucketMap) -> Map<IpKey, Seq<u64>>;

/// Creates an empty map (`DashMap::new`).
#[verifier::external_body]
fn new_bucket_map() -> (fresh: BucketMap)
    ensures
        bucket_contents(fresh) =~= Map::empty(),
{
    DashMap::new()
}

/// A copy of the bucket of `key` (`DashMap::get`), empty when the map has
/// no entry for it.
#[verifier::external_body]
fn read_bucket(m: &BucketMap, key: IpKey) -> (b: Vec<u64>)
    ensures
        bucket_contents(*m).contains_key(key) ==> b@ == bucket_contents(*m)[key],
        !bucket_contents(*m).contains_key(key) ==> b@ == Seq::<u64>::empty(),
{
    match m.get(&key) {
        Some(r) => r.value().clone(),
        None => Vec::new(),
    }
}

/// Stores `bucket` as the bucket of `key` (`DashMap::insert`), replacing any
/// earlier one.
#[verifier::external_body]
fn write_bucket(m: &mut BucketMap, key: IpKey, bucket: Vec<u64>)
    ensures
        bucket_contents(*final(m)) == bucket_contents(*old(m)).insert(key, bucket@),
{
    m.insert(key, bucket);
}

/// Length of the window in nanoseconds (60 s).
pub const WINDOW_NS: u64 = 60_000_000_000;

/// Time elapsed from `t` to `now`, zero when `t` lies after `now`.
pub open spec fn elapsed(now: u64, t: u64) -> int {
    if now >= t { now - t } else { 0 }
}

/// The instants of `bucket` that still lie inside the window at `now`,
/// in their order.
pub open spec fn recent(bucket: Seq<u64>, now: u64) -> Seq<u64> {
    bucket.filter(|t: u64| elapsed(now, t) < WINDOW_NS)
}

/// Seconds until the request at `oldest` leaves the window, plus one.
pub open spec fn retry_after(oldest: u64, now: u64) -> u64 {
    ((WINDOW_NS - elapsed(now, oldest)) / 1_000_000_000 + 1) as u64
}

/// The outcome of a check against a bucket: accepted, or refused with the
/// seconds after which to retry (60 when the limit is 0).
pub open spec fn spec_check(bucket: Seq<u64>, now: u64, limit: u32) -> Result<(), u64> {
    let r = recent(bucket, now);
    if r.len() >= limit {
        if r.len() > 0 {
            Err(retry_after(r[0], now))
        } else {
            Err(60)
        }
    } else {
        Ok(())
    }
}

/// The bucket after a check: the recent instants, and `now` when accepted.
pub open spec fn spec_bucket_after(bucket: Seq<u64>, now: u64, limit: u32) -> Seq<u64> {
    let r = recent(bucket, now);
    if r.len() >= limit { r } else { r.push(now) }
}

/// Central rate limiter, shared by all requests.
pub struct RateLimiter {
    buckets: BucketMap,
    limit: u32,
}

impl RateLimiter {
    /// The buckets, by address.
    pub closed spec fn buckets(&self) -> Map<IpKey, Seq<u64>> {
        bucket_contents(self.buckets)
    }

    /// The maximum number of requests per address and window.
    pub closed spec fn limit(&self) -> u32 {
        self.limit
    }

    /// No bucket holds more than `limit` instants.
    pub open spec fn wf(&self) -> bool {
        forall|k: IpKey| #[trigger] self.buckets().contains_key(k) ==> self.buckets()[k].len()
            <= self.limit()
    }

    /// Creates a limiter that allows `limit` requests per minute and address.
    pub fn new(limit: u32) -> (r: Self)
        ensures
            r.wf(),
            r.limit() == limit,
            r.buckets() == Map::<IpKey, Seq<u64>>::empty(),
    {
        RateLimiter { buckets: new_bucket_map(), limit }
    }

    /// The limit a setting names: the setting parsed as a `u32`, 300 when it
    /// is absent or does not parse.
    pub fn limit_from_setting(setting: Option<&str>) -> (limit: u32)
        ensures
            limit == (match setting {
                Some(s) => match crate::text::spec_parse_u64(s@) {
                    Some(v) => if v <= u32::MAX { v as u32 } else { 300 },
                    None => 300,
                },
                None => 300,
            }),
    {
        match setting {
            Some(s) => match crate::text::parse_u64(s) {
                Some(v) => if v <= u32::MAX as u64 {
                    v as u32
                } else {
                    300
                },
                None => 300,
            },
            None => 300,
        }
    }

    /// Checks the request of `ip` arriving at `now_ns` and records it when
    /// it is allowed. Returns `Err(retry_after_secs)` when it is refused.
    pub fn check(&mut self, ip: IpKey, now_ns: u64) -> (r: Result<(), u64>)
        requires
            old(self).wf(),
        ensures
            final(self).wf(),
            final(self).limit() == old(self).limit(),
            r == spec_check(
                if old(self).buckets().contains_key(ip) { old(self).buckets()[ip] } else { Seq::empty() },
                now_ns,
                old(self).limit(),
            ),
            final(self).buckets() == old(self).buckets().insert(
                ip,
                spec_bucket_after(
                    if old(self).buckets().contains_key(ip) { old(self).buckets()[ip] } else { Seq::empty() },
                    now_ns,
                    old(self).limit(),
                ),
            ),
    {
        let ghost old_bucket = if self.buckets().contains_key(ip) {
            self.buckets()[ip]
        } else {
            Seq::<u64>::empty()
        };
        let bucket = read_bucket(&self.buckets, ip);
        let mut kept: Vec<u64> = Vec::new();
        let mut i: usize = 0;
        while i < bucket.len()
            invariant
                i <= bucket@.len(),
                bucket@ == old_bucket,
                kept@ == recent(bucket@.take(i as int), now_ns),
            decreases bucket@.len() - i,
        {
            let t = bucket[i];
            let age = if now_ns >= t { now_ns - t } else { 0 };
            proof {
                let pred = |t: u64| elapsed(now_ns, t) < WINDOW_NS;
                assert(bucket@.take(i + 1).drop_last() =~= bucket@.take(i as int));
                bucket@.take(i as int).lemma_filter_push(t, pred);
                assert(bucket@.take(i as int).push(t) =~= bucket@.take(i + 1));
            }
            if age < WINDOW_NS {
                kept.push(t);
            }
            i = i + 1;
        }
        assert(bucket@.take(bucket@.len() as int) =~= bucket@);
        proof {
            old_bucket.lemma_filter_len(|t: u64| elapsed(now_ns, t) < WINDOW_NS);
        }
        if kept.len() >= self.limit as usize {
            let retry = if kept.len() > 0 {
                let oldest = kept[0];
                let age = if now_ns >= oldest { now_ns - oldest } else { 0 };
                let remaining = if age < WINDOW_NS { WINDOW_NS - age } else { 0 };
                remaining / 1_000_000_000 + 1
            } else {
                60
            };
            write_bucket(&mut self.buckets, ip, kept);
            proof {
                assert(self.buckets() == old(self).buckets().insert(ip, recent(old_bucket, now_ns)));
            }
            return Err(retry);
        }
        kept.push(now_ns);
        write_bucket(&mut self.buckets, ip, kept);
        Ok(())
    }
}

/// The first address of an `X-Forwarded-For` header: the text before the
/// first comma, trimmed.
pub fn forwarded_for_first(header: &str) -> (a: String)
    ensures
        a@ == crate::search::trim(match crate::search::find(header@, ","@) {
            Some(k) => header@.take(k),
            None => header@,
        }),
{
    let v = crate::text::chars_of(header);
    let comma = crate::text::chars_of(",");
    proof {
        reveal_strlit(",");
        crate::search::lemma_find_from_props(v@, comma@, 0);
    }
    let first = match crate::search::find_in(&v, &comma, 0) {
        Some(k) => crate::search::prefix(&v, k),
        None => v,
    };
    crate::text::string_from_chars(&crate::search::trim_chars(&first))
}

/// The message of a refused request.
pub fn rate_limit_message(retry_after_secs: u64) -> (m: String)
    ensures
        m@ == "Limit überschritten — bitte in "@ + crate::text::decimal(retry_after_secs as nat)
            + "s erneut versuchen"@,
{
    let s = crate::text::concat("Limit überschritten — bitte in ", crate::text::u64_to_string(retry_after_secs).as_str());
    crate::text::concat(s.as_str(), "s erneut versuchen")
}

/// A check keeps the limiter's invariant: from a bucket of at most `limit`
/// instants, the bucket after a check again holds at most `limit`
/// instants, all of them inside the window.
pub proof fn law_window_holds_at_most_limit(bucket: Seq<u64>, now: u64, limit: u32)
    requires
        bucket.len() <= limit,
    ensures
        spec_bucket_after(bucket, now, limit).len() <= limit,
        forall|j: int|
            0 <= j < spec_bucket_after(bucket, now, limit).len() ==> elapsed(
                now,
                #[trigger] spec_bucket_after(bucket, now, limit)[j],
            ) < WINDOW_NS,
{
    let pred = |t: u64| elapsed(now, t) < WINDOW_NS;
    let r = recent(bucket, now);
    bucket.lemma_filter_len(pred);
    assert forall|j: int| 0 <= j < r.len() implies elapsed(now, #[trigger] r[j]) < WINDOW_NS by {
        bucket.lemma_filter_pred(pred, j);
    }
}

/// The bucket of one address after the checks of its requests at the
/// instants `ts`, in order, starting from an empty bucket.
pub open spec fn bucket_after_checks(ts: Seq<u64>, limit: u32) -> Seq<u64>
    decreases ts.len(),
{
    if ts.len() == 0 {
        Seq::empty()
    } else {
        spec_bucket_after(bucket_after_checks(ts.drop_last(), limit), ts.last(), limit)
    }
}

/// Whether the request at `ts[k]` was accepted, after the checks of the
/// requests before it.
pub open spec fn accepted_at(ts: Seq<u64>, limit: u32, k: int) -> bool {
    spec_check(bucket_after_checks(ts.take(k), limit), ts[k], limit) is Ok
}

/// How many of the first `k` requests were accepted and lie inside the
/// window that ends at `now`.
pub open spec fn accepted_in_window(ts: Seq<u64>, limit: u32, k: nat, now: u64) -> nat
    decreases k,
{
    if k == 0 {
        0
    } else {
        accepted_in_window(ts, limit, (k - 1) as nat, now) + if accepted_at(ts, limit, k - 1) && elapsed(
            now,
            ts[k - 1],
        ) < WINDOW_NS {
            1nat
        } else {
            0nat
        }
    }
}

/// Instants that never go backwards, as a monotonic clock gives them.
pub open spec fn nondecreasing(ts: Seq<u64>) -> bool {
    forall|i: int, j: int| 0 <= i <= j < ts.len() ==> ts[i] <= ts[j]
}

/// Pruning to the window at `t`, then to the window at a later `now`, is
/// pruning to the window at `now`, for instants no later than `t`.
proof fn lemma_recent_twice(b: Seq<u64>, t: u64, now: u64)
    requires
        t <= now,
        forall|i: int| 0 <= i < b.len() ==> b[i] <= t,
    ensures
        recent(recent(b, t), now) == recent(b, now),
    decreases b.len(),
{
    if b.len() > 0 {
        let p1 = |x: u64| elapsed(t, x) < WINDOW_NS;
        let p2 = |x: u64| elapsed(now, x) < WINDOW_NS;
        let d = b.drop_last();
        let x = b.last();
        lemma_recent_twice(d, t, now);
        assert(d.push(x) =~= b);
        d.lemma_filter_push(x, p1);
        d.lemma_filter_push(x, p2);
        d.filter(p1).lemma_filter_push(x, p2);
    } else {
        assert(recent(b, t) =~= b);
    }
}

/// The instants kept in a window are among the pruned ones, so they share
/// any bound of those.
proof fn lemma_recent_bounded(b: Seq<u64>, t: u64, bound: u64)
    requires
        forall|i: int| 0 <= i < b.len() ==> b[i] <= bound,
    ensures
        forall|i: int| 0 <= i < recent(b, t).len() ==> #[trigger] recent(b, t)[i] <= bound,
    decreases b.len(),
{
    if b.len() > 0 {
        let p = |x: u64| elapsed(t, x) < WINDOW_NS;
        let d = b.drop_last();
        lemma_recent_bounded(d, t, bound);
        assert(d.push(b.last()) =~= b);
        d.lemma_filter_push(b.last(), p);
        assert(b.last() == b[b.len() - 1]);
        let rd = recent(d, t);
        assert forall|i: int| 0 <= i < recent(b, t).len() implies #[trigger] recent(b, t)[i] <= bound by {
            if i < rd.len() {
                assert(recent(b, t)[i] == rd[i]);
            }
        }
    } else {
        assert(recent(b, t) =~= b);
    }
}

/// After the first `k` checks the bucket holds at most `limit` instants,
/// none later than the last request, and the part of it inside any window
/// that ends at or after the last request counts exactly the accepted
/// requests inside that window.
proof fn lemma_bucket_tracks_window(ts: Seq<u64>, limit: u32, k: nat, now: u64)
    requires
        nondecreasing(ts),
        k <= ts.len(),
        k > 0 ==> ts[k - 1] <= now,
    ensures
        bucket_after_checks(ts.take(k as int), limit).len() <= limit,
        forall|i: int|
            0 <= i < bucket_after_checks(ts.take(k as int), limit).len() ==> #[trigger] bucket_after_checks(
                ts.take(k as int),
                limit,
            )[i] <= now,
        recent(bucket_after_checks(ts.take(k as int), limit), now).len() == accepted_in_window(ts, limit, k, now),
    decreases k,
{
    if k == 0 {
        assert(ts.take(0) =~= Seq::<u64>::empty());
        assert(recent(Seq::<u64>::empty(), now) =~= Seq::<u64>::empty());
    } else {
        let t = ts[k - 1];
        let prev = bucket_after_checks(ts.take(k - 1), limit);
        assert(ts.take(k as int).drop_last() =~= ts.take(k - 1));
        assert(ts.take(k as int).last() == t);
        assert(bucket_after_checks(ts.take(k as int), limit) == spec_bucket_after(prev, t, limit));
        if k > 1 {
            assert(ts[k - 2] <= ts[k - 1]);
        }
        lemma_bucket_tracks_window(ts, limit, (k - 1) as nat, t);
        lemma_bucket_tracks_window(ts, limit, (k - 1) as nat, now);
        let r = recent(prev, t);
        prev.lemma_filter_len(|x: u64| elapsed(t, x) < WINDOW_NS);
        lemma_recent_bounded(prev, t, t);
        lemma_recent_twice(prev, t, now);
        let after = spec_bucket_after(prev, t, limit);
        if r.len() >= limit {
            assert(after == r);
        } else {
            assert(after == r.push(t));
            r.lemma_filter_push(t, |x: u64| elapsed(now, x) < WINDOW_NS);
            assert forall|i: int| 0 <= i < after.len() implies #[trigger] after[i] <= now by {
                if i < r.len() {
                    assert(after[i] == r[i]);
                }
            }
        }
    }
}

/// The rate limit holds for every client: of the requests of one address,
/// checked at nondecreasing instants from an empty bucket, at most `limit`
/// are accepted inside the window of 60 s that ends at any instant `now`
/// at or after the last of the first `m` requests.
pub proof fn law_at_most_limit_per_window(ts: Seq<u64>, limit: u32, m: nat, now: u64)
    requires
        nondecreasing(ts),
        m <= ts.len(),
        m > 0 ==> ts[m - 1] <= now,
    ensures
        accepted_in_window(ts, limit, m, now) <= limit,
{
    lemma_bucket_tracks_window(ts, limit, m, now);
    let b = bucket_after_checks(ts.take(m as int), limit);
    b.lemma_filter_len(|x: u64| elapsed(now, x) < WINDOW_NS);
}

/// A request is accepted exactly when fewer than `limit` earlier requests
/// of the same address were accepted inside the window of 60 s that ends
/// at its instant; a refused request is told to retry after 1 to 61
/// seconds.
pub proof fn law_accepted_iff_room_in_window(ts: Seq<u64>, limit: u32, k: nat)
    requires
        nondecreasing(ts),
        k < ts.len(),
    ensures
        accepted_at(ts, limit, k as int) <==> accepted_in_window(ts, limit, k, ts[k as int]) < limit,
        spec_check(bucket_after_checks(ts.take(k as int), limit), ts[k as int], limit) matches Err(r) ==> 1 <= r
            <= 61,
{
    let now = ts[k as int];
    if k > 0 {
        assert(ts[k - 1] <= ts[k as int]);
    }
    lemma_bucket_tracks_window(ts, limit, k, now);
    let b = bucket_after_checks(ts.take(k as int), limit);
    let pred = |t: u64| elapsed(now, t) < WINDOW_NS;
    let r = recent(b, now);
    if r.len() > 0 {
        b.lemma_filter_pred(pred, 0);
        assert(elapsed(now, r[0]) < WINDOW_NS);
        let rem = WINDOW_NS - elapsed(now, r[0]);
        assert(0 < rem <= WINDOW_NS);
        assert(rem / 1_000_000_000 <= 60) by (nonlinear_arith)
            requires
                0 < rem <= 60_000_000_000int,
        ;
    }
}

/// A refused request is not recorded: when a check is refused, the bucket
/// afterwards holds exactly the instants of earlier requests still inside
/// the window; an accepted one adds exactly its own instant.
pub proof fn law_refused_not_counted(bucket: Seq<u64>, now: u64, limit: u32)
    ensures
        spec_check(bucket, now, limit) is Err ==> spec_bucket_after(bucket, now, limit) == recent(
            bucket,
            now,
        ),
        spec_check(bucket, now, limit) is Ok ==> spec_bucket_after(bucket, now, limit) == recent(
            bucket,
            now,
        ).push(now),
{
}

} // verus!
