//! A single-slot cache with a time to live, and the fill-or-serve decision of the key cache.
//!
//! Times are milliseconds on a monotonic clock. The caller holds the cache's lock for the
//! whole of a get: `begin_get`, then, where it says so, one fetch, then `finish_get`.
use vstd::prelude::*;
use crate::error::{AuthError, AuthFailure};
use crate::keys::{KeySet, RecordModel};

verus! {

/// A cached value and the instant from which it is stale.
pub struct CacheEntry<T> {
    pub value: T,
    pub expiry: u64,
}

/// A cache of at most one value.
pub struct SingleCache<T>(pub Option<CacheEntry<T>>);

/// The expiry of a value stored at `now` with time to live `ttl` (saturating).
pub open spec fn expiry_for(now: u64, ttl: u64) -> u64 {
    if now + ttl > u64::MAX {
        u64::MAX
    } else {
        (now + ttl) as u64
    }
}

impl<T> SingleCache<T> {
    /// The slot holds a value that is still fresh at `now`.
    pub open spec fn fresh_at(&self, now: u64) -> bool {
        match self.0 {
            Some(e) => now < e.expiry,
            None => false,
        }
    }

    /// An empty slot.
    pub fn empty() -> (r: Self)
        ensures
            r.0 is None,
    {
        SingleCache(None)
    }

    pub fn is_none(&self) -> (r: bool)
        ensures
            r == self.0 is None,
    {
        self.0.is_none()
    }

    /// The stored value is stale at `now`: its expiry has been reached.
    pub fn is_expired(&self, now: u64) -> (r: bool)
        requires
            self.0 is Some,
        ensures
            r == (now >= self.0->Some_0.expiry),
    {
        match &self.0 {
            Some(e) => now >= e.expiry,
            None => true,
        }
    }

    pub fn inner(&self) -> (r: &T)
        requires
            self.0 is Some,
        ensures
            *r == self.0->Some_0.value,
    {
        &self.0.as_ref().unwrap().value
    }

    /// A slot holding `value`, stored at `now`, fresh for `ttl` milliseconds.
    pub fn filled(ttl: u64, value: T, now: u64) -> (r: Self)
        ensures
            r.0 matches Some(e) && e.value == value && e.expiry == expiry_for(now, ttl),
    {
        let expiry = now.saturating_add(ttl);
        SingleCache(Some(CacheEntry { value, expiry }))
    }

    /// A get at `now` must fetch: the slot is empty or stale.
    pub fn needs_fetch(&self, now: u64) -> (r: bool)
        ensures
            r == !self.fresh_at(now),
    {
        self.is_none() || self.is_expired(now)
    }
}

impl<T> Default for SingleCache<T> {
    fn default() -> (r: Self)
        ensures
            r.0 is None,
    {
        SingleCache(None)
    }
}

/// Model of the key cache's slot: the stored key set and its expiry.
pub type SlotModel = Option<(Seq<RecordModel>, u64)>;

/// Model of what a get returns.
pub type GetResult = Result<Seq<RecordModel>, AuthFailure>;

impl SingleCache<KeySet> {
    pub open spec fn model(&self) -> SlotModel {
        match self.0 {
            Some(e) => Some((e.value@, e.expiry)),
            None => None,
        }
    }
}

pub open spec fn slot_fresh(slot: SlotModel, now: u64) -> bool {
    slot matches Some(p) && now < p.1
}

/// The slot and result after a fetch that completed at `now`.
pub open spec fn fill(slot: SlotModel, now: u64, ttl: u64, fetched: Result<Seq<RecordModel>, Seq<char>>) -> (
    SlotModel,
    GetResult,
) {
    match fetched {
        Ok(v) => (Some((v, expiry_for(now, ttl))), Ok(v)),
        Err(m) => (slot, Err(AuthFailure::MissingCredentials(m))),
    }
}

/// One get at `now`: the new slot, the result, and whether the fetch was invoked.
pub open spec fn get_outcome(
    slot: SlotModel,
    now: u64,
    ttl: u64,
    fetched: Result<Seq<RecordModel>, Seq<char>>,
) -> (SlotModel, GetResult, bool) {
    if slot_fresh(slot, now) {
        (slot, Ok(slot->Some_0.0), false)
    } else {
        let (s, r) = fill(slot, now, ttl, fetched);
        (s, r, true)
    }
}

/// What a get does before any fetch.
pub enum CacheStep {
    /// The slot is fresh: answer with this copy of its key set.
    Serve(KeySet),
    /// The slot is empty or stale: fetch the key set, then call `finish_get`.
    Fetch,
}

/// Decides, under the lock, whether a get at `now` is served from the slot or must fetch.
pub fn begin_get(cache: &SingleCache<KeySet>, now: u64) -> (r: CacheStep)
    ensures
        slot_fresh(cache.model(), now) ==> (r matches CacheStep::Serve(v) && v@
            == cache.model()->Some_0.0),
        !slot_fresh(cache.model(), now) ==> r is Fetch,
{
    if cache.needs_fetch(now) {
        CacheStep::Fetch
    } else {
        CacheStep::Serve(cache.inner().duplicate())
    }
}

/// Completes, under the lock, a get whose fetch finished at `now`: a fetched key set
/// replaces the slot's content and is returned; a failed fetch leaves the slot as it was.
pub fn finish_get(
    cache: &mut SingleCache<KeySet>,
    fetched: Result<KeySet, String>,
    ttl: u64,
    now: u64,
) -> (r: Result<KeySet, AuthError>)
    ensures
        (final(cache).model(), result_model(r)) == fill(
            old(cache).model(),
            now,
            ttl,
            fetched_model(fetched),
        ),
        fetched is Err ==> *final(cache) == *old(cache),
{
    match fetched {
        Ok(keys) => {
            let out = keys.duplicate();
            *cache = SingleCache::filled(ttl, keys, now);
            Ok(out)
        },
        Err(reason) => Err(AuthError::MissingCredentials(reason)),
    }
}

pub open spec fn result_model(r: Result<KeySet, AuthError>) -> GetResult {
    match r {
        Ok(k) => Ok(k@),
        Err(e) => Err(e@),
    }
}

pub open spec fn fetched_model(f: Result<KeySet, String>) -> Result<Seq<RecordModel>, Seq<char>> {
    match f {
        Ok(k) => Ok(k@),
        Err(m) => Err(m@),
    }
}

/// A fetch outcome: the fetched key set, or the reason the fetch failed.
pub type FetchModel = Result<Seq<RecordModel>, Seq<char>>;

/// Gets made one after another under the lock, at `times`: the final slot, what each get
/// returned, and how many fetches were made. The fetches answer in the order of `fetches`.
pub open spec fn run(slot: SlotModel, times: Seq<u64>, ttl: u64, fetches: Seq<FetchModel>) -> (
    SlotModel,
    Seq<GetResult>,
    nat,
)
    decreases times.len(),
{
    if times.len() == 0 {
        (slot, Seq::empty(), 0)
    } else {
        let f = if fetches.len() > 0 {
            fetches[0]
        } else {
            Err(Seq::empty())
        };
        let (s1, r1, fetched) = get_outcome(slot, times[0], ttl, f);
        let rest = if fetched && fetches.len() > 0 {
            fetches.drop_first()
        } else {
            fetches
        };
        let (s2, rs, n) = run(s1, times.drop_first(), ttl, rest);
        (s2, seq![r1] + rs, if fetched {
            n + 1
        } else {
            n
        })
    }
}

/// Gets made while the slot holds a fresh key set fetch nothing and all return that set.
pub proof fn lemma_run_fresh(v: Seq<RecordModel>, expiry: u64, times: Seq<u64>, ttl: u64, fetches: Seq<FetchModel>)
    requires
        forall|i: int| 0 <= i < times.len() ==> #[trigger] times[i] < expiry,
    ensures
        run(Some((v, expiry)), times, ttl, fetches).0 == Some((v, expiry)),
        run(Some((v, expiry)), times, ttl, fetches).1.len() == times.len(),
        run(Some((v, expiry)), times, ttl, fetches).2 == 0,
        forall|i: int|
            0 <= i < times.len() ==> #[trigger] run(Some((v, expiry)), times, ttl, fetches).1[i]
                == Ok::<Seq<RecordModel>, AuthFailure>(v),
    decreases times.len(),
{
    if times.len() > 0 {
        let rest = times.drop_first();
        assert forall|i: int| 0 <= i < rest.len() implies #[trigger] rest[i] < expiry by {
            assert(rest[i] == times[i + 1]);
        }
        lemma_run_fresh(v, expiry, rest, ttl, fetches);
        let rs = run(Some((v, expiry)), rest, ttl, fetches).1;
        let all = run(Some((v, expiry)), times, ttl, fetches).1;
        assert(all == seq![Ok::<Seq<RecordModel>, AuthFailure>(v)] + rs);
        assert forall|i: int| 0 <= i < times.len() implies #[trigger] all[i] == Ok::<
            Seq<RecordModel>,
            AuthFailure,
        >(v) by {
            if i > 0 {
                assert(all[i] == rs[i - 1]);
            }
        }
    }
}

/// De-duplication: of callers that find the slot empty or stale and take the lock one after
/// another, only the first fetches; when that fetch succeeds and every caller holds the lock
/// before the fetched set expires, the fetch is made exactly once and all callers receive
/// the fetched key set.
pub proof fn lemma_single_fetch(
    slot: SlotModel,
    times: Seq<u64>,
    ttl: u64,
    fetches: Seq<FetchModel>,
    v: Seq<RecordModel>,
)
    requires
        times.len() > 0,
        !slot_fresh(slot, times[0]),
        fetches.len() > 0,
        fetches[0] == Ok::<Seq<RecordModel>, Seq<char>>(v),
        forall|i: int| 0 <= i < times.len() ==> #[trigger] times[i] < expiry_for(times[0], ttl),
    ensures
        run(slot, times, ttl, fetches).2 == 1,
        run(slot, times, ttl, fetches).1.len() == times.len(),
        forall|i: int|
            0 <= i < times.len() ==> #[trigger] run(slot, times, ttl, fetches).1[i] == Ok::<
                Seq<RecordModel>,
                AuthFailure,
            >(v),
{
    let e = expiry_for(times[0], ttl);
    let rest = times.drop_first();
    assert forall|i: int| 0 <= i < rest.len() implies #[trigger] rest[i] < e by {
        assert(rest[i] == times[i + 1]);
    }
    lemma_run_fresh(v, e, rest, ttl, fetches.drop_first());
    let rs = run(Some((v, e)), rest, ttl, fetches.drop_first()).1;
    let all = run(slot, times, ttl, fetches).1;
    assert(all == seq![Ok::<Seq<RecordModel>, AuthFailure>(v)] + rs);
    assert forall|i: int| 0 <= i < times.len() implies #[trigger] all[i] == Ok::<
        Seq<RecordModel>,
        AuthFailure,
    >(v) by {
        if i > 0 {
            assert(all[i] == rs[i - 1]);
        }
    }
}

/// Time to live: a get before the slot's expiry returns the cached set and fetches nothing;
/// a get at or after it (or on an empty slot) fetches exactly once.
pub proof fn lemma_ttl(slot: SlotModel, now: u64, ttl: u64, fetched: FetchModel)
    ensures
        slot is Some && now < slot->Some_0.1 ==> get_outcome(slot, now, ttl, fetched) == (
            slot,
            Ok::<Seq<RecordModel>, AuthFailure>(slot->Some_0.0),
            false,
        ),
        (slot is None || now >= slot->Some_0.1) ==> get_outcome(slot, now, ttl, fetched).2
            && run(slot, seq![now], ttl, seq![fetched]).2 == 1,
{
    let s1 = get_outcome(slot, now, ttl, fetched).0;
    assert(seq![now].drop_first() =~= Seq::<u64>::empty());
    assert(seq![fetched].drop_first() =~= Seq::<FetchModel>::empty());
    assert(seq![now][0] == now && seq![fetched][0] == fetched);
    assert(run(s1, Seq::<u64>::empty(), ttl, Seq::<FetchModel>::empty()).2 == 0);
    assert(run(s1, Seq::<u64>::empty(), ttl, seq![fetched]).2 == 0);
}

/// After a successful fetch at `t0` (made because the slot was empty or stale), a get at `t` is served from the slot exactly while
/// `t` is before `t0 + ttl`; with a time to live of zero every later get fetches.
pub proof fn lemma_ttl_after_fill(
    slot: SlotModel,
    t0: u64,
    t: u64,
    ttl: u64,
    v: Seq<RecordModel>,
    next: FetchModel,
)
    requires
        !slot_fresh(slot, t0),
        t0 <= t,
        t0 + ttl <= u64::MAX,
    ensures
        ({
            let s = get_outcome(slot, t0, ttl, Ok(v)).0;
            &&& (t < t0 + ttl ==> get_outcome(s, t, ttl, next) == (
                s,
                Ok::<Seq<RecordModel>, AuthFailure>(v),
                false,
            ))
            &&& (t >= t0 + ttl ==> get_outcome(s, t, ttl, next).2)
            &&& (ttl == 0 ==> get_outcome(s, t, ttl, next).2)
        }),
{
}

/// A failed fetch leaves the slot in its prior state, and the next get fetches again.
pub proof fn lemma_failed_fetch(
    slot: SlotModel,
    now: u64,
    later: u64,
    ttl: u64,
    reason: Seq<char>,
    next: FetchModel,
)
    requires
        !slot_fresh(slot, now),
        now <= later,
    ensures
        get_outcome(slot, now, ttl, Err(reason)) == (
            slot,
            Err::<Seq<RecordModel>, AuthFailure>(AuthFailure::MissingCredentials(reason)),
            true,
        ),
        get_outcome(get_outcome(slot, now, ttl, Err(reason)).0, later, ttl, next).2,
{
}

} // verus!
