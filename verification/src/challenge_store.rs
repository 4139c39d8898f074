//! In-memory, single-use, TTL-bounded store of serialized ceremony state.
//!
//! Entries are keyed by a random ceremony identifier (the 128 bits of a
//! version-4 UUID). `consume` is load-and-delete, so an entry is handed out at
//! most once, and never after its time to live has run out.
//!
//! Time is kept as whole nanoseconds elapsed since the store was created; the
//! decisions are made by the `*_at` methods, which take that reading as an
//! argument, and the methods without the suffix read the clock and call them.

use std::collections::HashMap;
use std::time::{Duration, Instant};
use vstd::prelude::*;

verus! {

/// How long a ceremony's state stays in the store, in seconds.
pub const CHALLENGE_TTL_SECS: u64 = 60;

/// How often expired ceremony states are reaped, in seconds.
pub const CHALLENGE_REAP_INTERVAL_SECS: u64 = 30;


broadcast use vstd::std_specs::hash::group_hash_axioms;

/// A ceremony's stored state: its bytes and when it was stored.
pub type Challenge = (Seq<u8>, u128);

/// The store's contents as a map from ceremony id to stored state.
pub type Challenges = Map<u128, Challenge>;

/// An entry stored at `created_at` has expired at `now` when more than `ttl`
/// nanoseconds have elapsed since then (a reading before `created_at` counts
/// as no time elapsed).
pub open spec fn is_expired(created_at: u128, now: u128, ttl: u128) -> bool {
    now > created_at + ttl
}

/// What consuming `id` at time `now` hands out: the stored bytes when the
/// entry exists and has not expired, nothing otherwise.
pub open spec fn consume_result(m: Challenges, id: u128, now: u128, ttl: u128) -> Option<Seq<u8>> {
    if m.contains_key(id) && !is_expired(m[id].1, now, ttl) {
        Some(m[id].0)
    } else {
        None
    }
}

/// The entries that survive a reap at time `now`: those that have not expired.
pub open spec fn reaped(m: Challenges, now: u128, ttl: u128) -> Challenges {
    Map::new(|k: u128| m.contains_key(k) && !is_expired(m[k].1, now, ttl), |k: u128| m[k])
}

/// std's monotonic clock reading, carried through the store opaquely.
#[verifier::external_type_specification]
#[verifier::external_body]
pub struct ExInstant(Instant);

/// The current instant (std `Instant::now`). No claim is made of it.
#[verifier::external_body]
fn instant_now() -> Instant {
    Instant::now()
}

/// Time elapsed since `origin` (std `Instant::elapsed`). No claim is made of
/// it: it depends on the clock.
#[verifier::external_body]
fn instant_elapsed(origin: &Instant) -> Duration {
    origin.elapsed()
}

/// The whole nanoseconds in a duration (what `Duration::as_nanos` gives).
pub uninterp spec fn duration_nanos(d: Duration) -> u128;

/// Whole nanoseconds in a duration (std `Duration::as_nanos`): the named
/// number.
#[verifier::external_body]
fn duration_as_nanos(d: &Duration) -> (r: u128)
    ensures
        r == duration_nanos(*d),
{
    d.as_nanos()
}

/// Whether 128 bits are those of a version-4 UUID of the RFC 4122 variant:
/// the version nibble is 4 and the two variant bits are `10`.
pub open spec fn is_v4_id(id: u128) -> bool {
    (id >> 76u128) & 0xfu128 == 4 && (id >> 62u128) & 3u128 == 2
}

/// The 128 bits of a fresh random version-4 UUID (`uuid::Uuid::new_v4`,
/// which masks random bits and then sets the version and variant bits).
/// No other claim is made of them: they are random.
#[verifier::external_body]
fn random_ceremony_id() -> (r: u128)
    ensures
        is_v4_id(r),
{
    uuid::Uuid::new_v4().as_u128()
}

/// Entry in the challenge store: serialized ceremony state + creation time.
struct ChallengeEntry {
    data: Vec<u8>,
    created_at: u128,
}

/// The clock reading after reading `elapsed` from the clock, when the
/// latest reading so far was `latest`: the whole nanoseconds of `elapsed`,
/// or `latest` if that is later (readings never go back).
pub open spec fn advanced(latest: u128, elapsed: Duration) -> u128 {
    if duration_nanos(elapsed) > latest {
        duration_nanos(elapsed)
    } else {
        latest
    }
}

/// In-memory, single-use, TTL-bounded challenge store.
pub struct ChallengeStore {
    inner: HashMap<u128, ChallengeEntry>,
    ttl: u128,
    origin: Instant,
    clock: StoreClock,
}

/// The store's view of its clock.
struct StoreClock {
    /// The latest reading, in nanoseconds since the store's origin.
    latest: u128,
    /// Every time elapsed since the origin that the store has read, in order.
    readings: Ghost<Seq<Duration>>,
}

impl StoreClock {
    /// The latest reading is the latest of the times read.
    #[verifier::type_invariant]
    spec fn latest_is_latest_reading(self) -> bool {
        self.latest == latest_reading(self.readings@)
    }
}

impl ChallengeStore {
    /// The stored ceremonies, by id.
    pub closed spec fn challenges(&self) -> Challenges {
        self.inner@.map_values(|e: ChallengeEntry| (e.data@, e.created_at))
    }

    /// The time to live of an entry, in nanoseconds.
    pub closed spec fn ttl(&self) -> u128 {
        self.ttl
    }

    /// The latest clock reading: nanoseconds elapsed since the store was
    /// created, as last read (0 before any reading).
    pub closed spec fn clock(&self) -> u128 {
        self.clock.latest
    }

    /// The times elapsed since the store was created that it has read from
    /// the clock (std `Instant::elapsed`), oldest first.
    pub closed spec fn readings(&self) -> Seq<Duration> {
        self.clock.readings@
    }

    /// An empty store whose entries live for `ttl_nanos` nanoseconds.
    pub fn with_ttl_nanos(ttl_nanos: u128) -> (s: Self)
        ensures
            s.challenges() == Map::<u128, Challenge>::empty(),
            s.ttl() == ttl_nanos,
            s.clock() == 0,
            s.readings() == Seq::<Duration>::empty(),
    {
        let s = ChallengeStore {
            inner: HashMap::new(),
            ttl: ttl_nanos,
            origin: instant_now(),
            clock: StoreClock { latest: 0, readings: Ghost(Seq::empty()) },
        };
        assert(s.challenges() =~= Map::<u128, Challenge>::empty());
        s
    }

    /// An empty store whose entries live for `ttl`.
    pub fn new(ttl: Duration) -> (s: Self)
        ensures
            s.challenges() == Map::<u128, Challenge>::empty(),
            s.ttl() == duration_nanos(ttl),
            s.clock() == 0,
            s.readings() == Seq::<Duration>::empty(),
    {
        let nanos = duration_as_nanos(&ttl);
        Self::with_ttl_nanos(nanos)
    }

    /// Reads the clock: the nanoseconds elapsed since the store was created,
    /// kept as the latest reading unless an earlier one was later. Nothing
    /// else changes.
    fn now(&mut self) -> (r: u128)
        ensures
            final(self).readings().len() == old(self).readings().len() + 1,
            final(self).readings().drop_last() == old(self).readings(),
            r == advanced(old(self).clock(), final(self).readings().last()),
            final(self).clock() == r,
            r == latest_reading(final(self).readings()),
            final(self).challenges() == old(self).challenges(),
            final(self).ttl() == old(self).ttl(),
    {
        proof {
            use_type_invariant(&self.clock);
        }
        let elapsed = instant_elapsed(&self.origin);
        let n = duration_as_nanos(&elapsed);
        let ghost rs = self.clock.readings@.push(elapsed);
        assert(rs.drop_last() =~= self.clock.readings@);
        let latest = if n > self.clock.latest { n } else { self.clock.latest };
        self.clock = StoreClock { latest, readings: Ghost(rs) };
        proof {
            use_type_invariant(&self.clock);
        }
        latest
    }

    /// Stores `data` under `id` at time `now`, replacing what `id` held.
    pub fn insert_at(&mut self, id: u128, data: Vec<u8>, now: u128)
        ensures
            final(self).challenges() == old(self).challenges().insert(id, (data@, now)),
            final(self).ttl() == old(self).ttl(),
            final(self).clock() == old(self).clock(),
            final(self).readings() == old(self).readings(),
    {
        let ghost d = data@;
        self.inner.insert(id, ChallengeEntry { data, created_at: now });
        assert(self.challenges() =~= old(self).challenges().insert(id, (d, now)));
    }

    /// Store ceremony state under a fresh ID, a random version-4 UUID,
    /// stamped with the clock reading taken now. Returns the ceremony ID.
    pub fn insert(&mut self, data: Vec<u8>) -> (id: u128)
        ensures
            is_v4_id(id),
            final(self).readings().len() == old(self).readings().len() + 1,
            final(self).readings().drop_last() == old(self).readings(),
            final(self).clock() == advanced(old(self).clock(), final(self).readings().last()),
            final(self).clock() == latest_reading(final(self).readings()),
            final(self).challenges() == old(self).challenges().insert(id, (data@, final(self).clock())),
            exists|t: u128| final(self).challenges() == #[trigger] old(self).challenges().insert(id, (data@, t)),
            final(self).ttl() == old(self).ttl(),
    {
        let id = random_ceremony_id();
        let now = self.now();
        self.insert_at(id, data, now);
        id
    }

    /// Load and delete the state stored under `id`, as of time `now`: the
    /// entry is gone afterwards whatever is returned, and its bytes are
    /// returned only when it had not expired.
    pub fn consume_at(&mut self, id: u128, now: u128) -> (r: Option<Vec<u8>>)
        ensures
            final(self).challenges() == old(self).challenges().remove(id),
            final(self).ttl() == old(self).ttl(),
            final(self).clock() == old(self).clock(),
            final(self).readings() == old(self).readings(),
            r matches Some(v) ==> consume_result(old(self).challenges(), id, now, old(self).ttl()) == Some(v@),
            r is None ==> consume_result(old(self).challenges(), id, now, old(self).ttl()) is None,
    {
        let removed = self.inner.remove(&id);
        assert(self.challenges() =~= old(self).challenges().remove(id));
        match removed {
            None => None,
            Some(entry) => {
                if now > entry.created_at && now - entry.created_at > self.ttl {
                    None
                } else {
                    Some(entry.data)
                }
            },
        }
    }

    /// Load and delete ceremony state — single-use.
    /// Returns None if the ID is unknown or the entry has expired at the
    /// clock reading taken now.
    pub fn consume(&mut self, id: u128) -> (r: Option<Vec<u8>>)
        ensures
            final(self).readings().len() == old(self).readings().len() + 1,
            final(self).readings().drop_last() == old(self).readings(),
            final(self).clock() == advanced(old(self).clock(), final(self).readings().last()),
            final(self).clock() == latest_reading(final(self).readings()),
            consume_result(old(self).challenges(), id, final(self).clock(), old(self).ttl())
                == match r { Some(v) => Some(v@), None => None },
            final(self).challenges() == old(self).challenges().remove(id),
            final(self).ttl() == old(self).ttl(),
            r matches Some(v) ==> old(self).challenges().contains_key(id) && v@ == old(self).challenges()[id].0,
            !old(self).challenges().contains_key(id) ==> r is None,
            exists|t: u128| #[trigger] consume_result(old(self).challenges(), id, t, old(self).ttl())
                == match r { Some(v) => Some(v@), None => None },
    {
        let now = self.now();
        let r = self.consume_at(id, now);
        assert(consume_result(old(self).challenges(), id, now, old(self).ttl())
            == match r { Some(v) => Some(v@), None => None::<Seq<u8>> });
        r
    }

    /// Remove all entries expired at the clock reading taken now. Called
    /// periodically by a background task.
    pub fn reap_expired(&mut self)
        ensures
            final(self).readings().len() == old(self).readings().len() + 1,
            final(self).readings().drop_last() == old(self).readings(),
            final(self).clock() == advanced(old(self).clock(), final(self).readings().last()),
            final(self).clock() == latest_reading(final(self).readings()),
            final(self).challenges() == reaped(old(self).challenges(), final(self).clock(), old(self).ttl()),
            exists|t: u128| final(self).challenges() == #[trigger] reaped(old(self).challenges(), t, old(self).ttl()),
            final(self).ttl() == old(self).ttl(),
    {
        let now = self.now();
        self.reap_expired_at(now);
    }

    /// Removes every entry that has expired at time `now`.
    pub fn reap_expired_at(&mut self, now: u128)
        ensures
            final(self).challenges() == reaped(old(self).challenges(), now, old(self).ttl()),
            final(self).ttl() == old(self).ttl(),
            final(self).clock() == old(self).clock(),
            final(self).readings() == old(self).readings(),
    {
        let ttl = self.ttl;
        let ghost m0 = self.challenges();
        let mut doomed: Vec<u128> = Vec::new();
        for k in it: self.inner.keys()
            invariant
                self.inner == old(self).inner,
                self.ttl == ttl,
                ttl == old(self).ttl(),
                m0 == old(self).challenges(),
                forall|j: int| 0 <= j < doomed.len() ==> #[trigger] m0.contains_key(doomed[j])
                    && is_expired(m0[doomed[j]].1, now, ttl),
                forall|j: int| 0 <= j < it.index() && is_expired(m0[#[trigger] it.seq().unref()[j]].1, now, ttl)
                    ==> doomed@.contains(it.seq().unref()[j]),
                it.seq().unref().to_set() == m0.dom(),
                it.index() == it.seq().len() ==> forall|k: u128|
                    #[trigger] m0.contains_key(k) && is_expired(m0[k].1, now, ttl) ==> doomed@.contains(k),
        {
            assert(it.seq().unref()[it.index() as int] == *k);
            let e = self.inner.get(k).unwrap();
            assert(m0[*k] == (e.data@, e.created_at));
            let ghost before = doomed@;
            if now > e.created_at && now - e.created_at > ttl {
                doomed.push(*k);
                assert(doomed@ == before.push(*k));
                assert forall|x: u128| before.contains(x) implies doomed@.contains(x) by {
                    let i = choose|i: int| 0 <= i < before.len() && before[i] == x;
                    assert(doomed@[i] == x);
                }
                assert(doomed@[before.len() as int] == *k);
            }
            assert forall|k: u128| it.index() == it.seq().len() && #[trigger] m0.contains_key(k)
                && is_expired(m0[k].1, now, ttl) implies doomed@.contains(k) by {
                assert(it.seq().unref().to_set().contains(k));
                assert(it.seq().unref().contains(k));
            }
        }
        let n = doomed.len();
        for j in 0..n
            invariant
                n == doomed.len(),
                self.ttl == ttl,
                ttl == old(self).ttl(),
                m0 == old(self).challenges(),
                self.challenges() == m0.remove_keys(doomed@.take(j as int).to_set()),
                self.clock == old(self).clock,
        {
            let ghost before = self.challenges();
            self.inner.remove(&doomed[j]);
            assert(doomed@.take(j + 1) =~= doomed@.take(j as int).push(doomed@[j as int]));
            proof { doomed@.take(j as int).lemma_push_to_set_commute(doomed@[j as int]); }
            assert(doomed@.take(j + 1).to_set() =~= doomed@.take(j as int).to_set().insert(doomed@[j as int]));
            assert(self.challenges() =~= before.remove(doomed@[j as int]));
            assert(self.challenges() =~= m0.remove_keys(doomed@.take(j + 1).to_set()));
        }
        assert(doomed@.take(n as int) =~= doomed@);
        assert(self.challenges() =~= reaped(m0, now, ttl));
    }
}

} // verus!

verus! {

/// Single use: once `id` has been consumed, consuming it again, at any time,
/// hands out nothing (a replayed ceremony finish finds no state).
pub proof fn lemma_consume_is_single_use(m: Challenges, id: u128, now: u128, ttl: u128)
    ensures
        consume_result(m.remove(id), id, now, ttl) is None,
{
}

/// State stored at `stored_at` and consumed no more than `ttl` nanoseconds
/// later is handed back exactly as it was stored.
pub proof fn lemma_insert_then_consume(
    m: Challenges,
    id: u128,
    data: Seq<u8>,
    stored_at: u128,
    now: u128,
    ttl: u128,
)
    requires
        now <= stored_at + ttl,
    ensures
        consume_result(m.insert(id, (data, stored_at)), id, now, ttl) == Some(data),
{
}

/// Expired state is never handed out, even while it is still stored.
pub proof fn lemma_expired_never_returned(m: Challenges, id: u128, now: u128, ttl: u128)
    requires
        m.contains_key(id),
        is_expired(m[id].1, now, ttl),
    ensures
        consume_result(m, id, now, ttl) is None,
{
}

/// Ceremonies are independent: storing or consuming one id does not change
/// what consuming another id hands out.
pub proof fn lemma_other_ids_unaffected(
    m: Challenges,
    id: u128,
    other: u128,
    c: Challenge,
    now: u128,
    ttl: u128,
)
    requires
        id != other,
    ensures
        consume_result(m.insert(id, c), other, now, ttl) == consume_result(m, other, now, ttl),
        consume_result(m.remove(id), other, now, ttl) == consume_result(m, other, now, ttl),
{
}

/// Reaping at time `t` changes nothing that a consume at `t` or later would
/// hand out: it only drops entries that could no longer be handed out.
pub proof fn lemma_reap_is_unobservable(m: Challenges, id: u128, t: u128, later: u128, ttl: u128)
    requires
        t <= later,
    ensures
        consume_result(reaped(m, t, ttl), id, later, ttl) == consume_result(m, id, later, ttl),
{
}

} // verus!

verus! {

/// The latest of the elapsed times in `rs`, in whole nanoseconds (0 when
/// there is none).
pub open spec fn latest_reading(rs: Seq<Duration>) -> u128
    decreases rs.len(),
{
    if rs.len() == 0 {
        0
    } else {
        let earlier = latest_reading(rs.drop_last());
        if duration_nanos(rs.last()) > earlier {
            duration_nanos(rs.last())
        } else {
            earlier
        }
    }
}

/// The store's clock reading is the latest time elapsed since its creation
/// that it has read from the clock: true of a new store, and kept by every
/// operation that reads the clock (`insert`, `consume`, `reap_expired`,
/// each of which adds one reading and advances the clock by it). So the
/// clock is never ahead of the time that has really elapsed, and never
/// behind any reading it took.
pub proof fn lemma_clock_is_latest_reading(before: ChallengeStore, after: ChallengeStore)
    requires
        before.clock() == latest_reading(before.readings()),
        after.readings().len() == before.readings().len() + 1,
        after.readings().drop_last() == before.readings(),
        after.clock() == advanced(before.clock(), after.readings().last()),
    ensures
        after.clock() == latest_reading(after.readings()),
        after.clock() >= before.clock(),
        forall|i: int| 0 <= i < after.readings().len() ==> duration_nanos(#[trigger] after.readings()[i]) <= after.clock(),
{
    lemma_latest_reading_bounds(after.readings());
}

/// `latest_reading` is no less than each reading it covers.
proof fn lemma_latest_reading_bounds(rs: Seq<Duration>)
    ensures
        forall|i: int| 0 <= i < rs.len() ==> duration_nanos(#[trigger] rs[i]) <= latest_reading(rs),
    decreases rs.len(),
{
    if rs.len() > 0 {
        lemma_latest_reading_bounds(rs.drop_last());
        assert forall|i: int| 0 <= i < rs.len() implies duration_nanos(#[trigger] rs[i]) <= latest_reading(rs) by {
            if i < rs.len() - 1 {
                assert(rs[i] == rs.drop_last()[i]);
            }
        }
    }
}

/// A ceremony stored by `insert` is stamped with the clock reading that
/// `insert` took, so a `consume` of its id whose clock reading is no more
/// than the store's time to live later hands back exactly the stored state.
pub proof fn lemma_insert_then_consume_in_time(
    before: ChallengeStore,
    stored: ChallengeStore,
    id: u128,
    data: Seq<u8>,
    finished: ChallengeStore,
    r: Option<Seq<u8>>,
)
    requires
        stored.challenges() == before.challenges().insert(id, (data, stored.clock())),
        stored.ttl() == before.ttl(),
        finished.clock() == advanced(stored.clock(), finished.readings().last()),
        r == consume_result(stored.challenges(), id, finished.clock(), stored.ttl()),
        duration_nanos(finished.readings().last()) <= stored.clock() + stored.ttl(),
    ensures
        r == Some(data),
{
}

/// `consume` never hands out a ceremony whose time to live had run out when
/// it read the clock: if the time it read is more than the time to live
/// after the entry's stamp, the answer is `None`, and the entry is gone.
pub proof fn lemma_consume_refuses_expired(
    stored: ChallengeStore,
    finished: ChallengeStore,
    id: u128,
    r: Option<Seq<u8>>,
)
    requires
        stored.challenges().contains_key(id),
        duration_nanos(finished.readings().last()) > stored.challenges()[id].1 + stored.ttl(),
        finished.clock() == advanced(stored.clock(), finished.readings().last()),
        r == consume_result(stored.challenges(), id, finished.clock(), stored.ttl()),
        finished.challenges() == stored.challenges().remove(id),
    ensures
        r is None,
        !finished.challenges().contains_key(id),
{
}

/// A reap keeps every entry that has not expired at the clock reading it
/// took, unchanged, and drops every one that has: in particular an entry
/// stamped no more than the time to live before the time it read survives.
pub proof fn lemma_reap_keeps_live_entries(before: ChallengeStore, after: ChallengeStore, id: u128)
    requires
        after.clock() == advanced(before.clock(), after.readings().last()),
        after.challenges() == reaped(before.challenges(), after.clock(), before.ttl()),
        before.challenges().contains_key(id),
    ensures
        after.challenges().contains_key(id) <==> !is_expired(before.challenges()[id].1, after.clock(), before.ttl()),
        after.challenges().contains_key(id) ==> after.challenges()[id] == before.challenges()[id],
        before.clock() <= before.challenges()[id].1 + before.ttl()
            && duration_nanos(after.readings().last()) <= before.challenges()[id].1 + before.ttl()
            ==> after.challenges().contains_key(id),
{
}

} // verus!
