//! The semantic model of the four storage operations the dispatcher
//! routes: what the store's native commands do to its key space, stated
//! over a map from keys to values with an optional absolute expiry time.
//!
//! The dispatcher relies on these store-native meanings being the same
//! whichever connection mode carries the command; the laws here pin them
//! down: writing then reading yields the written value, an expiry is
//! honored once the deadline passes, deletion is idempotent and absent
//! keys delete successfully, and appends concatenate.

use vstd::prelude::*;

verus! {

/// The store's key space: each present key holds its bytes and, when the
/// entry was written with a time-to-live, the absolute time at which it
/// lapses.
pub struct StoreModel {
    /// The entries, keyed by the key's bytes.
    pub entries: Map<Seq<u8>, (Seq<u8>, Option<int>)>,
}

/// What a read of `k` at time `now` observes: the stored bytes, unless the
/// key is absent or its expiry has passed.
pub open spec fn live_value(m: StoreModel, k: Seq<u8>, now: int) -> Option<Seq<u8>> {
    if m.entries.contains_key(k) {
        match m.entries[k].1 {
            Option::Some(deadline) => if now < deadline {
                Option::Some(m.entries[k].0)
            } else {
                Option::None
            },
            Option::None => Option::Some(m.entries[k].0),
        }
    } else {
        Option::None
    }
}

/// A write of `v` to `k` at time `now`: overwrites any prior value and any
/// prior expiry; with a time-to-live the entry lapses `ttl` after `now`,
/// without one it never does.
pub open spec fn op_set(m: StoreModel, k: Seq<u8>, v: Seq<u8>, now: int, ttl: Option<int>) -> StoreModel {
    StoreModel {
        entries: m.entries.insert(
            k,
            (
                v,
                match ttl {
                    Option::Some(d) => Option::Some(now + d),
                    Option::None => Option::None,
                },
            ),
        ),
    }
}

/// A deletion of `k`: removes the entry if present, and is a success
/// either way.
pub open spec fn op_delete(m: StoreModel, k: Seq<u8>) -> StoreModel {
    StoreModel { entries: m.entries.remove(k) }
}

/// An append of `v` to `k` at time `now`: concatenates onto the live
/// value, keeping its expiry; an absent or lapsed key is created fresh
/// with no expiry, as if it held the empty value.
pub open spec fn op_append(m: StoreModel, k: Seq<u8>, v: Seq<u8>, now: int) -> StoreModel {
    match live_value(m, k, now) {
        Option::Some(old_v) => StoreModel {
            entries: m.entries.insert(k, (old_v + v, m.entries[k].1)),
        },
        Option::None => StoreModel { entries: m.entries.insert(k, (v, Option::None)) },
    }
}

/// Writing without an expiry then reading yields exactly the written
/// bytes.
pub proof fn lemma_set_then_get(m: StoreModel, k: Seq<u8>, v: Seq<u8>, now: int)
    ensures
        live_value(op_set(m, k, v, now, Option::None), k, now) == Some(v),
{
}

/// A value written with a time-to-live is still observed before the
/// deadline.
pub proof fn lemma_set_with_ttl_live(
    m: StoreModel,
    k: Seq<u8>,
    v: Seq<u8>,
    now: int,
    ttl: int,
    t: int,
)
    requires
        now <= t < now + ttl,
    ensures
        live_value(op_set(m, k, v, now, Some(ttl)), k, t) == Some(v),
{
}

/// A value written with a time-to-live is gone once the deadline has
/// passed: the expiry is honored.
pub proof fn lemma_set_with_ttl_expires(
    m: StoreModel,
    k: Seq<u8>,
    v: Seq<u8>,
    now: int,
    ttl: int,
    t: int,
)
    requires
        t >= now + ttl,
    ensures
        live_value(op_set(m, k, v, now, Some(ttl)), k, t) is None,
{
}

/// Deleting an absent key is a success that changes nothing.
pub proof fn lemma_delete_absent(m: StoreModel, k: Seq<u8>)
    requires
        !m.entries.contains_key(k),
    ensures
        op_delete(m, k) == m,
{
    assert(m.entries.remove(k) =~= m.entries);
}

/// Deletion is idempotent: deleting twice is deleting once.
pub proof fn lemma_delete_idempotent(m: StoreModel, k: Seq<u8>)
    ensures
        op_delete(op_delete(m, k), k) == op_delete(m, k),
{
    assert(m.entries.remove(k).remove(k) =~= m.entries.remove(k));
}

/// Two appends to a key that held nothing leave exactly the concatenation
/// of the two appended values.
pub proof fn lemma_append_append_get(
    m: StoreModel,
    k: Seq<u8>,
    v1: Seq<u8>,
    v2: Seq<u8>,
    now: int,
)
    requires
        live_value(m, k, now) is None,
    ensures
        live_value(op_append(op_append(m, k, v1, now), k, v2, now), k, now) == Some(v1 + v2),
{
    let m1 = op_append(m, k, v1, now);
    assert(live_value(m1, k, now) == Some(v1));
    let m2 = op_append(m1, k, v2, now);
    assert(live_value(m2, k, now) == Some(v1 + v2));
}

/// Deleting then reading observes nothing, whatever was there before.
pub proof fn lemma_delete_then_get(m: StoreModel, k: Seq<u8>, now: int)
    ensures
        live_value(op_delete(m, k), k, now) is None,
{
}

} // verus!
