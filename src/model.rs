//! An abstract cache and store that behave as their interfaces promise, and
//! what the datastore's plans and reads do against them.
use vstd::prelude::*;

use crate::book_types::MongoStorable;
use crate::cache::{Cache, CacheState};
use crate::error::DatastoreError;
use crate::plan::{
    cache_write, serializable_prefix, store_write, write_pairs, writes_planned, ActionView,
    PlanView, plan_step, Step,
};
use crate::read::{cache_decision, store_decision, Lookup};

verus! {

/// A cache entry: the record its value stands for, and the second at which
/// it expires, if it does.
pub ghost struct Entry<T> {
    pub record: T,
    pub expires: Option<nat>,
}

/// The cache, the store and the clock.
///
/// A cache entry is modelled by the record its value stands for: reading a
/// live entry back yields the record whose serialized payload was written.
pub ghost struct World<T> {
    /// Cache entries by key.
    pub cache: Map<Seq<char>, Entry<T>>,
    /// Documents by collection, then by identifier.
    pub store: Map<Seq<char>, Map<Seq<char>, T>>,
    /// The current second.
    pub now: nat,
}

/// The second at which an entry written at `now` with `ttl` expires.
pub open spec fn expiry(now: nat, ttl: Option<nat>) -> Option<nat> {
    match ttl {
        Some(t) => Some(now + t),
        None => None,
    }
}

/// Whether the cache holds an unexpired entry under `key`.
pub open spec fn live<T>(w: World<T>, key: Seq<char>) -> bool {
    &&& w.cache.contains_key(key)
    &&& match w.cache[key].expires {
        Some(t) => w.now < t,
        None => true,
    }
}

/// The documents of `collection`, none where the collection was never written.
pub open spec fn documents<T>(w: World<T>, collection: Seq<char>) -> Map<Seq<char>, T> {
    if w.store.contains_key(collection) {
        w.store[collection]
    } else {
        Map::empty()
    }
}

/// `w` with the documents of `collection` replaced by `docs`.
pub open spec fn with_documents<T>(
    w: World<T>,
    collection: Seq<char>,
    docs: Map<Seq<char>, T>,
) -> World<T> {
    World { cache: w.cache, store: w.store.insert(collection, docs), now: w.now }
}

/// `w` with the cache replaced by `cache`.
pub open spec fn with_cache<T>(w: World<T>, cache: Map<Seq<char>, Entry<T>>) -> World<T> {
    World { cache, store: w.store, now: w.now }
}

/// `w` after `secs` seconds have passed.
pub open spec fn elapse<T>(w: World<T>, secs: nat) -> World<T> {
    World { cache: w.cache, store: w.store, now: w.now + secs }
}

/// The effect and the answer of the write `a`, whose `item`s index `items`.
///
/// Deletions succeed whether or not anything was there; inserting an
/// identifier that the collection already holds is refused; an update of an
/// absent document changes nothing.
pub open spec fn perform<T: MongoStorable>(w: World<T>, a: ActionView, items: Seq<T>) -> (
    World<T>,
    Result<(), DatastoreError>,
) {
    match a {
        ActionView::CacheSet { key, value, ttl, item } => if item < items.len() {
            (
                with_cache(
                    w,
                    w.cache.insert(
                        key,
                        Entry { record: items[item as int], expires: expiry(w.now, ttl) },
                    ),
                ),
                Ok(()),
            )
        } else {
            (w, Err(DatastoreError::Command))
        },
        ActionView::CacheDelete { key } => (with_cache(w, w.cache.remove(key)), Ok(())),
        ActionView::CacheDeleteMany { keys } => (
            with_cache(w, w.cache.remove_keys(keys.to_set())),
            Ok(()),
        ),
        ActionView::CacheFlush => (with_cache(w, Map::empty()), Ok(())),
        ActionView::StoreInsert { collection, item } => if item < items.len()
            && !documents(w, collection).contains_key(items[item as int].id_view()) {
            (
                with_documents(
                    w,
                    collection,
                    documents(w, collection).insert(
                        items[item as int].id_view(),
                        items[item as int],
                    ),
                ),
                Ok(()),
            )
        } else {
            (w, Err(DatastoreError::Command))
        },
        ActionView::StoreUpdate { collection, id, item } => if item >= items.len() {
            (w, Err(DatastoreError::Command))
        } else if documents(w, collection).contains_key(id) {
            (
                with_documents(
                    w,
                    collection,
                    documents(w, collection).insert(id, items[item as int]),
                ),
                Ok(()),
            )
        } else {
            (w, Ok(()))
        },
        ActionView::StoreDelete { collection, id } => (
            with_documents(w, collection, documents(w, collection).remove(id)),
            Ok(()),
        ),
        ActionView::StoreDeleteMany { collection, ids } => (
            with_documents(w, collection, documents(w, collection).remove_keys(ids.to_set())),
            Ok(()),
        ),
        ActionView::StoreDeleteAll { collection } => (
            with_documents(w, collection, Map::empty()),
            Ok(()),
        ),
        _ => (w, Ok(())),
    }
}

/// The answer to the lookup `a`.
pub open spec fn answer<T>(w: World<T>, a: ActionView) -> Lookup<T> {
    match a {
        ActionView::CacheGet { key } => if live(w, key) {
            Lookup::Found(w.cache[key].record)
        } else {
            Lookup::Absent
        },
        ActionView::StoreFind { collection, id } => if documents(w, collection).contains_key(id) {
            Lookup::Found(documents(w, collection)[id])
        } else {
            Lookup::Absent
        },
        _ => Lookup::Failed(DatastoreError::Command),
    }
}

/// The world and the result after driving plan `p` by [`plan_step`], from
/// the point where `done` actions were performed and the last answered `reply`.
pub open spec fn run_plan<T: MongoStorable>(
    w: World<T>,
    p: PlanView,
    items: Seq<T>,
    done: nat,
    reply: Result<(), DatastoreError>,
) -> (World<T>, Result<(), DatastoreError>)
    decreases p.actions.len() - done,
{
    match plan_step(p, done, reply) {
        Step::Finish(r) => (w, r),
        Step::Perform => if done < p.actions.len() {
            let (next, answered) = perform(w, p.actions[done as int], items);
            run_plan(next, p, items, done + 1, answered)
        } else {
            (w, reply)
        },
    }
}

/// Plan `p` run on `w` from its start.
pub open spec fn run<T: MongoStorable>(w: World<T>, p: PlanView, items: Seq<T>) -> (
    World<T>,
    Result<(), DatastoreError>,
) {
    run_plan(w, p, items, 0, Ok(()))
}

/// The result of reading the record `id` of `collection` in `w`: the cache
/// lookup under the key of `id`, then, where the cache cannot answer, the
/// store lookup, each decided as [`crate::read::ReadOp`] decides.
pub open spec fn run_read<T: MongoStorable>(
    w: World<T>,
    collection: Seq<char>,
    id: Seq<char>,
) -> Result<Cache<T>, DatastoreError> {
    match cache_decision(answer(w, ActionView::CacheGet { key: T::key_of(id) })) {
        Some(r) => r,
        None => store_decision(answer(w, ActionView::StoreFind { collection, id })),
    }
}

/// The actions of the write pairs of `n` records sit at even and odd places.
proof fn lemma_write_pairs_index<T: MongoStorable>(
    collection: Seq<char>,
    records: Seq<T>,
    ttl: Option<usize>,
    insert: bool,
    n: nat,
    j: int,
)
    requires
        0 <= j < n,
    ensures
        write_pairs(collection, records, ttl, insert, n).len() == 2 * n,
        write_pairs(collection, records, ttl, insert, n)[2 * j] == cache_write(records, j, ttl),
        write_pairs(collection, records, ttl, insert, n)[2 * j + 1] == store_write(
            collection,
            records,
            j,
            insert,
        ),
    decreases n,
{
    lemma_write_pairs_len(collection, records, ttl, insert, n);
    if j < n - 1 {
        lemma_write_pairs_index(collection, records, ttl, insert, (n - 1) as nat, j);
        lemma_write_pairs_len(collection, records, ttl, insert, (n - 1) as nat);
    } else {
        lemma_write_pairs_len(collection, records, ttl, insert, (n - 1) as nat);
    }
}

proof fn lemma_write_pairs_len<T: MongoStorable>(
    collection: Seq<char>,
    records: Seq<T>,
    ttl: Option<usize>,
    insert: bool,
    n: nat,
)
    ensures
        write_pairs(collection, records, ttl, insert, n).len() == 2 * n,
    decreases n,
{
    if n > 0 {
        lemma_write_pairs_len(collection, records, ttl, insert, (n - 1) as nat);
    }
}

/// Running a plan of two actions: it stops at the first failure, and
/// otherwise ends with its outcome.
proof fn lemma_run_pair<T: MongoStorable>(w: World<T>, p: PlanView, items: Seq<T>)
    requires
        p.actions.len() == 2,
    ensures
        ({
            let (w1, r1) = perform(w, p.actions[0], items);
            let (w2, r2) = perform(w1, p.actions[1], items);
            run(w, p, items) == if r1 is Err {
                (w1, r1)
            } else if r2 is Err {
                (w2, r2)
            } else {
                (w2, p.outcome)
            }
        }),
{
    let (w1, r1) = perform(w, p.actions[0], items);
    let (w2, r2) = perform(w1, p.actions[1], items);
    assert(run_plan(w, p, items, 0, Ok(())) == run_plan(w1, p, items, 1, r1));
    if r1 is Ok {
        assert(run_plan(w1, p, items, 1, r1) == run_plan(w2, p, items, 2, r2));
        assert(run_plan(w2, p, items, 2, r2) == (w2, if r2 is Err {
            r2
        } else {
            p.outcome
        }));
    }
}

/// A one-record write plan that ran to success performed both writes.
proof fn lemma_single_write<T: MongoStorable>(
    w: World<T>,
    collection: Seq<char>,
    record: T,
    ttl: Option<usize>,
    insert: bool,
    p: PlanView,
)
    requires
        writes_planned(p, collection, seq![record], ttl, insert),
        run(w, p, seq![record]).1 is Ok,
    ensures
        record.payload_text() is Some,
        p.actions == seq![
            cache_write(seq![record], 0, ttl),
            store_write(collection, seq![record], 0, insert),
        ],
        ({
            let w1 = perform(w, p.actions[0], seq![record]).0;
            &&& perform(w, p.actions[0], seq![record]).1 is Ok
            &&& perform(w1, p.actions[1], seq![record]).1 is Ok
            &&& run(w, p, seq![record]).0 == perform(w1, p.actions[1], seq![record]).0
        }),
{
    let items = seq![record];
    if !serializable_prefix(items, items.len() as int) {
        let k = choose|k: int|
            0 <= k < items.len() && serializable_prefix(items, k)
                && (#[trigger] items[k].payload_text()) is None && p == PlanView {
                actions: write_pairs(collection, items, ttl, insert, k as nat),
                outcome: Err(DatastoreError::Serialization),
            };
        assert(k == 0);
        assert(p.actions.len() == 0);
        assert(run(w, p, items).1 is Err);
    }
    assert(items[0] == record);
    lemma_write_pairs_index(collection, items, ttl, insert, 1, 0);
    assert(p.actions =~= seq![
        cache_write(items, 0, ttl),
        store_write(collection, items, 0, insert),
    ]);
    lemma_run_pair(w, p, items);
}

/// A record created with no expiry is then read from the cache, as it was
/// written.
pub proof fn lemma_create_then_read_hits<T: MongoStorable>(
    w: World<T>,
    collection: Seq<char>,
    record: T,
    p: PlanView,
)
    requires
        writes_planned(p, collection, seq![record], None, true),
        run(w, p, seq![record]).1 is Ok,
    ensures
        run_read(run(w, p, seq![record]).0, collection, record.id_view()) == Ok::<
            Cache<T>,
            DatastoreError,
        >(Cache { state: CacheState::Hit, data: record }),
{
    lemma_single_write(w, collection, record, None, true, p);
    lemma_write_pairs_index(collection, seq![record], None, true, 1, 0);
    let items = seq![record];
    assert(items[0] == record);
    let w1 = perform(w, p.actions[0], items).0;
    let w2 = perform(w1, p.actions[1], items).0;
    assert(w2.cache == w1.cache);
    assert(live(w2, T::key_of(record.id_view())));
}

/// A read's answer: the record, from the cache or from the store.
pub open spec fn read_gives<T>(r: Result<Cache<T>, DatastoreError>, state: CacheState, record: T) -> bool {
    r == Ok::<Cache<T>, DatastoreError>(Cache { state, data: record })
}

/// A record created with a time-to-live of `ttl` seconds is, once at least
/// `ttl` seconds have passed, read from the store, as it was written.
pub proof fn lemma_expired_read_misses<T: MongoStorable>(
    w: World<T>,
    collection: Seq<char>,
    record: T,
    ttl: usize,
    p: PlanView,
    wait: nat,
)
    requires
        writes_planned(p, collection, seq![record], Some(ttl), true),
        run(w, p, seq![record]).1 is Ok,
        wait >= ttl,
    ensures
        read_gives(
            run_read(elapse(run(w, p, seq![record]).0, wait), collection, record.id_view()),
            CacheState::Miss,
            record,
        ),
{
    lemma_single_write(w, collection, record, Some(ttl), true, p);
    let items = seq![record];
    assert(items[0] == record);
    let w1 = perform(w, p.actions[0], items).0;
    let w2 = perform(w1, p.actions[1], items).0;
    let later = elapse(w2, wait);
    let key = T::key_of(record.id_view());
    assert(later.cache[key].expires == Some((w.now + ttl) as nat));
    assert(!live(later, key));
    assert(documents(later, collection) == documents(w1, collection).insert(
        record.id_view(),
        record,
    ));
}

/// Once a stored record is updated to `record`, every later read of it,
/// however much later, yields `record`: from the cache while the new entry
/// lives, from the store after.
pub proof fn lemma_update_then_read<T: MongoStorable>(
    w: World<T>,
    collection: Seq<char>,
    record: T,
    ttl: Option<usize>,
    p: PlanView,
    wait: nat,
)
    requires
        writes_planned(p, collection, seq![record], ttl, false),
        documents(w, collection).contains_key(record.id_view()),
        run(w, p, seq![record]).1 is Ok,
    ensures
        ({
            let r = run_read(elapse(run(w, p, seq![record]).0, wait), collection, record.id_view());
            read_gives(r, CacheState::Hit, record) || read_gives(r, CacheState::Miss, record)
        }),
{
    lemma_single_write(w, collection, record, ttl, false, p);
    let items = seq![record];
    assert(items[0] == record);
    let w1 = perform(w, p.actions[0], items).0;
    let w2 = perform(w1, p.actions[1], items).0;
    let later = elapse(w2, wait);
    let key = T::key_of(record.id_view());
    assert(later.cache[key].record == record);
    assert(documents(w1, collection) == documents(w, collection));
    assert(documents(later, collection) == documents(w1, collection).insert(
        record.id_view(),
        record,
    ));
}

/// The plan view that [`crate::plan::delete_plan`] builds.
pub open spec fn delete_planned<T: MongoStorable>(
    p: PlanView,
    collection: Seq<char>,
    id: Seq<char>,
) -> bool {
    p == PlanView {
        actions: seq![
            ActionView::StoreDelete { collection, id },
            ActionView::CacheDelete { key: T::key_of(id) },
        ],
        outcome: Ok(()),
    }
}

/// Once the record `id` is deleted, reading it fails with `NotFound`.
pub proof fn lemma_delete_then_read_not_found<T: MongoStorable>(
    w: World<T>,
    collection: Seq<char>,
    id: Seq<char>,
    p: PlanView,
)
    requires
        delete_planned::<T>(p, collection, id),
    ensures
        run(w, p, Seq::<T>::empty()).1 == Ok::<(), DatastoreError>(()),
        run_read::<T>(run(w, p, Seq::<T>::empty()).0, collection, id) == Err::<
            Cache<T>,
            DatastoreError,
        >(DatastoreError::NotFound),
{
    lemma_run_pair(w, p, Seq::<T>::empty());
    let w2 = run(w, p, Seq::<T>::empty()).0;
    assert(!w2.cache.contains_key(T::key_of(id)));
    assert(!documents(w2, collection).contains_key(id));
}

/// Deleting a record twice in a row succeeds both times, and the second
/// deletion, whose cache entry is already gone, changes nothing.
pub proof fn lemma_delete_twice<T: MongoStorable>(
    w: World<T>,
    collection: Seq<char>,
    id: Seq<char>,
    p: PlanView,
)
    requires
        delete_planned::<T>(p, collection, id),
    ensures
        ({
            let (w1, r1) = run(w, p, Seq::<T>::empty());
            let (w2, r2) = run(w1, p, Seq::<T>::empty());
            &&& r1 == Ok::<(), DatastoreError>(())
            &&& r2 == Ok::<(), DatastoreError>(())
            &&& w2 == w1
        }),
{
    let items = Seq::<T>::empty();
    lemma_run_pair(w, p, items);
    let w1 = run(w, p, items).0;
    lemma_run_pair(w1, p, items);
    let w2 = run(w1, p, items).0;
    assert(documents(w1, collection).remove(id) =~= documents(w1, collection));
    assert(w1.cache.remove(T::key_of(id)) =~= w1.cache);
    assert(w1.store.insert(collection, documents(w1, collection)) =~= w1.store);
    assert(w2 == w1);
}

/// Whether the first `n` records have pairwise distinct identifiers.
pub open spec fn distinct_ids<T: MongoStorable>(records: Seq<T>, n: int) -> bool {
    forall|i: int, l: int|
        0 <= i < l < n ==> (#[trigger] records[i].id_view()) != (#[trigger] records[l].id_view())
}

/// Whether `id` is none of the identifiers of the first `n` records.
pub open spec fn outside_prefix<T: MongoStorable>(records: Seq<T>, n: int, id: Seq<char>) -> bool {
    forall|i: int| 0 <= i < n ==> (#[trigger] records[i].id_view()) != id
}

/// Whether `after` holds the same document as `before` under `id`, or none
/// in both.
pub open spec fn same_document<T>(before: Map<Seq<char>, T>, after: Map<Seq<char>, T>, id: Seq<char>) -> bool {
    &&& after.contains_key(id) == before.contains_key(id)
    &&& before.contains_key(id) ==> after[id] == before[id]
}

/// After the writes of the first `j` of `n` planned records, those `j` are
/// in the store and the cache and the rest are not yet in the store.
proof fn lemma_write_prefix<T: MongoStorable>(
    w: World<T>,
    collection: Seq<char>,
    records: Seq<T>,
    ttl: Option<usize>,
    p: PlanView,
    n: nat,
    j: nat,
) -> (wj: World<T>)
    requires
        p.actions == write_pairs(collection, records, ttl, true, n),
        j <= n <= records.len(),
        serializable_prefix(records, n as int),
        distinct_ids(records, n as int),
        forall|i: int| 0 <= i < n ==> !documents(w, collection).contains_key(#[trigger] records[i].id_view()),
    ensures
        run(w, p, records) == run_plan(wj, p, records, 2 * j, Ok(())),
        forall|i: int|
            0 <= i < j ==> documents(wj, collection).contains_key(#[trigger] records[i].id_view())
                && documents(wj, collection)[records[i].id_view()] == records[i]
                && wj.cache.contains_key(T::key_of(records[i].id_view())),
        forall|i: int| j <= i < n ==> !documents(wj, collection).contains_key(#[trigger] records[i].id_view()),
        forall|id: Seq<char>|
            outside_prefix(records, j as int, id) ==> #[trigger] same_document(
                documents(w, collection),
                documents(wj, collection),
                id,
            ),
    decreases j,
{
    if j == 0 {
        w
    } else {
        let prev = lemma_write_prefix(w, collection, records, ttl, p, n, (j - 1) as nat);
        let m = j - 1;
        lemma_write_pairs_index(collection, records, ttl, true, n, m);
        let (w1, r1) = perform(prev, p.actions[2 * m], records);
        assert(r1 is Ok);
        assert(documents(w1, collection) == documents(prev, collection));
        let (w2, r2) = perform(w1, p.actions[2 * m + 1], records);
        assert(r2 is Ok);
        assert(run_plan(prev, p, records, 2 * m as nat, Ok(())) == run_plan(w1, p, records, (2 * m + 1) as nat, r1));
        assert(run_plan(w1, p, records, (2 * m + 1) as nat, r1) == run_plan(w2, p, records, 2 * j, r2));
        assert forall|i: int| 0 <= i < j implies documents(w2, collection).contains_key(#[trigger] records[i].id_view())
            && documents(w2, collection)[records[i].id_view()] == records[i]
            && w2.cache.contains_key(T::key_of(records[i].id_view())) by {
            if i < m {
                assert(records[i].id_view() != records[m].id_view());
            }
        }
        assert forall|i: int| j <= i < n implies !documents(w2, collection).contains_key(#[trigger] records[i].id_view()) by {
            assert(records[m].id_view() != records[i].id_view());
        }
        assert forall|id: Seq<char>| outside_prefix(records, j as int, id) implies #[trigger] same_document(
            documents(w, collection),
            documents(w2, collection),
            id,
        ) by {
            assert(records[m].id_view() != id);
            assert(outside_prefix(records, m, id));
            assert(same_document(documents(w, collection), documents(prev, collection), id));
        }
        w2
    }
}

/// A batch creation whose record `k` does not serialize fails with a
/// serialization error, after committing each record before `k` to the
/// store and the cache; no other document of the collection is touched.
///
/// The records before `k` are taken with distinct identifiers that the
/// collection does not hold yet: otherwise an insertion before `k` fails
/// first and the batch reports that failure instead.
pub proof fn lemma_batch_stops_at_unserializable<T: MongoStorable>(
    w: World<T>,
    collection: Seq<char>,
    records: Seq<T>,
    ttl: Option<usize>,
    p: PlanView,
    k: int,
)
    requires
        writes_planned(p, collection, records, ttl, true),
        0 <= k < records.len(),
        serializable_prefix(records, k),
        records[k].payload_text() is None,
        distinct_ids(records, k),
        forall|i: int| 0 <= i < k ==> !documents(w, collection).contains_key(#[trigger] records[i].id_view()),
    ensures
        run(w, p, records).1 == Err::<(), DatastoreError>(DatastoreError::Serialization),
        forall|i: int|
            0 <= i < k ==> documents(run(w, p, records).0, collection).contains_key(#[trigger] records[i].id_view())
                && documents(run(w, p, records).0, collection)[records[i].id_view()] == records[i]
                && run(w, p, records).0.cache.contains_key(T::key_of(records[i].id_view())),
        forall|id: Seq<char>|
            outside_prefix(records, k, id) ==> #[trigger] same_document(
                documents(w, collection),
                documents(run(w, p, records).0, collection),
                id,
            ),
{
    assert(!serializable_prefix(records, records.len() as int));
    let k2 = choose|k2: int|
        0 <= k2 < records.len() && serializable_prefix(records, k2)
            && (#[trigger] records[k2].payload_text()) is None && p == PlanView {
            actions: write_pairs(collection, records, ttl, true, k2 as nat),
            outcome: Err(DatastoreError::Serialization),
        };
    if k2 < k {
        assert(records[k2].payload_text() is Some);
    }
    if k < k2 {
        assert(records[k].payload_text() is Some);
    }
    assert(k2 == k);
    let wk = lemma_write_prefix(w, collection, records, ttl, p, k as nat, k as nat);
    lemma_write_pairs_len(collection, records, ttl, true, k as nat);
    assert(run_plan(wk, p, records, 2 * k as nat, Ok(())) == (wk, p.outcome));
}

} // verus!
