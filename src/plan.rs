use vstd::prelude::*;

use crate::book_types::MongoStorable;
use crate::error::DatastoreError;

verus! {

/// One call to the cache or to the store.
///
/// Where an action names an `item`, it is the index of the record, among the
/// records handed to the plan's builder, that the call writes.
pub enum Action {
    /// Store `value` under `key`, expiring after `ttl` seconds where one is given.
    CacheSet { key: String, value: String, ttl: Option<usize>, item: usize },
    /// Read the entry under `key`.
    CacheGet { key: String },
    /// Remove the entry under `key`; an absent key is no error.
    CacheDelete { key: String },
    /// Remove the entries under `keys`.
    CacheDeleteMany { keys: Vec<String> },
    /// Remove every entry of the cache.
    CacheFlush,
    /// Insert record `item` into `collection`.
    StoreInsert { collection: String, item: usize },
    /// Read the document with identifier `id` from `collection`.
    StoreFind { collection: String, id: String },
    /// Read the documents of `collection` whose identifiers are among `ids`.
    StoreFindMany { collection: String, ids: Vec<String> },
    /// Read every document of `collection`.
    StoreFindAll { collection: String },
    /// Overwrite the fields of the document `id` of `collection` with record `item`.
    StoreUpdate { collection: String, id: String, item: usize },
    /// Remove the document `id` from `collection`; an absent one is no error.
    StoreDelete { collection: String, id: String },
    /// Remove the documents of `collection` whose identifiers are among `ids`.
    StoreDeleteMany { collection: String, ids: Vec<String> },
    /// Remove every document of `collection`.
    StoreDeleteAll { collection: String },
}

/// The mathematical content of an [`Action`].
pub ghost enum ActionView {
    CacheSet { key: Seq<char>, value: Seq<char>, ttl: Option<nat>, item: nat },
    CacheGet { key: Seq<char> },
    CacheDelete { key: Seq<char> },
    CacheDeleteMany { keys: Seq<Seq<char>> },
    CacheFlush,
    StoreInsert { collection: Seq<char>, item: nat },
    StoreFind { collection: Seq<char>, id: Seq<char> },
    StoreFindMany { collection: Seq<char>, ids: Seq<Seq<char>> },
    StoreFindAll { collection: Seq<char> },
    StoreUpdate { collection: Seq<char>, id: Seq<char>, item: nat },
    StoreDelete { collection: Seq<char>, id: Seq<char> },
    StoreDeleteMany { collection: Seq<char>, ids: Seq<Seq<char>> },
    StoreDeleteAll { collection: Seq<char> },
}

/// The texts of a list of strings.
pub open spec fn texts(v: Seq<String>) -> Seq<Seq<char>> {
    v.map_values(|s: String| s@)
}

/// A time-to-live as a number of seconds.
pub open spec fn ttl_view(ttl: Option<usize>) -> Option<nat> {
    match ttl {
        Some(t) => Some(t as nat),
        None => None,
    }
}

impl View for Action {
    type V = ActionView;

    open spec fn view(&self) -> ActionView {
        match self {
            Action::CacheSet { key, value, ttl, item } => ActionView::CacheSet {
                key: key@,
                value: value@,
                ttl: ttl_view(*ttl),
                item: *item as nat,
            },
            Action::CacheGet { key } => ActionView::CacheGet { key: key@ },
            Action::CacheDelete { key } => ActionView::CacheDelete { key: key@ },
            Action::CacheDeleteMany { keys } => ActionView::CacheDeleteMany { keys: texts(keys@) },
            Action::CacheFlush => ActionView::CacheFlush,
            Action::StoreInsert { collection, item } => ActionView::StoreInsert {
                collection: collection@,
                item: *item as nat,
            },
            Action::StoreFind { collection, id } => ActionView::StoreFind {
                collection: collection@,
                id: id@,
            },
            Action::StoreFindMany { collection, ids } => ActionView::StoreFindMany {
                collection: collection@,
                ids: texts(ids@),
            },
            Action::StoreFindAll { collection } => ActionView::StoreFindAll {
                collection: collection@,
            },
            Action::StoreUpdate { collection, id, item } => ActionView::StoreUpdate {
                collection: collection@,
                id: id@,
                item: *item as nat,
            },
            Action::StoreDelete { collection, id } => ActionView::StoreDelete {
                collection: collection@,
                id: id@,
            },
            Action::StoreDeleteMany { collection, ids } => ActionView::StoreDeleteMany {
                collection: collection@,
                ids: texts(ids@),
            },
            Action::StoreDeleteAll { collection } => ActionView::StoreDeleteAll {
                collection: collection@,
            },
        }
    }
}

/// A fixed sequence of writes, performed in order until one fails.
///
/// When every action has succeeded the operation ends with `outcome`: an
/// error there means the plan was cut short before a record that could not
/// be serialized, after the writes of the records before it.
pub struct Plan {
    pub actions: Vec<Action>,
    pub outcome: Result<(), DatastoreError>,
}

/// The mathematical content of a [`Plan`].
pub ghost struct PlanView {
    pub actions: Seq<ActionView>,
    pub outcome: Result<(), DatastoreError>,
}

impl View for Plan {
    type V = PlanView;

    open spec fn view(&self) -> PlanView {
        PlanView { actions: self.actions@.map_values(|a: Action| a@), outcome: self.outcome }
    }
}

/// What the driver of a plan does next.
#[derive(Clone, Copy, Debug)]
pub enum Step {
    /// Perform the next action of the plan, the one after those already done.
    Perform,
    /// The operation is over, with this result.
    Finish(Result<(), DatastoreError>),
}

/// The decision after `done` actions of `p` were performed, the last of
/// which answered `reply` (`Ok(())` before the first).
pub open spec fn plan_step(p: PlanView, done: nat, reply: Result<(), DatastoreError>) -> Step {
    match reply {
        Err(e) => Step::Finish(Err(e)),
        Ok(_) => if done < p.actions.len() {
            Step::Perform
        } else {
            Step::Finish(p.outcome)
        },
    }
}

impl Plan {
    /// Decides what follows once `done` actions were performed and the last
    /// one answered `reply`: the first failure ends the operation with that
    /// failure; otherwise the next action is performed, and after the last
    /// one the plan's outcome is the result.
    pub fn step(&self, done: usize, reply: Result<(), DatastoreError>) -> (r: Step)
        requires
            done <= self.actions@.len(),
        ensures
            r == plan_step(self@, done as nat, reply),
    {
        match reply {
            Err(e) => Step::Finish(Err(e)),
            Ok(_) => if done < self.actions.len() {
                Step::Perform
            } else {
                Step::Finish(self.outcome)
            },
        }
    }
}

/// The cache write of record `item` of `records`, whose payload serializes.
pub open spec fn cache_write<T: MongoStorable>(
    records: Seq<T>,
    item: int,
    ttl: Option<usize>,
) -> ActionView {
    ActionView::CacheSet {
        key: T::key_of(records[item].id_view()),
        value: records[item].payload_text()->Some_0,
        ttl: ttl_view(ttl),
        item: item as nat,
    }
}

/// The store write of record `item` of `records` into `collection`: an
/// insertion where `insert` holds, an overwrite of the fields otherwise.
pub open spec fn store_write<T: MongoStorable>(
    collection: Seq<char>,
    records: Seq<T>,
    item: int,
    insert: bool,
) -> ActionView {
    if insert {
        ActionView::StoreInsert { collection, item: item as nat }
    } else {
        ActionView::StoreUpdate { collection, id: records[item].id_view(), item: item as nat }
    }
}

/// The writes of the first `n` records of `records`: for each in turn, the
/// cache write and then the store write.
pub open spec fn write_pairs<T: MongoStorable>(
    collection: Seq<char>,
    records: Seq<T>,
    ttl: Option<usize>,
    insert: bool,
    n: nat,
) -> Seq<ActionView>
    decreases n,
{
    if n == 0 {
        Seq::empty()
    } else {
        write_pairs(collection, records, ttl, insert, (n - 1) as nat).push(
            cache_write(records, n - 1, ttl),
        ).push(store_write(collection, records, n - 1, insert))
    }
}

/// Whether the payloads of the first `n` records serialize.
pub open spec fn serializable_prefix<T: MongoStorable>(records: Seq<T>, n: int) -> bool {
    forall|j: int| 0 <= j < n ==> (#[trigger] records[j].payload_text()) is Some
}

/// The plan that writes `records` one after the other, through the cache
/// and then the store, and stops before the first record whose payload does
/// not serialize.
pub open spec fn writes_planned<T: MongoStorable>(
    p: PlanView,
    collection: Seq<char>,
    records: Seq<T>,
    ttl: Option<usize>,
    insert: bool,
) -> bool {
    ||| serializable_prefix(records, records.len() as int) && p == PlanView {
        actions: write_pairs(collection, records, ttl, insert, records.len()),
        outcome: Ok(()),
    }
    ||| exists|k: int|
        0 <= k < records.len() && serializable_prefix(records, k)
            && (#[trigger] records[k].payload_text()) is None && p == PlanView {
            actions: write_pairs(collection, records, ttl, insert, k as nat),
            outcome: Err(DatastoreError::Serialization),
        }
}

/// Builds the write plan of `records` (see [`writes_planned`]).
fn plan_writes<T: MongoStorable>(
    collection: &str,
    records: &Vec<T>,
    ttl: Option<usize>,
    insert: bool,
) -> (p: Plan)
    requires
        2 * records@.len() <= usize::MAX,
    ensures
        writes_planned(p@, collection@, records@, ttl, insert),
{
    let mut actions: Vec<Action> = Vec::new();
    let mut i: usize = 0;
    while i < records.len()
        invariant
            i <= records@.len(),
            2 * records@.len() <= usize::MAX,
            serializable_prefix(records@, i as int),
            actions@.map_values(|a: Action| a@) == write_pairs(
                collection@,
                records@,
                ttl,
                insert,
                i as nat,
            ),
        decreases records@.len() - i,
    {
        let record = &records[i];
        match record.try_to_str() {
            Ok((key, value)) => {
                let ghost before = actions@;
                actions.push(Action::CacheSet { key, value, ttl, item: i });
                let store = if insert {
                    Action::StoreInsert { collection: String::from_str(collection), item: i }
                } else {
                    Action::StoreUpdate {
                        collection: String::from_str(collection),
                        id: String::from_str(record.get_id()),
                        item: i,
                    }
                };
                actions.push(store);
                proof {
                    assert(actions@.map_values(|a: Action| a@) =~= before.map_values(
                        |a: Action| a@,
                    ).push(cache_write(records@, i as int, ttl)).push(
                        store_write(collection@, records@, i as int, insert),
                    ));
                }
                i = i + 1;
            },
            Err(e) => {
                let p = Plan { actions, outcome: Err(e) };
                assert(writes_planned(p@, collection@, records@, ttl, insert)) by {
                    assert(records@[i as int].payload_text() is None);
                }
                return p;
            },
        }
    }
    Plan { actions, outcome: Ok(()) }
}

/// Builds the write plan of the single record `record`.
fn plan_write<T: MongoStorable>(
    collection: &str,
    record: &T,
    ttl: Option<usize>,
    insert: bool,
) -> (p: Plan)
    ensures
        writes_planned(p@, collection@, seq![*record], ttl, insert),
{
    let ghost records = seq![*record];
    match record.try_to_str() {
        Ok((key, value)) => {
            let mut actions: Vec<Action> = Vec::new();
            actions.push(Action::CacheSet { key, value, ttl, item: 0 });
            let store = if insert {
                Action::StoreInsert { collection: String::from_str(collection), item: 0 }
            } else {
                Action::StoreUpdate {
                    collection: String::from_str(collection),
                    id: String::from_str(record.get_id()),
                    item: 0,
                }
            };
            actions.push(store);
            let p = Plan { actions, outcome: Ok(()) };
            proof {
                assert(records[0] == *record);
                assert(serializable_prefix(records, 1));
                assert(write_pairs(collection@, records, ttl, insert, 0) =~= Seq::empty());
                assert(p@.actions =~= write_pairs(collection@, records, ttl, insert, 1));
            }
            p
        },
        Err(e) => {
            let p = Plan { actions: Vec::new(), outcome: Err(e) };
            proof {
                assert(records[0] == *record);
                assert(p@.actions =~= write_pairs(collection@, records, ttl, insert, 0));
            }
            p
        },
    }
}

/// The plan of creating `record` in `collection`: the cache write under the
/// record's key (expiring after `ttl` where one is given), then the insertion
/// into the store. Where the payload does not serialize, nothing is written
/// and the operation fails with a serialization error.
pub fn create_one_plan<T: MongoStorable>(collection: &str, record: &T, ttl: Option<usize>) -> (p:
    Plan)
    ensures
        writes_planned(p@, collection@, seq![*record], ttl, true),
{
    plan_write(collection, record, ttl, true)
}

/// The plan of creating `records` in `collection`: for each record in turn,
/// the cache write and then the insertion, stopping with a serialization
/// error before the first record whose payload does not serialize.
pub fn create_many_plan<T: MongoStorable>(
    collection: &str,
    records: &Vec<T>,
    ttl: Option<usize>,
) -> (p: Plan)
    requires
        2 * records@.len() <= usize::MAX,
    ensures
        writes_planned(p@, collection@, records@, ttl, true),
{
    plan_writes(collection, records, ttl, true)
}

/// The plan of updating `record` in `collection`: the cache entry is
/// overwritten unconditionally, then the stored document's fields are set
/// from the record. Where the payload does not serialize, nothing is written.
pub fn update_one_plan<T: MongoStorable>(collection: &str, record: &T, ttl: Option<usize>) -> (p:
    Plan)
    ensures
        writes_planned(p@, collection@, seq![*record], ttl, false),
{
    plan_write(collection, record, ttl, false)
}

/// The plan of updating `records` in `collection`, one after the other, each
/// as [`update_one_plan`] does with no expiry.
pub fn update_many_plan<T: MongoStorable>(collection: &str, records: &Vec<T>) -> (p: Plan)
    requires
        2 * records@.len() <= usize::MAX,
    ensures
        writes_planned(p@, collection@, records@, None, false),
{
    plan_writes(collection, records, None, false)
}

/// The plan of deleting the record `id` from `collection`: first from the
/// store, then its entry from the cache.
pub fn delete_plan<T: MongoStorable>(collection: &str, id: &str) -> (p: Plan)
    ensures
        p@ == (PlanView {
            actions: seq![
                ActionView::StoreDelete { collection: collection@, id: id@ },
                ActionView::CacheDelete { key: T::key_of(id@) },
            ],
            outcome: Ok(()),
        }),
{
    let mut actions: Vec<Action> = Vec::new();
    actions.push(Action::StoreDelete { collection: String::from_str(collection), id: String::from_str(id) });
    actions.push(Action::CacheDelete { key: T::derive_cache_key(id) });
    let p = Plan { actions, outcome: Ok(()) };
    assert(p@.actions =~= seq![
        ActionView::StoreDelete { collection: collection@, id: id@ },
        ActionView::CacheDelete { key: T::key_of(id@) },
    ]);
    p
}

/// The cache keys of the records with identifiers `ids`.
pub open spec fn keys_of<T: MongoStorable>(ids: Seq<Seq<char>>) -> Seq<Seq<char>> {
    ids.map_values(|id: Seq<char>| T::key_of(id))
}

/// The plan of deleting the records `ids` from `collection`: first from the
/// store, then their entries from the cache.
pub fn delete_many_plan<T: MongoStorable>(collection: &str, ids: &Vec<String>) -> (p: Plan)
    ensures
        p@ == (PlanView {
            actions: seq![
                ActionView::StoreDeleteMany { collection: collection@, ids: texts(ids@) },
                ActionView::CacheDeleteMany { keys: keys_of::<T>(texts(ids@)) },
            ],
            outcome: Ok(()),
        }),
{
    let mut copied: Vec<String> = Vec::new();
    let mut keys: Vec<String> = Vec::new();
    let mut i: usize = 0;
    while i < ids.len()
        invariant
            i <= ids@.len(),
            copied@.len() == i,
            keys@.len() == i,
            forall|j: int| 0 <= j < i ==> (#[trigger] copied@[j])@ == ids@[j]@,
            forall|j: int| 0 <= j < i ==> (#[trigger] keys@[j])@ == T::key_of(ids@[j]@),
        decreases ids@.len() - i,
    {
        copied.push(String::from_str(ids[i].as_str()));
        keys.push(T::derive_cache_key(ids[i].as_str()));
        i = i + 1;
    }
    assert(texts(copied@) =~= texts(ids@));
    assert(texts(keys@) =~= keys_of::<T>(texts(ids@)));
    let mut actions: Vec<Action> = Vec::new();
    actions.push(Action::StoreDeleteMany { collection: String::from_str(collection), ids: copied });
    actions.push(Action::CacheDeleteMany { keys });
    let p = Plan { actions, outcome: Ok(()) };
    assert(p@.actions =~= seq![
        ActionView::StoreDeleteMany { collection: collection@, ids: texts(ids@) },
        ActionView::CacheDeleteMany { keys: keys_of::<T>(texts(ids@)) },
    ]);
    p
}

/// The plan of clearing `collection`: every document of the collection is
/// removed from the store, then the whole cache is flushed, entries of other
/// collections included.
pub fn clear_plan(collection: &str) -> (p: Plan)
    ensures
        p@ == (PlanView {
            actions: seq![
                ActionView::StoreDeleteAll { collection: collection@ },
                ActionView::CacheFlush,
            ],
            outcome: Ok(()),
        }),
{
    let mut actions: Vec<Action> = Vec::new();
    actions.push(Action::StoreDeleteAll { collection: String::from_str(collection) });
    actions.push(Action::CacheFlush);
    let p = Plan { actions, outcome: Ok(()) };
    assert(p@.actions =~= seq![
        ActionView::StoreDeleteAll { collection: collection@ },
        ActionView::CacheFlush,
    ]);
    p
}

/// The one call that reads every document of `collection`: bulk reads go to
/// the store and never consult the cache.
pub fn read_all_action(collection: &str) -> (a: Action)
    ensures
        a@ == (ActionView::StoreFindAll { collection: collection@ }),
{
    Action::StoreFindAll { collection: String::from_str(collection) }
}

/// The one call that reads the documents of `collection` whose identifiers
/// are among `ids`: it goes to the store and never consults the cache.
pub fn read_many_action(collection: &str, ids: &Vec<String>) -> (a: Action)
    ensures
        a@ == (ActionView::StoreFindMany { collection: collection@, ids: texts(ids@) }),
{
    let mut copied: Vec<String> = Vec::new();
    let mut i: usize = 0;
    while i < ids.len()
        invariant
            i <= ids@.len(),
            copied@.len() == i,
            forall|j: int| 0 <= j < i ==> (#[trigger] copied@[j])@ == ids@[j]@,
        decreases ids@.len() - i,
    {
        copied.push(String::from_str(ids[i].as_str()));
        i = i + 1;
    }
    assert(texts(copied@) =~= texts(ids@));
    Action::StoreFindMany { collection: String::from_str(collection), ids: copied }
}

} // verus!
