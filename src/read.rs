use vstd::prelude::*;

use crate::book_types::MongoStorable;
use crate::cache::{Cache, CacheState};
use crate::error::DatastoreError;
use crate::plan::{Action, ActionView};

verus! {

/// What the cache or the store answered to a lookup of one record.
pub enum Lookup<T> {
    /// A record was there, and it could be read back.
    Found(T),
    /// Nothing is held under that key or identifier.
    Absent,
    /// The lookup failed, or what was held could not be read back.
    Failed(DatastoreError),
}

/// What the driver of a read does next.
pub enum ReadStep<T> {
    /// Perform this lookup in the store and hand its answer to
    /// [`ReadOp::on_store_reply`].
    Fetch(Action),
    /// The read is over, with this result.
    Done(Result<Cache<T>, DatastoreError>),
}

/// The result of a read once the cache has answered `reply`, or `None`
/// where the read falls back to the store.
///
/// Only a record found in the cache ends the read there; an absent entry, an
/// entry that could not be read back and a failing cache all fall back.
pub open spec fn cache_decision<T>(reply: Lookup<T>) -> Option<Result<Cache<T>, DatastoreError>> {
    match reply {
        Lookup::Found(t) => Some(Ok(Cache { state: CacheState::Hit, data: t })),
        _ => None,
    }
}

/// The result of a read that fell back to the store, once the store has
/// answered `reply`.
pub open spec fn store_decision<T>(reply: Lookup<T>) -> Result<Cache<T>, DatastoreError> {
    match reply {
        Lookup::Found(t) => Ok(Cache { state: CacheState::Miss, data: t }),
        Lookup::Absent => Err(DatastoreError::NotFound),
        Lookup::Failed(e) => Err(e),
    }
}

/// A read of the record `id` of `collection`: first the cache under the
/// record's key, then, where the cache cannot answer, the store.
///
/// A record found in the store is not written back into the cache: until the
/// next create or update of that record, each read of it goes to the store.
pub struct ReadOp {
    pub collection: String,
    pub id: String,
    pub key: String,
}

impl ReadOp {
    /// The read of the record `id` of `collection`, of the record kind `T`.
    pub fn new<T: MongoStorable>(collection: &str, id: &str) -> (r: ReadOp)
        ensures
            r.collection@ == collection@,
            r.id@ == id@,
            r.key@ == T::key_of(id@),
    {
        ReadOp {
            collection: String::from_str(collection),
            id: String::from_str(id),
            key: T::derive_cache_key(id),
        }
    }

    /// The first call of the read: the cache lookup under the record's key.
    pub fn first_action(&self) -> (a: Action)
        ensures
            a@ == (ActionView::CacheGet { key: self.key@ }),
    {
        Action::CacheGet { key: self.key.clone() }
    }

    /// Decides what follows the cache's answer `reply`.
    pub fn on_cache_reply<T>(&self, reply: Lookup<T>) -> (r: ReadStep<T>)
        ensures
            match cache_decision(reply) {
                Some(res) => r == ReadStep::Done(res),
                None => r is Fetch && r->Fetch_0@ == (ActionView::StoreFind {
                    collection: self.collection@,
                    id: self.id@,
                }),
            },
    {
        match reply {
            Lookup::Found(t) => ReadStep::Done(Ok(Cache { state: CacheState::Hit, data: t })),
            _ => ReadStep::Fetch(
                Action::StoreFind { collection: self.collection.clone(), id: self.id.clone() },
            ),
        }
    }

    /// The result of the read, once the store has answered `reply`.
    pub fn on_store_reply<T>(&self, reply: Lookup<T>) -> (r: Result<Cache<T>, DatastoreError>)
        ensures
            r == store_decision(reply),
    {
        match reply {
            Lookup::Found(t) => Ok(Cache { state: CacheState::Miss, data: t }),
            Lookup::Absent => Err(DatastoreError::NotFound),
            Lookup::Failed(e) => Err(e),
        }
    }
}

} // verus!
