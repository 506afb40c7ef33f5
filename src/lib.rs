//! A write-through cache orchestration layer over a document store and a
//! key/value cache.
//!
//! The library decides, for every create, read, update and delete, which
//! cache and store calls are made, in which order, and what the caller is
//! told. The calls themselves are performed by whoever drives the plans and
//! the read machine (see `plan` and `read`); `model` states, over an abstract
//! cache and store, what the orchestration guarantees.
pub mod book_types;
pub mod cache;
pub mod error;
pub mod json;
pub mod model;
pub mod plan;
pub mod read;

pub use crate::book_types::{Book, BookRecord, Bookstore, BookstoreRecord, MongoStorable};
pub use crate::cache::{Cache, CacheState};
pub use crate::error::DatastoreError;
