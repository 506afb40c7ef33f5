use std::collections::HashMap;

use datastore::plan::{
    clear_plan, create_many_plan, create_one_plan, delete_plan, update_one_plan, Action, Plan, Step,
};
use datastore::read::{Lookup, ReadOp, ReadStep};
use datastore::{Book, BookRecord, Cache, CacheState, DatastoreError};

/// An in-memory cache and store, with a clock, that answer the library's
/// actions the way the real backends do.
struct Backends {
    cache: HashMap<String, (String, Option<u64>)>,
    store: HashMap<String, HashMap<String, BookRecord>>,
    now: u64,
    cache_down: bool,
}

impl Backends {
    fn new() -> Self {
        Backends { cache: HashMap::new(), store: HashMap::new(), now: 0, cache_down: false }
    }

    fn perform(&mut self, action: &Action, items: &[BookRecord]) -> Result<(), DatastoreError> {
        match action {
            Action::CacheSet { key, value, ttl, .. } => {
                if self.cache_down {
                    return Err(DatastoreError::Connection);
                }
                let expires = ttl.map(|t| self.now + t as u64);
                self.cache.insert(key.clone(), (value.clone(), expires));
            }
            Action::CacheDelete { key } => {
                self.cache.remove(key);
            }
            Action::CacheDeleteMany { keys } => {
                for key in keys {
                    self.cache.remove(key);
                }
            }
            Action::CacheFlush => self.cache.clear(),
            Action::StoreInsert { collection, item } => {
                let record = items[*item].clone();
                let docs = self.store.entry(collection.clone()).or_default();
                if docs.contains_key(&record._id) {
                    return Err(DatastoreError::Command);
                }
                docs.insert(record._id.clone(), record);
            }
            Action::StoreUpdate { collection, id, item } => {
                let docs = self.store.entry(collection.clone()).or_default();
                if let Some(doc) = docs.get_mut(id) {
                    *doc = items[*item].clone();
                }
            }
            Action::StoreDelete { collection, id } => {
                self.store.entry(collection.clone()).or_default().remove(id);
            }
            Action::StoreDeleteMany { collection, ids } => {
                let docs = self.store.entry(collection.clone()).or_default();
                for id in ids {
                    docs.remove(id);
                }
            }
            Action::StoreDeleteAll { collection } => {
                self.store.insert(collection.clone(), HashMap::new());
            }
            _ => {}
        }
        Ok(())
    }

    fn lookup(&self, action: &Action) -> Lookup<BookRecord> {
        match action {
            Action::CacheGet { key } => {
                if self.cache_down {
                    return Lookup::Failed(DatastoreError::Connection);
                }
                match self.cache.get(key) {
                    Some((value, expires)) if expires.map_or(true, |t| self.now < t) => {
                        let id = key.strip_prefix("book_").unwrap_or(key);
                        match decode_book(value) {
                            Some(data) => Lookup::Found(BookRecord { _id: id.to_owned(), data }),
                            None => Lookup::Failed(DatastoreError::Serialization),
                        }
                    }
                    _ => Lookup::Absent,
                }
            }
            Action::StoreFind { collection, id } => {
                match self.store.get(collection).and_then(|docs| docs.get(id)) {
                    Some(record) => Lookup::Found(record.clone()),
                    None => Lookup::Absent,
                }
            }
            _ => Lookup::Failed(DatastoreError::Command),
        }
    }

    fn run(&mut self, plan: &Plan, items: &[BookRecord]) -> Result<(), DatastoreError> {
        let mut done = 0;
        let mut reply = Ok(());
        loop {
            match plan.step(done, reply) {
                Step::Finish(result) => return result,
                Step::Perform => {
                    reply = self.perform(&plan.actions[done], items);
                    done += 1;
                }
            }
        }
    }

    fn read(&self, collection: &str, id: &str) -> Result<Cache<BookRecord>, DatastoreError> {
        let op = ReadOp::new::<BookRecord>(collection, id);
        match op.on_cache_reply(self.lookup(&op.first_action())) {
            ReadStep::Done(result) => result,
            ReadStep::Fetch(action) => op.on_store_reply(self.lookup(&action)),
        }
    }

    fn create_one(&mut self, collection: &str, record: &BookRecord, ttl: Option<usize>) -> Result<(), DatastoreError> {
        let plan = create_one_plan(collection, record, ttl);
        self.run(&plan, std::slice::from_ref(record))
    }
}

fn decode_book(value: &str) -> Option<Book> {
    let parsed: serde_json::Value = serde_json::from_str(value).ok()?;
    Some(Book {
        name: parsed.get("name")?.as_str()?.to_owned(),
        author: parsed.get("author")?.as_str()?.to_owned(),
        bookstore_id: parsed.get("bookstore_id")?.as_str()?.to_owned(),
    })
}

fn steinbeck(id: &str, name: &str) -> BookRecord {
    BookRecord {
        _id: id.to_owned(),
        data: Book {
            name: name.to_owned(),
            author: "John Steinbeck".to_owned(),
            bookstore_id: "2b7245f77b1866f1fd422944eca23609".to_owned(),
        },
    }
}

#[test]
fn test_01_try_create_read_one_from_redis() {
    let mut backends = Backends::new();
    let table = "books1";
    let book_record = steinbeck("03d15979ffd0df61cd6dd3d5a2fc4d04", "The Grapes of Wrath");
    backends.create_one(table, &book_record, None).unwrap();
    let read_res = backends.read(table, &book_record._id).unwrap();
    assert_eq!(CacheState::Hit, read_res.state);
    assert_eq!(book_record, read_res.data);
}

#[test]
fn test_02_try_create_read_one_from_atlas() {
    let mut backends = Backends::new();
    let table = "books2";
    let book_record = steinbeck("cfa6fec292ddbe2004d6498d109f0225", "East of Eden");
    backends.create_one(table, &book_record, Some(3)).unwrap();
    backends.now += 3;
    let read_res = backends.read(table, &book_record._id).unwrap();
    assert_eq!(CacheState::Miss, read_res.state);
    assert_eq!(book_record, read_res.data);
}

#[test]
fn read_before_expiry_hits() {
    let mut backends = Backends::new();
    let book_record = steinbeck("cfa6fec292ddbe2004d6498d109f0225", "East of Eden");
    backends.create_one("books2", &book_record, Some(3)).unwrap();
    backends.now += 2;
    assert_eq!(backends.read("books2", &book_record._id).unwrap().state, CacheState::Hit);
}

#[test]
fn test_03_try_create_update_one() {
    let mut backends = Backends::new();
    let table = "books";
    let book_record = steinbeck("a646dede9f45ef658f86da8d2ec13da4", "The Grapes of Wrath");
    backends.create_one(table, &book_record, None).unwrap();
    let update_record = steinbeck("a646dede9f45ef658f86da8d2ec13da4", "Of Mouse and Men");
    let plan = update_one_plan(table, &update_record, None);
    backends.run(&plan, std::slice::from_ref(&update_record)).unwrap();
    let read_res = backends.read(table, &update_record._id).unwrap();
    assert_eq!(update_record, read_res.data);
}

#[test]
fn update_is_seen_after_its_entry_expires() {
    let mut backends = Backends::new();
    let old = steinbeck("a1", "The Grapes of Wrath");
    backends.create_one("books", &old, None).unwrap();
    let new = steinbeck("a1", "Of Mice and Men");
    let plan = update_one_plan("books", &new, Some(5));
    backends.run(&plan, std::slice::from_ref(&new)).unwrap();
    backends.now += 10;
    let read_res = backends.read("books", "a1").unwrap();
    assert_eq!(read_res.state, CacheState::Miss);
    assert_eq!(read_res.data, new);
}

#[test]
fn test_04_try_create_delete_one() {
    let mut backends = Backends::new();
    let table = "books4";
    let book_record = steinbeck("a5ec5ea231e0568f93aa88719159f4eb", "The Grapes of Wrath");
    backends.create_one(table, &book_record, None).unwrap();
    let plan = delete_plan::<BookRecord>(table, &book_record._id);
    backends.run(&plan, &[]).unwrap();
    let read_res = backends.read(table, &book_record._id);
    assert_eq!(read_res.unwrap_err(), DatastoreError::NotFound);
}

#[test]
fn deleting_twice_never_errors() {
    let mut backends = Backends::new();
    let record = steinbeck("d1", "Cannery Row");
    backends.create_one("books", &record, None).unwrap();
    let plan = delete_plan::<BookRecord>("books", "d1");
    assert_eq!(backends.run(&plan, &[]), Ok(()));
    assert_eq!(backends.run(&plan, &[]), Ok(()));
    assert!(backends.cache.is_empty());
}

#[test]
fn test_10_clear_data_store() {
    let mut backends = Backends::new();
    let a = steinbeck("c1", "Tortilla Flat");
    let b = steinbeck("c2", "The Pearl");
    backends.create_one("books", &a, None).unwrap();
    backends.create_one("other", &b, None).unwrap();
    backends.run(&clear_plan("books"), &[]).unwrap();
    assert!(backends.cache.is_empty());
    assert!(backends.store["books"].is_empty());
    assert_eq!(backends.read("books", "c1").unwrap_err(), DatastoreError::NotFound);
    let other = backends.read("other", "c2").unwrap();
    assert_eq!(other.state, CacheState::Miss);
    assert_eq!(other.data, b);
}

#[test]
fn dune_create_update_delete() {
    let mut backends = Backends::new();
    let dune = BookRecord {
        _id: "b1".to_owned(),
        data: Book { name: "Dune".to_owned(), author: "Herrick".to_owned(), bookstore_id: "s1".to_owned() },
    };
    backends.create_one("books", &dune, None).unwrap();
    let first = backends.read("books", "b1").unwrap();
    assert_eq!(first.state, CacheState::Hit);
    assert_eq!(first.data, dune);

    let mut messiah = dune.clone();
    messiah.data.name = "Dune Messiah".to_owned();
    let plan = update_one_plan("books", &messiah, None);
    backends.run(&plan, std::slice::from_ref(&messiah)).unwrap();
    assert_eq!(backends.read("books", "b1").unwrap().data.data.name, "Dune Messiah");

    backends.run(&delete_plan::<BookRecord>("books", "b1"), &[]).unwrap();
    assert_eq!(backends.read("books", "b1").unwrap_err(), DatastoreError::NotFound);
}

#[test]
fn read_of_unknown_id_is_not_found() {
    let backends = Backends::new();
    assert_eq!(backends.read("books", "nope").unwrap_err(), DatastoreError::NotFound);
}

#[test]
fn miss_does_not_refill_the_cache() {
    let mut backends = Backends::new();
    let record = steinbeck("m1", "Sweet Thursday");
    backends.create_one("books", &record, Some(1)).unwrap();
    backends.now += 1;
    assert_eq!(backends.read("books", "m1").unwrap().state, CacheState::Miss);
    assert_eq!(backends.read("books", "m1").unwrap().state, CacheState::Miss);
}

#[test]
fn unreadable_cache_entry_falls_back_to_store() {
    let mut backends = Backends::new();
    let record = steinbeck("u1", "Cup of Gold");
    backends.create_one("books", &record, None).unwrap();
    backends.cache.insert("book_u1".to_owned(), ("not json".to_owned(), None));
    let read_res = backends.read("books", "u1").unwrap();
    assert_eq!(read_res.state, CacheState::Miss);
    assert_eq!(read_res.data, record);
}

#[test]
fn failing_cache_read_falls_back_to_store() {
    let mut backends = Backends::new();
    let record = steinbeck("f1", "To a God Unknown");
    backends.create_one("books", &record, None).unwrap();
    backends.cache_down = true;
    assert_eq!(backends.read("books", "f1").unwrap().state, CacheState::Miss);
}

#[test]
fn failing_cache_write_aborts_before_the_store() {
    let mut backends = Backends::new();
    backends.cache_down = true;
    let record = steinbeck("w1", "In Dubious Battle");
    assert_eq!(backends.create_one("books", &record, None), Err(DatastoreError::Connection));
    assert!(backends.store.get("books").map_or(true, |docs| docs.is_empty()));
}

#[test]
fn duplicate_insert_is_a_command_error_after_the_cache_write() {
    let mut backends = Backends::new();
    let record = steinbeck("x1", "The Red Pony");
    backends.create_one("books", &record, None).unwrap();
    let changed = steinbeck("x1", "The Long Valley");
    assert_eq!(backends.create_one("books", &changed, None), Err(DatastoreError::Command));
    let read_res = backends.read("books", "x1").unwrap();
    assert_eq!(read_res.data, changed);
    assert_eq!(backends.store["books"]["x1"], record);
}

#[test]
fn batch_create_commits_in_order_and_stops_at_first_failure() {
    let mut backends = Backends::new();
    let records = vec![steinbeck("k1", "A"), steinbeck("k2", "B"), steinbeck("k1", "C")];
    let plan = create_many_plan("books", &records, None);
    assert_eq!(backends.run(&plan, &records), Err(DatastoreError::Command));
    assert_eq!(backends.store["books"].len(), 2);
    assert_eq!(backends.read("books", "k2").unwrap().data, records[1]);
}
