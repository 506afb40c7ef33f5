use vstd::prelude::*;

use crate::error::DatastoreError;
use crate::json::{json_quote, json_string};

verus! {

/// What every record kind that passes through the datastore provides: an
/// identifier, a payload, a cache key derived from the identifier, and the
/// serialized payload that the cache holds.
pub trait MongoStorable: Sized {
    type Data;

    /// The record's identifier.
    spec fn id_view(&self) -> Seq<char>;

    /// The record's payload.
    spec fn data_view(&self) -> Self::Data;

    /// The identifier of the entity the record belongs to.
    spec fn parent_id_view(&self) -> Seq<char>;

    /// The cache key under which the record with identifier `id` is held.
    spec fn key_of(id: Seq<char>) -> Seq<char>;

    /// The serialized payload, or `None` where the payload cannot be serialized.
    spec fn payload_text(&self) -> Option<Seq<char>>;

    fn get_id(&self) -> (r: &str)
        ensures
            r@ == self.id_view(),
    ;

    fn get_data(&self) -> (r: &Self::Data)
        ensures
            *r == self.data_view(),
    ;

    fn get_bookstore_id(&self) -> (r: &str)
        ensures
            r@ == self.parent_id_view(),
    ;

    /// The cache key of the record with identifier `id`.
    fn derive_cache_key(id: &str) -> (r: String)
        ensures
            r@ == Self::key_of(id@),
    ;

    /// The cache key and the serialized payload of this record.
    fn try_to_str(&self) -> (r: Result<(String, String), DatastoreError>)
        ensures
            match r {
                Ok((k, v)) => k@ == Self::key_of(self.id_view()) && self.payload_text() == Some(
                    v@,
                ),
                Err(e) => e == DatastoreError::Serialization && self.payload_text() is None,
            },
    ;
}

#[derive(Clone, Debug, PartialEq)]
pub struct BookRecord {
    pub _id: String,
    pub data: Book,
}

#[derive(Clone, Debug, PartialEq)]
pub struct Book {
    pub name: String,
    pub author: String,
    pub bookstore_id: String,
}

#[derive(Clone, Debug, PartialEq)]
pub struct BookstoreRecord {
    pub _id: String,
    pub data: Bookstore,
}

#[derive(Clone, Debug, PartialEq)]
pub struct Bookstore {
    pub name: String,
    pub address: String,
    pub number: String,
}

/// A JSON object of three string members, in the order given, from the
/// members' names and their already serialized values.
pub open spec fn json_object3(
    k1: Seq<char>,
    v1: Seq<char>,
    k2: Seq<char>,
    v2: Seq<char>,
    k3: Seq<char>,
    v3: Seq<char>,
) -> Seq<char> {
    seq!['{'] + k1 + seq![':'] + v1 + seq![','] + k2 + seq![':'] + v2 + seq![','] + k3 + seq![
        ':',
    ] + v3 + seq!['}']
}

/// The serialized form of three string members, or `None` where one of the
/// names or values cannot be serialized.
pub open spec fn json_members3(
    k1: Seq<char>,
    v1: Seq<char>,
    k2: Seq<char>,
    v2: Seq<char>,
    k3: Seq<char>,
    v3: Seq<char>,
) -> Option<Seq<char>> {
    match (
        json_string(k1),
        json_string(v1),
        json_string(k2),
        json_string(v2),
        json_string(k3),
        json_string(v3),
    ) {
        (Some(a), Some(b), Some(c), Some(d), Some(e), Some(f)) => Some(
            json_object3(a, b, c, d, e, f),
        ),
        _ => None,
    }
}

/// The cache form of a book: its three fields as a JSON object.
pub open spec fn book_json(b: Book) -> Option<Seq<char>> {
    json_members3(
        "name"@,
        b.name@,
        "author"@,
        b.author@,
        "bookstore_id"@,
        b.bookstore_id@,
    )
}

/// The cache form of a bookstore: its three fields as a JSON object.
pub open spec fn bookstore_json(b: Bookstore) -> Option<Seq<char>> {
    json_members3("name"@, b.name@, "address"@, b.address@, "number"@, b.number@)
}

/// Writes a JSON object of three string members, in the order given.
fn write_members3(
    k1: &str,
    v1: &str,
    k2: &str,
    v2: &str,
    k3: &str,
    v3: &str,
) -> (r: Result<String, DatastoreError>)
    ensures
        match r {
            Ok(t) => json_members3(k1@, v1@, k2@, v2@, k3@, v3@) == Some(t@),
            Err(e) => e == DatastoreError::Serialization && json_members3(
                k1@,
                v1@,
                k2@,
                v2@,
                k3@,
                v3@,
            ) is None,
        },
{
    let a = match json_quote(k1) { Ok(t) => t, Err(_) => return Err(DatastoreError::Serialization) };
    let b = match json_quote(v1) { Ok(t) => t, Err(_) => return Err(DatastoreError::Serialization) };
    let c = match json_quote(k2) { Ok(t) => t, Err(_) => return Err(DatastoreError::Serialization) };
    let d = match json_quote(v2) { Ok(t) => t, Err(_) => return Err(DatastoreError::Serialization) };
    let e = match json_quote(k3) { Ok(t) => t, Err(_) => return Err(DatastoreError::Serialization) };
    let f = match json_quote(v3) { Ok(t) => t, Err(_) => return Err(DatastoreError::Serialization) };
    let mut out = String::from_str("{");
    out.append(a.as_str());
    out.append(":");
    out.append(b.as_str());
    out.append(",");
    out.append(c.as_str());
    out.append(":");
    out.append(d.as_str());
    out.append(",");
    out.append(e.as_str());
    out.append(":");
    out.append(f.as_str());
    out.append("}");
    proof {
        reveal_strlit("{");
        reveal_strlit(":");
        reveal_strlit(",");
        reveal_strlit("}");
        assert(out@ =~= json_object3(a@, b@, c@, d@, e@, f@));
    }
    Ok(out)
}

/// `prefix` followed by `id`.
fn prefixed(prefix: &str, id: &str) -> (r: String)
    ensures
        r@ == prefix@ + id@,
{
    let mut key = String::from_str(prefix);
    key.append(id);
    key
}

impl MongoStorable for BookRecord {
    type Data = Book;

    open spec fn id_view(&self) -> Seq<char> {
        self._id@
    }

    open spec fn data_view(&self) -> Book {
        self.data
    }

    open spec fn parent_id_view(&self) -> Seq<char> {
        self.data.bookstore_id@
    }

    open spec fn key_of(id: Seq<char>) -> Seq<char> {
        "book_"@ + id
    }

    open spec fn payload_text(&self) -> Option<Seq<char>> {
        book_json(self.data)
    }

    fn get_id(&self) -> (r: &str) {
        self._id.as_str()
    }

    fn get_data(&self) -> (r: &Book) {
        &self.data
    }

    fn get_bookstore_id(&self) -> (r: &str) {
        self.data.bookstore_id.as_str()
    }

    fn derive_cache_key(id: &str) -> (r: String) {
        prefixed("book_", id)
    }

    fn try_to_str(&self) -> (r: Result<(String, String), DatastoreError>) {
        let value = write_members3(
            "name",
            self.data.name.as_str(),
            "author",
            self.data.author.as_str(),
            "bookstore_id",
            self.data.bookstore_id.as_str(),
        )?;
        let key = prefixed("book_", self._id.as_str());
        Ok((key, value))
    }
}

impl MongoStorable for BookstoreRecord {
    type Data = Bookstore;

    open spec fn id_view(&self) -> Seq<char> {
        self._id@
    }

    open spec fn data_view(&self) -> Bookstore {
        self.data
    }

    open spec fn parent_id_view(&self) -> Seq<char> {
        self.data.name@
    }

    open spec fn key_of(id: Seq<char>) -> Seq<char> {
        "bookstore_"@ + id
    }

    open spec fn payload_text(&self) -> Option<Seq<char>> {
        bookstore_json(self.data)
    }

    fn get_id(&self) -> (r: &str) {
        self._id.as_str()
    }

    fn get_data(&self) -> (r: &Bookstore) {
        &self.data
    }

    fn get_bookstore_id(&self) -> (r: &str) {
        self.data.name.as_str()
    }

    fn derive_cache_key(id: &str) -> (r: String) {
        prefixed("bookstore_", id)
    }

    fn try_to_str(&self) -> (r: Result<(String, String), DatastoreError>) {
        let value = write_members3(
            "name",
            self.data.name.as_str(),
            "address",
            self.data.address.as_str(),
            "number",
            self.data.number.as_str(),
        )?;
        let key = prefixed("bookstore_", self._id.as_str());
        Ok((key, value))
    }
}

} // verus!
