use vstd::prelude::*;

verus! {

/// The ways a datastore operation can fail.
#[derive(Clone, Copy, Debug, PartialEq, Eq, Structural)]
pub enum DatastoreError {
    /// The cache or the store could not be reached or authenticated.
    Connection,
    /// A payload could not be converted to or from its stored form.
    Serialization,
    /// A read targeted an id that neither the cache nor the store holds.
    NotFound,
    /// The cache or the store rejected a command.
    Command,
}

impl DatastoreError {
    /// A short description of the error.
    pub fn describe(&self) -> (r: &'static str)
        ensures
            match self {
                DatastoreError::Connection => r@ == "could not reach the cache or the store"@,
                DatastoreError::Serialization => r@
                    == "a payload could not be serialized or deserialized"@,
                DatastoreError::NotFound => r@ == "record not found"@,
                DatastoreError::Command => r@ == "the cache or the store rejected the command"@,
            },
    {
        match self {
            DatastoreError::Connection => "could not reach the cache or the store",
            DatastoreError::Serialization => "a payload could not be serialized or deserialized",
            DatastoreError::NotFound => "record not found",
            DatastoreError::Command => "the cache or the store rejected the command",
        }
    }
}

} // verus!
