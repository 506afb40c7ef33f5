use vstd::prelude::*;

verus! {

/// Where a read was answered from.
#[derive(Clone, Copy, Debug, PartialEq, Eq, Structural)]
pub enum CacheState {
    /// The cache held a live, readable entry.
    Hit,
    /// The cache could not answer; the store did.
    Miss,
}

/// A value read through the datastore, tagged with where it came from.
#[derive(Debug)]
pub struct Cache<T> {
    pub state: CacheState,
    pub data: T,
}

impl<T> Cache<T> {
    /// Where the value came from.
    pub fn state(&self) -> (r: CacheState)
        ensures
            r == self.state,
    {
        self.state
    }

    /// The value read.
    pub fn data(&self) -> (r: &T)
        ensures
            *r == self.data,
    {
        &self.data
    }

    /// The value read, taken out of its tag.
    pub fn into_data(self) -> (r: T)
        ensures
            r == self.data,
    {
        self.data
    }
}

} // verus!
