//! The retained snapshot of one panel.
//!
//! A fetch produces a whole snapshot or fails. On success the new
//! snapshot replaces the retained one wholesale: it is a swap, never a
//! patch, so old and new never mix. A failed fetch leaves the previously
//! retained snapshot exactly as it was.

use vstd::prelude::*;

use crate::errors::FetchError;

verus! {

/// Holder of the snapshot one panel last fetched successfully.
#[derive(Debug)]
pub struct SnapshotSource<T> {
    retained: Option<T>,
}

impl<T> SnapshotSource<T> {
    /// The snapshot the panel currently shows, if any fetch has succeeded
    /// yet.
    pub closed spec fn spec_retained(&self) -> Option<T> {
        self.retained
    }

    /// A source that has not fetched anything yet.
    pub fn new() -> (r: Self)
        ensures
            r.spec_retained() is None,
    {
        SnapshotSource { retained: None }
    }

    /// Takes the outcome of one fetch. A successful fetch replaces the
    /// retained snapshot wholesale; a failed one is handed back and the
    /// retained snapshot stands untouched.
    pub fn commit(&mut self, fetched: Result<T, FetchError>) -> (r: Option<FetchError>)
        ensures
            match fetched {
                Ok(snapshot) => final(self).spec_retained() == Some(snapshot) && r is None,
                Err(e) => final(self).spec_retained() == old(self).spec_retained() && r == Some(e),
            },
    {
        match fetched {
            Ok(snapshot) => {
                self.retained = Some(snapshot);
                None
            },
            Err(e) => Some(e),
        }
    }

    /// The retained snapshot, for the presentation layer to read.
    pub fn retained(&self) -> (r: &Option<T>)
        ensures
            *r == self.spec_retained(),
    {
        &self.retained
    }
}

} // verus!
