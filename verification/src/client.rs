//! The handle through which an application reaches the indexing service.

use vstd::prelude::*;

verus! {

/// A client of the indexing service.
///
/// The client keeps no state between requests: every request names its
/// collection, and the schema of a collection is built before the first of
/// them is sent.
#[derive(Clone, Copy, Debug, PartialEq, Eq, Structural)]
pub struct FastSearchClient {}

impl FastSearchClient {
    /// A client that has sent nothing yet.
    pub fn new() -> (client: Self)
        ensures
            client == (FastSearchClient {  }),
    {
        FastSearchClient {  }
    }
}

} // verus!
