//! A wrapper for contexts that want "the host's triple unless told
//! otherwise".

use vstd::prelude::*;

use crate::triple::Triple;

verus! {

/// A simple wrapper around `Triple` meant to default to the triple of
/// the host platform. The host triple itself is derived from
/// compile-time platform facts that only the embedding program has (see
/// `host_from_facts`), so the program constructs this wrapper around
/// that value.
pub struct DefaultToHost(pub Triple);

impl DefaultToHost {
    /// Wrap a triple, normally the host's.
    pub fn new(triple: Triple) -> (r: Self)
        ensures
            r.0 == triple,
    {
        DefaultToHost(triple)
    }
}

} // verus!
