//! The compilation context: an isolated environment that owns every
//! attribute created through it.
//!
//! The context of the foreign library is an opaque handle; what this
//! library's logic reads of it is only its identity, held here as a plain
//! number. Callers that drive the foreign library pair each real context
//! with one value of this type, giving distinct contexts distinct
//! identifiers, and convert at the boundary.

use vstd::prelude::*;

verus! {

/// An isolated compilation environment, identified by a plain number.
///
/// Every attribute records the identifier of the context it was created
/// in; an attribute must never outlive its context.
#[derive(Clone, Copy, Debug, PartialEq, Eq)]
pub struct Context {
    id: u64,
}

impl Context {
    /// The identifier of this context.
    pub closed spec fn spec_id(&self) -> u64 {
        self.id
    }

    /// Make a context value with the given identifier.
    pub fn new(id: u64) -> (r: Context)
        ensures
            r.spec_id() == id,
    {
        Context { id }
    }

    /// Read the identifier back.
    pub fn id(&self) -> (r: u64)
        ensures
            r == self.spec_id(),
    {
        self.id
    }
}

} // verus!
