//! Opaque handles to token-managed objects.

use vstd::prelude::*;

verus! {

/// An opaque integer handle referencing an object (such as a key) that the
/// external token manages. The handle is a back-reference only: it carries
/// no ownership semantics in this layer.
#[derive(Debug, Clone, Copy, PartialEq, Eq, Structural)]
pub struct ObjectHandle {
    handle: u64,
}

impl View for ObjectHandle {
    type V = u64;

    closed spec fn view(&self) -> u64 {
        self.handle
    }
}

impl ObjectHandle {
    /// Wrap a raw token-assigned handle value.
    pub fn new(handle: u64) -> (r: Self)
        ensures
            r@ == handle,
    {
        ObjectHandle { handle }
    }

    /// The raw handle value.
    pub fn handle(&self) -> (r: u64)
        ensures
            r == self@,
    {
        self.handle
    }
}

} // verus!
