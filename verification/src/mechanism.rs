//! Mechanism identifiers.

use vstd::prelude::*;

verus! {

/// A numeric mechanism identifier, as the token interface defines them.
/// For HKDF it names the base hash used for the HMAC underlying the
/// extract and expand stages. The value is opaque to this layer.
#[derive(Debug, Clone, Copy, PartialEq, Eq, Structural)]
pub struct MechanismType {
    val: u64,
}

impl View for MechanismType {
    type V = u64;

    closed spec fn view(&self) -> u64 {
        self.val
    }
}

impl MechanismType {
    /// Wrap a raw numeric mechanism identifier.
    pub fn new(val: u64) -> (r: Self)
        ensures
            r@ == val,
    {
        MechanismType { val }
    }

    /// The raw numeric identifier.
    pub fn value(&self) -> (r: u64)
        ensures
            r == self@,
    {
        self.val
    }
}

} // verus!
