//! Address model: typed wrappers over a raw location in the target
//! process's address space.
//!
//! Neither type is validated against the target's mapped memory; whether a
//! location is actually accessible is the OS call's business and is
//! surfaced through the error taxonomy.

use vstd::prelude::*;

verus! {

/// A writable location in the target process: the destination of a write.
#[derive(Clone, Copy, Debug, PartialEq, Eq, Structural)]
pub struct AddressType(pub usize);

/// A read-only location in the target process: the source of a read.
#[derive(Clone, Copy, Debug, PartialEq, Eq, Structural)]
pub struct ConstAddressType(pub usize);

impl AddressType {
    /// The same location as a read-only source, for reading back what was
    /// written.
    pub fn as_const(&self) -> (r: ConstAddressType)
        ensures
            r.0 == self.0,
    {
        ConstAddressType(self.0)
    }
}

} // verus!
