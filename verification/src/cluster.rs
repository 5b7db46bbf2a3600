//! A single FAT cluster entry.

use vstd::prelude::*;

verus! {

/// One entry of the file allocation table. The value is the entry's
/// 16-bit FAT cell: zero when free, a chain link or sentinel otherwise.
#[derive(Debug, Clone, Copy, PartialEq, Eq)]
pub struct Cluster {
    value: u16,
}

impl Cluster {
    /// The entry's FAT cell value.
    pub closed spec fn spec_value(self) -> u16 {
        self.value
    }

    /// Create an entry holding the given FAT cell value.
    pub fn new(value: u16) -> (r: Cluster)
        ensures
            r.spec_value() == value,
    {
        Cluster { value }
    }

    /// Read the entry's FAT cell value.
    pub fn get_value(&self) -> (r: u16)
        ensures
            r == self.spec_value(),
    {
        self.value
    }
}

} // verus!
