//! The 512-byte sector, the smallest unit a disk image works with.

use vstd::prelude::*;

verus! {

/// A single disk sector: 512 bytes of data at an LBA position, with a
/// dirty flag that records whether the bytes still await persistence.
#[derive(Debug, PartialEq)]
pub struct Sector {
    data: Vec<u8>,
    dirty: bool,
    position: u64,
}

impl Sector {
    /// Every sector holds exactly 512 bytes.
    pub open spec fn wf(self) -> bool {
        self.spec_data().len() == 512
    }

    /// The sector's bytes.
    pub closed spec fn spec_data(self) -> Seq<u8> {
        self.data@
    }

    /// The sector's LBA position.
    pub closed spec fn spec_position(self) -> u64 {
        self.position
    }

    /// Whether the sector is marked dirty.
    pub closed spec fn spec_dirty(self) -> bool {
        self.dirty
    }

    /// Create a new zero-filled Sector at the given position.
    pub fn new(position: u64) -> (r: Sector)
        ensures
            r.wf(),
            r.spec_data() == Seq::new(512, |i: int| 0u8),
            r.spec_position() == position,
            r.spec_dirty(),
    {
        let data: Vec<u8> = vec![0u8; 512];
        proof {
            assert(data@ =~= Seq::new(512, |i: int| 0u8));
        }
        Sector { data, dirty: true, position }
    }

    /// Returns the position of the sector on a disk.
    pub fn get_position(&self) -> (r: u64)
        ensures
            r == self.spec_position(),
    {
        self.position
    }

    /// Set the position of the sector on a disk.
    pub fn set_position(&mut self, position: u64)
        ensures
            final(self).spec_position() == position,
            final(self).spec_data() == old(self).spec_data(),
            final(self).spec_dirty() == old(self).spec_dirty(),
    {
        self.position = position;
    }

    /// Marks the sector as clean: its bytes are known to be persisted.
    pub fn mark_clean(&mut self)
        ensures
            !final(self).spec_dirty(),
            final(self).spec_data() == old(self).spec_data(),
            final(self).spec_position() == old(self).spec_position(),
    {
        self.dirty = false;
    }

    /// Marks the sector as dirty.
    pub fn mark_dirty(&mut self)
        ensures
            final(self).spec_dirty(),
            final(self).spec_data() == old(self).spec_data(),
            final(self).spec_position() == old(self).spec_position(),
    {
        self.dirty = true;
    }

    /// Returns true if the sector is dirty, false if it is not.
    pub fn is_dirty(&self) -> (r: bool)
        ensures
            r == self.spec_dirty(),
    {
        self.dirty
    }

    /// Write a byte at an offset inside the sector and mark it dirty.
    /// Offsets run 0..512; anything beyond is a caller defect.
    pub fn write_byte(&mut self, position: usize, value: u8)
        requires
            old(self).wf(),
            position < 512,
        ensures
            final(self).wf(),
            final(self).spec_data() == old(self).spec_data().update(position as int, value),
            final(self).spec_dirty(),
            final(self).spec_position() == old(self).spec_position(),
    {
        self.data.set(position, value);
        self.mark_dirty();
    }

    /// The sector's bytes as an owned 512-byte copy.
    pub fn get_data(&self) -> (r: Vec<u8>)
        requires
            self.wf(),
        ensures
            r@ == self.spec_data(),
    {
        let mut val: Vec<u8> = Vec::new();
        let mut index: usize = 0;
        while index < self.data.len()
            invariant
                index <= self.data.len(),
                val@ == self.data@.take(index as int),
            decreases self.data.len() - index,
        {
            val.push(self.data[index]);
            proof {
                assert(val@ =~= self.data@.take(index + 1));
            }
            index += 1;
        }
        proof {
            assert(val@ =~= self.data@);
        }
        val
    }
}

} // verus!
