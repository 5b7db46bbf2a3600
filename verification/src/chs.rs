//! Cylinder/Head/Sector disk addresses and their packed MBR encoding.
//!
//! A partition table entry stores a CHS address in three bytes: the head
//! in byte 0, the two high bits of the 10-bit cylinder together with the
//! 6-bit sector in byte 1, and the low eight cylinder bits in byte 2.

use vstd::prelude::*;

verus! {

/// A Cylinder/Head/Sector address. Cylinders are 10 bits wide on disk,
/// sectors 6 bits (and 1-based), heads a full byte.
#[derive(Debug, Clone, Copy, PartialEq, Eq, Structural)]
pub struct CHS {
    pub cylinder: u16,
    pub head: u8,
    pub sector: u8,
}

impl CHS {
    /// True when the address fits the packed on-disk fields.
    pub open spec fn encodable(self) -> bool {
        self.cylinder < 1024 && self.sector < 64
    }

    /// The packed three-byte form of a CHS address.
    pub open spec fn spec_to_bytes(self) -> Seq<u8> {
        seq![
            self.head,
            ((((self.cylinder >> 8) as u8) << 6) | (self.sector & 0x3f)) as u8,
            (self.cylinder & 0xff) as u8,
        ]
    }

    /// The CHS address read back from its packed three-byte form.
    pub open spec fn spec_from_bytes(bytes: Seq<u8>) -> CHS
        recommends
            bytes.len() == 3,
    {
        CHS {
            cylinder: ((((bytes[1] >> 6) as u16) << 8) | (bytes[2] as u16)) as u16,
            head: bytes[0],
            sector: (bytes[1] & 0x3f) as u8,
        }
    }

    /// Instantiate an all-zero CHS tuple.
    pub fn empty() -> (r: CHS)
        ensures
            r == (CHS { cylinder: 0, head: 0, sector: 0 }),
    {
        CHS { cylinder: 0, head: 0, sector: 0 }
    }

    /// Instantiate a CHS tuple from its three fields.
    pub fn new(cylinder: u16, head: u8, sector: u8) -> (r: CHS)
        ensures
            r == (CHS { cylinder, head, sector }),
    {
        CHS { cylinder, head, sector }
    }

    /// Pack the address into the three bytes used by MBR partition tables.
    /// Callers must stay within the 10-bit cylinder and 6-bit sector range;
    /// the geometry selection never produces anything wider.
    pub fn as_bytes(&self) -> (r: [u8; 3])
        requires
            self.encodable(),
        ensures
            r@ == self.spec_to_bytes(),
    {
        let overflow: u8 = (self.cylinder >> 8) as u8;
        let sector_byte: u8 = (overflow << 6) | (self.sector & 0x3f);
        let cylinder_byte: u8 = (self.cylinder & 0xff) as u8;
        let r = [self.head, sector_byte, cylinder_byte];
        proof {
            assert(r@ =~= self.spec_to_bytes());
        }
        r
    }

    /// Decode the packed three-byte on-disk form back into a CHS tuple.
    /// The bytes arrive in on-disk order: head, sector (with the cylinder
    /// overflow bits), cylinder.
    pub fn from_bytes(bytes: [u8; 3]) -> (r: CHS)
        ensures
            r == CHS::spec_from_bytes(bytes@),
            r.encodable(),
    {
        let b0 = bytes[0];
        let b1 = bytes[1];
        let b2 = bytes[2];
        let cylinder: u16 = (((b1 >> 6) as u16) << 8) | (b2 as u16);
        let sector: u8 = b1 & 0x3f;
        proof {
            assert(((((b1 >> 6) as u16) << 8) | (b2 as u16)) < 1024 && (b1 & 0x3f) < 64)
                by (bit_vector);
        }
        CHS { cylinder, head: b0, sector }
    }
}

/// Packing a CHS address and reading it back is the identity on every
/// address that fits the packed fields; in particular on every valid
/// address with cylinder below 1024, any head, and sector in 1..=63.
pub proof fn lemma_chs_bytes_roundtrip(c: CHS)
    requires
        c.encodable(),
    ensures
        CHS::spec_from_bytes(c.spec_to_bytes()) == c,
{
    let cyl = c.cylinder;
    let sec = c.sector;
    assert({
        let b1 = ((((cyl >> 8) as u8) << 6) | (sec & 0x3f)) as u8;
        let b2 = (cyl & 0xff) as u8;
        (b1 & 0x3f) == sec && ((((b1 >> 6) as u16) << 8) | (b2 as u16)) == cyl
    }) by (bit_vector)
        requires
            cyl < 1024,
            sec <= 63,
    ;
}

} // verus!
