//! The disk image: geometry selection, CHS/LBA conversion, and the
//! master boot record.
//!
//! Geometry follows the classic "no translation" BIOS heuristic: a
//! fixed 63 sectors per track, and the largest head count up to 15 that
//! keeps the cylinder count below 1023. Larger disks need a translation
//! scheme this builder does not provide, and are rejected.

use crate::bootcode::{mbr_bootcode, spec_mbr_bootcode};
use crate::chs::CHS;
use crate::errors::BuildError;
use crate::partition::{spec_mbr_entry, Partition};
use crate::sector::Sector;
use vstd::prelude::*;
use vstd::string::StrSliceExecFns;

verus! {

broadcast use vstd::seq::group_seq_axioms, vstd::seq_lib::group_seq_lib_default;

/// The byte size below which the plain "no translation" geometry
/// applies: 1024 cylinders x 16 heads x 63 sectors x 512 bytes.
pub const GEOMETRY_NONE_CEILING: u64 = 528482304;

/// The byte size at which even translated geometries end; disks this
/// large are rejected outright.
pub const GEOMETRY_CEILING: u64 = 4227858432;

/// The geometry the heuristic settles on when it may still try head
/// counts of `hpc` and below: the first head count, from `hpc` downward,
/// whose cylinder count stays under 1023, or a single head as the last
/// resort.
pub open spec fn spec_geometry_candidate(sector_count: u64, hpc: int) -> CHS
    recommends
        1 <= hpc <= 15,
    decreases hpc,
{
    if hpc <= 1 {
        CHS { cylinder: (sector_count as int / 63) as u16, head: 1u8, sector: 63u8 }
    } else if sector_count as int / (hpc * 63) < 1023 {
        CHS { cylinder: (sector_count as int / (hpc * 63)) as u16, head: hpc as u8, sector: 63u8 }
    } else {
        spec_geometry_candidate(sector_count, hpc - 1)
    }
}

/// The "no translation" geometry for a disk of the given byte size.
pub open spec fn spec_geometry_none(size: u64) -> CHS {
    spec_geometry_candidate(size / 512, 15)
}

/// A byte run laid over a base sequence at an offset; everything else
/// keeps the base's bytes.
pub open spec fn overlay(base: Seq<u8>, at: int, bytes: Seq<u8>) -> Seq<u8> {
    Seq::new(
        base.len(),
        |i: int|
            if at <= i < at + bytes.len() {
                bytes[i - at]
            } else {
                base[i]
            },
    )
}

/// The partition entries of a table written over a base sector, in
/// order: each entry's 16 bytes at its own slot offset.
pub open spec fn spec_write_entries(base: Seq<u8>, parts: Seq<Partition>) -> Seq<u8>
    decreases parts.len(),
{
    if parts.len() == 0 {
        base
    } else {
        overlay(
            spec_write_entries(base, parts.drop_last()),
            parts.last().offset as int,
            spec_mbr_entry(parts.last()),
        )
    }
}

/// The full 512-byte MBR boot sector of a disk: bootstrap code from
/// byte 0, the partition entries at their slots, and the 0x55 0xAA
/// signature in the last two bytes.
pub open spec fn spec_bootsector(bootcode: Seq<u8>, parts: Seq<Partition>) -> Seq<u8> {
    overlay(
        spec_write_entries(overlay(Seq::new(512, |i: int| 0u8), 0, bootcode), parts),
        0x1fe,
        seq![0x55u8, 0xaau8],
    )
}

/// A disk image under construction: its bootstrap code, its CHS
/// geometry, its partitions and the sectors already built.
#[derive(Debug)]
pub struct Disk {
    pub bootcode: Vec<u8>,
    pub geometry: CHS,
    pub partitions: Vec<Partition>,
    pub size: u64,
    pub sector_count: u64,
    pub sectors: Vec<Sector>,
}

/// Exec-level equality of two strings, by character.
fn str_eq(a: &str, b: &str) -> (r: bool)
    ensures
        r == (a@ == b@),
{
    let la = a.unicode_len();
    let lb = b.unicode_len();
    if la != lb {
        proof {
            assert(a@.len() != b@.len());
        }
        return false;
    }
    let mut i: usize = 0;
    while i < la
        invariant
            la == a@.len(),
            la == b@.len(),
            i <= la,
            forall|j: int| 0 <= j < i ==> a@[j] == b@[j],
        decreases la - i,
    {
        if a.get_char(i) != b.get_char(i) {
            return false;
        }
        i += 1;
    }
    proof {
        assert(a@ =~= b@);
    }
    true
}

impl Disk {
    /// The sectors built for this disk so far.
    pub open spec fn spec_sectors(self) -> Seq<Sector> {
        self.sectors@
    }

    /// The disk's size is whole sectors, and the bootstrap code fills
    /// the MBR up to the partition table.
    pub open spec fn wf(self) -> bool {
        &&& self.bootcode@.len() == 446
        &&& self.size == self.sector_count * 512
    }

    /// Instantiate a new Disk of a certain size in bytes; the size is
    /// rounded down to whole sectors. Sizes that need a translated
    /// geometry, or exceed it, are rejected.
    pub fn new(size: u64) -> (r: Result<Disk, BuildError>)
        ensures
            (size / 512) * 512 >= GEOMETRY_CEILING ==> r == Err::<Disk, BuildError>(
                BuildError::DiskTooBig,
            ),
            GEOMETRY_NONE_CEILING <= (size / 512) * 512 < GEOMETRY_CEILING ==> r == Err::<
                Disk,
                BuildError,
            >(BuildError::GeometryUnsupported),
            (size / 512) * 512 < GEOMETRY_NONE_CEILING ==> (r matches Ok(d) && {
                &&& d.wf()
                &&& d.size == (size / 512) * 512
                &&& d.sector_count == size / 512
                &&& d.geometry == spec_geometry_none(d.size)
                &&& 1 <= d.geometry.head <= 15
                &&& d.geometry.sector == 63
                &&& d.bootcode@ == spec_mbr_bootcode()
                &&& d.partitions@.len() == 0
                &&& d.spec_sectors().len() == 0
            }),
    {
        let aligned: u64 = (size / 512) * 512;
        let geometry = match Disk::calculate_geometry(aligned) {
            Ok(g) => g,
            Err(e) => { return Err(e) },
        };
        proof {
            assert(aligned / 512 == size / 512) by (nonlinear_arith)
                requires
                    aligned == (size / 512) * 512,
            ;
        }
        Ok(
            Disk {
                bootcode: Disk::load_bootcode("DOS622"),
                geometry,
                partitions: Vec::new(),
                size: aligned,
                sector_count: aligned / 512,
                sectors: Vec::new(),
            },
        )
    }

    /// Instantiate an empty Disk struct.
    pub fn empty() -> (r: Disk)
        ensures
            r.wf(),
            r.size == 0,
            r.sector_count == 0,
            r.geometry == (CHS { cylinder: 0, head: 0, sector: 0 }),
            r.bootcode@ == Seq::new(446, |i: int| 0u8),
            r.partitions@.len() == 0,
            r.spec_sectors().len() == 0,
    {
        Disk {
            bootcode: Disk::load_bootcode("EMPTY"),
            geometry: CHS::empty(),
            partitions: Vec::new(),
            size: 0,
            sector_count: 0,
            sectors: Vec::new(),
        }
    }

    /// Push a Partition struct into this Disk's partition table.
    pub fn push_partition(&mut self, partition: Partition)
        ensures
            final(self).partitions@ == old(self).partitions@.push(partition),
            final(self).bootcode == old(self).bootcode,
            final(self).geometry == old(self).geometry,
            final(self).size == old(self).size,
            final(self).sector_count == old(self).sector_count,
            final(self).spec_sectors() == old(self).spec_sectors(),
    {
        self.partitions.push(partition);
    }

    /// The bootstrap code for a named operating system: 446 zero bytes
    /// for "EMPTY", the MS-DOS 6.22 code for "DOS622". Nothing else is
    /// available.
    pub fn load_bootcode(os: &str) -> (r: Vec<u8>)
        requires
            os@ == "EMPTY"@ || os@ == "DOS622"@,
        ensures
            os@ == "EMPTY"@ ==> r@ == Seq::new(446, |i: int| 0u8),
            os@ == "DOS622"@ ==> r@ == spec_mbr_bootcode(),
            r@.len() == 446,
    {
        proof {
            reveal_strlit("EMPTY");
            reveal_strlit("DOS622");
            assert("EMPTY"@.len() == 5 && "DOS622"@.len() == 6);
        }
        if str_eq(os, "EMPTY") {
            let zeros: Vec<u8> = vec![0u8; 446];
            proof {
                assert(zeros@ =~= Seq::new(446, |i: int| 0u8));
            }
            zeros
        } else {
            proof {
                assert(os@ == "DOS622"@);
            }
            mbr_bootcode()
        }
    }

    /// Calculate the CHS geometry for a disk of the given byte size,
    /// after the Bochs BIOS tables: plain geometry under the
    /// no-translation ceiling, and a hard failure beyond it. The
    /// extended ("large") translation is not provided here, and disks
    /// past even that range exceed what CHS addressing covers -- both
    /// fail loudly rather than yield a zeroed geometry.
    pub fn calculate_geometry(size: u64) -> (r: Result<CHS, BuildError>)
        ensures
            size < GEOMETRY_NONE_CEILING ==> (r matches Ok(g) && g == spec_geometry_none(size)
                && 1 <= g.head <= 15 && g.sector == 63),
            GEOMETRY_NONE_CEILING <= size < GEOMETRY_CEILING ==> r == Err::<CHS, BuildError>(
                BuildError::GeometryUnsupported,
            ),
            size >= GEOMETRY_CEILING ==> r == Err::<CHS, BuildError>(BuildError::DiskTooBig),
    {
        if size < GEOMETRY_NONE_CEILING {
            Ok(Disk::geometry_none(size))
        } else if size < GEOMETRY_CEILING {
            Err(BuildError::GeometryUnsupported)
        } else {
            Err(BuildError::DiskTooBig)
        }
    }

    /// The Bochs geometry algorithm for the no-translation case: 63
    /// sectors per track, and the largest head count from 15 downward
    /// that keeps the cylinder count under 1023; one head if none does.
    fn geometry_none(size: u64) -> (r: CHS)
        requires
            size < GEOMETRY_NONE_CEILING,
        ensures
            r == spec_geometry_none(size),
            1 <= r.head <= 15,
            r.sector == 63,
    {
        let sector_count: u64 = size / 512;
        let mut hpc: u64 = 15;
        while hpc > 1 && sector_count / (hpc * 63) >= 1023
            invariant
                1 <= hpc <= 15,
                sector_count == size / 512,
                size < GEOMETRY_NONE_CEILING,
                spec_geometry_candidate(sector_count, hpc as int) == spec_geometry_candidate(
                    sector_count,
                    15,
                ),
            decreases hpc,
        {
            hpc = hpc - 1;
        }
        proof {
            assert(sector_count / 63 < 65536);
            assert(sector_count as int / (hpc as int * 63) <= sector_count as int / 63)
                by (nonlinear_arith)
                requires
                    1 <= hpc,
                    sector_count >= 0,
            ;
        }
        let cylinders: u64 = sector_count / (hpc * 63);
        CHS { cylinder: cylinders as u16, head: hpc as u8, sector: 63 }
    }

    /// Convert an LBA sector address to a CHS address under this disk's
    /// geometry.
    pub fn lba_to_chs(&self, lba: u32) -> (r: CHS)
        requires
            self.geometry.head >= 1,
            self.geometry.sector >= 1,
            lba as int / ((self.geometry.head as int) * (self.geometry.sector as int))
                <= u16::MAX,
        ensures
            r == spec_lba_to_chs(self.geometry, lba),
    {
        let sectors_per_track = self.geometry.sector as u32;
        let heads_per_cylinder = self.geometry.head as u32;
        proof {
            assert(1 <= heads_per_cylinder * sectors_per_track <= 65025) by (nonlinear_arith)
                requires
                    1 <= heads_per_cylinder <= 255,
                    1 <= sectors_per_track <= 255,
            ;
        }
        let cylinder = lba / (heads_per_cylinder * sectors_per_track);
        let head = (lba / sectors_per_track) % heads_per_cylinder;
        let sector = (lba % sectors_per_track) + 1;
        CHS { cylinder: cylinder as u16, head: head as u8, sector: sector as u8 }
    }

    /// Convert a CHS address to an LBA sector address under this disk's
    /// geometry.
    pub fn chs_to_lba(&self, sector: &CHS) -> (r: u32)
        requires
            sector.sector >= 1,
            spec_chs_to_lba(self.geometry, *sector) <= u32::MAX,
        ensures
            r == spec_chs_to_lba(self.geometry, *sector),
    {
        let c = sector.cylinder as u64;
        let th = self.geometry.head as u64;
        let ts = self.geometry.sector as u64;
        let h = sector.head as u64;
        let s = sector.sector as u64;
        proof {
            assert(c * th <= 0xffff * 255 && c * th * ts <= 0xffff * 255 * 255 && h * ts <= 255
                * 255) by (nonlinear_arith)
                requires
                    c <= 0xffff,
                    th <= 255,
                    ts <= 255,
                    h <= 255,
            ;
        }
        let lba: u64 = (c * th * ts) + (h * ts) + (s - 1);
        lba as u32
    }

    /// A sector index addresses this disk only below its sector count.
    pub fn sector_in_range(&self, lba: u64) -> (r: bool)
        ensures
            r == (lba < self.sector_count),
    {
        lba < self.sector_count
    }

    /// Retrieve a sector built for this disk.
    pub fn get_sector(&self, position: usize) -> (r: &Sector)
        requires
            position < self.spec_sectors().len(),
        ensures
            *r == self.spec_sectors()[position as int],
    {
        &self.sectors[position]
    }

    /// Add a sector to the end of this disk's sector list.
    pub fn push_sector(&mut self, sector: Sector)
        ensures
            final(self).spec_sectors() == old(self).spec_sectors().push(sector),
            final(self).bootcode == old(self).bootcode,
            final(self).geometry == old(self).geometry,
            final(self).partitions@ == old(self).partitions@,
            final(self).size == old(self).size,
            final(self).sector_count == old(self).sector_count,
    {
        self.sectors.push(sector);
    }

    /// Build the MBR boot sector -- bootstrap code, partition table,
    /// signature -- and place it as this disk's sector 0.
    pub fn build_bootsector(&mut self)
        requires
            old(self).wf(),
            forall|i: int|
                0 <= i < old(self).partitions@.len() ==> (#[trigger] old(
                    self,
                ).partitions@[i]).entry_wf(),
        ensures
            final(self).bootcode == old(self).bootcode,
            final(self).geometry == old(self).geometry,
            final(self).partitions@ == old(self).partitions@,
            final(self).size == old(self).size,
            final(self).sector_count == old(self).sector_count,
            final(self).spec_sectors().len() == (if old(self).spec_sectors().len() == 0 {
                1int
            } else {
                old(self).spec_sectors().len() as int
            }),
            forall|i: int|
                1 <= i < old(self).spec_sectors().len() ==> final(self).spec_sectors()[i] == old(
                    self,
                ).spec_sectors()[i],
            final(self).spec_sectors()[0].spec_data() == spec_bootsector(
                old(self).bootcode@,
                old(self).partitions@,
            ),
            final(self).spec_sectors()[0].spec_position() == 0,
            final(self).spec_sectors()[0].spec_dirty(),
    {
        let ghost base = overlay(Seq::new(512, |i: int| 0u8), 0, self.bootcode@);
        let mut bootsector = Sector::new(0);
        // The bootcode bytes go at the very start of the sector.
        let mut index: usize = 0;
        while index < self.bootcode.len()
            invariant
                old(self) == self,
                old(self).wf(),
                index <= 446,
                self.bootcode@.len() == 446,
                bootsector.wf(),
                bootsector.spec_position() == 0,
                bootsector.spec_dirty(),
                bootsector.spec_data() == Seq::new(
                    512,
                    |i: int|
                        if 0 <= i < index {
                            self.bootcode@[i]
                        } else {
                            0u8
                        },
                ),
            decreases self.bootcode@.len() - index,
        {
            bootsector.write_byte(index, self.bootcode[index]);
            proof {
                assert(bootsector.spec_data() =~= Seq::new(
                    512,
                    |i: int|
                        if 0 <= i < index + 1 {
                            self.bootcode@[i]
                        } else {
                            0u8
                        },
                ));
            }
            index += 1;
        }
        proof {
            assert(bootsector.spec_data() =~= base);
        }
        // Each partition's 16-byte entry lands at its table slot.
        let mut pi: usize = 0;
        while pi < self.partitions.len()
            invariant
                old(self) == self,
                old(self).wf(),
                forall|i: int|
                    0 <= i < self.partitions@.len() ==> (#[trigger] self.partitions@[i]).entry_wf(),
                pi <= self.partitions@.len(),
                base == overlay(Seq::new(512, |i: int| 0u8), 0, self.bootcode@),
                bootsector.wf(),
                bootsector.spec_position() == 0,
                bootsector.spec_dirty(),
                bootsector.spec_data() == spec_write_entries(base, self.partitions@.take(pi as int)),
            decreases self.partitions@.len() - pi,
        {
            let ghost at_entry = bootsector.spec_data();
            let bytes = self.partitions[pi].mbr_entry();
            let offset = self.partitions[pi].offset as usize;
            let mut j: usize = 0;
            while j < 16
                invariant
                    old(self) == self,
                    j <= 16,
                    pi < self.partitions@.len(),
                    bytes@ == spec_mbr_entry(self.partitions@[pi as int]),
                    bytes@.len() == 16,
                    offset == self.partitions@[pi as int].offset,
                    (offset == 0x1be || offset == 0x1ce || offset == 0x1de || offset == 0x1ee),
                    bootsector.wf(),
                    bootsector.spec_position() == 0,
                    bootsector.spec_dirty(),
                    bootsector.spec_data() == overlay(at_entry, offset as int, bytes@.take(j as int)),
                    at_entry.len() == 512,
                decreases 16 - j,
            {
                bootsector.write_byte(offset + j, bytes[j]);
                proof {
                    assert(bootsector.spec_data() =~= overlay(
                        at_entry,
                        offset as int,
                        bytes@.take(j + 1),
                    ));
                }
                j += 1;
            }
            proof {
                assert(bytes@.take(16) =~= bytes@);
                assert(self.partitions@.take(pi + 1).drop_last() =~= self.partitions@.take(
                    pi as int,
                ));
                assert(self.partitions@.take(pi + 1).last() == self.partitions@[pi as int]);
                assert(bootsector.spec_data() == spec_write_entries(
                    base,
                    self.partitions@.take(pi + 1),
                ));
            }
            pi += 1;
        }
        proof {
            assert(self.partitions@.take(self.partitions@.len() as int) =~= self.partitions@);
        }
        // A valid DOS MBR carries the two signature bytes at its end.
        let ghost before_sig = bootsector.spec_data();
        bootsector.write_byte(0x1fe, 0x55);
        bootsector.write_byte(0x1ff, 0xaa);
        proof {
            assert(bootsector.spec_data() =~= overlay(before_sig, 0x1fe, seq![0x55u8, 0xaau8]));
        }
        if self.sectors.len() == 0 {
            self.sectors.push(bootsector);
        } else {
            self.sectors.set(0, bootsector);
        }
    }
}

/// The CHS address of an LBA sector index under a geometry: cylinders
/// advance every heads-times-sectors sectors, heads every track, and
/// the sector number is 1-based within its track.
pub open spec fn spec_lba_to_chs(geometry: CHS, lba: u32) -> CHS
    recommends
        geometry.head >= 1,
        geometry.sector >= 1,
{
    CHS {
        cylinder: (lba as int / ((geometry.head as int) * (geometry.sector as int))) as u16,
        head: ((lba as int / (geometry.sector as int)) % (geometry.head as int)) as u8,
        sector: ((lba as int % (geometry.sector as int)) + 1) as u8,
    }
}

/// The LBA sector index of a CHS address under a geometry.
pub open spec fn spec_chs_to_lba(geometry: CHS, sector: CHS) -> int {
    (sector.cylinder as int) * (geometry.head as int) * (geometry.sector as int) + (
    sector.head as int) * (geometry.sector as int) + (sector.sector as int) - 1
}

} // verus!
