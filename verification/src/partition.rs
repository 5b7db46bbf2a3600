//! MBR partition table entries.
//!
//! A partition is laid out the way FDISK did it: it starts no earlier
//! than sector 63, its end is aligned to a cylinder boundary with a
//! two-cylinder safety margin, and the entry serializes to the 16-byte
//! on-disk format with packed CHS addresses and little-endian LBA
//! fields.

use crate::chs::CHS;
use crate::disk::Disk;
use crate::errors::BuildError;
use crate::sector::Sector;
use crate::vbr::{spec_vbr_bytes, VBR};
use vstd::bytes::{
    lemma_auto_spec_u32_to_from_le_bytes, spec_u32_from_le_bytes, spec_u32_to_le_bytes,
    u32_from_le_bytes, u32_to_le_bytes,
};
use vstd::prelude::*;

verus! {

broadcast use vstd::seq::group_seq_axioms, vstd::seq_lib::group_seq_lib_default;

/// One entry of the MBR partition table, together with the sectors
/// built for the partition's own volume.
#[derive(Debug)]
pub struct Partition {
    pub offset: u16,
    pub flag_byte: u8,
    pub first_lba: u32,
    pub first_sector: CHS,
    pub partition_type: u8,
    pub last_sector: CHS,
    pub sector_count: u32,
    pub last_lba: u32,
    pub sectors: Vec<Sector>,
}

/// The 16-byte on-disk form of a partition entry: flag, packed first
/// CHS, type, packed last CHS, then first LBA and sector count as
/// little-endian double words.
pub open spec fn spec_mbr_entry(p: Partition) -> Seq<u8> {
    seq![p.flag_byte] + p.first_sector.spec_to_bytes() + seq![p.partition_type]
        + p.last_sector.spec_to_bytes() + spec_u32_to_le_bytes(p.first_lba)
        + spec_u32_to_le_bytes(p.sector_count)
}

/// Partition starts are clamped up to sector 63, the first sector
/// MS-DOS ever uses for a partition.
pub open spec fn spec_clamped_start(start_sector: u32) -> u32 {
    if start_sector < 63 {
        63u32
    } else {
        start_sector
    }
}

/// The sector count a caller asked for: the byte size rounded down to
/// sectors, or, for the zero sentinel, all remaining space minus a
/// 64-sector safety margin.
pub open spec fn spec_requested_sectors(
    disk_sector_count: u64,
    start: u32,
    partition_bytes: u64,
) -> int {
    if partition_bytes == 0 {
        disk_sector_count - start - 64
    } else {
        partition_bytes as int / 512
    }
}

/// The cylinder-aligned last CHS address of the partition: the
/// requested end address with the head forced to the geometry's head
/// count, the sector to 63, and the cylinder pulled back by the
/// two-cylinder margin FDISK leaves.
pub open spec fn spec_partition_last_chs(
    geometry: CHS,
    disk_sector_count: u64,
    start_sector: u32,
    partition_bytes: u64,
) -> CHS {
    let start = spec_clamped_start(start_sector);
    let requested = spec_requested_sectors(disk_sector_count, start, partition_bytes);
    let end_lba = start + requested;
    let cylinder = end_lba / ((geometry.head as int) * (geometry.sector as int));
    CHS { cylinder: (cylinder - 2) as u16, head: geometry.head, sector: 63u8 }
}

/// Whether a requested partition stays inside what the disk geometry
/// can address: the requested size must be representable, the end
/// cylinder must leave room for the two-cylinder margin and fit the
/// 10-bit field, and both LBA bounds must fit 32 bits.
pub open spec fn spec_partition_fits(
    geometry: CHS,
    disk_sector_count: u64,
    start_sector: u32,
    partition_bytes: u64,
) -> bool {
    let start = spec_clamped_start(start_sector);
    let requested = spec_requested_sectors(disk_sector_count, start, partition_bytes);
    let end_lba = start + requested;
    let cylinder = end_lba / ((geometry.head as int) * (geometry.sector as int));
    let last = spec_partition_last_chs(geometry, disk_sector_count, start_sector, partition_bytes);
    let count = crate::disk::spec_chs_to_lba(geometry, last);
    &&& partition_bytes <= u32::MAX
    &&& 0 <= requested
    &&& end_lba <= u32::MAX
    &&& 2 <= cylinder <= 1025
    &&& start as int / ((geometry.head as int) * (geometry.sector as int)) < 1024
    &&& start + count - 1 <= u32::MAX
}

impl Partition {
    /// The sectors built for this partition's volume.
    pub open spec fn spec_sectors(self) -> Seq<Sector> {
        self.sectors@
    }

    /// The entry can be written to the table: both CHS addresses fit
    /// their packed fields and the entry sits in one of the four slots.
    pub open spec fn entry_wf(self) -> bool {
        &&& self.first_sector.encodable()
        &&& self.last_sector.encodable()
        &&& (self.offset == 0x1be || self.offset == 0x1ce || self.offset == 0x1de || self.offset
            == 0x1ee)
    }

    /// Lay out a new partition on a disk. The slot must be 1..=4; the
    /// start is clamped up to sector 63; a byte size of zero means all
    /// remaining space minus a 64-sector margin; and the end is aligned
    /// to a cylinder boundary, two cylinders short, exactly as FDISK
    /// aligned it.
    pub fn new(
        disk: &Disk,
        partition_number: u8,
        start_sector: u32,
        partition_bytes: u64,
    ) -> (r: Result<Partition, BuildError>)
        requires
            disk.geometry.head >= 1,
            1 <= disk.geometry.sector <= 63,
        ensures
            (partition_number == 0 || partition_number > 4) ==> r == Err::<Partition, BuildError>(
                BuildError::InvalidPartitionNumber,
            ),
            1 <= partition_number <= 4 && !spec_partition_fits(
                disk.geometry,
                disk.sector_count,
                start_sector,
                partition_bytes,
            ) ==> r == Err::<Partition, BuildError>(BuildError::PartitionOutOfRange),
            1 <= partition_number <= 4 && spec_partition_fits(
                disk.geometry,
                disk.sector_count,
                start_sector,
                partition_bytes,
            ) ==> (r matches Ok(p) && {
                &&& p.offset == 0x1be
                &&& p.flag_byte == 0x80
                &&& p.partition_type == 0x06
                &&& p.first_lba == spec_clamped_start(start_sector)
                &&& p.first_sector == crate::disk::spec_lba_to_chs(disk.geometry, p.first_lba)
                &&& p.last_sector == spec_partition_last_chs(
                    disk.geometry,
                    disk.sector_count,
                    start_sector,
                    partition_bytes,
                )
                &&& p.sector_count == crate::disk::spec_chs_to_lba(disk.geometry, p.last_sector)
                &&& p.last_lba == p.first_lba + p.sector_count - 1
                &&& p.spec_sectors().len() == 0
                &&& p.entry_wf()
            }),
    {
        // MBR layout supports four primary partitions, numbered from 1.
        if partition_number > 4 || partition_number == 0 {
            return Err(BuildError::InvalidPartitionNumber);
        }
        if partition_bytes > 0xffffffff {
            return Err(BuildError::PartitionOutOfRange);
        }
        // Nothing begins before sector 63. MS-DOS doesn't do it that way.
        let start: u32 = if start_sector < 63 {
            63
        } else {
            start_sector
        };
        let requested: u64 = if partition_bytes == 0 {
            if disk.sector_count < start as u64 + 64 {
                return Err(BuildError::PartitionOutOfRange);
            }
            disk.sector_count - start as u64 - 64
        } else {
            partition_bytes / 512
        };
        let end_lba: u64 = start as u64 + requested;
        if end_lba > 0xffffffff {
            return Err(BuildError::PartitionOutOfRange);
        }
        proof {
            assert(1 <= (disk.geometry.head as u64) * (disk.geometry.sector as u64) <= 65025)
                by (nonlinear_arith)
                requires
                    1 <= disk.geometry.head <= 255,
                    1 <= disk.geometry.sector <= 255,
            ;
        }
        let heads_times_sectors: u64 = (disk.geometry.head as u64) * (disk.geometry.sector as u64);
        let end_cylinder: u64 = end_lba / heads_times_sectors;
        if end_cylinder < 2 || end_cylinder > 1025 {
            return Err(BuildError::PartitionOutOfRange);
        }
        if (start as u64) / heads_times_sectors >= 1024 {
            return Err(BuildError::PartitionOutOfRange);
        }
        let last_chs = CHS::new((end_cylinder - 2) as u16, disk.geometry.head, 63);
        proof {
            assert(crate::disk::spec_chs_to_lba(disk.geometry, last_chs) <= 0xffffffff)
                by (nonlinear_arith)
                requires
                    last_chs.cylinder <= 1023,
                    last_chs.head <= 255,
                    last_chs.sector == 63,
                    disk.geometry.head <= 255,
                    disk.geometry.sector <= 255,
            ;
        }
        let sector_count: u32 = disk.chs_to_lba(&last_chs);
        if start as u64 + sector_count as u64 - 1 > 0xffffffff {
            return Err(BuildError::PartitionOutOfRange);
        }
        let last_lba: u32 = ((start as u64) + (sector_count as u64) - 1) as u32;
        let first_sector = disk.lba_to_chs(start);
        Ok(
            Partition {
                offset: 0x1be,
                flag_byte: 0x80,
                first_sector,
                partition_type: 0x06,
                last_sector: last_chs,
                first_lba: start,
                last_lba,
                sector_count,
                sectors: Vec::new(),
            },
        )
    }

    /// Format the partition as FAT16: build its Volume Boot Record and
    /// place it in the partition's first sector.
    pub fn format(&mut self) -> (r: Result<(), BuildError>)
        ensures
            old(self).sector_count < 8400 ==> r == Err::<(), BuildError>(
                BuildError::VolumeTooSmall,
            ) && *final(self) == *old(self),
            old(self).sector_count >= 4194304 ==> r == Err::<(), BuildError>(
                BuildError::VolumeTooLarge,
            ) && *final(self) == *old(self),
            8400 <= old(self).sector_count < 4194304 ==> {
                &&& r == Ok::<(), BuildError>(())
                &&& final(self).spec_sectors().len() == old(self).spec_sectors().len() + 1
                &&& forall|i: int|
                    0 <= i < old(self).spec_sectors().len() ==> final(self).spec_sectors()[i]
                        == old(self).spec_sectors()[i]
                &&& final(self).spec_sectors().last().spec_position() == old(self).first_lba
                &&& final(self).spec_sectors().last().spec_data() == Seq::new(
                    512,
                    |i: int|
                        if 0 <= i < 509 {
                            spec_vbr_bytes(old(self).sector_count)[i]
                        } else {
                            0u8
                        },
                )
                &&& final(self).offset == old(self).offset
                &&& final(self).flag_byte == old(self).flag_byte
                &&& final(self).first_lba == old(self).first_lba
                &&& final(self).first_sector == old(self).first_sector
                &&& final(self).partition_type == old(self).partition_type
                &&& final(self).last_sector == old(self).last_sector
                &&& final(self).sector_count == old(self).sector_count
                &&& final(self).last_lba == old(self).last_lba
            },
    {
        let vbr = match VBR::new(self.sector_count) {
            Ok(v) => v,
            Err(e) => { return Err(e) },
        };
        let mut bootsector = Sector::new(self.first_lba as u64);
        let bytes = vbr.as_bytes();
        proof {
            assert(vbr.spec_as_bytes() =~= spec_vbr_bytes(self.sector_count));
        }
        let mut i: usize = 0;
        while i < bytes.len()
            invariant
                i <= bytes@.len(),
                bytes@.len() == 509,
                bootsector.wf(),
                bootsector.spec_position() == old(self).first_lba,
                bootsector.spec_data() == Seq::new(
                    512,
                    |j: int|
                        if 0 <= j < i {
                            bytes@[j]
                        } else {
                            0u8
                        },
                ),
            decreases bytes@.len() - i,
        {
            let ghost before = bootsector.spec_data();
            bootsector.write_byte(i, bytes[i]);
            proof {
                assert(bootsector.spec_data() =~= Seq::new(
                    512,
                    |j: int|
                        if 0 <= j < i + 1 {
                            bytes@[j]
                        } else {
                            0u8
                        },
                ));
            }
            i += 1;
        }
        proof {
            assert(bootsector.spec_data() =~= Seq::new(
                512,
                |j: int|
                    if 0 <= j < 509 {
                        spec_vbr_bytes(self.sector_count)[j]
                    } else {
                        0u8
                    },
            ));
        }
        self.sectors.push(bootsector);
        Ok(())
    }

    /// The sectors built for this partition, read-only.
    pub fn get_sectors(&self) -> (r: &Vec<Sector>)
        ensures
            r@ == self.spec_sectors(),
    {
        &self.sectors
    }

    /// The first byte of the partition on the underlying disk.
    pub fn get_start_offset(&self) -> (r: u64)
        ensures
            r == self.first_lba as int * 512,
    {
        (self.first_lba as u64) * 512
    }

    /// The last byte of the partition on the underlying disk.
    pub fn get_end_offset(&self) -> (r: u64)
        ensures
            r == self.last_lba as int * 512,
    {
        (self.last_lba as u64) * 512
    }

    /// Serialize this entry into the 16 bytes of its MBR table slot.
    pub fn mbr_entry(&self) -> (r: Vec<u8>)
        requires
            self.first_sector.encodable(),
            self.last_sector.encodable(),
        ensures
            r@ == spec_mbr_entry(*self),
            r@.len() == 16,
    {
        proof {
            lemma_auto_spec_u32_to_from_le_bytes();
        }
        let mut bytes: Vec<u8> = Vec::new();
        bytes.push(self.flag_byte);
        let start_chs = self.first_sector.as_bytes();
        bytes.extend_from_slice(start_chs.as_slice());
        bytes.push(self.partition_type);
        let end_chs = self.last_sector.as_bytes();
        bytes.extend_from_slice(end_chs.as_slice());
        let mut field = u32_to_le_bytes(self.first_lba);
        bytes.append(&mut field);
        let mut field = u32_to_le_bytes(self.sector_count);
        bytes.append(&mut field);
        proof {
            assert(bytes@ =~= spec_mbr_entry(*self));
        }
        bytes
    }

    /// Rebuild a partition entry from the 16 bytes of an MBR table
    /// slot; the last LBA is derived from the start and the count.
    pub fn from_bytes(entry: [u8; 16]) -> (r: Partition)
        requires
            ({
                let first_lba = spec_u32_from_le_bytes(entry@.subrange(8, 12));
                let count = spec_u32_from_le_bytes(entry@.subrange(12, 16));
                1 <= first_lba + count && first_lba + count - 1 <= u32::MAX
            }),
        ensures
            r.offset == 0x1be,
            r.flag_byte == entry@[0],
            r.first_sector == CHS::spec_from_bytes(entry@.subrange(1, 4)),
            r.partition_type == entry@[4],
            r.last_sector == CHS::spec_from_bytes(entry@.subrange(5, 8)),
            r.first_lba == spec_u32_from_le_bytes(entry@.subrange(8, 12)),
            r.sector_count == spec_u32_from_le_bytes(entry@.subrange(12, 16)),
            r.last_lba == r.sector_count + r.first_lba - 1,
            r.spec_sectors().len() == 0,
            r.first_sector.encodable(),
            r.last_sector.encodable(),
    {
        let first_chs_bytes: [u8; 3] = [entry[1], entry[2], entry[3]];
        let last_chs_bytes: [u8; 3] = [entry[5], entry[6], entry[7]];
        let first_lba_bytes: [u8; 4] = [entry[8], entry[9], entry[10], entry[11]];
        let sector_count_bytes: [u8; 4] = [entry[12], entry[13], entry[14], entry[15]];
        proof {
            assert(first_chs_bytes@ =~= entry@.subrange(1, 4));
            assert(last_chs_bytes@ =~= entry@.subrange(5, 8));
            assert(first_lba_bytes@ =~= entry@.subrange(8, 12));
            assert(sector_count_bytes@ =~= entry@.subrange(12, 16));
        }
        let first_lba: u32 = u32_from_le_bytes(first_lba_bytes.as_slice());
        let sector_count: u32 = u32_from_le_bytes(sector_count_bytes.as_slice());
        let last_lba: u32 = ((sector_count as u64) + (first_lba as u64) - 1) as u32;
        Partition {
            offset: 0x1be,
            flag_byte: entry[0],
            last_sector: CHS::from_bytes(last_chs_bytes),
            first_sector: CHS::from_bytes(first_chs_bytes),
            partition_type: entry[4],
            first_lba,
            sector_count,
            last_lba,
            sectors: Vec::new(),
        }
    }
}

/// Serializing a partition entry and reading the bytes back
/// reproduces every stored field, and the derived last LBA agrees with
/// the stored one.
pub proof fn lemma_partition_entry_roundtrip(p: Partition)
    requires
        p.first_sector.encodable(),
        p.last_sector.encodable(),
        1 <= p.first_lba + p.sector_count,
        p.first_lba + p.sector_count - 1 <= u32::MAX,
        p.last_lba == p.first_lba + p.sector_count - 1,
    ensures
        ({
            let e = spec_mbr_entry(p);
            &&& e.len() == 16
            &&& e[0] == p.flag_byte
            &&& CHS::spec_from_bytes(e.subrange(1, 4)) == p.first_sector
            &&& e[4] == p.partition_type
            &&& CHS::spec_from_bytes(e.subrange(5, 8)) == p.last_sector
            &&& spec_u32_from_le_bytes(e.subrange(8, 12)) == p.first_lba
            &&& spec_u32_from_le_bytes(e.subrange(12, 16)) == p.sector_count
            &&& spec_u32_from_le_bytes(e.subrange(12, 16)) + spec_u32_from_le_bytes(
                e.subrange(8, 12),
            ) - 1 == p.last_lba
        }),
{
    lemma_auto_spec_u32_to_from_le_bytes();
    let e = spec_mbr_entry(p);
    assert(e.subrange(1, 4) =~= p.first_sector.spec_to_bytes());
    assert(e.subrange(5, 8) =~= p.last_sector.spec_to_bytes());
    assert(e.subrange(8, 12) =~= spec_u32_to_le_bytes(p.first_lba));
    assert(e.subrange(12, 16) =~= spec_u32_to_le_bytes(p.sector_count));
    crate::chs::lemma_chs_bytes_roundtrip(p.first_sector);
    crate::chs::lemma_chs_bytes_roundtrip(p.last_sector);
}

} // verus!
