//! The FAT16 Volume Boot Record and its BIOS Parameter Block.
//!
//! A VBR is built once from a volume's sector count. The sectors-per-cluster
//! table and the sectors-per-FAT formula follow the official Microsoft
//! values, including the formula's known inaccuracy, so that the produced
//! bytes match what MS-DOS FORMAT wrote.

use crate::bootcode::{spec_vbr_bootcode, vbr_bootcode};
use crate::errors::BuildError;
use vstd::bytes::{
    lemma_auto_spec_u16_to_from_le_bytes, lemma_auto_spec_u32_to_from_le_bytes,
    spec_u16_to_le_bytes, spec_u32_to_le_bytes, u16_to_le_bytes, u32_to_le_bytes,
};
use vstd::prelude::*;

verus! {

/// The x86 jump over the BPB: the usual MS-DOS 6.x three-byte sequence.
pub open spec fn spec_jump_bytes() -> Seq<u8> {
    seq![0xebu8, 0x3cu8, 0x90u8]
}

/// The OEM name field; MS-DOS 6.x writes "MSDOS5.0" here.
pub open spec fn spec_oem_name() -> Seq<u8> {
    seq![0x4du8, 0x53u8, 0x44u8, 0x4fu8, 0x53u8, 0x35u8, 0x2eu8, 0x30u8]
}

/// The eleven-byte volume label, "DOSCNTNR" padded with blanks.
pub open spec fn spec_volume_label() -> Seq<u8> {
    seq![0x44u8, 0x4fu8, 0x53u8, 0x43u8, 0x4eu8, 0x54u8, 0x4eu8, 0x52u8, 0x20u8, 0x20u8, 0x20u8]
}

/// The eight-byte file-system type field, "FAT16" padded with blanks.
pub open spec fn spec_filesystem_type() -> Seq<u8> {
    seq![0x46u8, 0x41u8, 0x54u8, 0x31u8, 0x36u8, 0x20u8, 0x20u8, 0x20u8]
}

/// The sectors-per-cluster value for a FAT16 volume, by the official
/// threshold table. Sector counts below 8400 or at or above 4194304
/// cannot be represented by FAT16 and have no table entry.
pub open spec fn spec_sectors_per_cluster(volume_sector_count: u32) -> u8
    recommends
        8400 <= volume_sector_count < 4194304,
{
    if volume_sector_count < 32680 {
        2u8
    } else if volume_sector_count < 262144 {
        4u8
    } else if volume_sector_count < 524288 {
        8u8
    } else if volume_sector_count < 1048576 {
        16u8
    } else if volume_sector_count < 2097152 {
        32u8
    } else {
        64u8
    }
}

/// The legacy sectors-per-FAT formula: one reserved sector and 32 root
/// directory sectors are subtracted, and the rest is divided (rounding
/// up) by 256 * sectors_per_cluster + 2. The formula can under-allocate;
/// it is kept exactly as MS-DOS used it.
pub open spec fn spec_sectors_per_fat(volume_sector_count: u32) -> int
    recommends
        8400 <= volume_sector_count < 4194304,
{
    let divisor = 256 * (spec_sectors_per_cluster(volume_sector_count) as int) + 2;
    ((volume_sector_count - 33) + (divisor - 1)) / divisor
}

/// Within the FAT16 range the legacy formula always fits its 16-bit field.
pub proof fn lemma_sectors_per_fat_fits(volume_sector_count: u32)
    requires
        8400 <= volume_sector_count < 4194304,
    ensures
        0 < spec_sectors_per_fat(volume_sector_count) < 65535,
{
    let n = volume_sector_count - 33;
    let divisor = 256 * (spec_sectors_per_cluster(volume_sector_count) as int) + 2;
    assert(514 <= divisor <= 16386);
    assert((n + (divisor - 1)) / divisor < 65535) by (nonlinear_arith)
        requires
            8367 <= n < 4194271,
            514 <= divisor <= 16386,
    ;
    assert((n + (divisor - 1)) / divisor > 0) by (nonlinear_arith)
        requires
            8367 <= n < 4194271,
            514 <= divisor <= 16386,
    ;
}

/// The media descriptor bytes that legacy FAT implementations know.
pub open spec fn spec_valid_media_descriptor(value: u8) -> bool {
    ||| value == 0xe5
    ||| value == 0xed
    ||| value == 0xee
    ||| value == 0xef
    ||| value == 0xf0
    ||| value == 0xf4
    ||| value == 0xf5
    ||| value == 0xf8
    ||| value == 0xf9
    ||| value == 0xfa
    ||| value == 0xfb
    ||| value == 0xfc
    ||| value == 0xfd
    ||| value == 0xfe
    ||| value == 0xff
}

/// The 509 serialized bytes of a freshly built Volume Boot Record for
/// a volume of the given sector count, with the MS-DOS 6.22 defaults.
pub open spec fn spec_vbr_bytes(volume_sector_count: u32) -> Seq<u8>
    recommends
        8400 <= volume_sector_count < 4194304,
{
    spec_jump_bytes() + spec_oem_name() + spec_u16_to_le_bytes(512u16) + seq![
        spec_sectors_per_cluster(volume_sector_count),
    ] + spec_u16_to_le_bytes(1u16) + seq![2u8] + spec_u16_to_le_bytes(512u16)
        + spec_u16_to_le_bytes(
        if volume_sector_count < 65536 {
            volume_sector_count as u16
        } else {
            0u16
        },
    ) + seq![0xf8u8] + spec_u16_to_le_bytes(spec_sectors_per_fat(volume_sector_count) as u16)
        + spec_u16_to_le_bytes(63u16) + spec_u16_to_le_bytes(16u16) + spec_u32_to_le_bytes(63u32)
        + spec_u32_to_le_bytes(
        if volume_sector_count > 65535 {
            volume_sector_count
        } else {
            0u32
        },
    ) + seq![0x80u8, 0u8, 0x29u8] + spec_u32_to_le_bytes(1664469745u32) + spec_volume_label()
        + spec_filesystem_type() + spec_vbr_bootcode()
}

/// A FAT16 Volume Boot Record: the BIOS Parameter Block fields followed
/// by the embedded volume bootstrap code.
#[derive(Debug)]
pub struct VBR {
    pub jump_bytes: [u8; 3],
    pub oem_name: [u8; 8],
    pub bytes_per_sector: u16,
    pub sectors_per_cluster: u8,
    pub reserved_sectors_count: u16,
    pub fats_count: u8,
    pub root_dir_entries_count: u16,
    pub sectors_per_fat: u16,
    pub media_descriptor: u8,
    pub sectors_per_track: u16,
    pub heads_count: u16,
    pub hidden_sectors_count: u32,
    pub volume_boot_code: Vec<u8>,
    pub volume_sectors_count: u16,
    pub volume_sectors_count32: u32,
    pub drive_number: u8,
    pub extended_boot_signature: u8,
    pub volume_serial: u32,
    pub volume_label: [u8; 11],
    pub filesystem_type: [u8; 8],
}

impl VBR {
    /// The embedded bootstrap payload always spans bytes 62..509 of the
    /// boot sector.
    pub open spec fn wf(self) -> bool {
        self.volume_boot_code@.len() == 447
    }

    /// The serialized boot-sector prefix: every BPB field at its on-disk
    /// offset, two-byte and four-byte fields little-endian, then the
    /// bootstrap code.
    pub open spec fn spec_as_bytes(self) -> Seq<u8> {
        self.jump_bytes@ + self.oem_name@ + spec_u16_to_le_bytes(self.bytes_per_sector)
            + seq![self.sectors_per_cluster] + spec_u16_to_le_bytes(self.reserved_sectors_count)
            + seq![self.fats_count] + spec_u16_to_le_bytes(self.root_dir_entries_count)
            + spec_u16_to_le_bytes(self.volume_sectors_count) + seq![self.media_descriptor]
            + spec_u16_to_le_bytes(self.sectors_per_fat)
            + spec_u16_to_le_bytes(self.sectors_per_track)
            + spec_u16_to_le_bytes(self.heads_count)
            + spec_u32_to_le_bytes(self.hidden_sectors_count)
            + spec_u32_to_le_bytes(self.volume_sectors_count32)
            + seq![self.drive_number, 0u8, self.extended_boot_signature]
            + spec_u32_to_le_bytes(self.volume_serial) + self.volume_label@
            + self.filesystem_type@ + self.volume_boot_code@
    }

    /// Instantiate a Volume Boot Record for a volume of the given sector
    /// count, with the fixed MS-DOS 6.22 defaults for every other field.
    pub fn new(volume_sector_count: u32) -> (r: Result<VBR, BuildError>)
        ensures
            volume_sector_count < 8400 ==> r == Err::<VBR, BuildError>(BuildError::VolumeTooSmall),
            volume_sector_count >= 4194304 ==> r == Err::<VBR, BuildError>(
                BuildError::VolumeTooLarge,
            ),
            8400 <= volume_sector_count < 4194304 ==> (r matches Ok(v) && {
                &&& v.wf()
                &&& v.jump_bytes@ == spec_jump_bytes()
                &&& v.oem_name@ == spec_oem_name()
                &&& v.bytes_per_sector == 512
                &&& v.sectors_per_cluster == spec_sectors_per_cluster(volume_sector_count)
                &&& v.reserved_sectors_count == 1
                &&& v.fats_count == 2
                &&& v.root_dir_entries_count == 512
                &&& v.sectors_per_fat == spec_sectors_per_fat(volume_sector_count)
                &&& v.media_descriptor == 0xf8
                &&& v.sectors_per_track == 63
                &&& v.heads_count == 16
                &&& v.hidden_sectors_count == 63
                &&& v.volume_boot_code@ == spec_vbr_bootcode()
                &&& v.volume_sectors_count == (if volume_sector_count < 65536 {
                    volume_sector_count as u16
                } else {
                    0u16
                })
                &&& v.volume_sectors_count32 == (if volume_sector_count > 65535 {
                    volume_sector_count
                } else {
                    0u32
                })
                &&& v.drive_number == 0x80
                &&& v.extended_boot_signature == 0x29
                &&& v.volume_serial == 1664469745
                &&& v.volume_label@ == spec_volume_label()
                &&& v.filesystem_type@ == spec_filesystem_type()
                &&& v.spec_as_bytes() == spec_vbr_bytes(volume_sector_count)
            }),
    {
        let sectors_per_cluster = match VBR::set_sectors_per_cluster(volume_sector_count) {
            Ok(v) => v,
            Err(e) => { return Err(e) },
        };
        let sectors_per_fat = match VBR::set_sectors_per_fat(volume_sector_count) {
            Ok(v) => v,
            Err(e) => { return Err(e) },
        };
        proof {
            lemma_sectors_per_fat_fits(volume_sector_count);
        }
        let jump_bytes = VBR::default_jump_bytes();
        let oem_name = VBR::default_oem_name();
        let volume_label: [u8; 11] = [
            0x44, 0x4f, 0x53, 0x43, 0x4e, 0x54, 0x4e, 0x52, 0x20, 0x20, 0x20,
        ];
        let filesystem_type: [u8; 8] = [0x46, 0x41, 0x54, 0x31, 0x36, 0x20, 0x20, 0x20];
        proof {
            assert(volume_label@ =~= spec_volume_label());
            assert(filesystem_type@ =~= spec_filesystem_type());
        }
        let vbr = (
            VBR {
                jump_bytes,
                oem_name,
                bytes_per_sector: 512,  // the only sector size this builder emits
                sectors_per_cluster,
                reserved_sectors_count: 1,  // ancient MS/PC-DOS default
                fats_count: 2,  // ancient MS/PC-DOS default
                root_dir_entries_count: 512,
                sectors_per_fat,
                media_descriptor: 0xf8,  // hard disk; floppies are unsupported
                sectors_per_track: 63,
                heads_count: 16,
                hidden_sectors_count: 63,
                volume_boot_code: vbr_bootcode(),
                volume_sectors_count: VBR::set_sectors_count16(volume_sector_count),
                volume_sectors_count32: VBR::set_sectors_count32(volume_sector_count),
                drive_number: 0x80,
                extended_boot_signature: 0x29,
                volume_serial: 1664469745,
                volume_label,
                filesystem_type,
            }
        );
        proof {
            assert(vbr.spec_as_bytes() =~= spec_vbr_bytes(volume_sector_count));
        }
        Ok(vbr)
    }

    /// The 16-bit sector count field: the count itself when it fits,
    /// zero when the 32-bit field carries it instead.
    pub fn set_sectors_count16(volume_sector_count: u32) -> (r: u16)
        ensures
            r == (if volume_sector_count < 65536 {
                volume_sector_count as u16
            } else {
                0u16
            }),
    {
        if volume_sector_count < 65536 {
            volume_sector_count as u16
        } else {
            0
        }
    }

    /// The 32-bit sector count field: the count when it exceeds 16 bits,
    /// zero otherwise.
    pub fn set_sectors_count32(volume_sector_count: u32) -> (r: u32)
        ensures
            r == (if volume_sector_count > 65535 {
                volume_sector_count
            } else {
                0u32
            }),
    {
        if volume_sector_count > 65535 {
            volume_sector_count
        } else {
            0
        }
    }

    /// The default jump to the bootstrap routine for MS-DOS 6.x.
    pub fn default_jump_bytes() -> (r: [u8; 3])
        ensures
            r@ == spec_jump_bytes(),
    {
        let r: [u8; 3] = [0xeb, 0x3c, 0x90];
        proof {
            assert(r@ =~= spec_jump_bytes());
        }
        r
    }

    /// MS-DOS 6.x interestingly uses MSDOS5.0 as the OEM name.
    pub fn default_oem_name() -> (r: [u8; 8])
        ensures
            r@ == spec_oem_name(),
    {
        let r: [u8; 8] = [0x4d, 0x53, 0x44, 0x4f, 0x53, 0x35, 0x2e, 0x30];
        proof {
            assert(r@ =~= spec_oem_name());
        }
        r
    }

    /// Look up the sectors-per-cluster value for the volume, failing on
    /// sector counts FAT16 cannot represent.
    pub fn set_sectors_per_cluster(volume_sector_count: u32) -> (r: Result<u8, BuildError>)
        ensures
            volume_sector_count < 8400 ==> r == Err::<u8, BuildError>(BuildError::VolumeTooSmall),
            volume_sector_count >= 4194304 ==> r == Err::<u8, BuildError>(
                BuildError::VolumeTooLarge,
            ),
            8400 <= volume_sector_count < 4194304 ==> r == Ok::<u8, BuildError>(
                spec_sectors_per_cluster(volume_sector_count),
            ),
    {
        if volume_sector_count < 8400 {
            Err(BuildError::VolumeTooSmall)
        } else if volume_sector_count < 32680 {
            Ok(2)
        } else if volume_sector_count < 262144 {
            Ok(4)
        } else if volume_sector_count < 524288 {
            Ok(8)
        } else if volume_sector_count < 1048576 {
            Ok(16)
        } else if volume_sector_count < 2097152 {
            Ok(32)
        } else if volume_sector_count < 4194304 {
            Ok(64)
        } else {
            Err(BuildError::VolumeTooLarge)
        }
    }

    /// Compute the sectors-per-FAT field with the legacy formula.
    pub fn set_sectors_per_fat(volume_sector_count: u32) -> (r: Result<u16, BuildError>)
        ensures
            volume_sector_count < 8400 ==> r == Err::<u16, BuildError>(BuildError::VolumeTooSmall),
            volume_sector_count >= 4194304 ==> r == Err::<u16, BuildError>(
                BuildError::VolumeTooLarge,
            ),
            8400 <= volume_sector_count < 4194304 ==> r == Ok::<u16, BuildError>(
                spec_sectors_per_fat(volume_sector_count) as u16,
            ),
    {
        let sectors_per_cluster = match VBR::set_sectors_per_cluster(volume_sector_count) {
            Ok(v) => v,
            Err(e) => { return Err(e) },
        };
        let root_dir_sectors: u32 = ((512 * 32) + (512 - 1)) / 512;
        let tmpval1: u32 = volume_sector_count - (1 + root_dir_sectors);
        let tmpval2: u32 = (256 * (sectors_per_cluster as u32)) + 2;
        let fat_size: u32 = (tmpval1 + (tmpval2 - 1)) / tmpval2;
        proof {
            lemma_sectors_per_fat_fits(volume_sector_count);
        }
        if fat_size < 65535 {
            Ok(fat_size as u16)
        } else {
            // unreachable within the FAT16 range, kept as a guard
            Err(BuildError::SectorsPerFatTooLarge)
        }
    }

    /// Replace the media descriptor; only bytes from the legacy set are
    /// accepted, anything else is rejected unchanged.
    pub fn set_media_descriptor(&mut self, value: u8) -> (r: Result<(), BuildError>)
        ensures
            spec_valid_media_descriptor(value) ==> r == Ok::<(), BuildError>(())
                && *final(self) == (VBR { media_descriptor: value, ..*old(self) }),
            !spec_valid_media_descriptor(value) ==> r == Err::<(), BuildError>(
                BuildError::InvalidMediaDescriptor,
            ) && *final(self) == *old(self),
    {
        if value == 0xe5 || value == 0xed || value == 0xee || value == 0xef || value == 0xf0
            || value == 0xf4 || value == 0xf5 || value >= 0xf8 {
            self.media_descriptor = value;
            Ok(())
        } else {
            Err(BuildError::InvalidMediaDescriptor)
        }
    }

    /// Replace the reserved sector count, clamping to the legacy minimum
    /// of one.
    pub fn set_reserved_sectors(&mut self, count: u16)
        ensures
            *final(self) == (VBR {
                reserved_sectors_count: if count == 0 {
                    1u16
                } else {
                    count
                },
                ..*old(self)
            }),
    {
        self.reserved_sectors_count = if count == 0 {
            1
        } else {
            count
        };
    }

    /// Replace the FAT count, clamping to the legacy minimum of one.
    pub fn set_fats_count(&mut self, count: u8)
        ensures
            *final(self) == (VBR {
                fats_count: if count == 0 {
                    1u8
                } else {
                    count
                },
                ..*old(self)
            }),
    {
        self.fats_count = if count == 0 {
            1
        } else {
            count
        };
    }

    /// Replace the root directory entry count, clamped into 16..=512 and
    /// rounded down to a multiple of 16.
    pub fn set_root_dir_entries(&mut self, count: u16)
        ensures
            *final(self) == (VBR {
                root_dir_entries_count: spec_clamped_root_entries(count),
                ..*old(self)
            }),
    {
        let clamped: u16 = if count < 16 {
            16
        } else if count > 512 {
            512
        } else {
            count - count % 16
        };
        self.root_dir_entries_count = clamped;
    }

    /// Serialize the Volume Boot Record into the on-disk byte sequence:
    /// 62 bytes of BPB fields followed by the 447 bootstrap bytes.
    pub fn as_bytes(&self) -> (r: Vec<u8>)
        requires
            self.wf(),
        ensures
            r@ == self.spec_as_bytes(),
            r@.len() == 509,
    {
        proof {
            lemma_auto_spec_u16_to_from_le_bytes();
            lemma_auto_spec_u32_to_from_le_bytes();
        }
        let mut bytes: Vec<u8> = Vec::new();
        bytes.extend_from_slice(self.jump_bytes.as_slice());
        bytes.extend_from_slice(self.oem_name.as_slice());
        let mut field = u16_to_le_bytes(self.bytes_per_sector);
        bytes.append(&mut field);
        bytes.push(self.sectors_per_cluster);
        let mut field = u16_to_le_bytes(self.reserved_sectors_count);
        bytes.append(&mut field);
        bytes.push(self.fats_count);
        let mut field = u16_to_le_bytes(self.root_dir_entries_count);
        bytes.append(&mut field);
        let mut field = u16_to_le_bytes(self.volume_sectors_count);
        bytes.append(&mut field);
        bytes.push(self.media_descriptor);
        let mut field = u16_to_le_bytes(self.sectors_per_fat);
        bytes.append(&mut field);
        let mut field = u16_to_le_bytes(self.sectors_per_track);
        bytes.append(&mut field);
        let mut field = u16_to_le_bytes(self.heads_count);
        bytes.append(&mut field);
        let mut field = u32_to_le_bytes(self.hidden_sectors_count);
        bytes.append(&mut field);
        let mut field = u32_to_le_bytes(self.volume_sectors_count32);
        bytes.append(&mut field);
        bytes.push(self.drive_number);
        bytes.push(0);  // reserved byte, always zero
        bytes.push(self.extended_boot_signature);
        let mut field = u32_to_le_bytes(self.volume_serial);
        bytes.append(&mut field);
        bytes.extend_from_slice(self.volume_label.as_slice());
        bytes.extend_from_slice(self.filesystem_type.as_slice());
        bytes.extend_from_slice(self.volume_boot_code.as_slice());
        proof {
            assert(bytes@ =~= self.spec_as_bytes());
        }
        bytes
    }

    /// The embedded volume bootstrap code.
    pub fn get_bootcode(&self) -> (r: &Vec<u8>)
        ensures
            r@ == self.volume_boot_code@,
    {
        &self.volume_boot_code
    }
}

/// The legacy-valid root directory entry count nearest to a requested
/// one: within 16..=512 and a multiple of 16.
pub open spec fn spec_clamped_root_entries(count: u16) -> u16 {
    if count < 16 {
        16u16
    } else if count > 512 {
        512u16
    } else {
        (count - (count % 16)) as u16
    }
}

} // verus!
