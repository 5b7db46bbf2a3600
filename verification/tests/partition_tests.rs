use doscontainer::disk::Disk;
use doscontainer::errors::BuildError;
use doscontainer::partition::Partition;

#[test]
fn partition_roundtrip() {
    let disk = Disk::new(50000000).unwrap();
    let partition = Partition::new(&disk, 1, 63, 0).unwrap();
    let bytes = partition.mbr_entry();
    let mut bytes_array = [0u8; 16];
    for (i, byte) in bytes.iter().enumerate() {
        bytes_array[i] = *byte;
    }
    let reconstituted_partition = Partition::from_bytes(bytes_array);
    assert_eq!(partition.offset, reconstituted_partition.offset);
    assert_eq!(partition.flag_byte, reconstituted_partition.flag_byte);
    assert_eq!(partition.first_lba, reconstituted_partition.first_lba);
    assert_eq!(partition.first_sector, reconstituted_partition.first_sector);
    assert_eq!(
        partition.partition_type,
        reconstituted_partition.partition_type
    );
    assert_eq!(partition.last_sector, reconstituted_partition.last_sector);
    assert_eq!(partition.sector_count, reconstituted_partition.sector_count);
    assert_eq!(partition.last_lba, reconstituted_partition.last_lba);
}

#[test]
fn partition__100mb_roundtrip() {
    let disk = Disk::new(100000000).unwrap();
    let partition = Partition::new(&disk, 1, 63, 0).unwrap();
    let bytes = partition.mbr_entry();
    let mut bytes_array = [0u8; 16];
    for (i, byte) in bytes.iter().enumerate() {
        bytes_array[i] = *byte;
    }
    let reconstituted_partition = Partition::from_bytes(bytes_array);
    assert_eq!(partition.offset, reconstituted_partition.offset);
    assert_eq!(partition.flag_byte, reconstituted_partition.flag_byte);
    assert_eq!(partition.first_lba, reconstituted_partition.first_lba);
    assert_eq!(partition.first_sector, reconstituted_partition.first_sector);
    assert_eq!(
        partition.partition_type,
        reconstituted_partition.partition_type
    );
    assert_eq!(partition.last_sector, reconstituted_partition.last_sector);
    assert_eq!(partition.sector_count, reconstituted_partition.sector_count);
    assert_eq!(partition.last_lba, reconstituted_partition.last_lba);
}

/// Partition slots are numbered 1 through 4; anything else is refused.
#[test]
fn partition_slot_bounds() {
    let disk = Disk::new(50000000).unwrap();
    assert!(matches!(
        Partition::new(&disk, 0, 63, 0),
        Err(BuildError::InvalidPartitionNumber)
    ));
    assert!(matches!(
        Partition::new(&disk, 5, 63, 0),
        Err(BuildError::InvalidPartitionNumber)
    ));
    assert!(Partition::new(&disk, 4, 63, 0).is_ok());
}

/// A start sector below 63 is silently clamped up, never refused.
#[test]
fn partition_start_is_clamped() {
    let disk = Disk::new(50000000).unwrap();
    let partition = Partition::new(&disk, 1, 6, 0).unwrap();
    assert_eq!(partition.first_lba, 63);
    assert_eq!(partition.get_start_offset(), 63 * 512);
}

/// A disk too small for the end-alignment margin is refused.
#[test]
fn partition_too_small_disk_is_refused() {
    let disk = Disk::new(1000000).unwrap();
    assert!(matches!(
        Partition::new(&disk, 1, 63, 0),
        Err(BuildError::PartitionOutOfRange)
    ));
}

/// Formatting builds the FAT16 boot sector in the partition's first
/// sector, with the VBR bytes up front and zero padding behind them.
#[test]
fn partition_format_builds_vbr_sector() {
    let disk = Disk::new(100000000).unwrap();
    let mut partition = Partition::new(&disk, 1, 63, 0).unwrap();
    let volume_sectors = partition.sector_count;
    partition.format().unwrap();
    let sectors = partition.get_sectors();
    assert_eq!(sectors.len(), 1);
    assert_eq!(sectors[0].get_position(), 63);
    let data = sectors[0].get_data();
    let vbr = doscontainer::vbr::VBR::new(volume_sectors).unwrap();
    let expected = vbr.as_bytes();
    assert_eq!(&data[..509], &expected[..]);
    assert_eq!(&data[509..], &[0u8; 3]);
}

/// A partition of an unformattable size reports the volume error.
#[test]
fn partition_format_too_small_is_refused() {
    let disk = Disk::new(50000000).unwrap();
    let mut partition = Partition::new(&disk, 1, 63, 4000000).unwrap();
    assert!(partition.sector_count < 8400);
    assert!(matches!(partition.format(), Err(BuildError::VolumeTooSmall)));
}

/// The byte offsets of a partition follow its LBA bounds.
#[test]
fn partition_offsets() {
    let disk = Disk::new(50000000).unwrap();
    let partition = Partition::new(&disk, 1, 63, 49000000).unwrap();
    assert_eq!(partition.get_start_offset(), 63 * 512);
    assert_eq!(
        partition.get_end_offset(),
        (partition.last_lba as u64) * 512
    );
    assert_eq!(partition.last_lba, 63 + 94562 - 1);
}
