use doscontainer::chs::CHS;
use doscontainer::disk::Disk;
use doscontainer::errors::BuildError;
use doscontainer::partition::Partition;
use doscontainer::sector::Sector;

// Create a partition
#[test]
fn tests_create_partition() {
    let my_disk = Disk::new(50000000).unwrap();
    let my_partition = Partition::new(&my_disk, 1, 63, 49000000).unwrap();
    assert_eq!(my_partition.offset, 446);
    assert_eq!(my_partition.flag_byte, 128);
    assert_eq!(my_partition.first_lba, 63);
    assert_eq!(my_partition.first_sector.cylinder, 0);
    assert_eq!(my_partition.first_sector.head, 1);
    assert_eq!(my_partition.first_sector.sector, 1);
    assert_eq!(my_partition.partition_type, 6);
    assert_eq!(my_partition.last_sector.cylinder, 99);
    assert_eq!(my_partition.last_sector.head, 15);
    assert_eq!(my_partition.last_sector.sector, 63);
    assert_eq!(my_partition.sector_count, 94562);
}

// Create a partition
#[test]
fn mod_create_partition() {
    let my_disk = Disk::new(50000000).unwrap();
    let my_partition = Partition::new(&my_disk, 1, 63, 49000000).unwrap();
    assert_eq!(my_partition.offset, 446);
    assert_eq!(my_partition.flag_byte, 128);
    assert_eq!(my_partition.first_lba, 63);
    assert_eq!(my_partition.first_sector.cylinder, 0);
    assert_eq!(my_partition.first_sector.head, 1);
    assert_eq!(my_partition.first_sector.sector, 1);
    assert_eq!(my_partition.partition_type, 6);
    assert_eq!(my_partition.last_sector.cylinder, 99);
    assert_eq!(my_partition.last_sector.head, 15);
    assert_eq!(my_partition.last_sector.sector, 63);
    assert_eq!(my_partition.sector_count, 94562);
}

/// Request an empty bootcode
#[test]
fn request_empty_bootcode() {
    let bootcode = Disk::load_bootcode("EMPTY");
    assert_eq!(bootcode, vec![0u8; 446]);
}

/// Request the MS-DOS 6.22 bootcode, compare length and a few bytes.
#[test]
fn request_msdos622_bootcode() {
    let bootcode = Disk::load_bootcode("DOS622");
    assert_eq!(bootcode.len(), 446);
    assert_eq!(bootcode[0], 250);
    assert_eq!(bootcode[217], 109);
    assert_eq!(bootcode[218], 0);
}

/// Test building a Sector struct for the bootsector. Compare the default
/// MS-DOS 6.22 boot sector to the statically provided byte-array.
#[test]
fn disk_build_bootsector() {
    let mut my_disk = Disk::new(50000000).unwrap();
    let partition = Partition::new(&my_disk, 1, 63, 50000000).unwrap();
    my_disk.push_partition(partition);
    let reference_data: [u8; 512] = [
        250, 51, 192, 142, 208, 188, 0, 124, 139, 244, 80, 7, 80, 31, 251, 252, 191, 0, 6, 185,
        0, 1, 242, 165, 234, 29, 6, 0, 0, 190, 190, 7, 179, 4, 128, 60, 128, 116, 14, 128,
        60, 0, 117, 28, 131, 198, 16, 254, 203, 117, 239, 205, 24, 139, 20, 139, 76, 2, 139, 238,
        131, 198, 16, 254, 203, 116, 26, 128, 60, 0, 116, 244, 190, 139, 6, 172, 60, 0, 116, 11,
        86, 187, 7, 0, 180, 14, 205, 16, 94, 235, 240, 235, 254, 191, 5, 0, 187, 0, 124, 184,
        1, 2, 87, 205, 19, 95, 115, 12, 51, 192, 205, 19, 79, 117, 237, 190, 163, 6, 235, 211,
        190, 194, 6, 191, 254, 125, 129, 61, 85, 170, 117, 199, 139, 245, 234, 0, 124, 0, 0, 73,
        110, 118, 97, 108, 105, 100, 32, 112, 97, 114, 116, 105, 116, 105, 111, 110, 32, 116, 97, 98,
        108, 101, 0, 69, 114, 114, 111, 114, 32, 108, 111, 97, 100, 105, 110, 103, 32, 111, 112, 101,
        114, 97, 116, 105, 110, 103, 32, 115, 121, 115, 116, 101, 109, 0, 77, 105, 115, 115, 105, 110,
        103, 32, 111, 112, 101, 114, 97, 116, 105, 110, 103, 32, 115, 121, 115, 116, 101, 109, 0, 0,
        0, 0, 0, 0, 0, 0, 0, 0, 0, 0, 0, 0, 0, 0, 0, 0, 0, 0, 0, 0,
        0, 0, 0, 0, 0, 0, 0, 0, 0, 0, 0, 0, 0, 0, 0, 0, 0, 0, 0, 0,
        0, 0, 0, 0, 0, 0, 0, 0, 0, 0, 0, 0, 0, 0, 0, 0, 0, 0, 0, 0,
        0, 0, 0, 0, 0, 0, 0, 0, 0, 0, 0, 0, 0, 0, 0, 0, 0, 0, 0, 0,
        0, 0, 0, 0, 0, 0, 0, 0, 0, 0, 0, 0, 0, 0, 0, 0, 0, 0, 0, 0,
        0, 0, 0, 0, 0, 0, 0, 0, 0, 0, 0, 0, 0, 0, 0, 0, 0, 0, 0, 0,
        0, 0, 0, 0, 0, 0, 0, 0, 0, 0, 0, 0, 0, 0, 0, 0, 0, 0, 0, 0,
        0, 0, 0, 0, 0, 0, 0, 0, 0, 0, 0, 0, 0, 0, 0, 0, 0, 0, 0, 0,
        0, 0, 0, 0, 0, 0, 0, 0, 0, 0, 0, 0, 0, 0, 0, 0, 0, 0, 0, 0,
        0, 0, 0, 0, 0, 0, 0, 0, 0, 0, 0, 0, 0, 0, 0, 0, 0, 0, 0, 0,
        0, 0, 0, 0, 0, 0, 0, 0, 0, 0, 0, 0, 0, 0, 0, 0, 0, 0, 0, 0,
        0, 0, 0, 0, 0, 0, 128, 1, 1, 0, 6, 15, 63, 101, 63, 0, 0, 0, 196, 120,
        1, 0, 0, 0, 0, 0, 0, 0, 0, 0, 0, 0, 0, 0, 0, 0, 0, 0, 0, 0,
        0, 0, 0, 0, 0, 0, 0, 0, 0, 0, 0, 0, 0, 0, 0, 0, 0, 0, 0, 0,
        0, 0, 0, 0, 0, 0, 0, 0, 0, 0, 85, 170,
    ];
    let mut reference_sector = Sector::new(0);
    for (index, byte) in reference_data.iter().enumerate() {
        reference_sector.write_byte(index, *byte);
    }
    my_disk.build_bootsector();
    let bootsector = my_disk.get_sector(0);
    assert_eq!(bootsector, &reference_sector);
}

/// The geometry heuristic is a function of the byte size alone.
#[test]
fn geometry_is_deterministic() {
    let first = Disk::calculate_geometry(50000000).unwrap();
    let second = Disk::calculate_geometry(50000000).unwrap();
    assert_eq!(first, second);
    assert_eq!(first, CHS::new(103, 15, 63));
}

/// Disks needing the extended translation are refused loudly.
#[test]
fn geometry_large_range_is_refused() {
    assert_eq!(Disk::calculate_geometry(528482304), Err(BuildError::GeometryUnsupported));
    assert!(matches!(Disk::new(600000000), Err(BuildError::GeometryUnsupported)));
}

/// Disk sizes at or beyond the addressable ceiling fail construction.
#[test]
fn disk_too_big_is_refused() {
    assert_eq!(Disk::calculate_geometry(4227858432), Err(BuildError::DiskTooBig));
    assert!(matches!(Disk::new(600000000000), Err(BuildError::DiskTooBig)));
}

/// LBA 63 of the 50 MB test disk lies at cylinder 0, head 1, sector 1.
#[test]
fn lba_chs_conversion() {
    let disk = Disk::new(50000000).unwrap();
    let chs = disk.lba_to_chs(63);
    assert_eq!(chs, CHS::new(0, 1, 1));
    assert_eq!(disk.chs_to_lba(&chs), 63);
    assert_eq!(disk.chs_to_lba(&CHS::new(99, 15, 63)), 94562);
}

/// Sector indexes at or beyond the sector count are out of range.
#[test]
fn sector_index_bounds() {
    let disk = Disk::new(50000000).unwrap();
    assert_eq!(disk.sector_count, 97656);
    assert!(disk.sector_in_range(0));
    assert!(disk.sector_in_range(97655));
    assert!(!disk.sector_in_range(97656));
    assert!(!disk.sector_in_range(2000000000));
}

/// An empty disk has no sectors, no size and a zeroed geometry.
#[test]
fn empty_disk() {
    let disk = Disk::empty();
    assert_eq!(disk.size, 0);
    assert_eq!(disk.sector_count, 0);
    assert_eq!(disk.geometry, CHS::new(0, 0, 0));
    assert_eq!(disk.bootcode, vec![0u8; 446]);
}

/// Sectors pushed onto the disk come back unchanged by position.
#[test]
fn push_and_get_sector() {
    let mut disk = Disk::new(50000000).unwrap();
    let mut sector = Sector::new(5);
    sector.write_byte(0, 0xab);
    disk.push_sector(sector);
    let stored = disk.get_sector(0);
    assert_eq!(stored.get_position(), 5);
    assert_eq!(stored.get_data()[0], 0xab);
}
