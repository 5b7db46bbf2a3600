use doscontainer::sector::Sector;

/// A fresh sector is zero-filled, dirty, and sits at its position.
#[test]
fn sector_new() {
    let sector = Sector::new(63);
    assert_eq!(sector.get_position(), 63);
    assert!(sector.is_dirty());
    assert_eq!(sector.get_data(), vec![0u8; 512]);
}

/// The position can be moved without touching the data.
#[test]
fn sector_set_position() {
    let mut sector = Sector::new(0);
    sector.set_position(97655);
    assert_eq!(sector.get_position(), 97655);
    assert_eq!(sector.get_data(), vec![0u8; 512]);
}

/// The dirty flag follows mark_clean and mark_dirty, nothing else.
#[test]
fn sector_dirty_lifecycle() {
    let mut sector = Sector::new(0);
    assert!(sector.is_dirty());
    sector.mark_clean();
    assert!(!sector.is_dirty());
    sector.set_position(1);
    assert!(!sector.is_dirty());
    sector.mark_dirty();
    assert!(sector.is_dirty());
}

/// Writing a byte lands at its offset and dirties the sector again.
#[test]
fn sector_write_byte() {
    let mut sector = Sector::new(0);
    sector.mark_clean();
    sector.write_byte(0, 0xfa);
    sector.write_byte(511, 0xaa);
    assert!(sector.is_dirty());
    let data = sector.get_data();
    assert_eq!(data[0], 0xfa);
    assert_eq!(data[1], 0);
    assert_eq!(data[510], 0);
    assert_eq!(data[511], 0xaa);
}
