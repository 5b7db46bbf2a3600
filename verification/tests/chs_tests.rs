use doscontainer::chs::CHS;

// Generate the correct set of bytes from a CHS struct
#[test]
fn tests_chs_to_bytes() {
    let mut chs = CHS::empty();
    chs.head = 254;
    chs.sector = 63;
    chs.cylinder = 723;
    let bytes: [u8; 3] = chs.as_bytes();
    assert_eq!(bytes[0], 0xfe);
    assert_eq!(bytes[1], 0xbf);
    assert_eq!(bytes[2], 0xd3);
}

// Generate a correct CHS struct from a set of bytes
#[test]
fn tests_chs_from_bytes() {
    let chs = CHS::from_bytes([0xfe, 0xbf, 0xd3]);
    assert_eq!(chs.head, 254);
    assert_eq!(chs.sector, 63);
    assert_eq!(chs.cylinder, 723);
}

// Generate the correct set of bytes from a CHS struct
#[test]
fn mod_chs_to_bytes() {
    let mut chs = CHS::empty();
    chs.head = 254;
    chs.sector = 63;
    chs.cylinder = 723;
    let bytes: [u8; 3] = chs.as_bytes();
    assert_eq!(bytes[0], 0xfe);
    assert_eq!(bytes[1], 0xbf);
    assert_eq!(bytes[2], 0xd3);
}

// Generate a correct CHS struct from a set of bytes
#[test]
fn mod_chs_from_bytes() {
    let chs = CHS::from_bytes([0xfe, 0xbf, 0xd3]);
    assert_eq!(chs.head, 254);
    assert_eq!(chs.sector, 63);
    assert_eq!(chs.cylinder, 723);
}

// Packing and unpacking is the identity on every field
#[test]
fn chs_roundtrip_concrete() {
    let chs = CHS::new(1023, 15, 1);
    let back = CHS::from_bytes(chs.as_bytes());
    assert_eq!(back, chs);
}
