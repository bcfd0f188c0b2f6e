use thespis_remote::ConnID;
use thespis_remote::ServiceID;
use thespis_remote::UniqueID;

// Identical input data should give an identical id.
#[test]
fn identical() {
    let sid = UniqueID::from_seed(b"hi from seed");
    let sid2 = UniqueID::from_seed(b"hi from seed");

    assert_eq!(sid, sid2);
}

// The hex rendering walks the 16 wire bytes in order, two digits each.
#[test]
fn debug() {
    let bytes: Vec<u8> = vec![0x0, 0x1, 0x2, 0x3, 0x4, 0x5, 0x6, 0x7, 0x8, 0x9, 0xA, 0xB, 0xC, 0xD, 0xE, 0xF];
    let sid = UniqueID::try_from(bytes).unwrap();

    assert_eq!("000102030405060708090a0b0c0d0e0f", &sid.to_hex());
}

// The same service in a different namespace gets a different id.
#[test]
fn sid_diff_for_diff_ns() {
    assert_ne!(
        ServiceID::from_seed(b"remotes::Add"),
        ServiceID::from_seed(b"others::Add"),
    );
}

// Different services in the same namespace get different ids.
#[test]
fn sid_diff_for_diff_service() {
    assert_ne!(
        ServiceID::from_seed(b"remotes::Add"),
        ServiceID::from_seed(b"remotes::Show"),
    );
}

// The same service and namespace always give the identical id.
#[test]
fn sid_same_for_same_ns() {
    assert_eq!(
        ServiceID::from_seed(b"remotes::Add"),
        ServiceID::from_seed(b"remotes::Add"),
    );
}

#[test]
fn null_is_null() {
    assert!(UniqueID::null().is_null());
    assert!(ConnID::null().is_null());
    let seeded = UniqueID::from_seed(b"something");
    assert!(!seeded.is_null());
}

// try_from only takes exactly 16 bytes.
#[test]
fn tryfrom_wrong_length() {
    assert!(UniqueID::try_from(vec![0u8; 15]).is_err());
    assert!(UniqueID::try_from(vec![0u8; 17]).is_err());
    assert!(UniqueID::try_from(vec![0u8; 16]).is_ok());
}

// to_bytes and try_from are inverse to each other.
#[test]
fn bytes_round_trip() {
    let id = UniqueID::from_seed(b"round trip");
    let back = UniqueID::try_from(id.to_bytes()).unwrap();
    assert_eq!(id, back);
}
