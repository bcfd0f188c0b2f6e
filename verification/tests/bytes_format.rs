use thespis_remote::BytesFormat;
use thespis_remote::ConnID;
use thespis_remote::HEADER_LEN;
use thespis_remote::ServiceID;
use thespis_remote::WireErr;

// Building a frame from fewer bytes than the header must fail with the
// deserialize condition.
#[test]
fn tryfrom_bytes_to_small() {
    // The minimum size of the header + 1 byte payload is 33
    let buf = vec![5u8; HEADER_LEN - 1];

    match BytesFormat::try_from(buf) {
        Ok(_) => panic!("BytesFormat::try_from( Bytes ) should fail for data shorter than header"),

        Err(e) => match e {
            WireErr::Deserialize { .. } => {}
            _ => panic!("Wrong error type (should be DeserializeWireFormat): {:?}", e),
        },
    }
}

// Every length from 0 to 31 is rejected; 32 is the minimum viable frame.
#[test]
fn header_too_short_every_length() {
    for n in 0..HEADER_LEN {
        assert!(
            matches!(BytesFormat::try_from(vec![0u8; n]), Err(WireErr::Deserialize { .. })),
            "length {} should be rejected",
            n
        );
    }
    assert!(BytesFormat::try_from(vec![0u8; HEADER_LEN]).is_ok());
}

// A frame assembled from its parts hands the same parts back.
#[test]
fn create_and_read_back() {
    let sid = ServiceID::from_seed(b"remotes::Add");
    let cid = ConnID::from_seed(b"some call");
    let payload = b"hello remote".to_vec();

    let frame = BytesFormat::create(sid, cid, payload.clone());

    assert_eq!(frame.len(), HEADER_LEN + payload.len());
    assert_eq!(frame.service(), sid);
    assert_eq!(frame.conn_id(), cid);
    assert_eq!(frame.mesg(), payload);
}

// An empty payload is a valid message: the frame is exactly the header.
#[test]
fn create_empty_payload() {
    let sid = ServiceID::from_seed(b"remotes::Show");
    let cid = ConnID::null();

    let frame = BytesFormat::create(sid, cid, Vec::new());

    assert_eq!(frame.len(), HEADER_LEN);
    assert_eq!(frame.service(), sid);
    assert!(frame.conn_id().is_null());
    assert_eq!(frame.mesg(), Vec::<u8>::new());
}

// The raw bytes are the two ids in little endian followed by the payload.
#[test]
fn wire_layout() {
    let sid = ServiceID::try_from((1u8..=16).collect::<Vec<u8>>()).unwrap();
    let cid = ConnID::try_from((17u8..=32).collect::<Vec<u8>>()).unwrap();
    let frame = BytesFormat::create(sid, cid, vec![0xAA, 0xBB]);

    let bytes = frame.into_vec();
    let mut expected: Vec<u8> = (1u8..=32).collect();
    expected.extend_from_slice(&[0xAA, 0xBB]);
    assert_eq!(bytes, expected);
}
