use thespis_remote::BytesFormat;
use thespis_remote::ConnID;
use thespis_remote::MulServTokioCodec;
use thespis_remote::ServiceID;
use thespis_remote::WireErr;

fn empty_data() -> BytesFormat {
    let buf = vec![0u8];

    BytesFormat::create(ServiceID::from_seed(b"Empty Message"), ConnID::random(), buf)
}

fn full_data() -> BytesFormat {
    let buf = b"hello".to_vec();

    BytesFormat::create(ServiceID::from_seed(b"Full Message"), ConnID::random(), buf)
}

// A valid frame, encoded and decoded, is identical to the original.
#[test]
fn empty() {
    let mut codec = MulServTokioCodec::new(1024);
    let mut buf: Vec<u8> = Vec::new();
    let data = empty_data();
    let data2 = data.clone();

    codec.encode(data, &mut buf).expect("Encoding empty");

    assert_eq!(
        data2,
        codec
            .decode(&mut buf)
            .expect("No errors should occur")
            .expect("There should be some data (eg. Not Ok(None)")
    );
}

#[test]
fn full() {
    let mut codec = MulServTokioCodec::new(1024);
    let mut buf: Vec<u8> = Vec::new();
    let data = full_data();
    let data2 = data.clone();

    codec.encode(data, &mut buf).expect("Encoding empty");

    assert_eq!(
        data2,
        codec
            .decode(&mut buf)
            .expect("No errors should occur")
            .expect("There should be some data (eg. Not Ok(None)")
    );
}

// Several frames sit in one buffer; decoding cuts them apart and leaves the
// unread remainder exactly where it was.
#[test]
fn partials() {
    let mut codec: MulServTokioCodec = MulServTokioCodec::new(1024);

    let mut buf: Vec<u8> = Vec::new();

    let empty = empty_data();
    let full = full_data();

    let empty2 = empty.clone();
    let full2 = full.clone();
    let full3 = full.clone();

    codec.encode(empty, &mut buf).expect("Encoding empty"); // 41 bytes
    codec.encode(full, &mut buf).expect("Encoding full"); // 45 bytes
    codec.encode(full2, &mut buf).expect("Encoding full"); // 45 bytes

    assert_eq!(empty2, codec.decode(&mut buf).expect("Decode empty").expect("Not None"));
    assert_eq!(full3, codec.decode(&mut buf).expect("Decode empty").expect("Not None"));
    assert_eq!(45, buf.len()); // exactly the bytes of the last frame wait there
}

// Feeding the same stream one byte at a time yields the same frames, in the
// same order, as feeding it whole — whatever the chunk boundaries.
#[test]
fn chunked_delivery_matches_whole() {
    let frames = vec![empty_data(), full_data(), empty_data(), full_data()];

    let mut whole: Vec<u8> = Vec::new();
    let mut codec = MulServTokioCodec::new(1024);
    for f in &frames {
        codec.encode(f.clone(), &mut whole).expect("encode");
    }

    // Feed whole.
    let mut buf_whole = whole.clone();
    let mut got_whole: Vec<BytesFormat> = Vec::new();
    while let Some(f) = codec.decode(&mut buf_whole).expect("decode whole") {
        got_whole.push(f);
    }

    // Feed byte by byte, decoding after every single byte.
    let mut buf: Vec<u8> = Vec::new();
    let mut got: Vec<BytesFormat> = Vec::new();
    for b in &whole {
        buf.push(*b);
        while let Some(f) = codec.decode(&mut buf).expect("decode chunked") {
            got.push(f);
        }
    }

    assert_eq!(got_whole, frames);
    assert_eq!(got, frames);
    assert_eq!(buf.len(), 0);

    // Feed in chunks that split the length prefix.
    let mut buf3: Vec<u8> = Vec::new();
    let mut got3: Vec<BytesFormat> = Vec::new();
    for chunk in whole.chunks(5) {
        buf3.extend_from_slice(chunk);
        while let Some(f) = codec.decode(&mut buf3).expect("decode 5-chunked") {
            got3.push(f);
        }
    }
    assert_eq!(got3, frames);
}

// Encoding a frame over the maximum fails without writing anything.
#[test]
fn encode_rejects_oversize() {
    let mut codec = MulServTokioCodec::new(40);
    let mut buf: Vec<u8> = Vec::new();

    let big = BytesFormat::create(
        ServiceID::from_seed(b"big"),
        ConnID::random(),
        vec![7u8; 100],
    );

    match codec.encode(big, &mut buf) {
        Err(WireErr::MessageSizeExceeded { size, max_size, .. }) => {
            assert_eq!(size, 132);
            assert_eq!(max_size, 40);
        }
        other => panic!("expected MessageSizeExceeded, got {:?}", other),
    }
    assert_eq!(buf.len(), 0);

    // A frame exactly at the maximum passes.
    let fitting = BytesFormat::create(
        ServiceID::from_seed(b"small"),
        ConnID::random(),
        vec![7u8; 8],
    );
    codec.encode(fitting, &mut buf).expect("frame at the maximum");
}

// A declared length over the maximum is rejected at once, before the frame
// has fully arrived, and nothing is consumed.
#[test]
fn decode_rejects_oversize() {
    let mut codec = MulServTokioCodec::new(64);
    // Length prefix declaring 1000 bytes, little endian, then some bytes.
    let mut buf: Vec<u8> = vec![0xE8, 0x03, 0, 0, 0, 0, 0, 0];
    buf.extend_from_slice(&[1, 2, 3]);
    let before = buf.clone();

    match codec.decode(&mut buf) {
        Err(WireErr::MessageSizeExceeded { size, max_size, .. }) => {
            assert_eq!(size, 1000);
            assert_eq!(max_size, 64);
        }
        other => panic!("expected MessageSizeExceeded, got {:?}", other),
    }
    assert_eq!(buf, before);
}

// A declared length shorter than the frame header is corruption.
#[test]
fn decode_rejects_undersize_length() {
    let mut codec = MulServTokioCodec::new(64);
    let mut buf: Vec<u8> = vec![5, 0, 0, 0, 0, 0, 0, 0];
    buf.extend_from_slice(&[9u8; 20]);

    assert!(matches!(codec.decode(&mut buf), Err(WireErr::Deserialize { .. })));
}

// With less than a whole frame in the buffer the decoder waits and consumes
// nothing.
#[test]
fn decode_waits_for_more() {
    let mut codec = MulServTokioCodec::new(1024);
    let mut whole: Vec<u8> = Vec::new();
    codec.encode(full_data(), &mut whole).expect("encode");

    for n in 0..whole.len() {
        let mut buf = whole[..n].to_vec();
        let r = codec.decode(&mut buf).expect("no error on a prefix");
        assert!(r.is_none(), "prefix of {} bytes should not decode", n);
        assert_eq!(buf.len(), n, "prefix of {} bytes should not be consumed", n);
    }
}
