use webui::codec::decode;
use webui::codec::encode;
use webui::codec::DecodeError;

#[test]
fn encode_matches_known_framings() {
    assert_eq!(encode(b""), b"".to_vec());
    assert_eq!(encode(b"M"), b"TQ==".to_vec());
    assert_eq!(encode(b"Ma"), b"TWE=".to_vec());
    assert_eq!(encode(b"Man"), b"TWFu".to_vec());
    assert_eq!(encode(b"Hello World"), b"SGVsbG8gV29ybGQ=".to_vec());
    assert_eq!(encode(&[0, 0, 0]), b"AAAA".to_vec());
    assert_eq!(encode(&[255, 255, 255]), b"////".to_vec());
    assert_eq!(encode(&[251, 239]), b"++8=".to_vec());
}

#[test]
fn decode_matches_known_framings() {
    assert_eq!(decode(b""), Ok(b"".to_vec()));
    assert_eq!(decode(b"TQ=="), Ok(b"M".to_vec()));
    assert_eq!(decode(b"TWE="), Ok(b"Ma".to_vec()));
    assert_eq!(decode(b"TWFu"), Ok(b"Man".to_vec()));
    assert_eq!(decode(b"SGVsbG8gV29ybGQ="), Ok(b"Hello World".to_vec()));
    assert_eq!(decode(b"AAAA"), Ok(vec![0, 0, 0]));
    assert_eq!(decode(b"////"), Ok(vec![255, 255, 255]));
}

#[test]
fn malformed_framings_are_refused() {
    // Length no multiple of four.
    assert_eq!(decode(b"TQ="), Err(DecodeError::Malformed));
    assert_eq!(decode(b"T"), Err(DecodeError::Malformed));
    assert_eq!(decode(b"TWFuT"), Err(DecodeError::Malformed));
    // Bytes outside the alphabet.
    assert_eq!(decode(b"T.Fu"), Err(DecodeError::Malformed));
    assert_eq!(decode(b"TWFu!!!!"), Err(DecodeError::Malformed));
    // Padding anywhere but the end of the final group.
    assert_eq!(decode(b"TW=u"), Err(DecodeError::Malformed));
    assert_eq!(decode(b"=WFu"), Err(DecodeError::Malformed));
    assert_eq!(decode(b"TQ==TWFu"), Err(DecodeError::Malformed));
    assert_eq!(decode(b"===="), Err(DecodeError::Malformed));
}

#[test]
fn round_trip_restores_text_payloads() {
    let samples: [&str; 6] = [
        "",
        "a",
        "ab",
        "abc",
        "an arbitrary byte-safe string!",
        "line\nbreaks and\ttabs survive the trip",
    ];
    for sample in samples.iter() {
        let framed = encode(sample.as_bytes());
        let restored = decode(&framed).expect("a fresh framing must decode");
        assert_eq!(restored, sample.as_bytes().to_vec());
    }
}

#[test]
fn round_trip_restores_every_byte_value() {
    let mut payload: Vec<u8> = Vec::new();
    for b in 0..=255u8 {
        payload.push(b);
    }
    let framed = encode(&payload);
    assert_eq!(framed.len() % 4, 0);
    assert_eq!(decode(&framed), Ok(payload));
}

#[test]
fn round_trip_covers_every_padding_shape() {
    for len in 0..48usize {
        let payload: Vec<u8> = (0..len).map(|k| (k * 37 + 11) as u8).collect();
        let framed = encode(&payload);
        assert_eq!(framed.len(), payload.len().div_ceil(3) * 4);
        assert_eq!(decode(&framed), Ok(payload));
    }
}
