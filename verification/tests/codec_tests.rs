use codecs::{BitCodeCodec, Decoder, Encoder, Record, RkyvCodec};
use codecs::binary::bitcode::bitcode_round_trip;
use codecs::binary::rkyv::rkyv_round_trip;

#[test]
fn test_bincode_codec() {
    let t = Record {
        text: String::from("party time \u{1f389}"),
        number: 42,
    };
    let enc = BitCodeCodec::encode(&t).unwrap();
    let dec: Record = BitCodeCodec::decode(&enc).unwrap();
    assert_eq!(dec, t);
}

#[test]
fn test_rkyv_codec() {
    let t = Record {
        text: String::from("party time \u{f0}\u{178}\u{17d}\u{2030}"),
        number: 42,
    };
    let enc = RkyvCodec::encode(&t).unwrap();
    let dec: Record = RkyvCodec::decode(&enc).unwrap();
    assert_eq!(dec, t);
}

#[test]
fn round_trip_record_bitcode() {
    let t = Record {
        text: String::from("party time \u{1f389}"),
        number: 42,
    };
    let back = bitcode_round_trip(&t);
    assert_eq!(back, t);
}

#[test]
fn round_trip_record_rkyv() {
    let t = Record {
        text: String::from("party time \u{1f389}"),
        number: 42,
    };
    let back = rkyv_round_trip(&t);
    assert_eq!(back, Some(t));
}

#[test]
fn round_trip_empty_text() {
    let t = Record {
        text: String::new(),
        number: 0,
    };
    assert_eq!(bitcode_round_trip(&t), t);
    assert_eq!(rkyv_round_trip(&t), Some(t));
}

#[test]
fn round_trip_extreme_numbers() {
    for number in [i32::MIN, -1, 0, 1, i32::MAX] {
        let t = Record {
            text: String::from("n"),
            number,
        };
        assert_eq!(bitcode_round_trip(&t), t);
        assert_eq!(rkyv_round_trip(&t), Some(t.clone()));
    }
}

#[test]
fn determinism_bitcode() {
    let t = Record {
        text: String::from("same value, twice"),
        number: -7,
    };
    let enc1 = BitCodeCodec::encode(&t).unwrap();
    let enc2 = BitCodeCodec::encode(&t).unwrap();
    let dec1: Record = BitCodeCodec::decode(&enc1).unwrap();
    let dec2: Record = BitCodeCodec::decode(&enc2).unwrap();
    assert_eq!(dec1, dec2);
    assert_eq!(dec1, t);
}

#[test]
fn determinism_rkyv() {
    let t = Record {
        text: String::from("same value, twice"),
        number: -7,
    };
    let enc1 = RkyvCodec::encode(&t).unwrap();
    let enc2 = RkyvCodec::encode(&t).unwrap();
    let dec1: Record = RkyvCodec::decode(&enc1).unwrap();
    let dec2: Record = RkyvCodec::decode(&enc2).unwrap();
    assert_eq!(dec1, dec2);
    assert_eq!(dec1, t);
}

#[test]
fn decode_is_independent_of_buffer_placement_rkyv() {
    let t = Record {
        text: String::from("party time \u{1f389}"),
        number: 42,
    };
    let enc = RkyvCodec::encode(&t).unwrap();

    // Shift the encoding by one byte inside a larger buffer: whether
    // decoding succeeds must depend on the byte contents alone, not on
    // where in memory the caller's buffer happens to sit.
    let mut shifted = vec![0u8; enc.len() + 1];
    shifted[1..].copy_from_slice(&enc);
    let dec: Record = RkyvCodec::decode(&shifted[1..]).unwrap();
    assert_eq!(dec, t);
}

#[test]
fn empty_input_fails_bitcode() {
    let r: Result<Record, _> = BitCodeCodec::decode(&[]);
    assert!(r.is_err());
}

#[test]
fn empty_input_fails_rkyv() {
    let r: Result<Record, _> = RkyvCodec::decode(&[]);
    assert!(r.is_err());
}

#[test]
fn arbitrary_bytes_fail_bitcode() {
    let bytes = [0xFFu8; 16];
    let r: Result<Record, _> = BitCodeCodec::decode(&bytes);
    assert!(r.is_err());
}

#[test]
fn arbitrary_bytes_fail_rkyv() {
    // 0x80 bytes read as an out-of-line string representation whose length
    // and offset point far outside the buffer.
    let bytes = [0x80u8; 16];
    let r: Result<Record, _> = RkyvCodec::decode(&bytes);
    assert!(r.is_err());

    let r: Result<Record, _> = RkyvCodec::decode(&[0x80u8, 0x01, 0x02]);
    assert!(r.is_err());
}

#[test]
fn truncation_fails_bitcode() {
    let t = Record {
        text: String::from("party time \u{1f389}"),
        number: 42,
    };
    let enc = BitCodeCodec::encode(&t).unwrap();
    let r: Result<Record, _> = BitCodeCodec::decode(&enc[..enc.len() / 2]);
    assert!(r.is_err());
}

#[test]
fn corruption_fails_rkyv_validation() {
    let t = Record {
        text: String::from("party time \u{1f389}"),
        number: 42,
    };
    let enc = RkyvCodec::encode(&t).unwrap();

    // Truncation breaks the archive's structural layout.
    let r: Result<Record, _> = RkyvCodec::decode(&enc[..enc.len() / 2]);
    assert!(r.is_err());

    // So does overwriting the buffer with 0x80 bytes: the string field's
    // representation then carries a length and offset pointing outside the
    // buffer, and validation must reject it rather than hand back a
    // silently incorrect value.
    let corrupt = vec![0x80u8; enc.len()];
    let r: Result<Record, _> = RkyvCodec::decode(&corrupt);
    assert!(r.is_err());
}
