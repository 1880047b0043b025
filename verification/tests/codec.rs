use disk_map::Codec;
use disk_map::DictError;

#[test]
fn u64_round_trip() {
    let values: Vec<u64> = vec![0, 1, 2, 255, 256, 0xdead_beef, u64::MAX];
    for v in values {
        let bytes = v.encode();
        assert_eq!(bytes.len(), 8);
        assert_eq!(u64::decode(&bytes), Ok(v));
    }
}

#[test]
fn u64_encoding_is_little_endian() {
    assert_eq!(1u64.encode(), vec![1, 0, 0, 0, 0, 0, 0, 0]);
    assert_eq!(
        0x0102_0304_0506_0708u64.encode(),
        vec![0x08, 0x07, 0x06, 0x05, 0x04, 0x03, 0x02, 0x01]
    );
    assert_eq!(u64::decode(&[0x08, 0x07, 0x06, 0x05, 0x04, 0x03, 0x02, 0x01]), Ok(0x0102_0304_0506_0708));
}

#[test]
fn u64_rejects_wrong_length() {
    assert_eq!(u64::decode(&[]), Err(DictError::CodecError));
    assert_eq!(u64::decode(&[1, 2, 3, 4, 5, 6, 7]), Err(DictError::CodecError));
    assert_eq!(u64::decode(&[1, 2, 3, 4, 5, 6, 7, 8, 9]), Err(DictError::CodecError));
}

#[test]
fn string_round_trip() {
    let samples = vec!["", "a", "hello world", "caf\u{e9} \u{1F600} \u{4e2d}\u{6587}"];
    for s in samples {
        let v = String::from(s);
        let bytes = v.encode();
        assert_eq!(String::decode(&bytes), Ok(v));
    }
}

#[test]
fn string_encoding_is_utf8() {
    assert_eq!(String::from("abc").encode(), b"abc".to_vec());
    assert_eq!(String::from("caf\u{e9}").encode(), vec![0x63, 0x61, 0x66, 0xc3, 0xa9]);
}

#[test]
fn string_rejects_invalid_utf8() {
    assert_eq!(String::decode(&[0xff]), Err(DictError::CodecError));
    assert_eq!(String::decode(&[0xc3]), Err(DictError::CodecError));
    assert_eq!(String::decode(&[0x61, 0x80]), Err(DictError::CodecError));
}

#[test]
fn byte_vec_round_trip() {
    let v: Vec<u8> = vec![0, 1, 255, 42];
    let bytes = v.encode();
    assert_eq!(bytes, v);
    assert_eq!(<Vec<u8>>::decode(&bytes), Ok(v));
    assert_eq!(<Vec<u8>>::decode(&[]), Ok(Vec::new()));
}

#[test]
fn error_messages() {
    assert_eq!(DictError::IOError.message(), "IO error");
    assert_eq!(DictError::EngineError.message(), "storage engine error");
    assert_eq!(DictError::CodecError.message(), "codec error");
    assert_eq!(DictError::KeyNotFound.message(), "key not found");
}

#[test]
fn error_kinds_are_distinct() {
    let kinds = [
        DictError::IOError,
        DictError::EngineError,
        DictError::CodecError,
        DictError::KeyNotFound,
    ];
    for (i, a) in kinds.iter().enumerate() {
        for (j, b) in kinds.iter().enumerate() {
            assert_eq!(a == b, i == j);
        }
    }
}
