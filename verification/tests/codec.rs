use zenohex::error::Error;
use zenohex::value::{decode, encode, encoding_text, parse_encoding_tag, EncodingTag, HostValue};

fn round_trip(v: HostValue) -> HostValue {
    let (bytes, tag) = encode(v);
    let tag_name = encoding_text(tag);
    decode(bytes, tag_name.as_str()).expect("round trip must decode")
}

#[test]
fn encode_integer_exact() {
    let (bytes, tag) = encode(HostValue::Integer(42));
    assert_eq!(bytes, b"42".to_vec());
    assert!(matches!(tag, EncodingTag::Integer));
    assert_eq!(encoding_text(tag), "application/integer".to_string());
}

#[test]
fn encode_negative_integer_exact() {
    let (bytes, _) = encode(HostValue::Integer(-105));
    assert_eq!(bytes, b"-105".to_vec());
}

#[test]
fn integer_round_trip_values() {
    for v in [0i64, 1, -1, 9, 10, -10, 105, i64::MAX, i64::MIN] {
        match round_trip(HostValue::Integer(v)) {
            HostValue::Integer(w) => assert_eq!(w, v),
            _ => panic!("wrong variant"),
        }
    }
}

#[test]
fn float_round_trip_text() {
    match round_trip(HostValue::Float("3.14".to_string())) {
        HostValue::Float(s) => assert_eq!(s, "3.14"),
        _ => panic!("wrong variant"),
    }
}

#[test]
fn binary_round_trip_byte_for_byte() {
    let blob = vec![0u8, 255, 128, 7, 0];
    match round_trip(HostValue::Binary(blob.clone())) {
        HostValue::Binary(b) => assert_eq!(b, blob),
        _ => panic!("wrong variant"),
    }
}

#[test]
fn text_round_trip() {
    match round_trip(HostValue::Text("Hello".to_string())) {
        HostValue::Text(s) => assert_eq!(s, "Hello"),
        _ => panic!("wrong variant"),
    }
}

#[test]
fn decode_unknown_tag_unsupported() {
    let r = decode(b"x".to_vec(), "application/json");
    assert!(matches!(r, Err(Error::EncodingUnsupported)));
}

#[test]
fn decode_integer_rejects_malformed() {
    for bad in ["", "-", "042", "-0", "1x", "x", "+1", " 1"] {
        let r = decode(bad.as_bytes().to_vec(), "application/integer");
        assert!(matches!(r, Err(Error::InvalidArgument)), "accepted {:?}", bad);
    }
}

#[test]
fn decode_integer_rejects_overflow() {
    let r = decode(b"9223372036854775808".to_vec(), "application/integer");
    assert!(matches!(r, Err(Error::InvalidArgument)));
    let r = decode(b"-9223372036854775809".to_vec(), "application/integer");
    assert!(matches!(r, Err(Error::InvalidArgument)));
}

#[test]
fn decode_integer_limits() {
    match decode(b"9223372036854775807".to_vec(), "application/integer") {
        Ok(HostValue::Integer(v)) => assert_eq!(v, i64::MAX),
        other => panic!("unexpected {:?}", other),
    }
    match decode(b"-9223372036854775808".to_vec(), "application/integer") {
        Ok(HostValue::Integer(v)) => assert_eq!(v, i64::MIN),
        other => panic!("unexpected {:?}", other),
    }
}

#[test]
fn decode_text_rejects_invalid_utf8() {
    let r = decode(vec![0xff, 0xfe], "text/plain");
    assert!(matches!(r, Err(Error::InvalidArgument)));
}

#[test]
fn decode_octet_stream_accepts_anything() {
    match decode(vec![0xff, 0xfe], "application/octet-stream") {
        Ok(HostValue::Binary(b)) => assert_eq!(b, vec![0xff, 0xfe]),
        other => panic!("unexpected {:?}", other),
    }
}

#[test]
fn tag_names_parse_back() {
    for t in [
        EncodingTag::Integer,
        EncodingTag::Float,
        EncodingTag::OctetStream,
        EncodingTag::TextPlain,
    ] {
        let name = encoding_text(t);
        assert_eq!(parse_encoding_tag(name.as_str()), Some(t));
    }
    assert_eq!(parse_encoding_tag("video/raw"), None);
}
