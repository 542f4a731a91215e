use rio_transport::{decode_bytes, decode_path, encode_path};

#[test]
fn encode_root_path() {
    assert_eq!(encode_path("/"), "Lw==");
}

#[test]
fn encode_empty_path() {
    assert_eq!(encode_path(""), "");
}

#[test]
fn encode_one_byte() {
    assert_eq!(encode_path("a"), "YQ==");
}

#[test]
fn encode_two_bytes() {
    assert_eq!(encode_path("ab"), "YWI=");
}

#[test]
fn encode_three_bytes() {
    assert_eq!(encode_path("abc"), "YWJj");
}

#[test]
fn encode_typical_path() {
    assert_eq!(encode_path("/home/lvuser"), "L2hvbWUvbHZ1c2Vy");
}

#[test]
fn round_trip_ascii_path() {
    let p = "/home/lvuser/robot.jar";
    let enc = encode_path(p);
    let dec = decode_path(enc.as_str()).expect("canonical encoding must decode");
    assert_eq!(dec, p.as_bytes());
}

#[test]
fn round_trip_non_ascii_path() {
    let p = "/données/café.txt";
    let enc = encode_path(p);
    let dec = decode_path(enc.as_str()).expect("canonical encoding must decode");
    assert_eq!(dec, p.as_bytes());
}

#[test]
fn round_trip_empty() {
    let enc = encode_path("");
    let dec = decode_path(enc.as_str()).expect("empty input decodes");
    assert!(dec.is_empty());
}

#[test]
fn decode_known_vector() {
    assert_eq!(decode_bytes(b"YWJj"), Some(b"abc".to_vec()));
    assert_eq!(decode_bytes(b"TG8="), Some(b"Lo".to_vec()));
    assert_eq!(decode_bytes(b"TA=="), Some(b"L".to_vec()));
}

#[test]
fn decode_rejects_bad_length() {
    assert_eq!(decode_bytes(b"YWJ"), None);
    assert_eq!(decode_bytes(b"Y"), None);
    assert_eq!(decode_bytes(b"YWJjY"), None);
}

#[test]
fn decode_rejects_non_alphabet() {
    assert_eq!(decode_bytes(b"Y!Jj"), None);
    assert_eq!(decode_bytes(b"****"), None);
}

#[test]
fn decode_rejects_misplaced_padding() {
    assert_eq!(decode_bytes(b"Y=Jj"), None);
    assert_eq!(decode_bytes(b"YWJ=YWJj"), None);
}

#[test]
fn decode_rejects_non_canonical_spare_bits() {
    // 'R' carries low bits that a canonical two-pad encoding must zero
    assert_eq!(decode_bytes(b"YR=="), None);
}

#[test]
fn decode_agrees_with_encoder_crate() {
    let bytes: Vec<u8> = (0u8..=255u8).collect();
    let enc = base64::encode(&bytes);
    let dec = decode_bytes(enc.as_bytes()).expect("crate encoding must decode");
    assert_eq!(dec, bytes);
}
