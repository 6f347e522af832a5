use uuid_codec::DecodeError;
use uuid_codec::Layout;
use uuid_codec::Uuid;
use uuid_codec::decode;
use uuid_codec::decode_hyphenated;
use uuid_codec::decode_layout;
use uuid_codec::decode_simple;
use uuid_codec::decode_urn;
use uuid_codec::encode;
use uuid_codec::encode_into;

fn sample_bytes() -> Vec<u8> {
    vec![
        0x67, 0xe5, 0x50, 0x44, 0x10, 0xb1, 0x42, 0x6f, 0x92, 0x47, 0xbb, 0x68, 0x0e, 0x5f, 0xe0,
        0xc8,
    ]
}

fn sample_uuid() -> Uuid {
    Uuid::from_bytes(sample_bytes())
}

#[test]
fn encode_simple_lower() {
    let r = encode(&sample_uuid(), Layout::Simple, false);
    assert_eq!(r, b"67e5504410b1426f9247bb680e5fe0c8".to_vec());
}

#[test]
fn encode_hyphenated_lower() {
    let r = encode(&sample_uuid(), Layout::Hyphenated, false);
    assert_eq!(r, b"67e55044-10b1-426f-9247-bb680e5fe0c8".to_vec());
}

#[test]
fn encode_urn_lower() {
    let r = encode(&sample_uuid(), Layout::Urn, false);
    assert_eq!(r, b"urn:uuid:67e55044-10b1-426f-9247-bb680e5fe0c8".to_vec());
}

#[test]
fn encode_upper_keeps_separators_and_prefix_lowercase() {
    let r = encode(&sample_uuid(), Layout::Hyphenated, true);
    assert_eq!(r, b"67E55044-10B1-426F-9247-BB680E5FE0C8".to_vec());
    let r = encode(&sample_uuid(), Layout::Urn, true);
    assert_eq!(r, b"urn:uuid:67E55044-10B1-426F-9247-BB680E5FE0C8".to_vec());
    let r = encode(&sample_uuid(), Layout::Simple, true);
    assert_eq!(r, b"67E5504410B1426F9247BB680E5FE0C8".to_vec());
}

#[test]
fn encode_zero_hyphen_placement() {
    let zero = Uuid::nil();
    assert_eq!(
        encode(&zero, Layout::Hyphenated, false),
        b"00000000-0000-0000-0000-000000000000".to_vec()
    );
    assert_eq!(
        encode(&zero, Layout::Urn, false),
        b"urn:uuid:00000000-0000-0000-0000-000000000000".to_vec()
    );
    assert_eq!(
        encode(&zero, Layout::Simple, false),
        b"00000000000000000000000000000000".to_vec()
    );
}

#[test]
fn encode_lengths_match_layout() {
    let u = sample_uuid();
    assert_eq!(encode(&u, Layout::Simple, false).len(), Layout::Simple.length());
    assert_eq!(encode(&u, Layout::Hyphenated, false).len(), Layout::Hyphenated.length());
    assert_eq!(encode(&u, Layout::Urn, false).len(), Layout::Urn.length());
    assert_eq!(Layout::Simple.length(), 32);
    assert_eq!(Layout::Hyphenated.length(), 36);
    assert_eq!(Layout::Urn.length(), 45);
}

#[test]
fn encode_into_writes_front_and_keeps_rest() {
    let mut buf = vec![0xffu8; 40];
    encode_into(&sample_uuid(), Layout::Simple, false, &mut buf);
    assert_eq!(buf.len(), 40);
    assert_eq!(&buf[..32], b"67e5504410b1426f9247bb680e5fe0c8".as_slice());
    assert_eq!(&buf[32..], [0xffu8; 8].as_slice());
}

#[test]
fn round_trip_all_layouts() {
    let u = sample_uuid();
    for layout in [Layout::Simple, Layout::Hyphenated, Layout::Urn] {
        for upper in [false, true] {
            let text = encode(&u, layout, upper);
            let back = decode_layout(&text, layout).unwrap();
            assert_eq!(back.as_bytes(), &sample_bytes());
            let inferred = decode(&text).unwrap();
            assert_eq!(inferred.as_bytes(), &sample_bytes());
        }
    }
}

#[test]
fn decode_accepts_mixed_case() {
    let upper = decode_simple(b"67E5504410B1426F9247BB680E5FE0C8").unwrap();
    let lower = decode_simple(b"67e5504410b1426f9247bb680e5fe0c8").unwrap();
    let mixed = decode_hyphenated(b"67e55044-10B1-426f-9247-Bb680E5fe0c8").unwrap();
    assert!(upper == lower);
    assert!(mixed == lower);
    assert_eq!(upper.as_bytes(), &sample_bytes());
}

#[test]
fn decode_rejects_short_hyphenated() {
    let r = decode_hyphenated(b"67e55044-10b1-426f-9247-bb680e5fe0c");
    assert_eq!(r.unwrap_err(), DecodeError::InvalidLength);
}

#[test]
fn decode_rejects_shifted_hyphen() {
    let r = decode_hyphenated(b"67e550441-0b1-426f-9247-bb680e5fe0c8");
    assert_eq!(r.unwrap_err(), DecodeError::InvalidHyphen);
}

#[test]
fn decode_rejects_bad_hex_character() {
    let r = decode_simple(b"67e5504410b1426f9247bb680e5fe0cg");
    assert_eq!(r.unwrap_err(), DecodeError::InvalidCharacter);
}

#[test]
fn decode_simple_rejects_hyphen() {
    let r = decode_simple(b"67e55044-10b1426f9247bb680e5fe0c");
    assert_eq!(r.unwrap_err(), DecodeError::InvalidHyphen);
}

#[test]
fn decode_hyphenated_rejects_digit_in_hyphen_slot() {
    let r = decode_hyphenated(b"67e55044a10b1-426f-9247-bb680e5fe0c8");
    assert_eq!(r.unwrap_err(), DecodeError::InvalidHyphen);
}

#[test]
fn decode_hyphenated_rejects_bad_character_after_hyphens() {
    let r = decode_hyphenated(b"67e55044-10b1-426f-9247-bb680e5fe0cz");
    assert_eq!(r.unwrap_err(), DecodeError::InvalidCharacter);
}

#[test]
fn decode_urn_accepts_exact_prefix() {
    let r = decode_urn(b"urn:uuid:67e55044-10b1-426f-9247-bb680e5fe0c8").unwrap();
    assert_eq!(r.as_bytes(), &sample_bytes());
}

#[test]
fn decode_urn_rejects_bad_prefix() {
    let r = decode_urn(b"urn:uuXd:67e55044-10b1-426f-9247-bb680e5fe0c8");
    assert_eq!(r.unwrap_err(), DecodeError::InvalidPrefix);
    let r = decode_urn(b"URN:UUID:67e55044-10b1-426f-9247-bb680e5fe0c8");
    assert_eq!(r.unwrap_err(), DecodeError::InvalidPrefix);
}

#[test]
fn decode_urn_rejects_wrong_length() {
    let r = decode_urn(b"urn:uuid:67e55044-10b1-426f-9247-bb680e5fe0c");
    assert_eq!(r.unwrap_err(), DecodeError::InvalidLength);
}

#[test]
fn decode_urn_rejects_misplaced_hyphen_in_body() {
    let r = decode_urn(b"urn:uuid:67e550441-0b1-426f-9247-bb680e5fe0c8");
    assert_eq!(r.unwrap_err(), DecodeError::InvalidHyphen);
}

#[test]
fn decode_infers_layout_from_length() {
    let simple = decode(b"67e5504410b1426f9247bb680e5fe0c8").unwrap();
    let hyphenated = decode(b"67e55044-10b1-426f-9247-bb680e5fe0c8").unwrap();
    let urn = decode(b"urn:uuid:67e55044-10b1-426f-9247-bb680e5fe0c8").unwrap();
    assert!(simple == hyphenated);
    assert!(hyphenated == urn);
}

#[test]
fn reencode_canonicalizes_to_lowercase() {
    let u = decode_hyphenated(b"67E55044-10b1-426F-9247-Bb680E5FE0C8").unwrap();
    assert_eq!(
        encode(&u, Layout::Hyphenated, false),
        b"67e55044-10b1-426f-9247-bb680e5fe0c8".to_vec()
    );
    let u = decode_urn(b"urn:uuid:67E55044-10B1-426F-9247-BB680E5FE0C8").unwrap();
    assert_eq!(
        encode(&u, Layout::Urn, false),
        b"urn:uuid:67e55044-10b1-426f-9247-bb680e5fe0c8".to_vec()
    );
}

#[test]
fn decode_rejects_unknown_length() {
    assert_eq!(decode(b"67e55044").unwrap_err(), DecodeError::InvalidLength);
    assert_eq!(decode(b"").unwrap_err(), DecodeError::InvalidLength);
}

#[test]
fn uuid_equality_and_clone() {
    let a = sample_uuid();
    let b = sample_uuid();
    let c = Uuid::nil();
    assert!(a == b);
    assert!(!(a == c));
    let d = a.clone();
    assert!(d == b);
}

#[test]
fn uuid_nil_is_all_zero() {
    assert_eq!(Uuid::nil().as_bytes(), &vec![0u8; 16]);
}
