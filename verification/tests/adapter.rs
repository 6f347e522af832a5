use uuid_codec::Hyphenated;
use uuid_codec::HyphenatedRef;
use uuid_codec::Simple;
use uuid_codec::SimpleRef;
use uuid_codec::Urn;
use uuid_codec::UrnRef;
use uuid_codec::Uuid;

fn sample_bytes() -> Vec<u8> {
    vec![
        0x67, 0xe5, 0x50, 0x44, 0x10, 0xb1, 0x42, 0x6f, 0x92, 0x47, 0xbb, 0x68, 0x0e, 0x5f, 0xe0,
        0xc8,
    ]
}

fn sample_uuid() -> Uuid {
    Uuid::from_bytes(sample_bytes())
}

#[test]
fn owned_adapters_render_their_layout() {
    let u = sample_uuid();
    assert_eq!(
        u.clone().to_simple().encode_lower(),
        b"67e5504410b1426f9247bb680e5fe0c8".to_vec()
    );
    assert_eq!(
        u.clone().to_hyphenated().encode_lower(),
        b"67e55044-10b1-426f-9247-bb680e5fe0c8".to_vec()
    );
    assert_eq!(
        u.to_urn().encode_lower(),
        b"urn:uuid:67e55044-10b1-426f-9247-bb680e5fe0c8".to_vec()
    );
}

#[test]
fn borrowed_adapters_render_their_layout() {
    let u = sample_uuid();
    assert_eq!(
        u.to_simple_ref().encode_upper(),
        b"67E5504410B1426F9247BB680E5FE0C8".to_vec()
    );
    assert_eq!(
        u.to_hyphenated_ref().encode_upper(),
        b"67E55044-10B1-426F-9247-BB680E5FE0C8".to_vec()
    );
    assert_eq!(
        u.to_urn_ref().encode_upper(),
        b"urn:uuid:67E55044-10B1-426F-9247-BB680E5FE0C8".to_vec()
    );
}

#[test]
fn constructors_match_conversion_methods() {
    let u = sample_uuid();
    assert_eq!(
        Simple::from_uuid(u.clone()).encode_lower(),
        u.clone().to_simple().encode_lower()
    );
    assert_eq!(
        Hyphenated::from_uuid(u.clone()).encode_lower(),
        u.clone().to_hyphenated().encode_lower()
    );
    assert_eq!(
        Urn::from_uuid(u.clone()).encode_lower(),
        u.clone().to_urn().encode_lower()
    );
    assert_eq!(
        SimpleRef::from_uuid_ref(&u).encode_lower(),
        u.to_simple_ref().encode_lower()
    );
    assert_eq!(
        HyphenatedRef::from_uuid_ref(&u).encode_lower(),
        u.to_hyphenated_ref().encode_lower()
    );
    assert_eq!(
        UrnRef::from_uuid_ref(&u).encode_lower(),
        u.to_urn_ref().encode_lower()
    );
}

#[test]
fn adapter_equality_is_identifier_equality() {
    let a = sample_uuid();
    let b = sample_uuid();
    let z = Uuid::nil();
    assert!(Hyphenated::from_uuid(a.clone()) == Hyphenated::from_uuid(b.clone()));
    assert!(!(Hyphenated::from_uuid(a.clone()) == Hyphenated::from_uuid(z.clone())));
    assert!(Simple::from_uuid(a.clone()) == Simple::from_uuid(b.clone()));
    assert!(Urn::from_uuid(a.clone()) == Urn::from_uuid(b.clone()));
    assert!(HyphenatedRef::from_uuid_ref(&a) == HyphenatedRef::from_uuid_ref(&b));
    assert!(SimpleRef::from_uuid_ref(&a) == SimpleRef::from_uuid_ref(&b));
    assert!(UrnRef::from_uuid_ref(&a) == UrnRef::from_uuid_ref(&b));
    assert!(!(UrnRef::from_uuid_ref(&a) == UrnRef::from_uuid_ref(&z)));
}

#[test]
fn adapter_length_constants() {
    assert_eq!(Simple::LENGTH, 32);
    assert_eq!(SimpleRef::LENGTH, 32);
    assert_eq!(Hyphenated::LENGTH, 36);
    assert_eq!(HyphenatedRef::LENGTH, 36);
    assert_eq!(Urn::LENGTH, 45);
    assert_eq!(UrnRef::LENGTH, 45);
}
