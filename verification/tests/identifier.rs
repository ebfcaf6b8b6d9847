use std::collections::hash_map::DefaultHasher;
use std::hash::{Hash, Hasher};
use std::str::FromStr;

use tagged_id::TaggedId;

#[derive(Debug, Hash)]
struct MyTag;

type MyId = TaggedId<MyTag>;

#[derive(Debug, Hash)]
struct OtherTag;

type OtherId = TaggedId<OtherTag>;

#[test]
fn parse_from_str() {
    assert!(MyId::parse_str("12345678-1111-1111-1111-111111111111").is_ok());
    assert!(MyId::parse_str("").is_err());
    assert!(MyId::parse_str("hoge").is_err());
    assert!(MyId::parse_str("12345678-1111-1111-1111-111111111111-a").is_err());
}

#[test]
fn can_equal() {
    let id1 = MyId::parse_str("12345678-1111-1111-1111-111111111111").unwrap();
    let id2 = MyId::parse_str("12345678-1111-1111-1111-111111111111").unwrap();
    assert_eq!(id2, id1);

    let id3 = MyId::parse_str("12345678-1111-1111-1111-222222222222").unwrap();
    assert_ne!(id1, id3);
}

#[test]
fn fmt_display() {
    let id = MyId::parse_str("12345678-1111-1111-1111-111111111111").unwrap();
    assert_eq!("12345678-1111-1111-1111-111111111111", id.to_string());
    assert_eq!("12345678-1111-1111-1111-111111111111", id.clone().to_string());
}

#[test]
fn to_string() {
    let id = MyId::parse_str("12345678-1111-1111-1111-111111111111").unwrap();
    assert_eq!("12345678-1111-1111-1111-111111111111", id.to_string())
}

#[test]
fn hash() {
    let id1 = MyId::parse_str("12345678-1111-1111-1111-111111111111").unwrap();
    let id2 = MyId::parse_str("12345678-1111-1111-1111-111111111111").unwrap();

    let mut h1 = DefaultHasher::new();
    let mut h2 = DefaultHasher::new();
    id1.hash(&mut h1);
    id2.hash(&mut h2);
    assert_eq!(h1.finish(), h2.finish());

    let id3 = MyId::parse_str("12345678-1111-1111-1111-222222222222").unwrap();
    let mut h3 = DefaultHasher::new();
    id3.hash(&mut h3);
    assert_ne!(h1.finish(), h3.finish());
}

#[test]
fn byte_round_trip() {
    let bytes: [u8; 16] = [
        0x12, 0x34, 0x56, 0x78, 0x9a, 0xbc, 0xde, 0xf0, 0x01, 0x23, 0x45, 0x67, 0x89, 0xab,
        0xcd, 0xef,
    ];
    let id = MyId::from_bytes(bytes);
    assert_eq!(&bytes, id.as_bytes());
}

#[test]
fn from_slice_checks_length() {
    let sixteen = [7u8; 16];
    let id = MyId::from_slice(&sixteen).unwrap();
    assert_eq!(&sixteen, id.as_bytes());

    assert!(MyId::from_slice(&[7u8; 15]).is_err());
    assert!(MyId::from_slice(&[7u8; 17]).is_err());
    assert!(MyId::from_slice(&[]).is_err());
}

#[test]
fn parse_gives_exact_bytes() {
    let id = MyId::parse_str("12345678-9abc-def0-0123-456789abcdef").unwrap();
    let expected: [u8; 16] = [
        0x12, 0x34, 0x56, 0x78, 0x9a, 0xbc, 0xde, 0xf0, 0x01, 0x23, 0x45, 0x67, 0x89, 0xab,
        0xcd, 0xef,
    ];
    assert_eq!(&expected, id.as_bytes());
}

#[test]
fn render_from_bytes() {
    let bytes: [u8; 16] = [
        0x00, 0x11, 0x22, 0x33, 0x44, 0x55, 0x66, 0x77, 0x88, 0x99, 0xaa, 0xbb, 0xcc, 0xdd,
        0xee, 0xff,
    ];
    let id = MyId::from_bytes(bytes);
    assert_eq!("00112233-4455-6677-8899-aabbccddeeff", id.to_string());
}

#[test]
fn render_lowercases() {
    let id = MyId::parse_str("ABCDEF01-2345-6789-ABCD-EF0123456789").unwrap();
    assert_eq!("abcdef01-2345-6789-abcd-ef0123456789", id.to_string());
}

#[test]
fn parse_other_accepted_forms() {
    let hyphenated = MyId::parse_str("12345678-1111-1111-1111-111111111111").unwrap();
    let braced = MyId::parse_str("{12345678-1111-1111-1111-111111111111}").unwrap();
    let simple = MyId::parse_str("12345678111111111111111111111111").unwrap();
    let urn = MyId::parse_str("urn:uuid:12345678-1111-1111-1111-111111111111").unwrap();
    assert_eq!(hyphenated, braced);
    assert_eq!(hyphenated, simple);
    assert_eq!(hyphenated, urn);
}

#[test]
fn string_round_trip() {
    let id = MyId::new();
    let back = MyId::parse_str(&id.to_string()).unwrap();
    assert_eq!(id, back);
}

#[test]
fn generate_unique() {
    let id1 = MyId::new();
    let id2 = MyId::new();
    assert_ne!(id1, id2);
}

#[test]
fn generate_sets_version_and_variant() {
    let id = OtherId::new();
    let bytes = id.as_bytes();
    assert_eq!(4, bytes[6] >> 4);
    assert_eq!(2, bytes[8] >> 6);
}

#[test]
fn ordering_is_bytewise() {
    let low = MyId::parse_str("12345678-1111-1111-1111-111111111111").unwrap();
    let high = MyId::parse_str("12345678-1111-1111-1111-222222222222").unwrap();
    assert!(low < high);
    assert!(high > low);
    assert!(!(high < low));
    assert_eq!(Some(std::cmp::Ordering::Less), low.partial_cmp(&high));
    assert_eq!(Some(std::cmp::Ordering::Greater), high.partial_cmp(&low));
    assert_eq!(Some(std::cmp::Ordering::Equal), low.partial_cmp(&low));
}

#[test]
fn error_message() {
    let e = MyId::parse_str("hoge").unwrap_err();
    assert_eq!("malformed identifier", e.message());
}

#[test]
fn from_str_matches_parse_str() {
    let a = MyId::from_str("12345678-1111-1111-1111-111111111111").unwrap();
    let b = MyId::parse_str("12345678-1111-1111-1111-111111111111").unwrap();
    assert_eq!(a, b);
    assert!(MyId::from_str("").is_err());
    assert!(MyId::from_str("hoge").is_err());
    assert!(MyId::from_str("12345678-1111-1111-1111-111111111111-a").is_err());
}
