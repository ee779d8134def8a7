use dog_catalog::entities::{Category, Gender, Pagination};
use dog_catalog::error::{Error, ErrorKind};
use dog_catalog::ids::{decode, encode, ObjectId};
use dog_catalog::page::window_bounds;

#[test]
fn decode_accepts_24_hex_digits() {
    let id = decode("0123456789abcdefABCDEF00").unwrap();
    assert_eq!(id.value, 0x0123456789abcdefabcdef00);
}

#[test]
fn decode_rejects_wrong_length() {
    let short = decode("0123456789abcdef").unwrap_err();
    assert_eq!(short.kind, ErrorKind::InvalidIdentifier);
    let long = decode("0123456789abcdef0123456789").unwrap_err();
    assert_eq!(long.kind, ErrorKind::InvalidIdentifier);
    assert_eq!(decode("").unwrap_err().kind, ErrorKind::InvalidIdentifier);
}

#[test]
fn decode_rejects_non_hex_characters() {
    let e = decode("0123456789abcdefghijklmn").unwrap_err();
    assert_eq!(e.kind, ErrorKind::InvalidIdentifier);
    let e = decode("0123456789abcdef0123456 ").unwrap_err();
    assert_eq!(e.kind, ErrorKind::InvalidIdentifier);
}

#[test]
fn encode_writes_lower_case_padded_digits() {
    assert_eq!(encode(ObjectId { value: 1 }), "000000000000000000000001");
    assert_eq!(encode(ObjectId { value: 0xabcdef }), "000000000000000000abcdef");
    assert_eq!(
        encode(ObjectId { value: 0xffffffffffffffffffffffff }),
        "ffffffffffffffffffffffff"
    );
}

#[test]
fn decode_of_encode_round_trips() {
    for v in [0u128, 1, 42, 0x65a1b2c3d4e5f60718293a4b, 0xffffffffffffffffffffffff] {
        let id = ObjectId { value: v };
        assert_eq!(decode(&encode(id)).unwrap(), id);
    }
}

#[test]
fn parse_str_and_to_hex_agree_with_codec() {
    let id = ObjectId::parse_str("65A1B2C3D4E5F60718293A4B").unwrap();
    assert_eq!(id.to_hex(), "65a1b2c3d4e5f60718293a4b");
}

#[test]
fn category_names() {
    assert_eq!(Category::Small.to_string(), "Small");
    assert_eq!(Category::Medium.to_string(), "Medium");
    assert_eq!(Category::Large.to_string(), "Large");
    assert_eq!(Category::Giant.to_string(), "Giant");
}

#[test]
fn gender_names_and_default() {
    assert_eq!(Gender::from_name("Male"), Gender::Male);
    assert_eq!(Gender::from_name("Female"), Gender::Female);
    assert_eq!(Gender::from_name("Other"), Gender::Other);
    assert_eq!(Gender::from_name("male"), Gender::Other);
    assert_eq!(Gender::from_name(""), Gender::Other);
    assert_eq!(Gender::default(), Gender::Other);
}

#[test]
fn error_text_with_and_without_cause() {
    let e = Error::new("failed to create breed");
    assert_eq!(e.kind(), ErrorKind::Store);
    assert_eq!(e.to_string(), "failed to create breed");
    let e = e.with_cause("invalid inserted id");
    assert_eq!(e.kind, ErrorKind::Store);
    assert_eq!(e.to_string(), "failed to create breed: invalid inserted id");
}

#[test]
fn window_bounds_skip_then_limit() {
    assert_eq!(window_bounds(10, None), (0, 10));
    assert_eq!(window_bounds(10, Some(Pagination { limit: 3, skip: 3 })), (3, 6));
    assert_eq!(window_bounds(10, Some(Pagination { limit: 3, skip: 9 })), (9, 10));
    assert_eq!(window_bounds(10, Some(Pagination { limit: 3, skip: 12 })), (10, 10));
    assert_eq!(window_bounds(10, Some(Pagination { limit: 0, skip: 2 })), (2, 2));
    assert_eq!(window_bounds(10, Some(Pagination { limit: -1, skip: -5 })), (0, 0));
    assert_eq!(window_bounds(10, Some(Pagination { limit: i64::MAX, skip: 4 })), (4, 10));
    assert_eq!(window_bounds(0, Some(Pagination { limit: 5, skip: 0 })), (0, 0));
}
