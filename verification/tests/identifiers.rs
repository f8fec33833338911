use mongodb::bson::oid::ObjectId;
use todoql::document_id::DocumentId;

const SAMPLE: [u8; 12] = [0x00, 0x01, 0x0a, 0x0f, 0x10, 0x7f, 0x80, 0xab, 0xcd, 0xef, 0xfe, 0xff];

#[test]
fn to_hex_writes_two_lower_case_digits_for_each_byte() {
    let id = DocumentId::from_bytes(SAMPLE);
    assert_eq!(id.to_hex(), "00010a0f107f80abcdeffeff");
}

#[test]
fn to_hex_of_zero_bytes_is_all_zero_digits() {
    let id = DocumentId::from_bytes([0; 12]);
    assert_eq!(id.to_hex(), "000000000000000000000000");
}

#[test]
fn to_hex_of_the_largest_bytes_is_all_f() {
    let id = DocumentId::from_bytes([0xff; 12]);
    assert_eq!(id.to_hex(), "ffffffffffffffffffffffff");
}

#[test]
fn to_hex_puts_the_high_half_first() {
    let mut bytes = [0u8; 12];
    bytes[0] = 0x1e;
    bytes[11] = 0xe1;
    assert_eq!(DocumentId::from_bytes(bytes).to_hex(), "1e00000000000000000000e1");
}

#[test]
fn to_hex_has_twenty_four_hexadecimal_digits() {
    let text = DocumentId::from_bytes(SAMPLE).to_hex();
    assert_eq!(text.chars().count(), 24);
    assert!(text.chars().all(|digit| "0123456789abcdef".contains(digit)));
}

#[test]
fn to_hex_is_read_back_by_the_driver() {
    let id = DocumentId::from_bytes(SAMPLE);
    let parsed = ObjectId::parse_str(id.to_hex()).unwrap();
    assert_eq!(parsed.bytes(), SAMPLE);
}

#[test]
fn different_identifiers_have_different_text() {
    let mut other = SAMPLE;
    other[5] = 0x7e;
    assert_ne!(DocumentId::from_bytes(SAMPLE).to_hex(), DocumentId::from_bytes(other).to_hex());
}

#[test]
fn bytes_returns_what_from_bytes_took() {
    let id = DocumentId::from_bytes(SAMPLE);
    assert_eq!(id.bytes(), SAMPLE);
    assert_eq!(id, DocumentId { bytes: SAMPLE });
}
