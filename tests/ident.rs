use crud_api::ident::{parse_id, DocId, IdError};

#[test]
fn parse_id_decodes_lower_case_digits() {
    let id = parse_id("000102030405060708090a0b").unwrap();
    assert_eq!(id.bytes, [0, 1, 2, 3, 4, 5, 6, 7, 8, 9, 10, 11]);
}

#[test]
fn parse_id_accepts_upper_case_digits() {
    let id = parse_id("FFEEDDCCBBAA998877665544").unwrap();
    assert_eq!(id.bytes, [0xff, 0xee, 0xdd, 0xcc, 0xbb, 0xaa, 0x99, 0x88, 0x77, 0x66, 0x55, 0x44]);
}

#[test]
fn parse_id_rejects_short_text() {
    assert_eq!(parse_id("0001020304").unwrap_err(), IdError::Malformed);
    assert_eq!(parse_id("").unwrap_err(), IdError::Malformed);
}

#[test]
fn parse_id_rejects_long_text() {
    assert_eq!(parse_id("000102030405060708090a0b0c").unwrap_err(), IdError::Malformed);
}

#[test]
fn parse_id_rejects_non_hex_characters() {
    assert_eq!(parse_id("000102030405060708090a0g").unwrap_err(), IdError::Malformed);
    assert_eq!(parse_id("not-a-valid-id").unwrap_err(), IdError::Malformed);
    assert_eq!(parse_id("00010203040506070809éa0").unwrap_err(), IdError::Malformed);
}

#[test]
fn to_hex_writes_lower_case_digits() {
    let id = DocId { bytes: [0xab, 0xcd, 0xef, 0, 1, 2, 3, 4, 5, 6, 7, 0x89] };
    assert_eq!(id.to_hex(), "abcdef000102030405060789");
}

#[test]
fn to_hex_reads_back() {
    let id = DocId::generate();
    let back = parse_id(&id.to_hex()).unwrap();
    assert!(back.same(&id));
    assert_eq!(back.bytes, id.bytes);
}

#[test]
fn generated_ids_differ() {
    let a = DocId::generate();
    let b = DocId::generate();
    assert!(!a.same(&b));
}

#[test]
fn same_compares_every_byte() {
    let a = DocId { bytes: [1; 12] };
    let mut b = DocId { bytes: [1; 12] };
    assert!(a.same(&b));
    b.bytes[11] = 2;
    assert!(!a.same(&b));
}
