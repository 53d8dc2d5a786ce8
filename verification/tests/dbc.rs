use reliquary::dbc::{parse_wdbc, DbcError, FieldType, FieldValue};

fn make_test_dbc() -> Vec<u8> {
    // Header
    let mut data = b"WDBC".to_vec();
    data.extend_from_slice(&2u32.to_le_bytes()); // recordCount
    data.extend_from_slice(&3u32.to_le_bytes()); // fieldCount
    data.extend_from_slice(&12u32.to_le_bytes()); // recordSize (3 * 4)
    data.extend_from_slice(&13u32.to_le_bytes()); // stringBlockSize
    // Record 1: id=1, value=42, name_offset=1
    data.extend_from_slice(&1u32.to_le_bytes());
    data.extend_from_slice(&42u32.to_le_bytes());
    data.extend_from_slice(&1u32.to_le_bytes());
    // Record 2: id=2, value=99, name_offset=7
    data.extend_from_slice(&2u32.to_le_bytes());
    data.extend_from_slice(&99u32.to_le_bytes());
    data.extend_from_slice(&7u32.to_le_bytes());
    // String block: \0Hello\0World\0
    data.extend_from_slice(b"\x00Hello\x00World\x00");
    data
}

/// A blob with the given header words followed by `body`.
fn blob(record_count: u32, field_count: u32, record_size: u32, string_block_size: u32, body: &[u8]) -> Vec<u8> {
    let mut data = b"WDBC".to_vec();
    data.extend_from_slice(&record_count.to_le_bytes());
    data.extend_from_slice(&field_count.to_le_bytes());
    data.extend_from_slice(&record_size.to_le_bytes());
    data.extend_from_slice(&string_block_size.to_le_bytes());
    data.extend_from_slice(body);
    data
}

fn words(ws: &[u32]) -> Vec<u8> {
    let mut out = Vec::new();
    for w in ws {
        out.extend_from_slice(&w.to_le_bytes());
    }
    out
}

#[test]
fn test_parse_wdbc() {
    let schema: &[(&str, FieldType)] = &[
        ("id", FieldType::UInt32),
        ("value", FieldType::Int32),
        ("name", FieldType::String),
    ];
    let data = make_test_dbc();
    let result = parse_wdbc(&data, schema).unwrap();
    assert_eq!(result.len(), 2);

    let row1 = result.get(&1).unwrap();
    assert_eq!(row1[0], FieldValue::UInt32(1));
    assert_eq!(row1[1], FieldValue::Int32(42));
    assert_eq!(row1[2], FieldValue::String("Hello".into()));

    let row2 = result.get(&2).unwrap();
    assert_eq!(row2[2], FieldValue::String("World".into()));
}

#[test]
fn test_parse_wdbc_bad_signature() {
    let mut data = b"NOPE".to_vec();
    data.extend_from_slice(&[0u8; 16]);
    let schema: &[(&str, FieldType)] = &[];
    assert!(parse_wdbc(&data, schema).is_err());
}

#[test]
fn test_parse_wdbc_truncated() {
    let data = b"WDBC\x01\x00\x00\x00\x01\x00\x00\x00".to_vec(); // incomplete header
    let schema: &[(&str, FieldType)] = &[("id", FieldType::Int32)];
    assert!(parse_wdbc(&data, schema).is_err());
}

#[test]
fn test_parse_wdbc_bad_string_offset() {
    // One record, one string field. The string offset points past the end of the string block.
    let mut data = b"WDBC".to_vec();
    data.extend_from_slice(&1u32.to_le_bytes()); // record_count=1
    data.extend_from_slice(&1u32.to_le_bytes()); // field_count=1
    data.extend_from_slice(&4u32.to_le_bytes()); // record_size=4
    data.extend_from_slice(&4u32.to_le_bytes()); // string_block_size=4
    // Record: string offset = 999 (past end of 4-byte string block)
    data.extend_from_slice(&999u32.to_le_bytes());
    // String block: 4 bytes
    data.extend_from_slice(b"\x00hi\x00");
    let schema: &[(&str, FieldType)] = &[("name", FieldType::String)];
    assert!(parse_wdbc(&data, schema).is_err());
}

#[test]
fn test_parse_wdbc_bad_record_size() {
    // Header claims record_size=8 but field_count=1 (expected 4).
    let mut data = b"WDBC".to_vec();
    data.extend_from_slice(&1u32.to_le_bytes()); // record_count=1
    data.extend_from_slice(&1u32.to_le_bytes()); // field_count=1
    data.extend_from_slice(&8u32.to_le_bytes()); // record_size=8 (mismatch: should be 4)
    data.extend_from_slice(&1u32.to_le_bytes()); // string_block_size=1
    // Pad to satisfy the total length check (20 + 1*8 + 1 = 29 bytes)
    data.extend_from_slice(&[0u8; 9]);
    let schema: &[(&str, FieldType)] = &[("id", FieldType::UInt32)];
    assert!(parse_wdbc(&data, schema).is_err());
}

#[test]
fn test_parse_wdbc_zero_fields() {
    // field_count=0 but record_count=1. record_size must equal field_count*4=0.
    let mut data = b"WDBC".to_vec();
    data.extend_from_slice(&1u32.to_le_bytes()); // record_count=1
    data.extend_from_slice(&0u32.to_le_bytes()); // field_count=0
    data.extend_from_slice(&0u32.to_le_bytes()); // record_size=0
    data.extend_from_slice(&1u32.to_le_bytes()); // string_block_size=1
    // String block: 1 byte
    data.extend_from_slice(b"\x00");
    let schema: &[(&str, FieldType)] = &[];
    assert!(parse_wdbc(&data, schema).is_err());
}

#[test]
fn parse_reports_each_header_error() {
    let one: &[(&str, FieldType)] = &[("id", FieldType::Int32)];
    assert_eq!(parse_wdbc(&[0u8; 12], one).unwrap_err(), DbcError::TooShort { len: 12 });

    let mut bad = b"NOPE".to_vec();
    bad.extend_from_slice(&[0u8; 16]);
    assert_eq!(
        parse_wdbc(&bad, one).unwrap_err(),
        DbcError::BadSignature { signature: u32::from_le_bytes(*b"NOPE") }
    );

    let truncated = blob(2, 1, 4, 3, &words(&[1]));
    assert_eq!(
        parse_wdbc(&truncated, one).unwrap_err(),
        DbcError::Truncated { expected: 31, actual: 24 }
    );

    let mismatch = blob(1, 1, 8, 1, &[0u8; 9]);
    assert_eq!(
        parse_wdbc(&mismatch, one).unwrap_err(),
        DbcError::RecordSizeMismatch { record_size: 8, field_count: 1 }
    );

    let zero = blob(1, 0, 0, 1, b"\x00");
    assert_eq!(parse_wdbc(&zero, &[]).unwrap_err(), DbcError::ZeroFields);

    let two: &[(&str, FieldType)] = &[("id", FieldType::Int32), ("x", FieldType::Int32)];
    let ok_shape = blob(1, 1, 4, 1, &[7, 0, 0, 0, 0]);
    assert_eq!(
        parse_wdbc(&ok_shape, two).unwrap_err(),
        DbcError::SchemaMismatch { schema_fields: 2, dbc_fields: 1 }
    );
}

#[test]
fn parse_reports_first_bad_string_offset() {
    let schema: &[(&str, FieldType)] = &[
        ("id", FieldType::Int32),
        ("a", FieldType::String),
        ("b", FieldType::String),
    ];
    let mut body = words(&[1, 0, 50, 2, 60, 0]);
    body.extend_from_slice(b"\x00x\x00");
    let data = blob(2, 3, 12, 3, &body);
    assert_eq!(
        parse_wdbc(&data, schema).unwrap_err(),
        DbcError::StringOffsetOutOfBounds { offset: 50, block_size: 3 }
    );
}

#[test]
fn parse_decodes_every_cell_type() {
    let schema: &[(&str, FieldType)] = &[
        ("id", FieldType::Int32),
        ("scale", FieldType::Float32),
        ("count", FieldType::UInt32),
        ("name", FieldType::String),
    ];
    let mut body = words(&[0xffff_fffe, 1.5f32.to_bits(), 0xffff_ffff, 1]);
    body.extend_from_slice("\x00h\u{e9}llo".as_bytes());
    let data = blob(1, 4, 16, 7, &body);
    let rows = parse_wdbc(&data, schema).unwrap();
    // The id -2 is stored under its 32-bit pattern.
    let row = rows.get(&0xffff_fffe).unwrap();
    assert_eq!(row[0], FieldValue::Int32(-2));
    assert_eq!(row[1], FieldValue::Float32(1.5f32.to_bits()));
    assert_eq!(row[2], FieldValue::UInt32(u32::MAX));
    // No terminating NUL: the string runs to the end of the block.
    assert_eq!(row[3], FieldValue::String("h\u{e9}llo".into()));
}

#[test]
fn parse_turns_invalid_utf8_into_empty_string() {
    let schema: &[(&str, FieldType)] = &[("id", FieldType::Int32), ("name", FieldType::String)];
    let mut body = words(&[5, 0]);
    body.extend_from_slice(b"\xff\xfe\x00");
    let data = blob(1, 2, 8, 3, &body);
    let rows = parse_wdbc(&data, schema).unwrap();
    assert_eq!(rows.get(&5).unwrap()[1], FieldValue::String(String::new()));
}

#[test]
fn parse_puts_duplicate_ids_under_row_index() {
    let schema: &[(&str, FieldType)] = &[("classId", FieldType::Int32), ("sub", FieldType::Int32)];
    // Records 0 and 1 share id 7: record 1 goes under its index, 1.
    let rows = parse_wdbc(&blob(2, 2, 8, 0, &words(&[7, 10, 7, 11])), schema).unwrap();
    assert_eq!(rows.len(), 2);
    assert_eq!(rows.get(&7).unwrap()[1], FieldValue::Int32(10));
    assert_eq!(rows.get(&1).unwrap()[1], FieldValue::Int32(11));
    // Record 2 repeats id 2, and its index 2 is taken by record 0 too: it
    // replaces record 0.
    let rows2 = parse_wdbc(&blob(3, 2, 8, 0, &words(&[2, 10, 2, 11, 2, 12])), schema).unwrap();
    assert_eq!(rows2.len(), 2);
    assert_eq!(rows2.get(&2).unwrap()[1], FieldValue::Int32(12));
    assert_eq!(rows2.get(&1).unwrap()[1], FieldValue::Int32(11));
}

#[test]
fn parse_replaces_row_when_id_and_index_are_taken() {
    let schema: &[(&str, FieldType)] = &[("id", FieldType::UInt32), ("n", FieldType::Int32)];
    // Two records of id 1: the second falls back on its index, 1, which is
    // the key it repeats, so it replaces the first.
    let rows = parse_wdbc(&blob(2, 2, 8, 0, &words(&[1, 10, 1, 11])), schema).unwrap();
    assert_eq!(rows.len(), 1);
    assert_eq!(rows.get(&1).unwrap()[1], FieldValue::Int32(11));
    // Record 2 repeats u32::MAX and its index 2 holds record 1: record 1 is replaced.
    let rows = parse_wdbc(&blob(3, 2, 8, 0, &words(&[u32::MAX, 10, 2, 11, u32::MAX, 12])), schema)
        .unwrap();
    assert_eq!(rows.len(), 2);
    assert_eq!(rows.get(&u32::MAX).unwrap()[1], FieldValue::Int32(10));
    assert_eq!(rows.get(&2).unwrap()[1], FieldValue::Int32(12));
    // Six records of id 5: records 1 to 4 go under their indices, record 5
    // falls back on index 5 and replaces record 0.
    let many: Vec<u32> = (0..6u32).flat_map(|n| vec![5, n]).collect();
    let rows = parse_wdbc(&blob(6, 2, 8, 0, &words(&many)), schema).unwrap();
    assert_eq!(rows.len(), 5);
    for k in 1..5u32 {
        assert_eq!(rows.get(&k).unwrap()[1], FieldValue::Int32(k as i32));
    }
    assert_eq!(rows.get(&5).unwrap()[1], FieldValue::Int32(5));
}

#[test]
fn parse_keeps_every_record_with_distinct_ids() {
    let schema: &[(&str, FieldType)] = &[("id", FieldType::UInt32), ("v", FieldType::Int32)];
    let body = words(&[30, 1, 10, 2, 20, 3]);
    let data = blob(3, 2, 8, 0, &body);
    let rows = parse_wdbc(&data, schema).unwrap();
    assert_eq!(rows.len(), 3);
    assert_eq!(rows.get(&30).unwrap(), &vec![FieldValue::UInt32(30), FieldValue::Int32(1)]);
    assert_eq!(rows.get(&10).unwrap(), &vec![FieldValue::UInt32(10), FieldValue::Int32(2)]);
    assert_eq!(rows.get(&20).unwrap(), &vec![FieldValue::UInt32(20), FieldValue::Int32(3)]);
    for row in rows.values() {
        assert_eq!(row.len(), schema.len());
    }
}

#[test]
fn parse_keys_string_first_column_by_index() {
    let schema: &[(&str, FieldType)] = &[("name", FieldType::String)];
    let mut body = words(&[1, 3]);
    body.extend_from_slice(b"\x00ab\x00");
    let data = blob(2, 1, 4, 4, &body);
    let rows = parse_wdbc(&data, schema).unwrap();
    assert_eq!(rows.get(&0).unwrap()[0], FieldValue::String("ab".into()));
    assert_eq!(rows.get(&1).unwrap()[0], FieldValue::String(String::new()));
}

#[test]
fn duplicate_and_same_as_agree() {
    let v = FieldValue::String("x".into());
    assert!(v.duplicate().same_as(&v));
    assert!(!FieldValue::Int32(1).same_as(&FieldValue::UInt32(1)));
    assert!(FieldValue::Float32(7).same_as(&FieldValue::Float32(7)));
}
