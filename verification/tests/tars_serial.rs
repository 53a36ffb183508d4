use bcos_sdk::tars_serial::{TarsOutputStream, TarsType, TARS_MAX_STRING_LENGTH};

fn fresh() -> TarsOutputStream {
    TarsOutputStream::new()
}

#[test]
fn new_stream_is_empty() {
    assert!(fresh().buf.is_empty());
}

#[test]
fn head_with_small_tag_is_one_byte() {
    let mut os = fresh();
    os.write_to_head(TarsType::StructBegin, 1);
    assert_eq!(os.buf, vec![10 + 16]);
}

#[test]
fn head_with_tag_15_or_more_is_two_bytes() {
    let mut os = fresh();
    os.write_to_head(TarsType::Int32, 15);
    os.write_to_head(TarsType::SimpleList, 200);
    assert_eq!(os.buf, vec![2 + 240, 15, 13 + 240, 200]);
}

#[test]
fn type_codes_follow_declaration_order() {
    let all = [
        TarsType::Char,
        TarsType::Short,
        TarsType::Int32,
        TarsType::Int64,
        TarsType::Float,
        TarsType::Double,
        TarsType::String1,
        TarsType::String4,
        TarsType::KeyValueMap,
        TarsType::List,
        TarsType::StructBegin,
        TarsType::StructEnd,
        TarsType::ZeroTag,
        TarsType::SimpleList,
    ];
    for (i, t) in all.iter().enumerate() {
        assert_eq!(t.code() as usize, i);
    }
}

#[test]
fn char_zero_is_a_zero_tag() {
    let mut os = fresh();
    os.write_char(0, 3);
    assert_eq!(os.buf, vec![12 + 3 * 16]);
}

#[test]
fn char_nonzero_has_its_byte() {
    let mut os = fresh();
    os.write_char(200, 1);
    assert_eq!(os.buf, vec![16, 200]);
}

#[test]
fn short_in_byte_range_is_a_char() {
    let mut os = fresh();
    os.write_short(-1, 0);
    assert_eq!(os.buf, vec![0, 0xff]);
    let mut os = fresh();
    os.write_short(127, 0);
    assert_eq!(os.buf, vec![0, 127]);
}

#[test]
fn short_out_of_byte_range_is_two_bytes() {
    let mut os = fresh();
    os.write_short(300, 2);
    assert_eq!(os.buf, vec![1 + 32, 0x01, 0x2c]);
    let mut os = fresh();
    os.write_short(-129, 0);
    assert_eq!(os.buf, vec![1, 0xff, 0x7f]);
}

#[test]
fn int32_takes_shortest_form() {
    let mut os = fresh();
    os.write_int32(0, 1);
    assert_eq!(os.buf, vec![12 + 16]);
    let mut os = fresh();
    os.write_int32(1000, 1);
    assert_eq!(os.buf, vec![1 + 16, 0x03, 0xe8]);
    let mut os = fresh();
    os.write_int32(70000, 1);
    assert_eq!(os.buf, vec![2 + 16, 0x00, 0x01, 0x11, 0x70]);
    let mut os = fresh();
    os.write_int32(i32::MIN, 0);
    assert_eq!(os.buf, vec![2, 0x80, 0, 0, 0]);
}

#[test]
fn int64_takes_shortest_form() {
    let mut os = fresh();
    os.write_int64(5, 4);
    assert_eq!(os.buf, vec![64, 5]);
    let mut os = fresh();
    os.write_int64(1 << 40, 4);
    assert_eq!(os.buf, vec![3 + 64, 0, 0, 0x01, 0, 0, 0, 0, 0]);
    let mut os = fresh();
    os.write_int64(-3_000_000_000, 0);
    let mut expected = vec![3];
    expected.extend_from_slice(&(-3_000_000_000i64).to_be_bytes());
    assert_eq!(os.buf, expected);
}

#[test]
fn wider_writers_agree_on_small_values() {
    for v in [-200i32, -1, 0, 1, 77, 128, 40000, -70000] {
        let mut a = fresh();
        a.write_int32(v, 6);
        let mut b = fresh();
        b.write_int64(v as i64, 6);
        assert_eq!(a.buf, b.buf);
    }
    for v in [-129i16, -128, 0, 5, 127, 128, 32767] {
        let mut a = fresh();
        a.write_short(v, 2);
        let mut b = fresh();
        b.write_int32(v as i32, 2);
        assert_eq!(a.buf, b.buf);
    }
}

#[test]
fn short_string_has_one_length_byte() {
    let mut os = fresh();
    os.write_string("abc", 2);
    assert_eq!(os.buf, vec![6 + 32, 3, b'a', b'b', b'c']);
}

#[test]
fn long_string_has_four_length_bytes() {
    let s = "x".repeat(300);
    let mut os = fresh();
    os.write_string(&s, 5);
    assert_eq!(&os.buf[..5], &[7 + 80, 0, 0, 0x01, 0x2c]);
    assert_eq!(os.buf.len(), 5 + 300);
    assert!(300 < TARS_MAX_STRING_LENGTH);
}

#[test]
fn string_of_255_bytes_keeps_one_length_byte() {
    let s = "y".repeat(255);
    let mut os = fresh();
    os.write_string(&s, 0);
    assert_eq!(&os.buf[..2], &[6, 255]);
    assert_eq!(os.buf.len(), 2 + 255);
}

#[test]
fn non_ascii_string_length_counts_bytes() {
    let mut os = fresh();
    os.write_string("成功", 1);
    assert_eq!(os.buf[1], 6);
    assert_eq!(&os.buf[2..], "成功".as_bytes());
}

#[test]
fn bytes_field_layout() {
    let mut os = fresh();
    os.write_bytes(&[9, 8, 7], 7);
    assert_eq!(os.buf, vec![13 + 112, 0, 0, 3, 9, 8, 7]);
    let mut os = fresh();
    os.write_bytes(&[], 7);
    assert_eq!(os.buf, vec![13 + 112, 0, 12]);
}

#[test]
fn unknown_writers() {
    let mut os = fresh();
    os.write_unknown("hi");
    assert_eq!(os.buf, b"hi".to_vec());
    let mut os = fresh();
    os.write_unknown_v2("hi");
    assert_eq!(os.buf, vec![10, b'h', b'i', 11]);
}

#[test]
fn float_and_double_bits() {
    let mut os = fresh();
    os.write_float_bits(1.5f32.to_bits(), 1);
    let mut expected = vec![4 + 16];
    expected.extend_from_slice(&1.5f32.to_bits().to_be_bytes());
    assert_eq!(os.buf, expected);
    let mut os = fresh();
    os.write_double_bits((-2.25f64).to_bits(), 1);
    let mut expected = vec![5 + 16];
    expected.extend_from_slice(&(-2.25f64).to_bits().to_be_bytes());
    assert_eq!(os.buf, expected);
}

#[test]
fn writes_append_to_what_is_there() {
    let mut os = fresh();
    os.write_char(1, 0);
    let before = os.buf.clone();
    os.write_string("z", 1);
    assert_eq!(&os.buf[..before.len()], &before[..]);
    assert_eq!(&os.buf[before.len()..], &[6 + 16, 1, b'z']);
}
