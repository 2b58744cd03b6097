use source_query::bytereader::ByteReader;
use source_query::error::ErrorKind;

fn three_texts() -> Vec<u8> {
    vec![
        0x6a, 0x69, 0x6d, 0x6d,
        0x79, 0x00, 0x73, 0x6f,
        0x72, 0x74, 0x69, 0x6e,
        0x67, 0x00, 0x67, 0x6f,
        0x72, 0x61, 0x6e, 0x00,
    ]
}

fn five_texts() -> Vec<u8> {
    vec![
        0x6a, 0x69, 0x6d, 0x6d,
        0x79, 0x00, 0x73, 0x6f,
        0x72, 0x74, 0x69, 0x6e,
        0x67, 0x00, 0x67, 0x6f,
        0x72, 0x61, 0x6e, 0x00,
        0x72, 0x61, 0x6e, 0x00,
        0x72, 0x61, 0x6e, 0x00,
    ]
}

#[test]
fn test_get_byte() {
    let data = vec![0x6a];

    let mut reader = ByteReader::new(data);

    assert_eq!(0x6a, reader.get_byte().unwrap());
}

#[test]
#[should_panic]
fn test_get_byte_out_or_range() {
    let data = vec![0x6a];
    let mut reader = ByteReader::new(data);

    reader.get_byte().unwrap();
    reader.get_byte().unwrap();
}

#[test]
fn test_get_bytes() {
    let data = vec![0x6a, 0x6a, 0x6a];

    let mut reader = ByteReader::new(data);

    assert_eq!([0x6a, 0x6a, 0x6a], reader.get_bytes(3).unwrap());
}

#[test]
#[should_panic]
fn test_get_bytes_out_of_range() {
    let data = vec![0x6a, 0x6a, 0x6a];

    let mut reader = ByteReader::new(data);

    reader.get_bytes(4).unwrap();
}

#[test]
fn test_get_short() {
    let data = [i16::to_le_bytes(6230), i16::to_le_bytes(1234)].concat();

    data.iter().for_each(|b| println!("{}", b));

    let mut reader = ByteReader::new(data);

    assert_eq!(6230, reader.get_short().unwrap());
    assert_eq!(1234, reader.get_short().unwrap());
}

#[test]
fn test_get_int() {
    let data = i32::to_le_bytes(655556).to_vec();

    let mut reader = ByteReader::new(data);

    assert_eq!(655556, reader.get_int().unwrap());
}

#[test]
fn test_get_long() {
    let data = u64::to_le_bytes(655556000).to_vec();

    let mut reader = ByteReader::new(data);

    assert_eq!(655556000u32, reader.get_long().unwrap());
}

#[test]
fn test_get_float() {
    let data = f32::to_le_bytes(132.34).to_vec();

    data.iter().for_each(|x| println!("{}", x));

    let mut reader = ByteReader::new(data);

    assert_eq!(132.34, f32::from_bits(reader.get_float().unwrap().to_bits()));
}

#[test]
fn test_get_string() {
    let mut reader = ByteReader::new(three_texts());

    assert_eq!("jimmy", reader.get_string().unwrap());
    assert_eq!("sorting", reader.get_string().unwrap());
    assert_eq!("goran", reader.get_string().unwrap());
}

#[test]
#[should_panic]
fn test_get_string_out_of_range_should_panic() {
    let mut reader = ByteReader::new(three_texts());

    reader.get_string().unwrap();
    reader.get_string().unwrap();
    reader.get_string().unwrap();
    reader.get_string().unwrap(); // out of range
}

#[test]
#[should_panic]
fn test_get_string_with_missing_null_char_should_panic() {
    let mut reader = ByteReader::new(
        vec![
            0x6a, 0x69, 0x6d, 0x6d,
            0x79, 0x73, 0x6f,
            0x72, 0x74, 0x69,
            0x6e, 0x67, 0x67,
            0x6f, 0x72, 0x61,
            0x6e ]);

    reader.get_string().unwrap();
    reader.get_string().unwrap();
    reader.get_string().unwrap();
    reader.get_string().unwrap(); // out of range
}

#[test]
fn test_peek_remaining_bytes() {
    let mut reader = ByteReader::new(five_texts());

    reader.get_string().unwrap(); // 6
    reader.get_short().unwrap(); // 6 + 2 = 8
    reader.get_int().unwrap(); // 8 + 4 = 12
    reader.get_long().unwrap(); // 12 + 4 = 16
    reader.get_byte().unwrap(); // 16 + 1 = 17
    reader.get_bytes(3).unwrap(); // 17 + 3 = 20 - 8 bytes remaining

    assert_eq!([0x72, 0x61, 0x6e, 0x00, 0x72, 0x61, 0x6e, 0x00], reader.peek_remaining_bytes().unwrap());
}

#[test]
#[should_panic]
fn test_peek_remaining_bytes_out_of_range_should_panic() {
    let mut reader = ByteReader::new(five_texts());

    reader.get_bytes(28).unwrap();
    assert_eq!(28, reader.position());

    reader.peek_remaining_bytes().unwrap();
}

#[test]
fn a_new_reader_stands_at_the_start() {
    let reader = ByteReader::new(three_texts());

    assert_eq!(0, reader.position());
    assert_eq!(20, reader.remaining());
}

#[test]
fn every_read_moves_the_cursor_by_what_it_consumed() {
    let mut reader = ByteReader::new(five_texts());

    reader.get_string().unwrap();
    assert_eq!(6, reader.position());
    reader.get_short().unwrap();
    assert_eq!(8, reader.position());
    reader.get_int().unwrap();
    assert_eq!(12, reader.position());
    reader.get_long().unwrap();
    assert_eq!(16, reader.position());
    reader.get_byte().unwrap();
    assert_eq!(17, reader.position());
    reader.get_bytes(3).unwrap();
    assert_eq!(20, reader.position());
    reader.get_float().unwrap();
    assert_eq!(24, reader.position());
    assert_eq!(4, reader.remaining());
}

#[test]
fn two_reads_in_a_row_give_one_longer_read() {
    let mut reader = ByteReader::new(three_texts());
    let head = reader.get_bytes(5).unwrap().to_vec();
    let tail = reader.get_bytes(9).unwrap().to_vec();
    let end = reader.position();

    let mut whole = ByteReader::new(three_texts());
    assert_eq!([head, tail].concat(), whole.get_bytes(14).unwrap());
    assert_eq!(end, whole.position());
    assert_eq!(0x67, whole.get_byte().unwrap());
}

#[test]
fn reading_no_bytes_is_always_possible() {
    let mut reader = ByteReader::new(vec![]);

    assert_eq!(0, reader.get_bytes(0).unwrap().len());
    assert_eq!(0, reader.position());
}

#[test]
fn reading_past_the_end_is_out_of_range_for_every_read() {
    let mut reader = ByteReader::new(vec![0x01, 0x02, 0x03]);

    assert_eq!(Err(ErrorKind::OutOfRange), reader.get_bytes(4).map(|bytes| bytes.to_vec()));
    assert_eq!(Err(ErrorKind::OutOfRange), reader.get_int());
    assert_eq!(Err(ErrorKind::OutOfRange), reader.get_long());
    assert_eq!(Err(ErrorKind::OutOfRange), reader.get_float());
    assert_eq!(0, reader.position());

    reader.get_bytes(2).unwrap();
    assert_eq!(Err(ErrorKind::OutOfRange), reader.get_short());
    assert_eq!(2, reader.position());

    reader.get_byte().unwrap();
    assert_eq!(Err(ErrorKind::OutOfRange), reader.get_byte());
    assert_eq!(Err(ErrorKind::OutOfRange), reader.get_string());
    assert_eq!(Err(ErrorKind::OutOfRange), reader.peek_remaining_bytes().map(|bytes| bytes.to_vec()));
    assert_eq!(3, reader.position());
    assert_eq!(0, reader.remaining());
}

#[test]
fn numbers_are_read_low_byte_first() {
    let mut reader = ByteReader::new(vec![
        0x01, 0x02,
        0x01, 0x02, 0x03, 0x04,
        0x01, 0x02, 0x03, 0x04,
        0x00, 0x00, 0x80, 0x3f,
    ]);

    assert_eq!(0x0201, reader.get_short().unwrap());
    assert_eq!(0x04030201, reader.get_int().unwrap());
    assert_eq!(0x04030201, reader.get_long().unwrap());
    assert_eq!(0x3f800000, reader.get_float().unwrap().to_bits());
}

#[test]
fn signed_numbers_are_two_s_complement() {
    let mut reader = ByteReader::new(vec![
        0xff, 0xff,
        0x00, 0x80,
        0xff, 0x7f,
        0xff, 0xff, 0xff, 0xff,
        0x00, 0x00, 0x00, 0x80,
        0xff, 0xff, 0xff, 0x7f,
        0xff, 0xff, 0xff, 0xff,
    ]);

    assert_eq!(-1, reader.get_short().unwrap());
    assert_eq!(i16::MIN, reader.get_short().unwrap());
    assert_eq!(i16::MAX, reader.get_short().unwrap());
    assert_eq!(-1, reader.get_int().unwrap());
    assert_eq!(i32::MIN, reader.get_int().unwrap());
    assert_eq!(i32::MAX, reader.get_int().unwrap());
    assert_eq!(u32::MAX, reader.get_long().unwrap());
}

#[test]
fn a_text_ends_right_behind_its_terminator() {
    let mut reader = ByteReader::new(vec![
        0x6a, 0x69, 0x6d, 0x6d, 0x79, 0x00,
        0x73, 0x6f, 0x72, 0x74, 0x69, 0x6e, 0x67, 0x00,
    ]);

    assert_eq!("jimmy", reader.get_string().unwrap());
    assert_eq!(6, reader.position());
    assert_eq!("sorting", reader.get_string().unwrap());
    assert_eq!(14, reader.position());
    assert_eq!(0, reader.remaining());
}

#[test]
fn an_empty_text_is_a_lone_terminator() {
    let mut reader = ByteReader::new(vec![0x00, 0x41, 0x00]);

    assert_eq!("", reader.get_string().unwrap());
    assert_eq!(1, reader.position());
    assert_eq!("A", reader.get_string().unwrap());
}

#[test]
fn a_text_without_terminator_is_refused() {
    let mut reader = ByteReader::new(vec![0x6a, 0x69, 0x6d, 0x6d, 0x79]);

    assert_eq!(Err(ErrorKind::MissingTerminator), reader.get_string());
    assert_eq!(0, reader.position());
}

#[test]
fn a_text_that_is_not_utf8_is_refused() {
    let mut reader = ByteReader::new(vec![0x6a, 0xff, 0x00, 0x6b, 0x00]);

    assert_eq!(Err(ErrorKind::InvalidText), reader.get_string());
    assert_eq!(0, reader.position());

    let mut overlong = ByteReader::new(vec![0xc0, 0x80, 0x00]);
    assert_eq!(Err(ErrorKind::InvalidText), overlong.get_string());

    let mut surrogate = ByteReader::new(vec![0xed, 0xa0, 0x80, 0x00]);
    assert_eq!(Err(ErrorKind::InvalidText), surrogate.get_string());
}

#[test]
fn a_text_may_hold_more_than_ascii() {
    let mut reader = ByteReader::new(vec![0x67, 0xc3, 0xb6, 0x72, 0x61, 0x6e, 0x00, 0xe2, 0x82, 0xac, 0x00]);

    assert_eq!("göran", reader.get_string().unwrap());
    assert_eq!(7, reader.position());
    assert_eq!("€", reader.get_string().unwrap());
    assert_eq!(11, reader.position());
}

#[test]
fn a_look_at_the_rest_does_not_move_the_cursor() {
    let mut reader = ByteReader::new(vec![0x01, 0x02, 0x03]);
    reader.get_byte().unwrap();

    assert_eq!([0x02, 0x03], reader.peek_remaining_bytes().unwrap());
    assert_eq!(1, reader.position());
    assert_eq!([0x02, 0x03], reader.peek_remaining_bytes().unwrap());
    assert_eq!(0x02, reader.get_byte().unwrap());
}

#[test]
fn a_look_at_the_rest_of_an_empty_buffer_is_out_of_range() {
    let reader = ByteReader::new(vec![]);

    assert_eq!(Err(ErrorKind::OutOfRange), reader.peek_remaining_bytes().map(|bytes| bytes.to_vec()));
}
