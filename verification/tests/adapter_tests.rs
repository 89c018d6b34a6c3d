use consensus_serde::bridge::{
    decode_u32_le, encode_u32_le, BinWriter, ByteReader, ByteWrite, IoWrapper, With,
};
use consensus_serde::error::ParseError;
use consensus_serde::hex::{Encoder, Hex, Lower};
use consensus_serde::text::{chars_to_string, ErrorTrackingWriter, TextBuffer};

#[test]
fn chars_collect_into_string() {
    assert_eq!(chars_to_string(&vec!['h', 'e', 'x']), "hex");
    assert_eq!(chars_to_string(&Vec::new()), "");
}

#[test]
fn text_buffer_limit_fails_and_keeps_content() {
    let mut t = TextBuffer::with_limit(3);
    t.write_text(&['a', 'b']).unwrap();
    assert!(t.write_text(&['c', 'd']).is_err());
}

#[test]
fn error_tracking_writer_records_failure() {
    let mut w = ErrorTrackingWriter::new(TextBuffer::with_limit(1));
    assert!(w.write_text(&['x', 'y']).is_err());
}

#[test]
fn io_wrapper_renders_hex() {
    let mut w = IoWrapper::new(TextBuffer::new(), Encoder::new(false));
    w.write(&[0x61, 0x62, 0x63]).unwrap();
    w.actually_flush().unwrap();
    assert_eq!(w.into_output().into_string(), "616263");
}

#[test]
fn serialize_str_reports_sink_failure() {
    // Three bytes need six characters; a two-character sink must fail.
    let r = With::<Hex<Lower>>::serialize_str(&vec![1u8, 2, 3], TextBuffer::with_limit(2));
    match r {
        Err((_, sink)) => assert!(!sink.is_ready(), "the sink must have recorded the failure"),
        Ok(_) => panic!("an undersized sink must fail"),
    }
}

#[test]
fn serialize_str_succeeds_within_limit() {
    let r = With::<Hex<Lower>>::serialize_str(&vec![1u8, 2, 3], TextBuffer::with_limit(6));
    assert_eq!(r.unwrap().into_string(), "010203");
}

#[test]
fn bin_writer_limit_fails_and_records() {
    let mut w = BinWriter::with_limit(2);
    assert!(w.write(&[1, 2, 3]).is_err());
    assert!(w.has_failed());
    assert_eq!(w.into_bytes(), vec![1, 2]);
}

#[test]
fn serialize_seq_reports_sink_failure() {
    let r = With::<Hex<Lower>>::serialize_seq(&0x01020304u32, BinWriter::with_limit(2));
    match r {
        Err((_, sink)) => {
            assert!(sink.has_failed(), "the sink must have recorded the failure");
            // Exactly the prefix before the limit was accepted.
            assert_eq!(sink.into_bytes(), vec![0x04, 0x03]);
        }
        Ok(_) => panic!("an undersized sink must fail"),
    }
}

#[test]
fn serialize_seq_collects_all_bytes() {
    let w = With::<Hex<Lower>>::serialize_seq(&0x12345678u32, BinWriter::new()).unwrap();
    assert!(!w.has_failed());
    assert_eq!(w.into_bytes(), vec![0x78, 0x56, 0x34, 0x12]);
}

#[test]
fn u32_little_endian_layout() {
    let mut w = BinWriter::new();
    encode_u32_le(0x12345678, &mut w).unwrap();
    assert_eq!(w.into_bytes(), vec![0x78, 0x56, 0x34, 0x12]);
}

#[test]
fn u32_decode_reads_little_endian() {
    let mut r = ByteReader::new(vec![0x78, 0x56, 0x34, 0x12]);
    assert_eq!(decode_u32_le(&mut r).unwrap(), 0x12345678);
    assert!(!r.has_leftover());
}

#[test]
fn u32_decode_short_input_is_missing_data() {
    let mut r = ByteReader::new(vec![0x01, 0x02, 0x03]);
    assert_eq!(decode_u32_le(&mut r), Err(ParseError::MissingData));
}

#[test]
fn byte_reader_reads_in_order() {
    let mut r = ByteReader::new(vec![9, 8]);
    assert!(r.has_leftover());
    assert_eq!(r.read_byte(), Some(9));
    assert_eq!(r.read_byte(), Some(8));
    assert_eq!(r.read_byte(), None);
    assert!(!r.has_leftover());
}
