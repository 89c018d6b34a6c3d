use consensus_serde::bridge::{DeInput, SerOutput, With};
use consensus_serde::error::DeError;
use consensus_serde::error::Unexpected;
use consensus_serde::hex::{Decoder, EncodeBytes, Encoder, Hex, Lower, Upper};
use consensus_serde::text::{ErrorTrackingWriter, TextBuffer};

fn encode_hr(bytes: Vec<u8>, upper: bool) -> String {
    let out = if upper {
        With::<Hex<Upper>>::serialize(&bytes, true)
    } else {
        With::<Hex<Lower>>::serialize(&bytes, true)
    };
    match out {
        SerOutput::Str(s) => s,
        SerOutput::Bytes(_) => panic!("human-readable mode must yield a string"),
    }
}

#[test]
fn encode_lower_simple() {
    assert_eq!(encode_hr(vec![0xde, 0xad, 0xbe, 0xef], false), "deadbeef");
}

#[test]
fn encode_upper_simple() {
    assert_eq!(encode_hr(vec![0xde, 0xad, 0xbe, 0xef], true), "DEADBEEF");
}

#[test]
fn encode_empty_is_empty_string() {
    assert_eq!(encode_hr(vec![], false), "");
}

#[test]
fn encode_all_digits() {
    assert_eq!(
        encode_hr(vec![0x01, 0x23, 0x45, 0x67, 0x89, 0xab, 0xcd, 0xef], false),
        "0123456789abcdef"
    );
}

#[test]
fn case_strategies_agree_under_folding() {
    let bytes: Vec<u8> = (0u16..=255).map(|b| b as u8).collect();
    let lower = encode_hr(bytes.clone(), false);
    let upper = encode_hr(bytes, true);
    assert_eq!(lower.to_uppercase(), upper);
    assert_eq!(upper.to_lowercase(), lower);
}

#[test]
fn decode_accepts_lower_case() {
    let r: Result<u32, DeError> =
        With::<Hex<Lower>>::deserialize(DeInput::Str(String::from("78563412")));
    assert_eq!(r.unwrap(), 0x12345678);
}

#[test]
fn decode_accepts_upper_case_input_too() {
    let r: Result<u32, DeError> =
        With::<Hex<Lower>>::deserialize(DeInput::Str(String::from("78563412".to_uppercase())));
    assert_eq!(r.unwrap(), 0x12345678);
}

#[test]
fn decode_upper_strategy_accepts_lower_input() {
    let r: Result<u32, DeError> =
        With::<Hex<Upper>>::deserialize(DeInput::Str(String::from("78563412")));
    assert_eq!(r.unwrap(), 0x12345678);
}

#[test]
fn round_trip_human_readable() {
    for v in [0u32, 1, 0x12345678, u32::MAX] {
        let s = match With::<Hex<Lower>>::serialize(&v, true) {
            SerOutput::Str(s) => s,
            SerOutput::Bytes(_) => panic!("expected a string"),
        };
        let back: u32 = With::<Hex<Lower>>::deserialize(DeInput::Str(s)).unwrap();
        assert_eq!(back, v);
    }
}

#[test]
fn round_trip_binary() {
    for v in [0u32, 1, 0x12345678, u32::MAX] {
        let b = match With::<Hex<Lower>>::serialize(&v, false) {
            SerOutput::Bytes(b) => b,
            SerOutput::Str(_) => panic!("expected bytes"),
        };
        assert_eq!(b.len(), 4);
        let back: u32 = With::<Hex<Lower>>::deserialize(DeInput::Bytes(b)).unwrap();
        assert_eq!(back, v);
    }
}

#[test]
fn odd_length_rejected_at_construction() {
    let r = Decoder::new("abc");
    let e = r.err().expect("odd length must fail");
    assert_eq!(e.length(), 3);
}

#[test]
fn odd_length_error_through_deserialize() {
    let r: Result<u32, DeError> =
        With::<Hex<Lower>>::deserialize(DeInput::Str(String::from("abc")));
    match r.err().expect("odd length must fail") {
        DeError::InvalidLength { length, expected } => {
            assert_eq!(length, 3);
            assert_eq!(expected, "an even number of ASCII-encoded hex digits");
        }
        other => panic!("wrong error: {:?}", other),
    }
}

#[test]
fn bad_char_reports_offender() {
    let mut d = Decoder::new("0g").unwrap();
    match d.next() {
        Some(Err(e)) => assert_eq!(e.invalid_char(), 'g'),
        other => panic!("expected a decode error, got {:?}", other.is_some()),
    }
    assert!(d.next().is_none(), "decoder must stop after the first error");
}

#[test]
fn bad_char_reported_once_for_zz() {
    let mut d = Decoder::new("zz").unwrap();
    match d.next() {
        Some(Err(e)) => assert_eq!(e.invalid_char(), 'z'),
        other => panic!("expected a decode error, got {:?}", other.is_some()),
    }
    assert!(d.next().is_none(), "the second 'z' must not be reported again");
}

#[test]
fn bad_char_error_through_deserialize() {
    let r: Result<u32, DeError> =
        With::<Hex<Lower>>::deserialize(DeInput::Str(String::from("0g")));
    match r.err().expect("bad char must fail") {
        DeError::InvalidValue { unexpected, expected } => {
            assert_eq!(unexpected, Unexpected::Chr('g'));
            assert_eq!(expected, "an ASCII-encoded hex digit");
        }
        other => panic!("wrong error: {:?}", other),
    }
}

#[test]
fn decoder_yields_bytes_in_order() {
    let mut d = Decoder::new("00ff10").unwrap();
    assert_eq!(d.next().unwrap().unwrap(), 0x00);
    assert_eq!(d.next().unwrap().unwrap(), 0xff);
    assert_eq!(d.next().unwrap().unwrap(), 0x10);
    assert!(d.next().is_none());
}

fn encode_in_chunks(chunks: &[&[u8]]) -> String {
    let mut enc = Encoder::new(false);
    let mut w = ErrorTrackingWriter::new(TextBuffer::new());
    for chunk in chunks {
        enc.encode_chunk(&mut w, chunk).unwrap();
    }
    enc.flush(&mut w).unwrap();
    w.into_inner().into_string()
}

#[test]
fn chunk_boundaries_do_not_change_output() {
    // 600 bytes render as 1200 characters, forcing at least two flushes of
    // the 512-character buffer within a single call.
    let bytes: Vec<u8> = (0..600).map(|i| (i % 251) as u8).collect();
    let whole = encode_in_chunks(&[&bytes]);
    let split = encode_in_chunks(&[&bytes[..299], &bytes[299..]]);
    let trickle: Vec<&[u8]> = bytes.chunks(7).collect();
    let dribbled = encode_in_chunks(&trickle);
    assert_eq!(whole.len(), 1200);
    assert_eq!(whole, split);
    assert_eq!(whole, dribbled);
}

#[test]
fn encoder_matches_std_formatting() {
    // 257 bytes cross the 512-character buffer boundary mid-stream.
    let bytes: Vec<u8> = (0..257).map(|i| (i * 31 % 256) as u8).collect();
    let expected: String = bytes.iter().map(|b| format!("{:02x}", b)).collect();
    assert_eq!(encode_hr(bytes.clone(), false), expected);
    assert_eq!(encode_hr(bytes, true), expected.to_uppercase());
}

#[test]
fn flush_with_empty_buffer_writes_nothing() {
    let mut enc = Encoder::new(true);
    let mut w = ErrorTrackingWriter::new(TextBuffer::new());
    enc.flush(&mut w).unwrap();
    assert_eq!(w.into_inner().into_string(), "");
}
