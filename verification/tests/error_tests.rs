use consensus_serde::bridge::{DeInput, SerOutput, With};
use consensus_serde::error::{
    consensus_error_into_serde, DeError, DecodeError, IntoDeError, ParseError, Unexpected,
};
use consensus_serde::hex::{DecodeError as HexDecodeError, DecodeInitError, Hex, Lower};

#[test]
fn checksum_mismatch_payload() {
    let e = ParseError::InvalidChecksum {
        expected: [0xde, 0xad, 0xbe, 0xef],
        actual: [0, 0, 0, 0],
    };
    match consensus_error_into_serde(e) {
        DeError::InvalidValue { unexpected, expected } => {
            assert_eq!(unexpected, Unexpected::Bytes(vec![0, 0, 0, 0]));
            assert!(expected.contains("checksum deadbeef"));
            assert_eq!(expected, "checksum deadbeef");
        }
        other => panic!("wrong error: {:?}", other),
    }
}

#[test]
fn oversized_allocation_payload() {
    let e = ParseError::OversizedVectorAllocation { requested: 1000000, max: 4000 };
    match consensus_error_into_serde(e) {
        DeError::Custom(m) => {
            assert!(m.contains("1000000"));
            assert!(m.contains("4000"));
            assert_eq!(m, "the requested allocation of 1000000 items exceeds maximum of 4000");
        }
        other => panic!("wrong error: {:?}", other),
    }
}

#[test]
fn oversized_allocation_zero() {
    match consensus_error_into_serde(ParseError::OversizedVectorAllocation {
        requested: 0,
        max: 10,
    }) {
        DeError::Custom(m) => {
            assert_eq!(m, "the requested allocation of 0 items exceeds maximum of 10")
        }
        other => panic!("wrong error: {:?}", other),
    }
}

#[test]
fn missing_data_message() {
    match consensus_error_into_serde(ParseError::MissingData) {
        DeError::Custom(m) => {
            assert_eq!(m, "missing data (early end of file or slice too short)")
        }
        other => panic!("wrong error: {:?}", other),
    }
}

#[test]
fn non_minimal_varint_message() {
    match consensus_error_into_serde(ParseError::NonMinimalVarInt) {
        DeError::Custom(m) => assert_eq!(m, "compact size was not encoded minimally"),
        other => panic!("wrong error: {:?}", other),
    }
}

#[test]
fn parse_failed_message_verbatim() {
    match consensus_error_into_serde(ParseError::ParseFailed(String::from("boom"))) {
        DeError::Custom(m) => assert_eq!(m, "boom"),
        other => panic!("wrong error: {:?}", other),
    }
}

#[test]
fn unsupported_segwit_flag_payload() {
    match consensus_error_into_serde(ParseError::UnsupportedSegwitFlag(3)) {
        DeError::InvalidValue { unexpected, expected } => {
            assert_eq!(unexpected, Unexpected::Unsigned(3));
            assert_eq!(expected, "segwit version 1 flag");
        }
        other => panic!("wrong error: {:?}", other),
    }
}

#[test]
fn unify_passes_prebuilt_error_through() {
    let e = DecodeError::Other(DeError::Custom(String::from("already built")));
    assert_eq!(e.unify(), DeError::Custom(String::from("already built")));
}

#[test]
fn unify_unconsumed_message() {
    let e: DecodeError<DeError> = DecodeError::Unconsumed;
    assert_eq!(e.unify(), DeError::Custom(String::from("got more bytes than expected")));
}

#[test]
fn unify_translates_parse_error() {
    let e: DecodeError<DeError> = DecodeError::Parse(ParseError::MissingData);
    match e.unify() {
        DeError::Custom(m) => {
            assert_eq!(m, "missing data (early end of file or slice too short)")
        }
        other => panic!("wrong error: {:?}", other),
    }
}

#[test]
fn init_error_into_de_error() {
    let e = DecodeInitError { length: 7 };
    match e.into_de_error() {
        DeError::InvalidLength { length, expected } => {
            assert_eq!(length, 7);
            assert_eq!(expected, "an even number of ASCII-encoded hex digits");
        }
        other => panic!("wrong error: {:?}", other),
    }
}

#[test]
fn ascii_char_error_reports_char() {
    let e = HexDecodeError { invalid: 'g' };
    match e.into_de_error() {
        DeError::InvalidValue { unexpected, expected } => {
            assert_eq!(unexpected, Unexpected::Chr('g'));
            assert_eq!(expected, "an ASCII-encoded hex digit");
        }
        other => panic!("wrong error: {:?}", other),
    }
}

#[test]
fn non_ascii_char_error_reports_code_point() {
    let e = HexDecodeError { invalid: 'é' };
    match e.into_de_error() {
        DeError::InvalidValue { unexpected, expected } => {
            assert_eq!(unexpected, Unexpected::Unsigned(0xe9));
            assert_eq!(expected, "an ASCII-encoded hex digit");
        }
        other => panic!("wrong error: {:?}", other),
    }
}

#[test]
fn non_ascii_char_error_through_deserialize() {
    let r: Result<u32, DeError> =
        With::<Hex<Lower>>::deserialize(DeInput::Str(String::from("aé")));
    match r.err().expect("non-ascii char must fail") {
        DeError::InvalidValue { unexpected, .. } => {
            assert_eq!(unexpected, Unexpected::Unsigned(0xe9))
        }
        other => panic!("wrong error: {:?}", other),
    }
}

#[test]
fn leftover_input_detected() {
    let mut b = match With::<Hex<Lower>>::serialize(&0x01020304u32, false) {
        SerOutput::Bytes(b) => b,
        SerOutput::Str(_) => panic!("expected bytes"),
    };
    b.push(0x00);
    let r: Result<u32, DeError> = With::<Hex<Lower>>::deserialize(DeInput::Bytes(b));
    assert_eq!(
        r.err().expect("a trailing byte must fail"),
        DeError::Custom(String::from("got more bytes than expected"))
    );
}

#[test]
fn leftover_input_detected_on_string_path() {
    let r: Result<u32, DeError> =
        With::<Hex<Lower>>::deserialize(DeInput::Str(String::from("0403020100")));
    assert_eq!(
        r.err().expect("a trailing byte must fail"),
        DeError::Custom(String::from("got more bytes than expected"))
    );
}

#[test]
fn missing_data_through_deserialize() {
    let r: Result<u32, DeError> =
        With::<Hex<Lower>>::deserialize(DeInput::Str(String::from("0403")));
    assert_eq!(
        r.err().expect("two bytes cannot decode a u32"),
        DeError::Custom(String::from("missing data (early end of file or slice too short)"))
    );
}
