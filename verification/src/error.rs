//! Error unification: translating the binary format's parse-failure taxonomy,
//! and the text decoder's failures, into the vocabulary of the structured
//! serialization framework.
//!
//! [`DeError`] models the framework's deserialization error: a custom message,
//! an invalid value with an [`Unexpected`] payload, or an invalid length. The
//! translation keeps exact payloads: the requested and maximum allocation
//! sizes, the actual checksum bytes with the expected checksum rendered as
//! eight hex digits, and the offending character or flag byte.

use vstd::prelude::*;
use vstd::string::*;

use crate::hex::{byte_hex, bytes_hex, nibble_to_char};
use crate::text::chars_to_string;

verus! {

/// The binary format's parse-failure taxonomy.
#[derive(Debug, Clone, PartialEq, Eq)]
pub enum ParseError {
    /// The input ended before the value was complete.
    MissingData,
    /// A length prefix asked for more items than the format allows.
    OversizedVectorAllocation { requested: usize, max: usize },
    /// The checksum read from the input does not match the computed one.
    InvalidChecksum { expected: [u8; 4], actual: [u8; 4] },
    /// A compact integer was not encoded in its shortest form.
    NonMinimalVarInt,
    /// A parse failure with its own message, passed through verbatim.
    ParseFailed(String),
    /// An unsupported flag byte in an extended transaction encoding.
    UnsupportedSegwitFlag(u8),
}

/// The value a framework error reports as found, mirroring the framework's
/// "unexpected" payloads that this bridge produces.
#[derive(Debug, Clone, PartialEq, Eq)]
pub enum Unexpected {
    /// An unexpected character.
    Chr(char),
    /// An unexpected unsigned integer.
    Unsigned(u64),
    /// An unexpected byte sequence.
    Bytes(Vec<u8>),
}

/// Model of the framework's deserialization error.
#[derive(Debug, Clone, PartialEq, Eq)]
pub enum DeError {
    /// A free-form message.
    Custom(String),
    /// A well-formed value that is wrong for the type: what was found, and a
    /// description of what was expected.
    InvalidValue { unexpected: Unexpected, expected: String },
    /// An input of the wrong length, carrying that length.
    InvalidLength { length: usize, expected: String },
}

/// The decimal rendering of `n`, most significant digit first.
pub open spec fn dec_chars(n: nat) -> Seq<char>
    decreases n,
{
    if n < 10 {
        seq![((48 + n) as u8) as char]
    } else {
        dec_chars(n / 10).push(((48 + n % 10) as u8) as char)
    }
}

/// Appends the decimal rendering of `n` to `out`.
pub fn push_decimal(out: &mut Vec<char>, n: usize)
    ensures
        final(out)@ == old(out)@ + dec_chars(n as nat),
    decreases n,
{
    if n >= 10 {
        push_decimal(out, n / 10);
    }
    let d: u8 = 48 + (n % 10) as u8;
    out.push(d as char);
    proof {
        assert(final(out)@ =~= old(out)@ + dec_chars(n as nat));
    }
}

/// Appends the characters of `s` to `out`.
pub fn push_str_chars(out: &mut Vec<char>, s: &str)
    ensures
        final(out)@ == old(out)@ + s@,
{
    let n = s.unicode_len();
    let mut i: usize = 0;
    while i < n
        invariant
            i <= n,
            n == s@.len(),
            out@ == old(out)@ + s@.subrange(0, i as int),
        decreases n - i,
    {
        out.push(s.get_char(i));
        proof {
            assert((old(out)@ + s@.subrange(0, i as int)).push(s@[i as int]) =~= old(out)@
                + s@.subrange(0, i as int + 1));
        }
        i += 1;
    }
    proof {
        assert(old(out)@ + s@.subrange(0, s@.len() as int) =~= old(out)@ + s@);
    }
}

/// Appends the two hex digits of one byte to `out`.
pub fn push_byte_hex(out: &mut Vec<char>, b: u8, upper: bool)
    ensures
        final(out)@ == old(out)@ + byte_hex(b, upper),
{
    out.push(nibble_to_char(b / 16, upper));
    out.push(nibble_to_char(b % 16, upper));
    proof {
        assert(final(out)@ =~= old(out)@ + byte_hex(b, upper));
    }
}

/// Appends the hex rendering of `bytes` to `out`.
pub fn push_bytes_hex(out: &mut Vec<char>, bytes: &[u8], upper: bool)
    ensures
        final(out)@ == old(out)@ + bytes_hex(bytes@, upper),
{
    let mut i: usize = 0;
    while i < bytes.len()
        invariant
            i <= bytes@.len(),
            out@ == old(out)@ + bytes_hex(bytes@.subrange(0, i as int), upper),
        decreases bytes@.len() - i,
    {
        push_byte_hex(out, bytes[i], upper);
        proof {
            crate::hex::lemma_bytes_hex_snoc(bytes@.subrange(0, i as int), bytes@[i as int], upper);
            assert(bytes@.subrange(0, i as int).push(bytes@[i as int]) =~= bytes@.subrange(
                0,
                i as int + 1,
            ));
            assert(out@ =~= old(out)@ + bytes_hex(bytes@.subrange(0, i as int + 1), upper));
        }
        i += 1;
    }
    proof {
        assert(bytes@.subrange(0, bytes@.len() as int) =~= bytes@);
    }
}

/// What the translation of a parse failure must look like: the exact message
/// or payload owed for each failure kind.
pub open spec fn is_consensus_serde_error(e: ParseError, r: DeError) -> bool {
    match e {
        ParseError::MissingData => r matches DeError::Custom(m) && m@ == "missing data (early end of file or slice too short)"@,
        ParseError::OversizedVectorAllocation { requested, max } => r matches DeError::Custom(m)
            && m@ == "the requested allocation of "@ + dec_chars(requested as nat)
            + " items exceeds maximum of "@ + dec_chars(max as nat),
        ParseError::InvalidChecksum { expected, actual } => r matches DeError::InvalidValue {
            unexpected: Unexpected::Bytes(found),
            expected: want,
        } && found@ == actual@ && want@ == "checksum "@ + bytes_hex(expected@, false),
        ParseError::NonMinimalVarInt => r matches DeError::Custom(m) && m@ == "compact size was not encoded minimally"@,
        ParseError::ParseFailed(msg) => r matches DeError::Custom(m) && m@ == msg@,
        ParseError::UnsupportedSegwitFlag(flag) => r matches DeError::InvalidValue {
            unexpected: Unexpected::Unsigned(found),
            expected: want,
        } && found == flag as u64 && want@ == "segwit version 1 flag"@,
    }
}

/// Translates a parse failure into the framework's error, with the exact
/// messages and payloads of [`is_consensus_serde_error`]: among them the
/// requested/maximum pair rendered in decimal and the expected checksum
/// rendered as eight lower-case hex digits.
pub fn consensus_error_into_serde(error: ParseError) -> (r: DeError)
    ensures
        is_consensus_serde_error(error, r),
{
    match error {
        ParseError::MissingData => {
            let mut m: Vec<char> = Vec::new();
            push_str_chars(&mut m, "missing data (early end of file or slice too short)");
            DeError::Custom(chars_to_string(&m))
        },
        ParseError::OversizedVectorAllocation { requested, max } => {
            let mut m: Vec<char> = Vec::new();
            push_str_chars(&mut m, "the requested allocation of ");
            push_decimal(&mut m, requested);
            push_str_chars(&mut m, " items exceeds maximum of ");
            push_decimal(&mut m, max);
            DeError::Custom(chars_to_string(&m))
        },
        ParseError::InvalidChecksum { expected, actual } => {
            let mut m: Vec<char> = Vec::new();
            push_str_chars(&mut m, "checksum ");
            push_bytes_hex(&mut m, expected.as_slice(), false);
            let mut found: Vec<u8> = Vec::new();
            found.push(actual[0]);
            found.push(actual[1]);
            found.push(actual[2]);
            found.push(actual[3]);
            proof {
                assert(found@ =~= actual@);
            }
            DeError::InvalidValue { unexpected: Unexpected::Bytes(found), expected: chars_to_string(&m) }
        },
        ParseError::NonMinimalVarInt => {
            let mut m: Vec<char> = Vec::new();
            push_str_chars(&mut m, "compact size was not encoded minimally");
            DeError::Custom(chars_to_string(&m))
        },
        ParseError::ParseFailed(msg) => DeError::Custom(msg),
        ParseError::UnsupportedSegwitFlag(flag) => {
            let mut m: Vec<char> = Vec::new();
            push_str_chars(&mut m, "segwit version 1 flag");
            DeError::InvalidValue {
                unexpected: Unexpected::Unsigned(flag as u64),
                expected: chars_to_string(&m),
            }
        },
    }
}

/// Conversion into the framework's error type. Each implementor fixes, in
/// [`IntoDeError::describes`], exactly which framework errors are a faithful
/// rendering of it; the conversion must produce one of those.
pub trait IntoDeError {
    /// Which framework errors faithfully render `self`.
    spec fn describes(&self, r: DeError) -> bool;

    /// Performs the conversion.
    fn into_de_error(self) -> (r: DeError)
        ensures
            self.describes(r),
    ;
}

impl IntoDeError for crate::hex::DecodeInitError {
    open spec fn describes(&self, r: DeError) -> bool {
        r matches DeError::InvalidLength { length, expected } && length == self.length
            && expected@ == "an even number of ASCII-encoded hex digits"@
    }

    fn into_de_error(self) -> (r: DeError) {
        let mut m: Vec<char> = Vec::new();
        push_str_chars(&mut m, "an even number of ASCII-encoded hex digits");
        DeError::InvalidLength { length: self.length, expected: chars_to_string(&m) }
    }
}

/// Which framework errors faithfully render an invalid hex character `c`: an
/// ASCII character is reported as the character itself, any other as its
/// code point.
pub open spec fn describes_invalid_char(c: char, r: DeError) -> bool {
    if (c as u32) < 128 {
        r matches DeError::InvalidValue { unexpected: Unexpected::Chr(found), expected } && found
            == c && expected@ == "an ASCII-encoded hex digit"@
    } else {
        r matches DeError::InvalidValue { unexpected: Unexpected::Unsigned(found), expected }
            && found == c as u32 as u64 && expected@ == "an ASCII-encoded hex digit"@
    }
}

impl IntoDeError for crate::hex::DecodeError {
    open spec fn describes(&self, r: DeError) -> bool {
        describes_invalid_char(self.invalid, r)
    }

    fn into_de_error(self) -> (r: DeError) {
        let mut m: Vec<char> = Vec::new();
        push_str_chars(&mut m, "an ASCII-encoded hex digit");
        let expected = chars_to_string(&m);
        let u = self.invalid as u32;
        if u < 128 {
            DeError::InvalidValue { unexpected: Unexpected::Chr(self.invalid), expected }
        } else {
            DeError::InvalidValue { unexpected: Unexpected::Unsigned(u as u64), expected }
        }
    }
}

/// A deserialization failure on the way out of the bridge: either an error
/// the framework already produced, leftover input after a complete value, or
/// a parse failure from the binary format.
pub enum DecodeError<E> {
    /// An error already in the framework's vocabulary.
    Other(E),
    /// The input continued after a structurally complete value.
    Unconsumed,
    /// The binary format rejected the value.
    Parse(ParseError),
}

/// Whether `e` is the error reporting input left over after a structurally
/// complete value.
pub open spec fn is_unconsumed_error(e: DeError) -> bool {
    e matches DeError::Custom(m) && m@ == "got more bytes than expected"@
}

/// Whether `e` is an error the native-decode stage can produce: leftover
/// input, or the translation of some parse failure.
pub open spec fn is_native_decode_error(e: DeError) -> bool {
    is_unconsumed_error(e) || exists|p: ParseError| is_consensus_serde_error(p, e)
}

impl DecodeError<DeError> {
    /// Collapses this into the framework's error: a pre-built error passes
    /// through unchanged, leftover input becomes the "got more bytes than
    /// expected" message, and a parse failure is translated with its payload.
    pub fn unify(self) -> (r: DeError)
        ensures
            self matches DecodeError::Other(e) ==> r == e,
            self is Unconsumed ==> (r matches DeError::Custom(m) && m@ == "got more bytes than expected"@),
            self matches DecodeError::Parse(p) ==> is_consensus_serde_error(p, r),
    {
        match self {
            DecodeError::Other(error) => error,
            DecodeError::Unconsumed => {
                let mut m: Vec<char> = Vec::new();
                push_str_chars(&mut m, "got more bytes than expected");
                DeError::Custom(chars_to_string(&m))
            },
            DecodeError::Parse(e) => consensus_error_into_serde(e),
        }
    }
}

impl<E: IntoDeError> IntoDeError for DecodeError<E> {
    open spec fn describes(&self, r: DeError) -> bool {
        match self {
            DecodeError::Other(e) => e.describes(r),
            DecodeError::Unconsumed => r matches DeError::Custom(m) && m@ == "got more bytes than expected"@,
            DecodeError::Parse(p) => is_consensus_serde_error(*p, r),
        }
    }

    fn into_de_error(self) -> (r: DeError) {
        match self {
            DecodeError::Other(error) => error.into_de_error(),
            DecodeError::Unconsumed => {
                let mut m: Vec<char> = Vec::new();
                push_str_chars(&mut m, "got more bytes than expected");
                DeError::Custom(chars_to_string(&m))
            },
            DecodeError::Parse(e) => consensus_error_into_serde(e),
        }
    }
}

} // verus!
