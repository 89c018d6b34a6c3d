//! Hex encoding strategy: a buffered byte-to-text encoder and a lazy
//! text-to-byte decoder, parameterized by letter case.
//!
//! Each byte becomes exactly two hex digits; the encoder buffers up to
//! [`HEX_BUF_SIZE`] characters and flushes the buffer to the sink whenever the
//! next byte would not fit, so a byte's two digits are never split across a
//! flush. The decoder accepts both letter cases, yields one byte per two
//! characters, and stops at the first invalid character.

use vstd::prelude::*;
use vstd::string::*;

use crate::text::{ErrorTrackingWriter, TextError};

verus! {

/// Marker trait for the letter case used by the hex encoder.
pub trait Case {
    /// Whether this case renders digits ten to fifteen as upper-case letters.
    spec fn spec_upper() -> bool;

    /// Runtime view of [`Case::spec_upper`].
    fn upper() -> (b: bool)
        ensures
            b == Self::spec_upper(),
    ;
}

/// Marker for lower-case hex encoding.
pub struct Lower;

/// Marker for upper-case hex encoding.
pub struct Upper;

impl Case for Lower {
    open spec fn spec_upper() -> bool {
        false
    }

    fn upper() -> (b: bool) {
        false
    }
}

impl Case for Upper {
    open spec fn spec_upper() -> bool {
        true
    }

    fn upper() -> (b: bool) {
        true
    }
}

/// Hex-encoding strategy marker, selecting the letter case at the type level.
#[verifier::reject_recursive_types(C)]
pub struct Hex<C: Case>(pub core::marker::PhantomData<C>);

impl<C: Case> Default for Hex<C> {
    fn default() -> (r: Self)
        ensures
            r == Hex::<C>(core::marker::PhantomData),
    {
        Hex(core::marker::PhantomData)
    }
}

/// The character for hex digit `n` (`n < 16`) in the given case.
pub open spec fn nibble_char(n: u8, upper: bool) -> char {
    if n < 10 {
        ((48 + n) as u8) as char
    } else if upper {
        ((55 + n) as u8) as char
    } else {
        ((87 + n) as u8) as char
    }
}

/// The value of a hex digit character, accepting both cases.
pub open spec fn nibble_value(c: char) -> Option<u8> {
    let u = c as u32;
    if 48 <= u && u <= 57 {
        Some((u - 48) as u8)
    } else if 97 <= u && u <= 102 {
        Some((u - 97 + 10) as u8)
    } else if 65 <= u && u <= 70 {
        Some((u - 65 + 10) as u8)
    } else {
        None
    }
}

/// The two characters encoding one byte.
pub open spec fn byte_hex(b: u8, upper: bool) -> Seq<char> {
    seq![nibble_char(b / 16, upper), nibble_char(b % 16, upper)]
}

/// The hex rendering of a byte sequence: two characters per byte, in order.
pub open spec fn bytes_hex(bs: Seq<u8>, upper: bool) -> Seq<char>
    decreases bs.len(),
{
    if bs.len() == 0 {
        Seq::empty()
    } else {
        byte_hex(bs[0], upper) + bytes_hex(bs.drop_first(), upper)
    }
}

/// The bytes a character sequence decodes to, or the first invalid character.
/// A trailing character without a partner is ignored; the decoder rules out
/// odd lengths before this is ever consulted.
pub open spec fn hex_decode(s: Seq<char>) -> Result<Seq<u8>, char>
    decreases s.len(),
{
    if s.len() < 2 {
        Ok(Seq::empty())
    } else if nibble_value(s[0]) is None {
        Err(s[0])
    } else if nibble_value(s[1]) is None {
        Err(s[1])
    } else {
        match hex_decode(s.skip(2)) {
            Ok(rest) => Ok(
                seq![((nibble_value(s[0]).unwrap() * 16 + nibble_value(s[1]).unwrap()) as u8)]
                    + rest,
            ),
            Err(c) => Err(c),
        }
    }
}

/// Executable form of [`nibble_char`].
pub fn nibble_to_char(n: u8, upper: bool) -> (c: char)
    requires
        n < 16,
    ensures
        c == nibble_char(n, upper),
{
    let code: u8 = if n < 10 {
        48 + n
    } else if upper {
        55 + n
    } else {
        87 + n
    };
    code as char
}

/// Executable form of [`nibble_value`].
pub fn char_to_nibble(c: char) -> (r: Option<u8>)
    ensures
        r == nibble_value(c),
{
    let u = c as u32;
    if 48 <= u && u <= 57 {
        Some((u - 48) as u8)
    } else if 97 <= u && u <= 102 {
        Some((u - 97 + 10) as u8)
    } else if 65 <= u && u <= 70 {
        Some((u - 65 + 10) as u8)
    } else {
        None
    }
}

/// The number of characters the encoder may buffer before it must flush.
pub const HEX_BUF_SIZE: usize = 512;

/// The contract an encoding strategy's per-call encoder must satisfy:
/// [`EncodeBytes::encode_chunk`] consumes a byte slice of any length,
/// buffering its text rendering and flushing the buffer to the sink whenever
/// it would overflow; [`EncodeBytes::flush`] empties the buffer at the end.
///
/// The buffer always holds an even number of characters — whole byte pairs —
/// so a byte's two digits are never split across a flush: every flush hands
/// the sink the (even-length) buffer contents in one piece.
pub trait EncodeBytes: Sized {
    /// The characters rendered but not yet handed to a sink.
    spec fn buffered(&self) -> Seq<char>;

    /// Whether this encoder renders upper-case digits.
    spec fn is_upper(&self) -> bool;

    /// The encoder's internal consistency.
    spec fn wf(&self) -> bool;

    /// Renders `bytes` after anything already buffered, flushing to `writer`
    /// as often as needed. On success the sink text plus the remaining buffer
    /// grow by exactly the hex rendering of `bytes`; on failure the sink has
    /// recorded the error.
    fn encode_chunk(&mut self, writer: &mut ErrorTrackingWriter, bytes: &[u8]) -> (r: Result<
        (),
        TextError,
    >)
        requires
            old(self).wf(),
            !old(writer).had_error(),
            old(writer).sink_ready(),
        ensures
            final(self).wf(),
            final(self).is_upper() == old(self).is_upper(),
            final(writer).capacity() == old(writer).capacity(),
            r is Ok ==> !final(writer).had_error() && final(writer).sink_ready() && final(writer).text() + final(self).buffered() == old(writer).text() + old(self).buffered()
                + bytes_hex(bytes@, old(self).is_upper()),
            old(writer).capacity() is None ==> r is Ok,
            r is Err ==> final(writer).had_error(),
            final(self).buffered().len() % 2 == 0,
    ;

    /// Empties the buffer into `writer`. Must also be called once at the end
    /// of an encode with nothing buffered, so an empty input still produces
    /// (empty) output.
    fn flush(&mut self, writer: &mut ErrorTrackingWriter) -> (r: Result<(), TextError>)
        requires
            old(self).wf(),
            !old(writer).had_error(),
            old(writer).sink_ready(),
        ensures
            final(self).wf(),
            final(self).is_upper() == old(self).is_upper(),
            final(writer).capacity() == old(writer).capacity(),
            old(writer).capacity() is None ==> r is Ok,
            r is Ok ==> !final(writer).had_error() && final(writer).sink_ready() && final(writer).text() == old(writer).text() + old(self).buffered() && final(self).buffered()
                == Seq::<char>::empty(),
            r is Err ==> final(writer).had_error() && final(writer).text() == old(writer).text()
                && *final(self) == *old(self),
            final(self).buffered().len() % 2 == 0,
    ;
}

/// Buffered hex byte encoder, the [`EncodeBytes`] instance the [`Hex`]
/// strategy produces.
pub struct Encoder {
    buf: Vec<char>,
    upper: bool,
}

impl Encoder {
    pub fn new(upper: bool) -> (e: Encoder)
        ensures
            e.wf(),
            e.buffered() == Seq::<char>::empty(),
            e.is_upper() == upper,
    {
        Encoder { buf: Vec::new(), upper }
    }
}

impl EncodeBytes for Encoder {
    closed spec fn buffered(&self) -> Seq<char> {
        self.buf@
    }

    closed spec fn is_upper(&self) -> bool {
        self.upper
    }

    closed spec fn wf(&self) -> bool {
        self.buf@.len() <= HEX_BUF_SIZE && self.buf@.len() % 2 == 0
    }

    fn encode_chunk(&mut self, writer: &mut ErrorTrackingWriter, bytes: &[u8]) -> (r: Result<
        (),
        TextError,
    >) {
        let mut i: usize = 0;
        while i < bytes.len()
            invariant
                i <= bytes@.len(),
                self.wf(),
                self.upper == old(self).upper,
                !writer.had_error(),
                writer.sink_ready(),
                writer.capacity() == old(writer).capacity(),
                writer.text() + self.buffered() == old(writer).text() + old(self).buffered()
                    + bytes_hex(bytes@.subrange(0, i as int), old(self).is_upper()),
            decreases bytes@.len() - i,
        {
            if self.buf.len() + 2 > HEX_BUF_SIZE {
                self.flush(writer)?;
            }
            let ghost t_pre = writer.text();
            let ghost b_pre = self.buffered();
            proof {
                assert(t_pre + b_pre =~= old(writer).text() + old(self).buffered() + bytes_hex(
                    bytes@.subrange(0, i as int),
                    old(self).is_upper(),
                ));
            }
            let b = bytes[i];
            self.buf.push(nibble_to_char(b / 16, self.upper));
            self.buf.push(nibble_to_char(b % 16, self.upper));
            proof {
                lemma_bytes_hex_snoc(
                    bytes@.subrange(0, i as int),
                    bytes@[i as int],
                    old(self).is_upper(),
                );
                assert(bytes@.subrange(0, i as int).push(bytes@[i as int]) =~= bytes@.subrange(
                    0,
                    i as int + 1,
                ));
                assert(self.buffered() =~= b_pre + byte_hex(bytes@[i as int], old(self).is_upper()));
                assert(writer.text() + self.buffered() =~= (t_pre + b_pre) + byte_hex(
                    bytes@[i as int],
                    old(self).is_upper(),
                ));
                assert(writer.text() + self.buffered() =~= old(writer).text() + old(
                    self,
                ).buffered() + bytes_hex(bytes@.subrange(0, i as int + 1), old(self).is_upper()));
            }
            i += 1;
        }
        proof {
            assert(bytes@.subrange(0, bytes@.len() as int) =~= bytes@);
        }
        Ok(())
    }

    fn flush(&mut self, writer: &mut ErrorTrackingWriter) -> (r: Result<(), TextError>) {
        match writer.write_text(self.buf.as_slice()) {
            Ok(()) => {
                self.buf.clear();
                Ok(())
            },
            Err(e) => Err(e),
        }
    }
}

/// Error returned when a hex string decoder cannot be created: the input
/// length was odd. Carries that length.
#[derive(Debug, Clone, PartialEq, Eq, Structural)]
pub struct DecodeInitError {
    /// The length, in characters, of the rejected input.
    pub length: usize,
}

impl DecodeInitError {
    /// The length of the string that could not be decoded.
    pub fn length(&self) -> (n: usize)
        ensures
            n == self.length,
    {
        self.length
    }
}

/// Error returned when the input contains a character that is not a hex
/// digit. Carries that character, unnormalized.
#[derive(Debug, Clone, PartialEq, Eq, Structural)]
pub struct DecodeError {
    /// The offending character.
    pub invalid: char,
}

impl DecodeError {
    /// The first character that was not a hex digit.
    pub fn invalid_char(&self) -> (c: char)
        ensures
            c == self.invalid,
    {
        self.invalid
    }
}

/// Lazy hex decoder: one byte per call, stopping at the first error.
pub struct Decoder {
    chars: Vec<char>,
    pos: usize,
    failed: bool,
}

impl Decoder {
    /// The characters being decoded.
    pub closed spec fn input(&self) -> Seq<char> {
        self.chars@
    }

    /// How many characters have been consumed.
    pub closed spec fn position(&self) -> int {
        self.pos as int
    }

    /// Whether an invalid character has stopped the decoder for good.
    pub closed spec fn has_failed(&self) -> bool {
        self.failed
    }

    pub closed spec fn wf(&self) -> bool {
        self.pos <= self.chars@.len() && self.pos % 2 == 0 && self.chars@.len() % 2 == 0
    }

    /// Builds a decoder over `s`, rejecting odd-length input up front with an
    /// error carrying the exact length; nothing is partially decoded.
    pub fn new(s: &str) -> (r: Result<Decoder, DecodeInitError>)
        ensures
            s@.len() % 2 == 0 ==> (r matches Ok(d) && d.wf() && d.input() == s@ && d.position()
                == 0 && !d.has_failed()),
            s@.len() % 2 != 0 ==> (r matches Err(e) && e.length == s@.len()),
    {
        let n = s.unicode_len();
        if n % 2 != 0 {
            return Err(DecodeInitError { length: n });
        }
        let mut chars: Vec<char> = Vec::new();
        let mut i: usize = 0;
        while i < n
            invariant
                i <= n,
                n == s@.len(),
                chars@ == s@.subrange(0, i as int),
            decreases n - i,
        {
            chars.push(s.get_char(i));
            proof {
                assert(s@.subrange(0, i as int).push(s@[i as int]) =~= s@.subrange(
                    0,
                    i as int + 1,
                ));
            }
            i += 1;
        }
        proof {
            assert(s@.subrange(0, s@.len() as int) =~= s@);
        }
        Ok(Decoder { chars, pos: 0, failed: false })
    }

    /// Decodes the next byte: two characters, high digit first. Reports the
    /// first invalid character (never the second of a bad pair first), and
    /// after reporting one, or exhausting the input, yields nothing further.
    pub fn next(&mut self) -> (r: Option<Result<u8, DecodeError>>)
        requires
            old(self).wf(),
        ensures
            final(self).wf(),
            final(self).input() == old(self).input(),
            old(self).has_failed() || old(self).position() >= old(self).input().len() ==> r
                is None && *final(self) == *old(self),
            !old(self).has_failed() && old(self).position() < old(self).input().len() ==> {
                let c0 = old(self).input()[old(self).position()];
                let c1 = old(self).input()[old(self).position() + 1];
                if nibble_value(c0) is None {
                    r == Some(Err::<u8, DecodeError>(DecodeError { invalid: c0 })) && final(self).has_failed() && final(self).position() == old(self).position()
                } else if nibble_value(c1) is None {
                    r == Some(Err::<u8, DecodeError>(DecodeError { invalid: c1 })) && final(self).has_failed() && final(self).position() == old(self).position()
                } else {
                    r == Some(
                        Ok::<u8, DecodeError>(
                            (nibble_value(c0).unwrap() * 16 + nibble_value(c1).unwrap()) as u8,
                        ),
                    ) && !final(self).has_failed() && final(self).position() == old(self).position()
                        + 2
                }
            },
    {
        if self.failed || self.pos >= self.chars.len() {
            return None;
        }
        let c0 = self.chars[self.pos];
        let c1 = self.chars[self.pos + 1];
        let v0 = match char_to_nibble(c0) {
            Some(v) => v,
            None => {
                self.failed = true;
                return Some(Err(DecodeError { invalid: c0 }));
            },
        };
        let v1 = match char_to_nibble(c1) {
            Some(v) => v,
            None => {
                self.failed = true;
                return Some(Err(DecodeError { invalid: c1 }));
            },
        };
        self.pos = self.pos + 2;
        Some(Ok(v0 * 16 + v1))
    }

    /// Runs the decoder to the end of the input, collecting the bytes, or
    /// stops at the first invalid character and reports it.
    pub fn decode_to_end(&mut self) -> (r: Result<Vec<u8>, DecodeError>)
        requires
            old(self).wf(),
            !old(self).has_failed(),
        ensures
            final(self).wf(),
            final(self).input() == old(self).input(),
            match hex_decode(old(self).input().skip(old(self).position())) {
                Ok(bs) => r matches Ok(v) && v@ == bs,
                Err(c) => r matches Err(e) && e.invalid == c,
            },
    {
        let mut acc: Vec<u8> = Vec::new();
        let ghost start_rest = old(self).input().skip(old(self).position());
        loop
            invariant
                self.wf(),
                !self.has_failed(),
                self.input() == old(self).input(),
                old(self).position() <= self.position(),
                start_rest == old(self).input().skip(old(self).position()),
                match hex_decode(self.input().skip(self.position())) {
                    Ok(rest) => hex_decode(start_rest) == Ok::<Seq<u8>, char>(acc@ + rest),
                    Err(c) => hex_decode(start_rest) == Err::<Seq<u8>, char>(c),
                },
            decreases self.input().len() - self.position(),
        {
            let ghost pre_pos = self.position();
            let ghost rem = self.input().skip(pre_pos);
            match self.next() {
                None => {
                    proof {
                        assert(rem.len() < 2);
                        assert(acc@ + hex_decode(rem).unwrap() =~= acc@);
                    }
                    return Ok(acc);
                },
                Some(Ok(b)) => {
                    let ghost acc_before = acc@;
                    acc.push(b);
                    proof {
                        assert(rem.skip(2) =~= self.input().skip(self.position()));
                        match hex_decode(self.input().skip(self.position())) {
                            Ok(rest2) => {
                                assert(hex_decode(rem) == Ok::<Seq<u8>, char>(
                                    seq![b] + rest2,
                                ));
                                assert(acc_before + (seq![b] + rest2) =~= acc@ + rest2);
                            },
                            Err(_) => {},
                        }
                    }
                },
                Some(Err(e)) => {
                    return Err(e);
                },
            }
        }
    }
}

/// The hex rendering of a concatenation is the concatenation of the
/// renderings: the output never depends on how the input was chunked.
pub proof fn lemma_bytes_hex_concat(a: Seq<u8>, b: Seq<u8>, upper: bool)
    ensures
        bytes_hex(a + b, upper) == bytes_hex(a, upper) + bytes_hex(b, upper),
    decreases a.len(),
{
    if a.len() == 0 {
        assert(a + b =~= b);
        assert(bytes_hex(a, upper) + bytes_hex(b, upper) =~= bytes_hex(b, upper));
    } else {
        lemma_bytes_hex_concat(a.drop_first(), b, upper);
        assert((a + b).drop_first() =~= a.drop_first() + b);
        assert(byte_hex((a + b)[0], upper) + (bytes_hex(a.drop_first(), upper) + bytes_hex(
            b,
            upper,
        )) =~= (byte_hex(a[0], upper) + bytes_hex(a.drop_first(), upper)) + bytes_hex(b, upper));
    }
}

/// Chunk independence in general: for any partition of a byte sequence into
/// chunks, concatenating the hex renderings of the chunks yields the hex
/// rendering of the whole — the output never depends on how many chunks the
/// input arrived in, or where their boundaries fell.
pub proof fn lemma_bytes_hex_flatten(parts: Seq<Seq<u8>>, upper: bool)
    ensures
        bytes_hex(parts.flatten(), upper) == parts.map_values(
            |p: Seq<u8>| bytes_hex(p, upper),
        ).flatten(),
    decreases parts.len(),
{
    let f = |p: Seq<u8>| bytes_hex(p, upper);
    if parts.len() == 0 {
        assert(parts.map_values(f).len() == 0);
    } else {
        lemma_bytes_hex_flatten(parts.drop_first(), upper);
        lemma_bytes_hex_concat(parts.first(), parts.drop_first().flatten(), upper);
        assert(parts.map_values(f).drop_first() =~= parts.drop_first().map_values(f));
        assert(parts.map_values(f).first() == f(parts.first()));
        assert(bytes_hex(parts.flatten(), upper) =~= parts.map_values(f).flatten());
    }
}

/// Appending one byte appends exactly its two digits.
pub proof fn lemma_bytes_hex_snoc(bs: Seq<u8>, b: u8, upper: bool)
    ensures
        bytes_hex(bs.push(b), upper) == bytes_hex(bs, upper) + byte_hex(b, upper),
{
    assert(bs.push(b) =~= bs + seq![b]);
    lemma_bytes_hex_concat(bs, seq![b], upper);
    assert(seq![b].drop_first() =~= Seq::<u8>::empty());
    assert(byte_hex(b, upper) + bytes_hex(seq![b].drop_first(), upper) =~= byte_hex(b, upper));
}

/// Hex output is two characters per byte.
pub proof fn lemma_bytes_hex_len(bs: Seq<u8>, upper: bool)
    ensures
        bytes_hex(bs, upper).len() == 2 * bs.len(),
    decreases bs.len(),
{
    if bs.len() > 0 {
        lemma_bytes_hex_len(bs.drop_first(), upper);
    }
}

/// A digit character decodes back to the digit it encodes, in either case.
pub proof fn lemma_nibble_round_trip(n: u8, upper: bool)
    requires
        n < 16,
    ensures
        nibble_value(nibble_char(n, upper)) == Some(n),
{
}

/// Round trip: decoding the hex rendering of any byte sequence, in either
/// case, yields exactly those bytes. In particular the decoder accepts the
/// output of both the upper-case and the lower-case strategy.
pub proof fn lemma_hex_round_trip(bs: Seq<u8>, upper: bool)
    ensures
        hex_decode(bytes_hex(bs, upper)) == Ok::<Seq<u8>, char>(bs),
    decreases bs.len(),
{
    lemma_bytes_hex_len(bs, upper);
    if bs.len() == 0 {
        assert(bytes_hex(bs, upper).len() == 0);
        assert(bs =~= Seq::<u8>::empty());
    } else {
        lemma_hex_round_trip(bs.drop_first(), upper);
        let s = bytes_hex(bs, upper);
        let b = bs[0];
        lemma_nibble_round_trip(b / 16, upper);
        lemma_nibble_round_trip(b % 16, upper);
        assert(s[0] == nibble_char(b / 16, upper));
        assert(s[1] == nibble_char(b % 16, upper));
        assert(s.skip(2) =~= bytes_hex(bs.drop_first(), upper));
        assert((b / 16) * 16 + b % 16 == b) by {
            assert(b / 16 * 16 + b % 16 == b) by (nonlinear_arith);
        };
        assert(seq![b] + bs.drop_first() =~= bs);
    }
}

/// Maps lower-case letters to upper case and leaves other characters alone.
pub open spec fn upcase_char(c: char) -> char {
    if 97 <= c as u32 && c as u32 <= 122 {
        (((c as u32) - 32) as u8) as char
    } else {
        c
    }
}

/// Case invariant: the upper-case rendering of a byte sequence is the
/// character-wise upper-casing of the lower-case rendering, so the two
/// strategies agree under case folding.
pub proof fn lemma_hex_case_fold(bs: Seq<u8>)
    ensures
        bytes_hex(bs, true) == bytes_hex(bs, false).map_values(|c: char| upcase_char(c)),
    decreases bs.len(),
{
    if bs.len() == 0 {
        assert(bytes_hex(bs, true) =~= bytes_hex(bs, false).map_values(
            |c: char| upcase_char(c),
        ));
    } else {
        lemma_hex_case_fold(bs.drop_first());
        assert(upcase_char(nibble_char(bs[0] / 16, false)) == nibble_char(bs[0] / 16, true));
        assert(upcase_char(nibble_char(bs[0] % 16, false)) == nibble_char(bs[0] % 16, true));
        assert(bytes_hex(bs, true) =~= bytes_hex(bs, false).map_values(
            |c: char| upcase_char(c),
        ));
    }
}

} // verus!
