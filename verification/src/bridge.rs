//! The dispatch layer: adapters that let a native binary encoder write into a
//! text sink or a byte-sequence sink, and the two public operations that
//! serialize and deserialize a value through them.
//!
//! A native encoder only understands a generic byte writer and a generic
//! write failure; the adapters translate. [`IoWrapper`] renders written bytes
//! as buffered hex text, [`BinWriter`] collects them as a byte sequence, and
//! [`ByteReader`] feeds decoded bytes back to a native decoder. The
//! consistency requirement — a write failure reported upward if and only if
//! the sink recorded one — is stated in the contracts, so a verified caller
//! cannot hit the mismatch at all.

use vstd::prelude::*;

use crate::error::{DeError, DecodeError, IntoDeError, ParseError, describes_invalid_char, is_consensus_serde_error, is_native_decode_error};
use crate::hex::{bytes_hex, hex_decode, Case, Decoder, DecodeInitError, EncodeBytes, Encoder, Hex};
use crate::text::{ErrorTrackingWriter, TextBuffer, TextError};

verus! {

/// Generic write failure, carrying no detail: the real cause stays recorded
/// in the sink, to be recovered by the caller after the encoder returns.
#[derive(Debug, Clone, Copy, PartialEq, Eq, Structural)]
pub struct WriteError;

/// A byte writer a native encoder can stream into.
///
/// `accepted` is what the writer has taken so far; `broken` records that a
/// write has failed; `mode` is the writer's fixed configuration (for the text
/// adapter, its letter case) and never changes; an `infallible` writer never
/// fails.
pub trait ByteWrite: Sized {
    /// The writer's internal consistency.
    spec fn inv(&self) -> bool;

    /// The bytes accepted so far.
    spec fn accepted(&self) -> Seq<u8>;

    /// Whether a write has failed.
    spec fn broken(&self) -> bool;

    /// Fixed configuration, preserved by every write.
    spec fn mode(&self) -> bool;

    /// Whether this writer can never fail.
    spec fn infallible(&self) -> bool;

    /// Takes the whole of `bytes`, or fails and records it. On failure the
    /// sink stands at some prefix of `bytes`: nothing out of order, nothing
    /// past the first failure.
    fn write(&mut self, bytes: &[u8]) -> (r: Result<usize, WriteError>)
        requires
            old(self).inv(),
            !old(self).broken(),
        ensures
            final(self).mode() == old(self).mode(),
            final(self).infallible() == old(self).infallible(),
            r matches Ok(n) ==> n == bytes@.len() && final(self).inv() && !final(self).broken()
                && final(self).accepted() == old(self).accepted() + bytes@,
            r is Err ==> final(self).broken() && (exists|i: int|
                0 <= i <= bytes@.len() && final(self).accepted() == old(self).accepted()
                    + bytes@.subrange(0, i)),
            old(self).infallible() ==> r is Ok,
    ;

    /// Accepted for symmetry with byte-stream interfaces; the adapters have
    /// nothing to flush here and do nothing.
    fn flush(&mut self) -> (r: Result<(), WriteError>)
        ensures
            r is Ok,
            *final(self) == *old(self),
    ;
}

/// A value that can encode itself into the native binary format by streaming
/// bytes into any [`ByteWrite`].
///
/// The contract fixes the error discipline: an encoder may report failure
/// only when the writer has recorded one, and must succeed when the writer
/// cannot fail — so a failure is never silently invented, swallowed, or
/// left unexplained.
pub trait Encodable {
    /// The byte stream this value encodes to.
    spec fn spec_encoding(&self) -> Seq<u8>;

    /// Encodes `self` into `writer`, returning the number of bytes written.
    /// On success the writer has accepted exactly [`Encodable::spec_encoding`].
    fn consensus_encode<W: ByteWrite>(&self, writer: &mut W) -> (r: Result<usize, WriteError>)
        requires
            old(writer).inv(),
            !old(writer).broken(),
        ensures
            final(writer).mode() == old(writer).mode(),
            final(writer).infallible() == old(writer).infallible(),
            r matches Ok(n) ==> n == self.spec_encoding().len() && final(writer).inv()
                && !final(writer).broken() && final(writer).accepted() == old(writer).accepted()
                + self.spec_encoding(),
            r is Err ==> final(writer).broken(),
            old(writer).infallible() ==> r is Ok,
    ;
}

/// A value that can decode itself from the native binary format by reading
/// bytes from a [`ByteReader`]. A decoder consumes a prefix of the input and
/// never alters it.
pub trait Decodable: Sized {
    /// Decodes one value from `reader`.
    fn consensus_decode(reader: &mut ByteReader) -> (r: Result<Self, ParseError>)
        requires
            old(reader).wf(),
        ensures
            final(reader).wf(),
            final(reader).input() == old(reader).input(),
            old(reader).position() <= final(reader).position(),
    ;
}

/// Reads bytes, in order, out of a decoded byte sequence.
pub struct ByteReader {
    bytes: Vec<u8>,
    pos: usize,
}

impl ByteReader {
    /// The whole input.
    pub closed spec fn input(&self) -> Seq<u8> {
        self.bytes@
    }

    /// How many bytes have been read.
    pub closed spec fn position(&self) -> int {
        self.pos as int
    }

    pub closed spec fn wf(&self) -> bool {
        self.pos <= self.bytes@.len()
    }

    pub fn new(bytes: Vec<u8>) -> (r: ByteReader)
        ensures
            r.wf(),
            r.input() == bytes@,
            r.position() == 0,
    {
        ByteReader { bytes, pos: 0 }
    }

    /// The next byte, if any is left.
    pub fn read_byte(&mut self) -> (r: Option<u8>)
        requires
            old(self).wf(),
        ensures
            final(self).wf(),
            final(self).input() == old(self).input(),
            old(self).position() < old(self).input().len() ==> r == Some(
                old(self).input()[old(self).position()],
            ) && final(self).position() == old(self).position() + 1,
            old(self).position() >= old(self).input().len() ==> r is None && *final(self) == *old(
                self,
            ),
    {
        if self.pos < self.bytes.len() {
            let b = self.bytes[self.pos];
            self.pos = self.pos + 1;
            Some(b)
        } else {
            None
        }
    }

    /// Whether any input is left unread.
    pub fn has_leftover(&self) -> (b: bool)
        requires
            self.wf(),
        ensures
            b == (self.position() < self.input().len()),
    {
        self.pos < self.bytes.len()
    }
}

/// Byte-sequence sink for binary serialization targets: every byte becomes
/// one sequence element. With a capacity limit it models a target whose
/// element writes can fail; the first failing element stops it for good.
#[derive(Debug)]
pub struct BinWriter {
    out: Vec<u8>,
    cap: Option<usize>,
    failed: bool,
}

impl BinWriter {
    /// The elements written so far.
    pub closed spec fn bytes(&self) -> Seq<u8> {
        self.out@
    }

    /// The capacity limit this sink was built with, if any.
    pub closed spec fn capacity(&self) -> Option<usize> {
        self.cap
    }

    pub fn new() -> (w: BinWriter)
        ensures
            w.bytes() == Seq::<u8>::empty(),
            w.capacity() is None,
            !w.broken(),
            w.inv(),
            w.infallible(),
    {
        BinWriter { out: Vec::new(), cap: None, failed: false }
    }

    pub fn with_limit(cap: usize) -> (w: BinWriter)
        ensures
            w.bytes() == Seq::<u8>::empty(),
            w.capacity() == Some(cap),
            !w.broken(),
            w.inv(),
    {
        BinWriter { out: Vec::new(), cap: Some(cap), failed: false }
    }

    /// Hands the collected sequence back.
    pub fn into_bytes(self) -> (r: Vec<u8>)
        ensures
            r@ == self.bytes(),
    {
        self.out
    }

    /// Whether an element write has failed.
    pub fn has_failed(&self) -> (b: bool)
        ensures
            b == self.broken(),
    {
        self.failed
    }

    /// Writes one element per byte of `buf`, in input order, stopping at the
    /// first element the sink rejects: on failure exactly the bytes before
    /// the limit were accepted, and nothing past it.
    pub fn write_all(&mut self, buf: &[u8]) -> (r: Result<(), WriteError>)
        requires
            old(self).inv(),
            !old(self).broken(),
        ensures
            final(self).inv(),
            final(self).capacity() == old(self).capacity(),
            old(self).capacity() is None ==> r is Ok,
            r is Ok ==> !final(self).broken() && final(self).bytes() == old(self).bytes() + buf@,
            old(self).capacity() matches Some(c) ==> (r is Ok ==> old(self).bytes().len()
                + buf@.len() <= c),
            r is Err ==> final(self).broken() && (old(self).capacity() matches Some(c)
                && old(self).bytes().len() + buf@.len() > c && final(self).bytes() == old(
                self,
            ).bytes() + buf@.subrange(
                0,
                if c >= old(self).bytes().len() {
                    c - old(self).bytes().len()
                } else {
                    0
                },
            )),
    {
        let mut i: usize = 0;
        while i < buf.len()
            invariant
                i <= buf@.len(),
                !self.failed,
                self.cap == old(self).cap,
                self.out@ == old(self).out@ + buf@.subrange(0, i as int),
                old(self).cap matches Some(c) ==> old(self).out@.len() + i <= c,
            decreases buf@.len() - i,
        {
            match self.cap {
                Some(c) => {
                    if self.out.len() >= c {
                        self.failed = true;
                        return Err(WriteError);
                    }
                },
                None => {},
            }
            self.out.push(buf[i]);
            proof {
                assert(old(self).out@ + buf@.subrange(0, i as int + 1) =~= (old(self).out@
                    + buf@.subrange(0, i as int)).push(buf@[i as int]));
            }
            i += 1;
        }
        proof {
            assert(buf@.subrange(0, buf@.len() as int) =~= buf@);
        }
        Ok(())
    }
}

impl ByteWrite for BinWriter {
    closed spec fn inv(&self) -> bool {
        match self.cap {
            Some(c) => self.out@.len() <= c,
            None => true,
        }
    }

    closed spec fn accepted(&self) -> Seq<u8> {
        self.out@
    }

    closed spec fn broken(&self) -> bool {
        self.failed
    }

    closed spec fn mode(&self) -> bool {
        true
    }

    closed spec fn infallible(&self) -> bool {
        self.cap is None
    }

    fn write(&mut self, bytes: &[u8]) -> (r: Result<usize, WriteError>) {
        match self.write_all(bytes) {
            Ok(()) => Ok(bytes.len()),
            Err(e) => Err(e),
        }
    }

    fn flush(&mut self) -> (r: Result<(), WriteError>) {
        Ok(())
    }
}

/// Byte writer that renders every byte as hex text into a character sink,
/// through the buffered [`Encoder`] and an [`ErrorTrackingWriter`].
///
/// The invariant ties the sink text plus the encoder's buffer to the hex
/// rendering of exactly the bytes fed in so far, so after the final flush the
/// sink holds the full rendering.
pub struct IoWrapper {
    writer: ErrorTrackingWriter,
    encoder: Encoder,
    fed: Ghost<Seq<u8>>,
}

impl IoWrapper {
    /// The characters the sink has accepted.
    pub closed spec fn text(&self) -> Seq<char> {
        self.writer.text()
    }

    /// The bytes fed in so far.
    pub closed spec fn fed_bytes(&self) -> Seq<u8> {
        self.fed@
    }

    /// Whether the hex rendering is upper-case.
    pub closed spec fn is_upper(&self) -> bool {
        self.encoder.is_upper()
    }

    /// The sink's capacity limit, if any.
    pub closed spec fn sink_capacity(&self) -> Option<usize> {
        self.writer.capacity()
    }

    /// Whether a sink failure has been recorded.
    pub closed spec fn had_error(&self) -> bool {
        self.writer.had_error()
    }

    pub fn new(writer: TextBuffer, encoder: Encoder) -> (w: IoWrapper)
        requires
            encoder.wf(),
            encoder.buffered() == Seq::<char>::empty(),
            writer.ready(),
            writer.text() == Seq::<char>::empty(),
        ensures
            w.inv(),
            !w.broken(),
            w.fed_bytes() == Seq::<u8>::empty(),
            w.is_upper() == encoder.is_upper(),
            w.sink_capacity() == writer.capacity(),
            w.infallible() == (writer.capacity() is None),
    {
        let w = IoWrapper {
            writer: ErrorTrackingWriter::new(writer),
            encoder,
            fed: Ghost(Seq::empty()),
        };
        proof {
            assert(w.writer.text() + w.encoder.buffered() =~= bytes_hex(
                w.fed@,
                w.encoder.is_upper(),
            ));
        }
        w
    }

    /// Empties the encoder's buffer into the sink: afterwards the sink text
    /// is the complete hex rendering of everything fed in. Must be called
    /// once at the end of an encode, even when nothing was fed.
    pub fn actually_flush(&mut self) -> (r: Result<(), TextError>)
        requires
            old(self).inv(),
            !old(self).broken(),
        ensures
            final(self).is_upper() == old(self).is_upper(),
            final(self).sink_capacity() == old(self).sink_capacity(),
            old(self).sink_capacity() is None ==> r is Ok,
            r is Ok ==> !final(self).had_error() && final(self).fed_bytes() == old(
                self,
            ).fed_bytes() && final(self).text() == bytes_hex(
                old(self).fed_bytes(),
                old(self).is_upper(),
            ),
            r is Err ==> final(self).had_error(),
    {
        match self.encoder.flush(&mut self.writer) {
            Ok(()) => {
                proof {
                    assert(self.writer.text() =~= bytes_hex(self.fed@, self.encoder.is_upper()));
                }
                Ok(())
            },
            Err(e) => Err(e),
        }
    }

    /// Hands the text sink back.
    pub fn into_output(self) -> (t: TextBuffer)
        ensures
            t.text() == self.text(),
            t.capacity() == self.sink_capacity(),
    {
        self.writer.into_inner()
    }
}

impl ByteWrite for IoWrapper {
    closed spec fn inv(&self) -> bool {
        self.encoder.wf() && !self.writer.had_error() && self.writer.sink_ready()
            && self.writer.text() + self.encoder.buffered() == bytes_hex(
            self.fed@,
            self.encoder.is_upper(),
        )
    }

    closed spec fn accepted(&self) -> Seq<u8> {
        self.fed@
    }

    closed spec fn broken(&self) -> bool {
        self.writer.had_error()
    }

    closed spec fn mode(&self) -> bool {
        self.encoder.is_upper()
    }

    closed spec fn infallible(&self) -> bool {
        self.writer.capacity() is None
    }

    fn write(&mut self, bytes: &[u8]) -> (r: Result<usize, WriteError>) {
        let ghost fed_pre = self.fed@;
        match self.encoder.encode_chunk(&mut self.writer, bytes) {
            Ok(()) => {
                self.fed = Ghost(self.fed@ + bytes@);
                proof {
                    crate::hex::lemma_bytes_hex_concat(fed_pre, bytes@, self.encoder.is_upper());
                    assert(self.writer.text() + self.encoder.buffered() =~= bytes_hex(
                        self.fed@,
                        self.encoder.is_upper(),
                    ));
                }
                Ok(bytes.len())
            },
            Err(_) => {
                proof {
                    assert(self.fed@ =~= old(self).fed@ + bytes@.subrange(0, 0));
                }
                Err(WriteError)
            },
        }
    }

    fn flush(&mut self) -> (r: Result<(), WriteError>) {
        // A single real flush happens at the end, via `actually_flush`.
        Ok(())
    }
}

/// Provides a fresh hex encoder per serialization call, fixing the case.
pub trait ByteEncoder {
    /// The letter case the produced encoders render in.
    spec fn spec_upper() -> bool;

    /// A fresh encoder with an empty buffer.
    fn make_encoder() -> (e: Encoder)
        ensures
            e.wf(),
            e.buffered() == Seq::<char>::empty(),
            e.is_upper() == Self::spec_upper(),
    ;
}

impl<C: Case> ByteEncoder for Hex<C> {
    open spec fn spec_upper() -> bool {
        C::spec_upper()
    }

    fn make_encoder() -> (e: Encoder) {
        Encoder::new(C::upper())
    }
}

/// Provides a string-to-byte decoder per deserialization call.
pub trait ByteDecoder {
    /// Builds a decoder over `s`, rejecting an odd-length input with an
    /// error carrying the exact length.
    fn from_str(s: &str) -> (r: Result<Decoder, DecodeInitError>)
        ensures
            s@.len() % 2 == 0 ==> (r matches Ok(d) && d.wf() && d.input() == s@ && d.position()
                == 0 && !d.has_failed()),
            s@.len() % 2 != 0 ==> (r matches Err(e) && e.length == s@.len()),
    ;
}

impl<C: Case> ByteDecoder for Hex<C> {
    fn from_str(s: &str) -> (r: Result<Decoder, DecodeInitError>) {
        Decoder::new(s)
    }
}

/// What a serialization produced: a single string for human-readable
/// targets, a raw byte sequence for binary ones.
#[derive(Debug, Clone, PartialEq, Eq)]
pub enum SerOutput {
    Str(String),
    Bytes(Vec<u8>),
}

/// What a deserialization source handed over: a single string from a
/// human-readable format, a byte sequence from a binary one.
#[derive(Debug, Clone, PartialEq, Eq)]
pub enum DeInput {
    Str(String),
    Bytes(Vec<u8>),
}

/// Entry point tying a value's native encoding to an encoding strategy `E`
/// (such as [`Hex`] with a case marker).
#[verifier::reject_recursive_types(E)]
pub struct With<E>(pub core::marker::PhantomData<E>);

/// Decodes one value from `reader` and checks that nothing is left over,
/// collapsing either failure into the framework's error: a value is returned
/// only with the input fully consumed, and every failure is either the
/// leftover-input error or the translation of a parse failure.
fn decode_and_unify<T: Decodable>(reader: &mut ByteReader) -> (r: Result<T, DeError>)
    requires
        old(reader).wf(),
    ensures
        final(reader).wf(),
        final(reader).input() == old(reader).input(),
        old(reader).position() <= final(reader).position(),
        r is Ok ==> final(reader).position() == final(reader).input().len(),
        r matches Err(e) ==> is_native_decode_error(e),
{
    let res: Result<T, ParseError> = T::consensus_decode(reader);
    match res {
        Ok(v) => {
            if reader.has_leftover() {
                Err(DecodeError::<DeError>::Unconsumed.unify())
            } else {
                Ok(v)
            }
        },
        Err(p) => {
            let ghost gp = p;
            let e = DecodeError::<DeError>::Parse(p).unify();
            proof {
                assert(is_consensus_serde_error(gp, e));
            }
            Err(e)
        },
    }
}

impl<E: ByteEncoder> With<E> {
    /// Renders `value`'s native encoding as text into `sink`: on success the
    /// sink holds exactly the hex rendering of the value's byte stream,
    /// which decodes back to it. A failure is reported only when the sink
    /// recorded one; the sink comes back beside the error so the caller can
    /// inspect what it recorded, and a sink without a capacity limit makes
    /// failure impossible.
    pub fn serialize_str<T: Encodable>(value: &T, sink: TextBuffer) -> (r: Result<
        TextBuffer,
        (WriteError, TextBuffer),
    >)
        requires
            sink.ready(),
            sink.text() == Seq::<char>::empty(),
        ensures
            r matches Ok(t) ==> t.text() == bytes_hex(value.spec_encoding(), E::spec_upper())
                && hex_decode(t.text()) == Ok::<Seq<u8>, char>(value.spec_encoding()),
            sink.capacity() is None ==> r is Ok,
    {
        let mut w = IoWrapper::new(sink, E::make_encoder());
        proof {
            assert(w.mode() == w.is_upper());
        }
        let res = value.consensus_encode(&mut w);
        match res {
            Ok(_) => {
                proof {
                    assert(w.is_upper() == E::spec_upper());
                    assert(w.fed_bytes() =~= value.spec_encoding());
                }
                match w.actually_flush() {
                    Ok(()) => {
                        proof {
                            crate::hex::lemma_hex_round_trip(
                                value.spec_encoding(),
                                E::spec_upper(),
                            );
                        }
                        Ok(w.into_output())
                    },
                    Err(_) => Err((WriteError, w.into_output())),
                }
            },
            Err(_) => Err((WriteError, w.into_output())),
        }
    }

    /// Drives `value`'s native encoding into a byte-sequence sink: on
    /// success the sink has accepted exactly the value's byte stream. A
    /// failure is reported only when the sink recorded one; the sink comes
    /// back beside the error with that failure recorded, and an unlimited
    /// sink makes failure impossible.
    pub fn serialize_seq<T: Encodable>(value: &T, sink: BinWriter) -> (r: Result<
        BinWriter,
        (WriteError, BinWriter),
    >)
        requires
            sink.inv(),
            !sink.broken(),
        ensures
            r matches Ok(b) ==> !b.broken() && b.bytes() == sink.bytes() + value.spec_encoding(),
            r matches Err((_, b)) ==> b.broken(),
            sink.infallible() ==> r is Ok,
    {
        let mut w = sink;
        let res = value.consensus_encode(&mut w);
        match res {
            Ok(_) => Ok(w),
            Err(_) => Err((WriteError, w)),
        }
    }

    /// Serializes `value` for a target in the given mode: for a
    /// human-readable target, one atomic string holding exactly the hex
    /// rendering of the value's byte stream in the strategy's case; for a
    /// binary one, exactly that byte stream. With unlimited sinks this
    /// cannot fail.
    pub fn serialize<T: Encodable>(value: &T, human_readable: bool) -> (r: SerOutput)
        ensures
            human_readable ==> (r matches SerOutput::Str(s) && s@ == bytes_hex(
                value.spec_encoding(),
                E::spec_upper(),
            ) && hex_decode(s@) == Ok::<Seq<u8>, char>(value.spec_encoding())),
            !human_readable ==> (r matches SerOutput::Bytes(b) && b@ == value.spec_encoding()),
    {
        if human_readable {
            match Self::serialize_str(value, TextBuffer::new()) {
                Ok(t) => SerOutput::Str(t.into_string()),
                Err(_) => {
                    proof {
                        assert(false);
                    }
                    SerOutput::Str(String::new())
                },
            }
        } else {
            match Self::serialize_seq(value, BinWriter::new()) {
                Ok(b) => {
                    proof {
                        assert(b.bytes() =~= value.spec_encoding());
                    }
                    SerOutput::Bytes(b.into_bytes())
                },
                Err(_) => {
                    proof {
                        assert(false);
                    }
                    SerOutput::Bytes(Vec::new())
                },
            }
        }
    }
}

impl<E: ByteDecoder> With<E> {
    /// Deserializes a value from what the source handed over. A string is
    /// decoded through the strategy's text decoder — rejecting an odd length
    /// with the exact length, and an invalid character with that character —
    /// and then through the native decoder; a byte sequence goes to the
    /// native decoder directly. Input left over after a complete value, and
    /// every native parse failure, surface through the unified error.
    pub fn deserialize<T: Decodable>(input: DeInput) -> (r: Result<T, DeError>)
        ensures
            input matches DeInput::Str(s) ==> (s@.len() % 2 != 0 ==> (r matches Err(e)
                && e matches DeError::InvalidLength { length, expected } && length == s@.len()
                && expected@ == "an even number of ASCII-encoded hex digits"@)),
            input matches DeInput::Str(s) ==> (s@.len() % 2 == 0 ==> (hex_decode(s@) matches Err(
                c,
            ) ==> (r matches Err(e) && describes_invalid_char(c, e)))),
            input is Bytes ==> (r matches Err(e) ==> is_native_decode_error(e)),
            r matches Err(e) ==> (e matches DeError::InvalidLength { length, expected }
                && expected@ == "an even number of ASCII-encoded hex digits"@) || (exists|c: char|
                describes_invalid_char(c, e)) || is_native_decode_error(e),
    {
        match input {
            DeInput::Str(s) => {
                let mut decoder = match E::from_str(s.as_str()) {
                    Ok(d) => d,
                    Err(init_error) => {
                        return Err(init_error.into_de_error());
                    },
                };
                proof {
                    assert(s@.skip(0) =~= s@);
                }
                let bytes = match decoder.decode_to_end() {
                    Ok(b) => b,
                    Err(decode_error) => {
                        return Err(decode_error.into_de_error());
                    },
                };
                let mut reader = ByteReader::new(bytes);
                decode_and_unify(&mut reader)
            },
            DeInput::Bytes(b) => {
                let mut reader = ByteReader::new(b);
                decode_and_unify(&mut reader)
            },
        }
    }
}

/// The native little-endian rendering of a 32-bit integer.
pub open spec fn u32_le_bytes(x: u32) -> Seq<u8> {
    seq![
        (x & 0xff) as u8,
        ((x >> 8) & 0xff) as u8,
        ((x >> 16) & 0xff) as u8,
        ((x >> 24) & 0xff) as u8,
    ]
}

/// Writes the four little-endian bytes of `x`.
pub fn encode_u32_le<W: ByteWrite>(x: u32, writer: &mut W) -> (r: Result<usize, WriteError>)
    requires
        old(writer).inv(),
        !old(writer).broken(),
    ensures
        final(writer).mode() == old(writer).mode(),
        final(writer).infallible() == old(writer).infallible(),
        r matches Ok(n) ==> n == 4 && final(writer).inv() && !final(writer).broken() && final(writer).accepted() == old(writer).accepted() + u32_le_bytes(x),
        r is Err ==> final(writer).broken(),
        old(writer).infallible() ==> r is Ok,
{
    let mut buf: Vec<u8> = Vec::new();
    buf.push((x & 0xff) as u8);
    buf.push(((x >> 8) & 0xff) as u8);
    buf.push(((x >> 16) & 0xff) as u8);
    buf.push(((x >> 24) & 0xff) as u8);
    proof {
        assert(buf@ =~= u32_le_bytes(x));
    }
    writer.write(buf.as_slice())
}

/// Reads four little-endian bytes as a 32-bit integer, or reports missing
/// data when fewer are left.
pub fn decode_u32_le(reader: &mut ByteReader) -> (r: Result<u32, ParseError>)
    requires
        old(reader).wf(),
    ensures
        final(reader).wf(),
        final(reader).input() == old(reader).input(),
        old(reader).position() <= final(reader).position(),
        old(reader).input().len() - old(reader).position() >= 4 ==> (r matches Ok(v) && final(reader).position() == old(reader).position() + 4 && u32_le_bytes(v) == old(
            reader,
        ).input().subrange(old(reader).position(), old(reader).position() + 4)),
        old(reader).input().len() - old(reader).position() < 4 ==> r == Err::<u32, ParseError>(
            ParseError::MissingData,
        ),
{
    let b0 = match reader.read_byte() {
        Some(b) => b,
        None => {
            return Err(ParseError::MissingData);
        },
    };
    let b1 = match reader.read_byte() {
        Some(b) => b,
        None => {
            return Err(ParseError::MissingData);
        },
    };
    let b2 = match reader.read_byte() {
        Some(b) => b,
        None => {
            return Err(ParseError::MissingData);
        },
    };
    let b3 = match reader.read_byte() {
        Some(b) => b,
        None => {
            return Err(ParseError::MissingData);
        },
    };
    let v: u32 = (b0 as u32) | ((b1 as u32) << 8) | ((b2 as u32) << 16) | ((b3 as u32) << 24);
    proof {
        assert((((b0 as u32) | ((b1 as u32) << 8) | ((b2 as u32) << 16) | ((b3 as u32) << 24))
            & 0xff) as u8 == b0) by (bit_vector);
        assert(((((b0 as u32) | ((b1 as u32) << 8) | ((b2 as u32) << 16) | ((b3 as u32) << 24))
            >> 8) & 0xff) as u8 == b1) by (bit_vector);
        assert(((((b0 as u32) | ((b1 as u32) << 8) | ((b2 as u32) << 16) | ((b3 as u32) << 24))
            >> 16) & 0xff) as u8 == b2) by (bit_vector);
        assert(((((b0 as u32) | ((b1 as u32) << 8) | ((b2 as u32) << 16) | ((b3 as u32) << 24))
            >> 24) & 0xff) as u8 == b3) by (bit_vector);
        assert(u32_le_bytes(v) =~= old(reader).input().subrange(
            old(reader).position(),
            old(reader).position() + 4,
        ));
    }
    Ok(v)
}

/// Two integers with the same little-endian rendering are the same.
pub proof fn lemma_u32_le_injective(x: u32, y: u32)
    requires
        u32_le_bytes(x) == u32_le_bytes(y),
    ensures
        x == y,
{
    assert((x & 0xff) as u8 == u32_le_bytes(x)[0]);
    assert((x >> 8 & 0xff) as u8 == u32_le_bytes(x)[1]);
    assert((x >> 16 & 0xff) as u8 == u32_le_bytes(x)[2]);
    assert((x >> 24 & 0xff) as u8 == u32_le_bytes(x)[3]);
    assert(((x & 0xff) as u8 == (y & 0xff) as u8 && (x >> 8 & 0xff) as u8 == (y >> 8 & 0xff) as u8
        && (x >> 16 & 0xff) as u8 == (y >> 16 & 0xff) as u8 && (x >> 24 & 0xff) as u8 == (y >> 24
        & 0xff) as u8) ==> x == y) by (bit_vector);
}

impl Encodable for u32 {
    open spec fn spec_encoding(&self) -> Seq<u8> {
        u32_le_bytes(*self)
    }

    fn consensus_encode<W: ByteWrite>(&self, writer: &mut W) -> (r: Result<usize, WriteError>) {
        encode_u32_le(*self, writer)
    }
}

impl Decodable for u32 {
    fn consensus_decode(reader: &mut ByteReader) -> (r: Result<Self, ParseError>) {
        decode_u32_le(reader)
    }
}

impl Encodable for Vec<u8> {
    open spec fn spec_encoding(&self) -> Seq<u8> {
        self@
    }

    fn consensus_encode<W: ByteWrite>(&self, writer: &mut W) -> (r: Result<usize, WriteError>) {
        writer.write(self.as_slice())
    }
}

} // verus!
