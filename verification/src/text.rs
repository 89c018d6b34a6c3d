//! Text sinks for the string-rendering half of the bridge.
//!
//! A [`TextBuffer`] is the concrete text sink that serialization writes into:
//! it collects characters and, when built with a capacity limit, models a sink
//! that can fail mid-write. An [`ErrorTrackingWriter`] wraps it and records the
//! first failure, so that a caller who sees a generic write failure can check
//! that the sink really did fail (and that nothing was written afterwards).

use vstd::prelude::*;

verus! {

/// Failure reported by a text sink when it cannot accept more characters.
#[derive(Debug, Clone, Copy, PartialEq, Eq, Structural)]
pub struct TextError;

/// A character sink with an optional capacity limit.
///
/// With no limit it never fails; with a limit it rejects a write that would
/// push it past the limit and refuses all further writes.
#[derive(Debug)]
pub struct TextBuffer {
    data: Vec<char>,
    cap: Option<usize>,
    failed: bool,
}

impl TextBuffer {
    /// The characters accepted so far.
    pub closed spec fn text(&self) -> Seq<char> {
        self.data@
    }

    /// The capacity limit this sink was built with, if any.
    pub closed spec fn capacity(&self) -> Option<usize> {
        self.cap
    }

    /// Whether the sink still accepts writes.
    pub closed spec fn ready(&self) -> bool {
        !self.failed
    }

    /// A sink without a capacity limit: it never fails.
    pub fn new() -> (t: TextBuffer)
        ensures
            t.text() == Seq::<char>::empty(),
            t.capacity() is None,
            t.ready(),
    {
        TextBuffer { data: Vec::new(), cap: None, failed: false }
    }

    /// A sink that fails as soon as a write would exceed `cap` characters.
    pub fn with_limit(cap: usize) -> (t: TextBuffer)
        ensures
            t.text() == Seq::<char>::empty(),
            t.capacity() == Some(cap),
            t.ready(),
    {
        TextBuffer { data: Vec::new(), cap: Some(cap), failed: false }
    }

    /// Appends `s` whole, or fails without changing the accepted text.
    pub fn write_text(&mut self, s: &[char]) -> (r: Result<(), TextError>)
        requires
            old(self).ready(),
        ensures
            final(self).capacity() == old(self).capacity(),
            old(self).capacity() is None ==> r is Ok,
            r is Ok ==> final(self).ready() && final(self).text() == old(self).text() + s@,
            old(self).capacity() matches Some(c) ==> (r is Ok ==> old(self).text().len()
                + s@.len() <= c),
            r is Err ==> !final(self).ready() && final(self).text() == old(self).text()
                && (old(self).capacity() matches Some(c) && old(self).text().len() + s@.len()
                > c),
    {
        match self.cap {
            Some(c) => {
                if s.len() > c || self.data.len() > c - s.len() {
                    self.failed = true;
                    return Err(TextError);
                }
            },
            None => {},
        }
        let mut i: usize = 0;
        while i < s.len()
            invariant
                i <= s@.len(),
                self.data@ == old(self).data@ + s@.subrange(0, i as int),
                self.cap == old(self).cap,
                self.failed == old(self).failed,
            decreases s@.len() - i,
        {
            self.data.push(s[i]);
            i += 1;
        }
        proof {
            assert(s@.subrange(0, s@.len() as int) =~= s@);
        }
        Ok(())
    }

    /// Whether the sink still accepts writes; false once a write has been
    /// rejected, so a caller handed back a failed sink can confirm the
    /// failure was recorded.
    pub fn is_ready(&self) -> (b: bool)
        ensures
            b == self.ready(),
    {
        !self.failed
    }

    /// Hands the accepted characters back as a `String`.
    pub fn into_string(self) -> (r: String)
        ensures
            r@ == self.text(),
    {
        chars_to_string(&self.data)
    }
}

/// Relies on `String::push`: it appends exactly the given character to the
/// end of the string.
#[verifier::external_body]
fn push_char(s: &mut String, c: char)
    ensures
        final(s)@ == old(s)@.push(c),
{
    s.push(c);
}

/// Builds the `String` holding exactly the given characters.
pub fn chars_to_string(v: &Vec<char>) -> (r: String)
    ensures
        r@ == v@,
{
    let mut s = String::new();
    let mut i: usize = 0;
    while i < v.len()
        invariant
            i <= v@.len(),
            s@ == v@.subrange(0, i as int),
        decreases v@.len() - i,
    {
        push_char(&mut s, v[i]);
        proof {
            assert(v@.subrange(0, i as int).push(v@[i as int]) =~= v@.subrange(
                0,
                i as int + 1,
            ));
        }
        i += 1;
    }
    proof {
        assert(v@.subrange(0, v@.len() as int) =~= v@);
    }
    s
}

/// A text sink that records whether any write has ever failed.
///
/// The byte-to-text adapter reports sink failures upward as an opaque write
/// error; this wrapper keeps the fact that the sink failed, so the call site
/// can check that an error reported by the encoding layer corresponds to a
/// real sink failure, and that nothing is written after a failure.
pub struct ErrorTrackingWriter {
    writer: TextBuffer,
    was_error: bool,
}

impl ErrorTrackingWriter {
    /// Whether a write has failed since construction.
    pub closed spec fn had_error(&self) -> bool {
        self.was_error
    }

    /// The characters the underlying sink accepted.
    pub closed spec fn text(&self) -> Seq<char> {
        self.writer.text()
    }

    /// The underlying sink's capacity limit, if any.
    pub closed spec fn capacity(&self) -> Option<usize> {
        self.writer.capacity()
    }

    /// Whether the underlying sink still accepts writes.
    pub closed spec fn sink_ready(&self) -> bool {
        self.writer.ready()
    }

    pub fn new(writer: TextBuffer) -> (w: ErrorTrackingWriter)
        ensures
            !w.had_error(),
            w.text() == writer.text(),
            w.capacity() == writer.capacity(),
            w.sink_ready() == writer.ready(),
    {
        ErrorTrackingWriter { writer, was_error: false }
    }

    /// States that `fun` is only reached before any failure; the condition is
    /// discharged statically, so a verified caller can never trip it.
    pub fn assert_no_error(&self, fun: &str)
        requires
            !self.had_error(),
    {
        let _ = fun;
    }

    /// States that a failure really was recorded; discharged statically.
    pub fn assert_was_error(&self)
        requires
            self.had_error(),
    {
    }

    /// Records a failure; once set, the flag never clears.
    pub fn set_error(&mut self, was: bool)
        ensures
            final(self).had_error() == (old(self).had_error() || was),
            final(self).text() == old(self).text(),
            final(self).capacity() == old(self).capacity(),
            final(self).sink_ready() == old(self).sink_ready(),
    {
        self.was_error = self.was_error || was;
    }

    /// Passes `result` through, recording whether it was a failure.
    pub fn check_err<T, E>(&mut self, result: Result<T, E>) -> (r: Result<T, E>)
        ensures
            r == result,
            final(self).had_error() == (old(self).had_error() || result is Err),
            final(self).text() == old(self).text(),
            final(self).capacity() == old(self).capacity(),
            final(self).sink_ready() == old(self).sink_ready(),
    {
        self.set_error(result.is_err());
        result
    }

    /// Forwards `s` to the sink, recording a failure if the sink reports one.
    pub fn write_text(&mut self, s: &[char]) -> (r: Result<(), TextError>)
        requires
            !old(self).had_error(),
            old(self).sink_ready(),
        ensures
            final(self).capacity() == old(self).capacity(),
            old(self).capacity() is None ==> r is Ok,
            r is Ok ==> !final(self).had_error() && final(self).sink_ready() && final(self).text()
                == old(self).text() + s@,
            r is Err ==> final(self).had_error() && final(self).text() == old(self).text(),
    {
        self.assert_no_error("write_text");
        let result = self.writer.write_text(s);
        self.check_err(result)
    }

    /// Hands the underlying sink back.
    pub fn into_inner(self) -> (t: TextBuffer)
        ensures
            t.text() == self.text(),
            t.capacity() == self.capacity(),
            t.ready() == self.sink_ready(),
    {
        self.writer
    }
}

} // verus!
