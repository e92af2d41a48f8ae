//! Output sinks: growable receivers that accumulate the validated output of a
//! conversion session. A sink only ever receives copies of already-validated
//! data, appended in order; nothing written is ever read back or revised.

use crate::scan::is_valid_byte;
use vstd::prelude::*;

verus! {

/// The restricted capability the scan engines write through: accepting a run
/// of raw bytes that the caller has already validated against the encoding's
/// byte range. A byte sink accepts the run as bytes; a text sink may accept
/// it verbatim because every valid byte is its own code point.
pub trait ScanSink: Sized {
    /// How a sink state extends an earlier state `pre` by a run of bytes.
    spec fn run_appended(&self, pre: &Self, run: Seq<u8>) -> bool;

    /// Append a whole validated run in one call.
    fn write_ascii_run(&mut self, run: &[u8])
        requires
            forall|i: int| 0 <= i < run@.len() ==> is_valid_byte(#[trigger] run@[i]),
        ensures
            final(self).run_appended(old(self), run@),
    ;
}

/// A growable byte receiver: the output side of an encoding session.
pub struct ByteSink {
    bytes: Vec<u8>,
}

impl View for ByteSink {
    type V = Seq<u8>;

    closed spec fn view(&self) -> Seq<u8> {
        self.bytes@
    }
}

impl ByteSink {
    /// A fresh, empty sink.
    pub fn new() -> (s: ByteSink)
        ensures
            s@ == Seq::<u8>::empty(),
    {
        ByteSink { bytes: Vec::new() }
    }

    /// An upper bound on the bytes about to be produced, so the sink can
    /// preallocate. Purely an optimization: the contents do not change.
    pub fn writer_hint(&mut self, expected: usize)
        ensures
            final(self)@ == old(self)@,
    {
        self.bytes.reserve(expected);
    }

    /// Append a run of bytes; everything written is final and ordered.
    pub fn write_bytes(&mut self, data: &[u8])
        ensures
            final(self)@ == old(self)@ + data@,
    {
        self.bytes.extend_from_slice(data);
        proof {
            assert(self@ =~= old(self)@ + data@);
        }
    }

    /// The bytes accumulated so far.
    pub fn contents(&self) -> (r: &Vec<u8>)
        ensures
            r@ == self@,
    {
        &self.bytes
    }

    /// How many bytes have been accumulated.
    pub fn len(&self) -> (n: usize)
        ensures
            n == self@.len(),
    {
        self.bytes.len()
    }
}

impl ScanSink for ByteSink {
    open spec fn run_appended(&self, pre: &Self, run: Seq<u8>) -> bool {
        self@ == pre@ + run
    }

    fn write_ascii_run(&mut self, run: &[u8]) {
        self.write_bytes(run);
    }
}

/// A growable text receiver: the output side of a decoding session. It
/// accumulates characters, and additionally offers the restricted byte
/// capability of [`ScanSink`] for byte runs already known to be valid, which
/// map one-for-one onto code points.
pub struct StringSink {
    chars: Vec<char>,
}

impl View for StringSink {
    type V = Seq<char>;

    closed spec fn view(&self) -> Seq<char> {
        self.chars@
    }
}

impl StringSink {
    /// A fresh, empty sink.
    pub fn new() -> (s: StringSink)
        ensures
            s@ == Seq::<char>::empty(),
    {
        StringSink { chars: Vec::new() }
    }

    /// An upper bound on the characters about to be produced. Purely an
    /// optimization: the contents do not change.
    pub fn writer_hint(&mut self, expected: usize)
        ensures
            final(self)@ == old(self)@,
    {
        self.chars.reserve(expected);
    }

    /// Append one character: the sink's ordinary text capability.
    pub fn write_char(&mut self, c: char)
        ensures
            final(self)@ == old(self)@.push(c),
    {
        self.chars.push(c);
    }

    /// The characters accumulated so far.
    pub fn contents(&self) -> (r: &Vec<char>)
        ensures
            r@ == self@,
    {
        &self.chars
    }

    /// How many characters have been accumulated.
    pub fn len(&self) -> (n: usize)
        ensures
            n == self@.len(),
    {
        self.chars.len()
    }
}

impl ScanSink for StringSink {
    open spec fn run_appended(&self, pre: &Self, run: Seq<u8>) -> bool {
        self@ == pre@ + run.map(|i: int, b: u8| b as char)
    }

    fn write_ascii_run(&mut self, run: &[u8]) {
        let ghost pre = *self;
        let mut i: usize = 0;
        while i < run.len()
            invariant
                i <= run@.len(),
                self@ == pre@ + run@.subrange(0, i as int).map(|j: int, b: u8| b as char),
            decreases run@.len() - i,
        {
            let b = *vstd::slice::slice_index_get(run, i);
            self.chars.push(b as char);
            proof {
                assert(run@.subrange(0, i + 1).map(|j: int, b: u8| b as char) =~= run@.subrange(
                    0,
                    i as int,
                ).map(|j: int, b: u8| b as char).push(run@[i as int] as char));
            }
            i += 1;
        }
        proof {
            assert(run@.subrange(0, run@.len() as int) =~= run@);
        }
    }
}

} // verus!
