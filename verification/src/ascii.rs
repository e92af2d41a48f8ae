//! The ASCII codec sessions: mirror-image encoder and decoder holding the
//! feed/finish contract that stateful encodings generalize.
//!
//! ASCII is both a basis and a lowest common denominator of many other
//! encodings, including the UTF-8 representation that text input arrives in:
//! a character is representable exactly when its code point is below 0x80,
//! and its encoded byte is then the code point itself.

use crate::error::{CodecError, CodecErrorCause};
use crate::scan;
use crate::scan::{is_valid_byte, scan_len};
use crate::sink::{ByteSink, StringSink};
use vstd::prelude::*;
use vstd::string::StringSliceAdditionalSpecFns;
use vstd::utf8::{
    is_char_boundary, is_leading_byte_width_1, length_of_first_scalar, pop_first_scalar,
    valid_first_scalar, valid_utf8,
};

verus! {

/// The sequence of characters a run of valid bytes stands for: each byte is
/// its own code point. This is what a decoding feed appends to its sink.
pub open spec fn chars_of_valid_bytes(s: Seq<u8>) -> Seq<char> {
    s.map(|i: int, b: u8| b as char)
}

/// In a valid UTF-8 byte sequence, a position preceded only by ASCII bytes
/// is a character boundary: every byte before it encodes a whole character.
pub proof fn lemma_ascii_prefix_is_char_boundary(bytes: Seq<u8>, n: int)
    requires
        valid_utf8(bytes),
        0 <= n <= bytes.len(),
        forall|i: int| 0 <= i < n ==> is_valid_byte(#[trigger] bytes[i]),
    ensures
        is_char_boundary(bytes, n),
    decreases n,
{
    if n > 0 {
        assert(valid_first_scalar(bytes));
        assert(is_leading_byte_width_1(bytes[0]));
        assert(length_of_first_scalar(bytes) == 1);
        let rest = pop_first_scalar(bytes);
        assert(rest =~= bytes.subrange(1, bytes.len() as int));
        assert forall|i: int| 0 <= i < n - 1 implies is_valid_byte(#[trigger] rest[i]) by {
            assert(rest[i] == bytes[i + 1]);
        }
        lemma_ascii_prefix_is_char_boundary(rest, n - 1);
    }
}

/**
 * ASCII, also known as ISO/IEC 646:US.
 *
 * It is both a basis and a lowest common denominator of many other encodings
 * including UTF-8, which Rust internally assumes.
 */
#[derive(Clone, Copy)]
pub struct ASCIIEncoding;

impl ASCIIEncoding {
    /// The name this encoding is registered under.
    pub fn name(&self) -> (r: &'static str)
        ensures
            r@ == "ascii"@,
    {
        "ascii"
    }

    /// A fresh encoding session.
    pub fn raw_encoder(&self) -> (e: ASCIIEncoder) {
        ASCIIEncoder::new()
    }

    /// A fresh decoding session.
    pub fn raw_decoder(&self) -> (d: ASCIIDecoder) {
        ASCIIDecoder::new()
    }
}

/// An encoder for ASCII: a stateless conversion session from text to bytes.
#[derive(Clone, Copy)]
pub struct ASCIIEncoder;

impl ASCIIEncoder {
    /// A fresh, independent session.
    pub fn new() -> ASCIIEncoder {
        ASCIIEncoder
    }

    /// A session with the same (here: empty) internal state, not a shared
    /// one.
    pub fn from_self(&self) -> ASCIIEncoder {
        ASCIIEncoder::new()
    }

    /// ASCII-range data validated upstream needs no second pass here.
    pub fn is_ascii_compatible(&self) -> (r: bool)
        ensures
            r,
    {
        true
    }

    /// Feed one chunk of the character stream.
    ///
    /// Offsets count bytes of the chunk's native (UTF-8) representation. The
    /// call consumes the longest representable prefix, writes its bytes to
    /// the sink — one byte per character, final and ordered — and reports
    /// the first unrepresentable character, with `upto` one past it so the
    /// caller can skip exactly past the offending character and resume.
    pub fn raw_feed(&mut self, input: &str, output: &mut ByteSink) -> (r: (
        usize,
        Option<CodecError>,
    ))
        requires
            input.spec_bytes().len() <= isize::MAX,
        ensures
            ({
                let bytes = input.spec_bytes();
                let n = scan_len(bytes);
                &&& r.0 == n
                &&& final(output)@ == old(output)@ + bytes.subrange(0, n)
                &&& is_char_boundary(bytes, n)
                &&& n == bytes.len() ==> r.1 is None
                &&& n < bytes.len() ==> r.1 == Some(
                    (CodecError {
                        upto: (n + length_of_first_scalar(
                            bytes.subrange(n, bytes.len() as int),
                        )) as isize,
                        cause: CodecErrorCause::UnrepresentableUnit,
                    }),
                )
            }),
    {
        proof {
            vstd::utf8::encode_utf8_valid_utf8(input@);
        }
        let bytes = input.as_bytes();
        output.writer_hint(bytes.len());
        let first_error = scan::raw_feed(bytes, output);
        proof {
            scan::lemma_scan_len_properties(bytes@);
            lemma_ascii_prefix_is_char_boundary(bytes@, first_error as int);
        }
        if first_error < bytes.len() {
            let len = width_of_character_at(bytes, first_error);
            (
                first_error,
                Some(
                    CodecError {
                        upto: (first_error + len) as isize,
                        cause: CodecErrorCause::UnrepresentableUnit,
                    },
                ),
            )
        } else {
            (first_error, None)
        }
    }

    /// End of stream. This encoding buffers nothing between feeds, so there
    /// is never residual state to flush or fail on: the sink is untouched.
    pub fn raw_finish(&mut self, output: &mut ByteSink) -> (r: Option<CodecError>)
        ensures
            r is None,
            final(output)@ == old(output)@,
            *final(self) == *old(self),
    {
        let _ = output;
        None
    }
}

/// How many bytes the character starting at byte `at` occupies in the
/// input's UTF-8 representation, read off its leading byte. Only reached
/// when that character is unrepresentable, i.e. its code point is at least
/// 0x80, so its encoding is 2, 3 or 4 bytes wide.
fn width_of_character_at(bytes: &[u8], at: usize) -> (w: usize)
    requires
        valid_utf8(bytes@),
        at < bytes@.len(),
        is_char_boundary(bytes@, at as int),
        !is_valid_byte(bytes@[at as int]),
    ensures
        w == length_of_first_scalar(bytes@.subrange(at as int, bytes@.len() as int)),
        at + w <= bytes@.len(),
{
    proof {
        vstd::utf8::valid_utf8_split(bytes@, at as int);
    }
    let ghost suffix = bytes@.subrange(at as int, bytes@.len() as int);
    proof {
        assert(valid_utf8(suffix));
        assert(valid_first_scalar(suffix));
        assert(suffix[0] == bytes@[at as int]);
    }
    let b = *vstd::slice::slice_index_get(bytes, at);
    if b < 0xE0 {
        2
    } else if b < 0xF0 {
        3
    } else {
        4
    }
}

/// A decoder for ASCII: a stateless conversion session from bytes to text.
#[derive(Clone, Copy)]
pub struct ASCIIDecoder;

impl ASCIIDecoder {
    /// A fresh, independent session.
    pub fn new() -> ASCIIDecoder {
        ASCIIDecoder
    }

    /// A session with the same (here: empty) internal state, not a shared
    /// one.
    pub fn from_self(&self) -> ASCIIDecoder {
        ASCIIDecoder::new()
    }

    /// ASCII-range data validated upstream needs no second pass here.
    pub fn is_ascii_compatible(&self) -> (r: bool)
        ensures
            r,
    {
        true
    }

    /// Feed one chunk of the byte stream.
    ///
    /// A byte is valid exactly when its top bit is clear; because that
    /// subset embeds identically into text, accepted bytes reach the sink
    /// verbatim as their own code points. On the first byte with the top bit
    /// set, the offending unit is that single byte, so `upto` is its index
    /// plus one.
    pub fn raw_feed(&mut self, input: &[u8], output: &mut StringSink) -> (r: (
        usize,
        Option<CodecError>,
    ))
        requires
            input@.len() <= isize::MAX,
        ensures
            ({
                let n = scan_len(input@);
                &&& r.0 == n
                &&& final(output)@ == old(output)@ + chars_of_valid_bytes(input@.subrange(0, n))
                &&& n == input@.len() ==> r.1 is None
                &&& n < input@.len() ==> r.1 == Some(
                    (CodecError { upto: (n + 1) as isize, cause: CodecErrorCause::InvalidSequence }),
                )
            }),
    {
        output.writer_hint(input.len());
        let first_error = scan::raw_feed(input, output);
        proof {
            scan::lemma_scan_len_properties(input@);
        }
        if first_error < input.len() {
            (
                first_error,
                Some(
                    CodecError {
                        upto: (first_error + 1) as isize,
                        cause: CodecErrorCause::InvalidSequence,
                    },
                ),
            )
        } else {
            (first_error, None)
        }
    }

    /// End of stream. This encoding carries no state between feeds, so a
    /// stream can never end mid-unit here: the sink is untouched.
    pub fn raw_finish(&mut self, output: &mut StringSink) -> (r: Option<CodecError>)
        ensures
            r is None,
            final(output)@ == old(output)@,
            *final(self) == *old(self),
    {
        let _ = output;
        None
    }
}

} // verus!
