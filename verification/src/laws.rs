//! Laws the codec obeys across calls: round-tripping, and the equivalence of
//! feeding a stream whole versus split into chunks.

use crate::ascii::chars_of_valid_bytes;
use crate::scan::{is_valid_byte, scan_len};
use vstd::prelude::*;
use vstd::utf8::{decode_utf8, encode_utf8, is_ascii_chars, valid_utf8};

verus! {

/// Round-trip: encoding any sequence of ASCII-range characters consumes it
/// whole with no error, and decoding the produced bytes returns exactly the
/// original characters.
pub proof fn lemma_round_trip(chars: Seq<char>)
    requires
        is_ascii_chars(chars),
    ensures
        scan_len(encode_utf8(chars)) == encode_utf8(chars).len(),
        scan_len(encode_utf8(chars)) == chars.len(),
        chars_of_valid_bytes(encode_utf8(chars)) == chars,
{
    let bytes = encode_utf8(chars);
    vstd::utf8::is_ascii_chars_encode_utf8(chars);
    assert forall|i: int| 0 <= i < bytes.len() implies is_valid_byte(#[trigger] bytes[i]) by {
        assert(chars[i] as u8 == bytes[i]);
        assert((chars[i] as nat) < 128) by {
            vstd::utf8::is_ascii_chars_nat_bound(chars);
        }
    }
    crate::scan::lemma_scan_len_pinned(bytes, bytes.len() as int);
    assert forall|i: int| 0 <= i < bytes.len() implies chars_of_valid_bytes(bytes)[i]
        == chars[i] by {
        vstd::utf8::char_u32_cast(chars[i], bytes[i] as u32);
    }
    assert(chars_of_valid_bytes(bytes) =~= chars);
}

/// Round-trip for a single code point in the representable range: its
/// encoding is one byte, accepted whole, and decodes back to the same
/// character.
pub proof fn lemma_round_trip_code_point(c: char)
    requires
        c as u32 <= 0x7F,
    ensures
        encode_utf8(seq![c]).len() == 1,
        scan_len(encode_utf8(seq![c])) == 1,
        chars_of_valid_bytes(encode_utf8(seq![c])) == seq![c],
{
    assert(is_ascii_chars(seq![c]));
    lemma_round_trip(seq![c]);
}

/// What a decoding feed appends is the canonical text reading of the bytes
/// it accepted: for a run of valid bytes, taking each byte as its own code
/// point agrees with UTF-8 decoding of the run.
pub proof fn lemma_decoded_run_is_canonical(s: Seq<u8>)
    requires
        forall|i: int| 0 <= i < s.len() ==> is_valid_byte(#[trigger] s[i]),
    ensures
        valid_utf8(s),
        decode_utf8(s) == chars_of_valid_bytes(s),
    decreases s.len(),
{
    if s.len() > 0 {
        let b = s[0];
        assert(vstd::utf8::codepoint_width_1(b) == b as u32) by (bit_vector)
            requires
                b < 0x80,
        ;
        assert(vstd::utf8::valid_first_scalar(s));
        assert(vstd::utf8::length_of_first_scalar(s) == 1);
        let rest = vstd::utf8::pop_first_scalar(s);
        assert(rest =~= s.subrange(1, s.len() as int));
        lemma_decoded_run_is_canonical(rest);
        assert(decode_utf8(s) =~= seq![(b as u32) as char] + chars_of_valid_bytes(rest));
        assert(chars_of_valid_bytes(s) =~= seq![b as char] + chars_of_valid_bytes(rest));
        assert((b as u32) as char == b as char);
    }
}

/// Bulk/scalar equivalence. The contracts of the two scan engines pin, for a
/// byte sink holding `pre`, the returned count and the sink's contents to
/// the expressions required here; so on every input the engines produce
/// identical (consumed, sink-contents) pairs, and the bulk path is purely a
/// performance optimization over the scalar path's specification, never a
/// behavioral variant.
pub proof fn lemma_scan_engines_equivalent(
    input: Seq<u8>,
    pre: Seq<u8>,
    r_bulk: int,
    out_bulk: Seq<u8>,
    r_scalar: int,
    out_scalar: Seq<u8>,
)
    requires
        r_bulk == scan_len(input),
        out_bulk == pre + input.subrange(0, r_bulk),
        r_scalar == scan_len(input),
        out_scalar == pre + input.subrange(0, r_scalar),
    ensures
        r_bulk == r_scalar,
        out_bulk == out_scalar,
{
}

/// UTF-8 encoding distributes over concatenation of character sequences: a
/// text stream's byte image does not depend on where it is chunked.
pub proof fn lemma_encode_utf8_concat(s1: Seq<char>, s2: Seq<char>)
    ensures
        encode_utf8(s1 + s2) == encode_utf8(s1) + encode_utf8(s2),
    decreases s1.len(),
{
    if s1.len() == 0 {
        assert(s1 + s2 =~= s2);
        assert(encode_utf8(s1) + encode_utf8(s2) =~= encode_utf8(s2));
    } else {
        assert((s1 + s2).drop_first() =~= s1.drop_first() + s2);
        lemma_encode_utf8_concat(s1.drop_first(), s2);
        assert(encode_utf8(s1 + s2) =~= encode_utf8(s1) + encode_utf8(s2));
    }
}

/// Taking bytes as code points distributes over concatenation.
pub proof fn lemma_chars_of_valid_bytes_concat(a: Seq<u8>, b: Seq<u8>)
    ensures
        chars_of_valid_bytes(a + b) == chars_of_valid_bytes(a) + chars_of_valid_bytes(b),
{
    assert(chars_of_valid_bytes(a + b) =~= chars_of_valid_bytes(a) + chars_of_valid_bytes(b));
}

/// Idempotent resumption: when a feed over `a` reports no error, feeding
/// `a + b` in one call consumes and accepts exactly what feeding `a` and
/// then `b` does — the same total count, and the same bytes to the sink.
/// Splitting a stream across calls at any such boundary changes nothing.
pub proof fn lemma_feed_in_two_chunks(a: Seq<u8>, b: Seq<u8>)
    requires
        scan_len(a) == a.len(),
    ensures
        scan_len(a + b) == a.len() + scan_len(b),
        (a + b).subrange(0, scan_len(a + b)) == a + b.subrange(0, scan_len(b)),
{
    crate::scan::lemma_scan_len_properties(a);
    crate::scan::lemma_scan_len_properties(b);
    let k = a.len() + scan_len(b);
    assert forall|i: int| 0 <= i < k implies is_valid_byte(#[trigger] (a + b)[i]) by {
        if i < a.len() {
            assert((a + b)[i] == a[i]);
        } else {
            assert((a + b)[i] == b[i - a.len()]);
        }
    }
    if k < (a + b).len() {
        assert((a + b)[k] == b[scan_len(b)]);
    }
    crate::scan::lemma_scan_len_pinned(a + b, k);
    assert((a + b).subrange(0, k) =~= a + b.subrange(0, scan_len(b)));
}

/// Idempotent resumption on the decoding side: when a feed over `a` reports
/// no error, decoding `a + b` in one call consumes the same total and hands
/// the text sink the same characters as decoding `a` and then `b`.
pub proof fn lemma_decoder_feed_in_two_chunks(a: Seq<u8>, b: Seq<u8>)
    requires
        scan_len(a) == a.len(),
    ensures
        scan_len(a + b) == a.len() + scan_len(b),
        chars_of_valid_bytes((a + b).subrange(0, scan_len(a + b))) == chars_of_valid_bytes(a)
            + chars_of_valid_bytes(b.subrange(0, scan_len(b))),
{
    lemma_feed_in_two_chunks(a, b);
    lemma_chars_of_valid_bytes_concat(a, b.subrange(0, scan_len(b)));
}

/// Idempotent resumption on the text side: when encoding a chunk reports no
/// error, encoding the concatenation of two text chunks in one feed
/// consumes and writes exactly what two feeds do.
pub proof fn lemma_encoder_feed_in_two_chunks(s1: Seq<char>, s2: Seq<char>)
    requires
        scan_len(encode_utf8(s1)) == encode_utf8(s1).len(),
    ensures
        scan_len(encode_utf8(s1 + s2)) == encode_utf8(s1).len() + scan_len(encode_utf8(s2)),
        encode_utf8(s1 + s2).subrange(0, scan_len(encode_utf8(s1 + s2))) == encode_utf8(s1)
            + encode_utf8(s2).subrange(0, scan_len(encode_utf8(s2))),
{
    lemma_encode_utf8_concat(s1, s2);
    lemma_feed_in_two_chunks(encode_utf8(s1), encode_utf8(s2));
}

} // verus!
