//! The dual-path scan: find the first byte outside the encoding's valid
//! range, writing the whole valid prefix to the sink in one bulk append.
//!
//! [`raw_feed`] is the bulk path: it walks the input in fixed-width chunks,
//! packs each chunk's per-lane validity tests into a bitmask, and locates the
//! first failing lane from the mask's least-significant set bit. The
//! unaligned tail, and any caller without the bulk path, goes through the
//! byte-at-a-time [`slow_raw_feed`]. Both paths carry the same contract, so
//! they agree, pair for pair, on every input: the bulk path is purely a
//! performance optimization, never a behavioral variant.

use crate::sink::ScanSink;
use vstd::prelude::*;

verus! {

/// Width of one scan chunk: the number of byte lanes tested at once.
pub const CHUNK_SIZE: usize = 16;

/// A byte is representable in this encoding exactly when its value lies in
/// the fixed inclusive range below 0x80 (top bit clear).
pub open spec fn is_valid_byte(b: u8) -> bool {
    b < 0x80
}

/// The number every scan must return on `s`: the index of the first byte
/// failing the validity predicate, or the length of `s` when every byte
/// passes.
pub open spec fn scan_len(s: Seq<u8>) -> int
    decreases s.len(),
{
    if s.len() == 0 {
        0
    } else if !is_valid_byte(s[0]) {
        0
    } else {
        1 + scan_len(s.drop_first())
    }
}

/// What `scan_len` returns: every byte before it is valid, and the byte at
/// it, if any, is not.
pub proof fn lemma_scan_len_properties(s: Seq<u8>)
    ensures
        0 <= scan_len(s) <= s.len(),
        forall|i: int| 0 <= i < scan_len(s) ==> is_valid_byte(#[trigger] s[i]),
        scan_len(s) < s.len() ==> !is_valid_byte(s[scan_len(s)]),
    decreases s.len(),
{
    if s.len() == 0 {
    } else if !is_valid_byte(s[0]) {
    } else {
        lemma_scan_len_properties(s.drop_first());
        assert forall|i: int| 0 <= i < scan_len(s) implies is_valid_byte(#[trigger] s[i]) by {
            if i > 0 {
                assert(s[i] == s.drop_first()[i - 1]);
            }
        }
    }
}

/// A position with those two properties is `scan_len`: the scan result is
/// pinned down uniquely.
pub proof fn lemma_scan_len_pinned(s: Seq<u8>, k: int)
    requires
        0 <= k <= s.len(),
        forall|i: int| 0 <= i < k ==> is_valid_byte(#[trigger] s[i]),
        k < s.len() ==> !is_valid_byte(s[k]),
    ensures
        scan_len(s) == k,
    decreases s.len(),
{
    if s.len() == 0 {
    } else if k == 0 {
        if scan_len(s) != 0 {
            lemma_scan_len_properties(s);
        }
    } else {
        assert(forall|i: int|
            0 <= i < k - 1 ==> s.drop_first()[i] == #[trigger] s[i + 1]);
        lemma_scan_len_pinned(s.drop_first(), k - 1);
    }
}

/// The scalar engine: a linear search for the first invalid byte, starting
/// at `sofar`, whose bytes the caller has already validated. The valid
/// prefix goes to the sink as a single bulk append before returning.
pub fn slow_raw_feed<S: ScanSink>(input: &[u8], output: &mut S, sofar: usize) -> (r: usize)
    requires
        sofar <= input@.len(),
        forall|i: int| 0 <= i < sofar ==> is_valid_byte(#[trigger] input@[i]),
    ensures
        r as int == scan_len(input@),
        final(output).run_appended(old(output), input@.subrange(0, r as int)),
{
    let mut i: usize = sofar;
    while i < input.len() && *vstd::slice::slice_index_get(input, i) < 0x80
        invariant
            sofar <= i <= input@.len(),
            forall|j: int| 0 <= j < i ==> is_valid_byte(#[trigger] input@[j]),
        decreases input@.len() - i,
    {
        i = i + 1;
    }
    proof {
        lemma_scan_len_pinned(input@, i as int);
    }
    let prefix = vstd::slice::slice_subrange(input, 0, i);
    output.write_ascii_run(prefix);
    i
}

/// Bit `j` of an all-zero mask is clear.
proof fn lemma_zero_mask_bit(j: u16)
    by (bit_vector)
    ensures
        (0u16 >> j) & 1u16 == 0u16,
{
}

/// Setting bit `l` of a mask sets exactly that bit and leaves every other
/// bit as it was.
proof fn lemma_set_mask_bit(m: u16, l: u16, j: u16)
    by (bit_vector)
    requires
        l < 16,
    ensures
        ((m | (1u16 << l)) >> l) & 1u16 == 1u16,
        j != l ==> ((m | (1u16 << l)) >> j) & 1u16 == (m >> j) & 1u16,
{
}

/// One chunk's worth of per-lane validity tests, packed into an integer
/// bitmask: bit `j` is set exactly when the byte in lane `j` (at
/// `sofar + j`) fails the predicate. Lane order is preserved, so the least
/// significant set bit marks the earliest invalid byte.
fn movemask(input: &[u8], sofar: usize) -> (mask: u16)
    requires
        sofar + CHUNK_SIZE <= input@.len(),
        input@.len() <= usize::MAX,
    ensures
        forall|j: u16|
            j < CHUNK_SIZE ==> (((mask >> j) & 1u16 == 1u16) <==> !is_valid_byte(
                #[trigger] input@[sofar + j],
            )),
{
    let mut mask: u16 = 0;
    let mut lane: usize = 0;
    proof {
        assert forall|j: u16| j < 16 implies (0u16 >> j) & 1u16 == 0u16 by {
            lemma_zero_mask_bit(j);
        }
    }
    while lane < CHUNK_SIZE
        invariant
            lane <= CHUNK_SIZE,
            sofar + CHUNK_SIZE <= input@.len(),
            input@.len() <= usize::MAX,
            forall|j: u16|
                j < lane ==> (((mask >> j) & 1u16 == 1u16) <==> !is_valid_byte(
                    #[trigger] input@[sofar + j],
                )),
            forall|j: u16| lane <= j < CHUNK_SIZE ==> (mask >> j) & 1u16 == 0u16,
        decreases CHUNK_SIZE - lane,
    {
        let b = *vstd::slice::slice_index_get(input, sofar + lane);
        if b >= 0x80 {
            let ghost m = mask;
            let ghost l = lane as u16;
            let bit: u16 = 1u16 << (lane as u16);
            mask = mask | bit;
            proof {
                assert forall|j: u16| j < 16 implies ((mask >> j) & 1u16 == (if j == l {
                    1u16
                } else {
                    (m >> j) & 1u16
                })) by {
                    lemma_set_mask_bit(m, l, j);
                }
            }
        }
        lane = lane + 1;
    }
    mask
}

/// The bulk engine: scans whole chunks through [`movemask`], accumulating
/// the growing valid run without writing, then flushes the entire prefix in
/// one bulk append — either when a chunk reports an invalid lane, or via the
/// scalar engine on the unaligned tail. Its contract is identical to
/// [`slow_raw_feed`]'s: for every input, the two engines return the same
/// count and hand the sink the same bytes.
pub fn raw_feed<S: ScanSink>(input: &[u8], output: &mut S) -> (r: usize)
    ensures
        r as int == scan_len(input@),
        final(output).run_appended(old(output), input@.subrange(0, r as int)),
{
    let mut sofar: usize = 0;
    while input.len() - sofar >= CHUNK_SIZE
        invariant
            sofar <= input@.len(),
            forall|j: int| 0 <= j < sofar ==> is_valid_byte(#[trigger] input@[j]),
            *output == *old(output),
        decreases input@.len() - sofar,
    {
        let mask = movemask(input, sofar);
        if mask == 0 {
            proof {
                assert forall|j: int| 0 <= j < sofar + CHUNK_SIZE implies is_valid_byte(
                    #[trigger] input@[j],
                ) by {
                    if sofar <= j {
                        let lane = (j - sofar) as u16;
                        lemma_zero_mask_bit(lane);
                        assert(is_valid_byte(input@[sofar + lane]));
                    }
                }
            }
            sofar = sofar + CHUNK_SIZE;
        } else {
            let tz = mask.trailing_zeros();
            proof {
                vstd::std_specs::bits::axiom_u16_trailing_zeros(mask);
                let t = tz as u16;
                assert(tz < 16);
                assert forall|j: int| 0 <= j < sofar + tz implies is_valid_byte(
                    #[trigger] input@[j],
                ) by {
                    if sofar <= j {
                        let lane = (j - sofar) as u16;
                        assert((mask >> lane) & 1u16 == 0u16);
                        assert(is_valid_byte(input@[sofar + lane]));
                    }
                }
                assert((mask >> t) & 1u16 == 1u16);
                assert(!is_valid_byte(input@[sofar + t]));
                lemma_scan_len_pinned(input@, sofar + tz);
            }
            sofar = sofar + (tz as usize);
            let prefix = vstd::slice::slice_subrange(input, 0, sofar);
            output.write_ascii_run(prefix);
            return sofar;
        }
    }
    slow_raw_feed(input, output, sofar)
}

} // verus!
