//! An incremental ASCII codec: streaming conversion between Unicode text and
//! 7-bit ASCII bytes, with precise reporting of the first nonconforming unit.
//!
//! The codec is driven through repeated `raw_feed` calls, each handing a chunk
//! of a logically single stream, followed by one `raw_finish` at end of
//! stream. Every byte accepted by a feed is written to an output sink before
//! the call returns, and an error reports exactly how much of the chunk was
//! consumed, so a caller can apply its own trap policy and resume.
//!
//! Validation runs through a chunked bulk scan that packs per-lane validity
//! tests into a bitmask, with a byte-at-a-time fallback for the tail; the two
//! paths are proved to return identical results.

pub mod ascii;
pub mod error;
pub mod laws;
pub mod scan;
pub mod sink;
