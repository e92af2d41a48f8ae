use ascii_codec::ascii::ASCIIEncoding;
use ascii_codec::error::{CodecError, CodecErrorCause};
use ascii_codec::scan;
use ascii_codec::sink::{ByteSink, StringSink};

#[test]
fn round_trip_every_representable_code_point() {
    for c in 0u8..=0x7F {
        let mut e = ASCIIEncoding.raw_encoder();
        let mut bytes = ByteSink::new();
        let text = (c as char).to_string();
        assert_eq!(e.raw_feed(&text, &mut bytes), (1, None));
        assert_eq!(e.raw_finish(&mut bytes), None);

        let mut d = ASCIIEncoding.raw_decoder();
        let mut chars = StringSink::new();
        assert_eq!(d.raw_feed(bytes.contents(), &mut chars), (1, None));
        assert_eq!(d.raw_finish(&mut chars), None);
        assert_eq!(*chars.contents(), vec![c as char]);
    }
}

#[test]
fn encode_early_exit_precision() {
    // One offending character of each possible UTF-8 width: 2, 3 and 4 bytes.
    for (bad, width) in [('\u{a0}', 2), ('\u{4e00}', 3), ('\u{1f600}', 4)] {
        let mut e = ASCIIEncoding.raw_encoder();
        let mut sink = ByteSink::new();
        let input = format!("AB{}C", bad);
        let (consumed, err) = e.raw_feed(&input, &mut sink);
        assert_eq!(consumed, 2);
        assert_eq!(
            err,
            Some(CodecError {
                upto: 2 + width,
                cause: CodecErrorCause::UnrepresentableUnit
            })
        );
        assert_eq!(*sink.contents(), vec![0x41u8, 0x42]);
    }
}

#[test]
fn decode_early_exit_precision() {
    let mut d = ASCIIEncoding.raw_decoder();
    let mut sink = StringSink::new();
    let (consumed, err) = d.raw_feed(&[0x58, 0xa0, 0x5a], &mut sink);
    assert_eq!(consumed, 1);
    assert_eq!(
        err,
        Some(CodecError {
            upto: 2,
            cause: CodecErrorCause::InvalidSequence
        })
    );
    assert_eq!(*sink.contents(), vec!['X']);
}

#[test]
fn empty_input_both_directions() {
    let mut e = ASCIIEncoding.raw_encoder();
    let mut bytes = ByteSink::new();
    assert_eq!(e.raw_feed("", &mut bytes), (0, None));
    assert_eq!(bytes.len(), 0);

    let mut d = ASCIIEncoding.raw_decoder();
    let mut chars = StringSink::new();
    assert_eq!(d.raw_feed(&[], &mut chars), (0, None));
    assert_eq!(chars.len(), 0);
}

#[test]
fn bulk_and_scalar_scans_are_equivalent() {
    // Every length up to four chunks, with an invalid byte injected at every
    // position, and with none; this sweeps past every chunk-boundary-adjacent
    // position (15, 16, 17, 31, 32, 33, ...).
    for len in 0usize..64 {
        for bad_at in 0..=len {
            let mut input: Vec<u8> = (0..len).map(|i| 0x20 + (i as u8 % 0x5f)).collect();
            if bad_at < len {
                input[bad_at] = 0x80 + (bad_at as u8 % 0x7f);
            }

            let mut bulk_sink = ByteSink::new();
            let bulk = scan::raw_feed(&input, &mut bulk_sink);
            let mut scalar_sink = ByteSink::new();
            let scalar = scan::slow_raw_feed(&input, &mut scalar_sink, 0);

            assert_eq!(bulk, scalar);
            assert_eq!(*bulk_sink.contents(), *scalar_sink.contents());
            assert_eq!(bulk, if bad_at < len { bad_at } else { len });
            assert_eq!(*bulk_sink.contents(), input[..bulk].to_vec());
        }
    }
}

#[test]
fn finish_is_a_no_op() {
    let mut e = ASCIIEncoding.raw_encoder();
    let mut bytes = ByteSink::new();
    assert_eq!(e.raw_finish(&mut bytes), None);
    assert_eq!(bytes.len(), 0);
    assert_eq!(e.raw_feed("fed", &mut bytes), (3, None));
    assert_eq!(e.raw_finish(&mut bytes), None);
    assert_eq!(*bytes.contents(), vec![0x66u8, 0x65, 0x64]);

    let mut d = ASCIIEncoding.raw_decoder();
    let mut chars = StringSink::new();
    assert_eq!(d.raw_finish(&mut chars), None);
    assert_eq!(chars.len(), 0);
    assert_eq!(d.raw_feed(&[0x66, 0x65, 0x64], &mut chars), (3, None));
    assert_eq!(d.raw_finish(&mut chars), None);
    assert_eq!(*chars.contents(), vec!['f', 'e', 'd']);
}

#[test]
fn resumption_split_decode_matches_single_feed() {
    let stream: Vec<u8> = b"the quick brown fox".to_vec();

    let mut d = ASCIIEncoding.raw_decoder();
    let mut whole = StringSink::new();
    let (whole_consumed, whole_err) = d.raw_feed(&stream, &mut whole);
    assert_eq!(whole_err, None);

    for split in 0..=stream.len() {
        let mut d = ASCIIEncoding.raw_decoder();
        let mut sink = StringSink::new();
        let (c1, e1) = d.raw_feed(&stream[..split], &mut sink);
        assert_eq!((c1, e1), (split, None));
        let (c2, e2) = d.raw_feed(&stream[split..], &mut sink);
        assert_eq!(e2, None);
        assert_eq!(c1 + c2, whole_consumed);
        assert_eq!(*sink.contents(), *whole.contents());
    }
}

#[test]
fn resumption_split_encode_matches_single_feed() {
    let stream = "incremental codecs resume";

    let mut e = ASCIIEncoding.raw_encoder();
    let mut whole = ByteSink::new();
    let (whole_consumed, whole_err) = e.raw_feed(stream, &mut whole);
    assert_eq!(whole_err, None);

    for (split, _) in stream.char_indices() {
        let mut e = ASCIIEncoding.raw_encoder();
        let mut sink = ByteSink::new();
        let (c1, e1) = e.raw_feed(&stream[..split], &mut sink);
        assert_eq!((c1, e1), (split, None));
        let (c2, e2) = e.raw_feed(&stream[split..], &mut sink);
        assert_eq!(e2, None);
        assert_eq!(c1 + c2, whole_consumed);
        assert_eq!(*sink.contents(), *whole.contents());
    }
}

#[test]
fn resumption_in_three_chunks() {
    let stream: Vec<u8> = b"split me three ways".to_vec();

    let mut d = ASCIIEncoding.raw_decoder();
    let mut whole = StringSink::new();
    let (whole_consumed, _) = d.raw_feed(&stream, &mut whole);

    let mut d = ASCIIEncoding.raw_decoder();
    let mut sink = StringSink::new();
    let (c1, _) = d.raw_feed(&stream[..5], &mut sink);
    let (c2, _) = d.raw_feed(&stream[5..11], &mut sink);
    let (c3, _) = d.raw_feed(&stream[11..], &mut sink);
    assert_eq!(c1 + c2 + c3, whole_consumed);
    assert_eq!(*sink.contents(), *whole.contents());
}

#[test]
fn resumption_past_a_reported_error() {
    // A caller that skips exactly past the offending unit (as the reported
    // span directs) sees the rest of the stream decoded as if the bad byte
    // had never been there.
    let stream: [u8; 7] = [0x61, 0x62, 0xff, 0x63, 0x64, 0xa0, 0x65];

    let mut d = ASCIIEncoding.raw_decoder();
    let mut sink = StringSink::new();
    let (c1, e1) = d.raw_feed(&stream, &mut sink);
    assert_eq!(c1, 2);
    let skip_to = e1.unwrap().upto as usize;
    assert_eq!(skip_to, 3);
    let (c2, e2) = d.raw_feed(&stream[skip_to..], &mut sink);
    assert_eq!(c2, 2);
    let skip_to = skip_to + e2.unwrap().upto as usize;
    assert_eq!(skip_to, 6);
    let (c3, e3) = d.raw_feed(&stream[skip_to..], &mut sink);
    assert_eq!((c3, e3), (1, None));
    assert_eq!(*sink.contents(), vec!['a', 'b', 'c', 'd', 'e']);
}
