use jsonl_player::driver::PlaybackDriver;
use jsonl_player::envelope::{
    base64_round_trip, decode_line, decode_line_twice, gzip_round_trip, LineFailure, LineOutcome,
};
use jsonl_player::session::{AudioFormat, IngestAction, Session};
use jsonl_player::transport::{PullOutcome, Transport};
use jsonl_player::wav::{extract_wav_header, read_u32_le};

fn b64(bytes: &[u8]) -> String {
    base64::Engine::encode(&base64::engine::general_purpose::STANDARD, bytes)
}

fn envelope_line(bytes: &[u8]) -> String {
    format!(r#"{{"data":"{}"}}"#, b64(bytes))
}

fn gzip(bytes: &[u8]) -> Vec<u8> {
    let mut out: Vec<u8> = Vec::new();
    let mut enc = flate2::read::GzEncoder::new(bytes, flate2::Compression::default());
    std::io::Read::read_to_end(&mut enc, &mut out).expect("in-memory gzip");
    out
}

fn expect_fragment(outcome: LineOutcome) -> Vec<u8> {
    match outcome {
        LineOutcome::Fragment(v) => v,
        LineOutcome::Blank => panic!("expected a fragment, line was blank"),
        LineOutcome::Failed(_) => panic!("expected a fragment, line failed"),
    }
}

#[test]
fn decode_line_recovers_payload_bytes() {
    let payload = [0u8, 1, 2, 250, 251, 252];
    let line = envelope_line(&payload);
    assert_eq!(expect_fragment(decode_line(&line, false)), payload);
}

#[test]
fn decode_line_ignores_extra_fields() {
    let payload = b"hello";
    let line = format!(r#"{{"seq":7,"data":"{}","note":"x"}}"#, b64(payload));
    assert_eq!(expect_fragment(decode_line(&line, false)), payload);
}

#[test]
fn decode_line_classifies_malformed_envelope() {
    for line in ["not json at all", "{\"data\": 5}", "{\"other\": \"aGk=\"}", "[1,2,3]"] {
        assert!(matches!(
            decode_line(line, false),
            LineOutcome::Failed(LineFailure::MalformedEnvelope)
        ));
    }
}

#[test]
fn decode_line_classifies_invalid_encoding() {
    let line = r#"{"data":"@@not-base64@@"}"#;
    assert!(matches!(
        decode_line(line, false),
        LineOutcome::Failed(LineFailure::InvalidEncoding)
    ));
}

#[test]
fn decode_line_inflates_gzip_payload() {
    let payload = b"pcm pcm pcm pcm pcm";
    let line = envelope_line(&gzip(payload));
    assert_eq!(expect_fragment(decode_line(&line, true)), payload);
}

#[test]
fn decode_line_classifies_corrupt_gzip() {
    // Valid base64, but the bytes are no gzip stream.
    let line = envelope_line(b"definitely not gzip");
    assert!(matches!(
        decode_line(&line, true),
        LineOutcome::Failed(LineFailure::DecompressionFailure)
    ));
    // A truncated stream fails too.
    let mut cut = gzip(b"some audio bytes");
    cut.truncate(cut.len() / 2);
    let line = envelope_line(&cut);
    assert!(matches!(
        decode_line(&line, true),
        LineOutcome::Failed(LineFailure::DecompressionFailure)
    ));
}

#[test]
fn decode_line_skips_blank_lines() {
    assert!(matches!(decode_line("", false), LineOutcome::Blank));
    assert!(matches!(decode_line("   \t  ", false), LineOutcome::Blank));
}

#[test]
fn decoding_is_idempotent() {
    let payload = b"same bytes every time";
    let line = envelope_line(&gzip(payload));
    let (a, b) = decode_line_twice(&line, true);
    assert_eq!(expect_fragment(a), payload);
    assert_eq!(expect_fragment(b), payload);
}

#[test]
fn base64_round_trip_returns_input() {
    let bytes = vec![0u8, 255, 1, 254, 2, 253];
    assert_eq!(base64_round_trip(&bytes), bytes);
    assert_eq!(base64_round_trip(&Vec::new()), Vec::<u8>::new());
}

#[test]
fn gzip_round_trip_returns_input() {
    let bytes = b"a fragment of raw pcm".to_vec();
    assert_eq!(gzip_round_trip(&bytes), bytes);
    assert_eq!(gzip_round_trip(&Vec::new()), Vec::<u8>::new());
}

#[test]
fn transport_delivers_in_push_order() {
    let mut t = Transport::new();
    assert!(t.push(vec![1]));
    assert!(t.push(vec![2, 2]));
    assert!(t.push(vec![3, 3, 3]));
    assert!(matches!(t.pull(), PullOutcome::Item(v) if v == vec![1]));
    assert!(matches!(t.pull(), PullOutcome::Item(v) if v == vec![2, 2]));
    assert!(matches!(t.pull(), PullOutcome::Item(v) if v == vec![3, 3, 3]));
    assert!(matches!(t.pull(), PullOutcome::Empty));
}

#[test]
fn transport_close_keeps_queued_items() {
    let mut t = Transport::new();
    assert!(t.push(vec![1]));
    assert!(t.push(vec![2]));
    t.close();
    assert!(!t.push(vec![3]));
    assert!(matches!(t.pull(), PullOutcome::Item(v) if v == vec![1]));
    assert!(matches!(t.pull(), PullOutcome::Item(v) if v == vec![2]));
    assert!(matches!(t.pull(), PullOutcome::Closed));
    assert!(matches!(t.pull(), PullOutcome::Closed));
}

#[test]
fn transport_drain_returns_push_order() {
    let mut t = Transport::new();
    let items = vec![vec![9u8], vec![8, 8], vec![7, 7, 7], vec![6]];
    for i in &items {
        assert!(t.push(i.clone()));
    }
    assert_eq!(t.drain(), items);
    assert!(matches!(t.pull(), PullOutcome::Empty));
}

fn expect_forward(action: IngestAction) -> Vec<u8> {
    match action {
        IngestAction::Forward(v) => v,
        IngestAction::Skip => panic!("expected a fragment, line was skipped"),
        IngestAction::Report(_) => panic!("expected a fragment, line failed"),
    }
}

#[test]
fn malformed_line_is_counted_and_skipped() {
    let mut s = Session::new(AudioFormat::Mp3, false);
    let a = expect_forward(s.ingest_line(&envelope_line(b"first")));
    assert_eq!(a, b"first");
    assert!(matches!(
        s.ingest_line("{this is not json"),
        IngestAction::Report(LineFailure::MalformedEnvelope)
    ));
    let b = expect_forward(s.ingest_line(&envelope_line(b"second")));
    assert_eq!(b, b"second");
    let c = s.counters();
    assert_eq!(c.lines, 3);
    assert_eq!(c.parsed, 2);
    assert_eq!(c.decoded, 2);
    assert_eq!(c.parse_failures, 1);
    assert_eq!(c.encoding_failures, 0);
    assert_eq!(c.decompression_failures, 0);
}

#[test]
fn empty_line_counts_as_nothing_but_a_line() {
    let mut s = Session::new(AudioFormat::Mp3, false);
    expect_forward(s.ingest_line(&envelope_line(b"one")));
    assert!(matches!(s.ingest_line(""), IngestAction::Skip));
    expect_forward(s.ingest_line(&envelope_line(b"two")));
    let c = s.counters();
    assert_eq!(c.lines, 3);
    assert_eq!(c.parsed, 2);
    assert_eq!(c.decoded, 2);
    assert_eq!(c.parse_failures, 0);
}

#[test]
fn three_valid_lines_end_to_end_counts() {
    // Three envelopes, each wrapping one small fragment; the whole
    // ingest-transport-playback path, with every codec hand-off
    // succeeding, reports 3/3/3.
    let fragments: [&[u8]; 3] = [b"frag one", b"frag two", b"frag three"];
    let mut s = Session::new(AudioFormat::Mp3, false);
    let mut t = Transport::new();
    for f in fragments {
        let out = expect_forward(s.ingest_line(&envelope_line(f)));
        assert!(t.push(out));
    }
    t.close();

    let mut d = PlaybackDriver::new();
    let mut seen: Vec<Vec<u8>> = Vec::new();
    loop {
        match t.pull() {
            PullOutcome::Item(v) => {
                let ordinal = d.begin_fragment();
                assert_eq!(ordinal as usize, seen.len() + 1);
                seen.push(v);
                d.record_success();
            }
            PullOutcome::Closed => break,
            PullOutcome::Empty => panic!("producer already closed"),
        }
    }
    assert_eq!(seen, fragments.iter().map(|f| f.to_vec()).collect::<Vec<_>>());

    let c = s.counters();
    assert_eq!((c.lines, c.parsed, c.decoded), (3, 3, 3));
    assert_eq!(d.counts(), (3, 3, 0));
}

#[test]
fn playback_order_survives_codec_failures() {
    // Fragments reach the codec in arrival order even when some are
    // rejected and dropped.
    let mut t = Transport::new();
    for i in 0u8..5 {
        assert!(t.push(vec![i]));
    }
    t.close();
    let mut d = PlaybackDriver::new();
    let mut order: Vec<u8> = Vec::new();
    loop {
        match t.pull() {
            PullOutcome::Item(v) => {
                let ordinal = d.begin_fragment();
                order.push(v[0]);
                // The codec rejects every second fragment.
                if ordinal % 2 == 0 {
                    d.record_failure();
                } else {
                    d.record_success();
                }
            }
            PullOutcome::Closed => break,
            PullOutcome::Empty => panic!("producer already closed"),
        }
    }
    assert_eq!(order, vec![0, 1, 2, 3, 4]);
    assert_eq!(d.counts(), (5, 3, 2));
}

#[test]
fn wav_session_wraps_later_fragments() {
    // A WAV session: the first envelope carries a full container, later
    // ones carry raw PCM; the session forwards the first unchanged and
    // wraps the rest with the captured header.
    let mut first = Vec::new();
    first.extend_from_slice(b"RIFF");
    first.extend_from_slice(&36u32.to_le_bytes());
    first.extend_from_slice(b"WAVE");
    first.extend_from_slice(b"fmt ");
    first.extend_from_slice(&16u32.to_le_bytes());
    first.extend_from_slice(&[0u8; 16]);
    first.extend_from_slice(b"data");
    first.extend_from_slice(&8u32.to_le_bytes());
    first.extend_from_slice(&[1u8; 8]);
    let (header, _) = extract_wav_header(&first).expect("header expected");

    let mut s = Session::new(AudioFormat::Wav, false);
    let out1 = expect_forward(s.ingest_line(&envelope_line(&first)));
    assert_eq!(out1, first);

    let pcm = [3u8; 12];
    let out2 = expect_forward(s.ingest_line(&envelope_line(&pcm)));
    assert_eq!(out2.len(), header.len() + pcm.len());
    assert_eq!(read_u32_le(&out2[4..8]), (header.len() + pcm.len() - 8) as u32);
    assert_eq!(read_u32_le(&out2[header.len() - 4..header.len()]), pcm.len() as u32);
    assert_eq!(&out2[header.len()..], &pcm[..]);
}
