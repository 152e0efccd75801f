//! Envelope decoding: one text line carries a structured record whose
//! `data` field holds a base64 payload; decoding recovers the fragment's
//! raw bytes, optionally inflating them as a gzip stream. Every failure
//! is classified and local to its line — the decoder never panics and
//! never ends the stream.

use vstd::pervasive::unreached;
use vstd::prelude::*;

verus! {

/// The classified ways one line can fail to yield a fragment.
#[derive(Clone, Copy, Debug, PartialEq, Eq, Structural)]
pub enum LineFailure {
    /// The line is not a structured record with a text `data` field.
    MalformedEnvelope,
    /// The `data` field is not valid base64.
    InvalidEncoding,
    /// The decoded bytes are not a complete gzip stream.
    DecompressionFailure,
}

/// What `str::trim` returns for a string: its characters without leading
/// and trailing whitespace.
pub uninterp spec fn trimmed_of(s: Seq<char>) -> Seq<char>;

/// Whether a line holds nothing but whitespace.
pub open spec fn blank_of(s: Seq<char>) -> bool {
    trimmed_of(s).len() == 0
}

/// The text `data` field of the structured record a line parses as, or
/// `None` when the line is not such a record.
pub uninterp spec fn envelope_data_of(line: Seq<char>) -> Option<Seq<char>>;

/// The bytes that standard-alphabet, padded base64 text decodes to, or
/// `None` when the text is not valid base64.
pub uninterp spec fn b64_decode_of(s: Seq<char>) -> Option<Seq<u8>>;

/// The bytes a complete gzip stream inflates to, or `None` when the
/// bytes are not such a stream.
pub uninterp spec fn gunzip_of(b: Seq<u8>) -> Option<Seq<u8>>;

/// Relies on `str::trim`: removes leading and trailing whitespace; the
/// result depends on the characters alone.
#[verifier::external_body]
fn trim_str(s: &str) -> (r: &str)
    ensures
        r@ == trimmed_of(s@),
{
    s.trim()
}

/// Relies on `serde_json::from_str::<Value>`, `Value::get` and
/// `Value::as_str`: parses one line as a JSON value and takes its `data`
/// field when that field holds a string; the result depends on the
/// line's characters alone. Extra fields are ignored.
#[verifier::external_body]
fn parse_envelope_data(line: &str) -> (r: Option<String>)
    ensures
        match r {
            Some(d) => envelope_data_of(line@) == Some(d@),
            None => envelope_data_of(line@) is None,
        },
{
    match serde_json::from_str::<serde_json::Value>(line) {
        Ok(v) => match v.get("data") {
            Some(d) => match d.as_str() {
                Some(s) => Some(s.to_string()),
                None => None,
            },
            None => None,
        },
        Err(_) => None,
    }
}

/// Relies on `base64::engine::general_purpose::STANDARD.decode`: decodes
/// standard-alphabet, padded base64; the result depends on the text
/// alone.
#[verifier::external_body]
fn b64_decode(s: &str) -> (r: Option<Vec<u8>>)
    ensures
        match r {
            Some(b) => b64_decode_of(s@) == Some(b@),
            None => b64_decode_of(s@) is None,
        },
{
    base64::Engine::decode(&base64::engine::general_purpose::STANDARD, s).ok()
}

/// Relies on `base64::engine::general_purpose::STANDARD.encode`, whose
/// output the same engine's decode inverts: decoding an encoded buffer
/// yields the buffer back.
#[verifier::external_body]
fn b64_encode(b: &[u8]) -> (r: String)
    ensures
        b64_decode_of(r@) == Some(b@),
{
    base64::Engine::encode(&base64::engine::general_purpose::STANDARD, b)
}

/// Relies on `flate2::read::GzDecoder` and `std::io::Read::read_to_end`:
/// inflates one complete in-memory gzip stream; the result depends on
/// the bytes alone.
#[verifier::external_body]
fn gunzip(b: &[u8]) -> (r: Option<Vec<u8>>)
    ensures
        match r {
            Some(o) => gunzip_of(b@) == Some(o@),
            None => gunzip_of(b@) is None,
        },
{
    let mut out: Vec<u8> = Vec::new();
    let mut dec = flate2::read::GzDecoder::new(b);
    match std::io::Read::read_to_end(&mut dec, &mut out) {
        Ok(_) => Some(out),
        Err(_) => None,
    }
}

/// Relies on `flate2::read::GzEncoder` over an in-memory buffer, whose
/// output `GzDecoder` inflates back to the input; reading from an
/// in-memory encoder cannot fail.
#[verifier::external_body]
fn gzip_compress(b: &[u8]) -> (r: Vec<u8>)
    ensures
        gunzip_of(r@) == Some(b@),
{
    let mut out: Vec<u8> = Vec::new();
    let mut enc = flate2::read::GzEncoder::new(b, flate2::Compression::default());
    std::io::Read::read_to_end(&mut enc, &mut out)
        .expect("reading from an in-memory gzip encoder cannot fail");
    out
}

/// What the decoder did with one line.
pub enum LineOutcome {
    /// The line held nothing but whitespace and was skipped.
    Blank,
    /// The line was discarded with a classified failure.
    Failed(LineFailure),
    /// The line yielded a fragment's raw bytes.
    Fragment(Vec<u8>),
}

/// The ghost image of a decoder outcome.
pub enum LineModel {
    Blank,
    Failed(LineFailure),
    Fragment(Seq<u8>),
}

impl LineOutcome {
    /// The ghost image of this outcome.
    pub open spec fn model(self) -> LineModel {
        match self {
            LineOutcome::Blank => LineModel::Blank,
            LineOutcome::Failed(f) => LineModel::Failed(f),
            LineOutcome::Fragment(v) => LineModel::Fragment(v@),
        }
    }
}

/// What the decoder yields for a line: blank lines are skipped; a line
/// that is no envelope, whose payload is not base64, or (with
/// decompression enabled) whose bytes are not a gzip stream fails with
/// the matching classification; otherwise the fragment's bytes.
pub open spec fn outcome_of(line: Seq<char>, gzip: bool) -> LineModel {
    if blank_of(line) {
        LineModel::Blank
    } else {
        match envelope_data_of(line) {
            None => LineModel::Failed(LineFailure::MalformedEnvelope),
            Some(d) => match b64_decode_of(d) {
                None => LineModel::Failed(LineFailure::InvalidEncoding),
                Some(raw) => if gzip {
                    match gunzip_of(raw) {
                        None => LineModel::Failed(LineFailure::DecompressionFailure),
                        Some(out) => LineModel::Fragment(out),
                    }
                } else {
                    LineModel::Fragment(raw)
                },
            },
        }
    }
}

/// Decodes one line of input into a fragment, a skip, or a classified
/// failure, exactly as `outcome_of` describes.
pub fn decode_line(line: &str, gzip: bool) -> (r: LineOutcome)
    ensures
        r.model() == outcome_of(line@, gzip),
{
    if trim_str(line).is_empty() {
        return LineOutcome::Blank;
    }
    let data = match parse_envelope_data(line) {
        Some(d) => d,
        None => {
            return LineOutcome::Failed(LineFailure::MalformedEnvelope);
        }
    };
    let raw = match b64_decode(data.as_str()) {
        Some(b) => b,
        None => {
            return LineOutcome::Failed(LineFailure::InvalidEncoding);
        }
    };
    if gzip {
        match gunzip(raw.as_slice()) {
            Some(out) => LineOutcome::Fragment(out),
            None => LineOutcome::Failed(LineFailure::DecompressionFailure),
        }
    } else {
        LineOutcome::Fragment(raw)
    }
}

/// Law: decoding is idempotent — the same line with the same
/// decompression setting decodes to the same outcome both times, byte
/// for byte.
pub fn decode_line_twice(line: &str, gzip: bool) -> (r: (LineOutcome, LineOutcome))
    ensures
        r.0.model() == r.1.model(),
        r.0.model() == outcome_of(line@, gzip),
{
    (decode_line(line, gzip), decode_line(line, gzip))
}

/// Law: base64-encoding a byte buffer and decoding it through the
/// decoder's base64 stage returns the original bytes.
pub fn base64_round_trip(bytes: &Vec<u8>) -> (r: Vec<u8>)
    ensures
        r@ == bytes@,
{
    let encoded = b64_encode(bytes.as_slice());
    match b64_decode(encoded.as_str()) {
        Some(v) => v,
        None => unreached(),
    }
}

/// Law: gzip-compressing a byte buffer and inflating it through the
/// decoder's decompression stage returns the original bytes.
pub fn gzip_round_trip(bytes: &Vec<u8>) -> (r: Vec<u8>)
    ensures
        r@ == bytes@,
{
    let compressed = gzip_compress(bytes.as_slice());
    match gunzip(compressed.as_slice()) {
        Some(v) => v,
        None => unreached(),
    }
}

} // verus!
