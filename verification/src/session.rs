//! Session orchestration on the ingest side: each input line runs
//! through the envelope decoder and, for WAV playback, the container
//! reassembler; counters record what every line contributed. Every
//! failure is local to its line — the session never stops on one.

use vstd::prelude::*;

use crate::envelope::{decode_line, outcome_of, LineFailure, LineModel, LineOutcome};
use crate::reassembler::{capture_step, initial_model, output_step, Reassembler, ReassemblerModel};

verus! {

/// Which container format the playback side decodes.
#[derive(Clone, Copy, Debug, PartialEq, Eq, Structural)]
pub enum AudioFormat {
    Mp3,
    Wav,
}

/// Monotonic counts of what the ingest side has seen, read once at the
/// end of the run for reporting.
#[derive(Clone, Copy, Debug, PartialEq, Eq, Structural)]
pub struct SessionCounters {
    /// Lines read from the input, blank or not.
    pub lines: u64,
    /// Lines that parsed as envelopes.
    pub parsed: u64,
    /// Envelopes whose payload decoded to a fragment.
    pub decoded: u64,
    /// Lines that were no envelope.
    pub parse_failures: u64,
    /// Envelopes whose payload was not valid base64.
    pub encoding_failures: u64,
    /// Fragments whose bytes were not a gzip stream.
    pub decompression_failures: u64,
}

/// `x + 1`, stopping at the largest count rather than wrapping.
pub open spec fn sat_inc(x: u64) -> u64 {
    if x < u64::MAX {
        (x + 1) as u64
    } else {
        x
    }
}

/// Counters before any line has been seen.
pub open spec fn zero_counters() -> SessionCounters {
    SessionCounters {
        lines: 0,
        parsed: 0,
        decoded: 0,
        parse_failures: 0,
        encoding_failures: 0,
        decompression_failures: 0,
    }
}

/// How one line's outcome advances the counters: every line counts as a
/// line; a blank line counts as nothing else; a failure counts under its
/// classification alone (an envelope that failed later still counts as
/// parsed); a fragment counts as parsed and decoded.
pub open spec fn counters_step(c: SessionCounters, m: LineModel) -> SessionCounters {
    match m {
        LineModel::Blank => SessionCounters { lines: sat_inc(c.lines), ..c },
        LineModel::Failed(LineFailure::MalformedEnvelope) => SessionCounters {
            lines: sat_inc(c.lines),
            parse_failures: sat_inc(c.parse_failures),
            ..c
        },
        LineModel::Failed(LineFailure::InvalidEncoding) => SessionCounters {
            lines: sat_inc(c.lines),
            parsed: sat_inc(c.parsed),
            encoding_failures: sat_inc(c.encoding_failures),
            ..c
        },
        LineModel::Failed(LineFailure::DecompressionFailure) => SessionCounters {
            lines: sat_inc(c.lines),
            parsed: sat_inc(c.parsed),
            decompression_failures: sat_inc(c.decompression_failures),
            ..c
        },
        LineModel::Fragment(_) => SessionCounters {
            lines: sat_inc(c.lines),
            parsed: sat_inc(c.parsed),
            decoded: sat_inc(c.decoded),
            ..c
        },
    }
}

/// Increments a counter, stopping at the largest count.
fn inc(x: u64) -> (r: u64)
    ensures
        r == sat_inc(x),
{
    if x < u64::MAX {
        x + 1
    } else {
        x
    }
}

/// What the session asks its caller to do with one line.
pub enum IngestAction {
    /// The line was blank: nothing to hand on, nothing to report.
    Skip,
    /// The line was discarded with a classified failure; the stream
    /// goes on.
    Report(LineFailure),
    /// Hand these ready-to-decode bytes to the transport.
    Forward(Vec<u8>),
}

/// The ingest side of one run: configuration, counters, and the
/// reassembly state for WAV playback.
pub struct Session {
    format: AudioFormat,
    gzip: bool,
    counters: SessionCounters,
    reassembler: Reassembler,
}

impl Session {
    /// The playback format this session was opened with.
    pub closed spec fn format_spec(self) -> AudioFormat {
        self.format
    }

    /// Whether this session inflates decoded payloads as gzip streams.
    pub closed spec fn gzip_spec(self) -> bool {
        self.gzip
    }

    /// The counters so far.
    pub closed spec fn counters_spec(self) -> SessionCounters {
        self.counters
    }

    /// The reassembler's state so far.
    pub closed spec fn reassembler_spec(self) -> ReassemblerModel {
        self.reassembler.model()
    }

    /// A session before any input, with the given configuration.
    pub fn new(format: AudioFormat, gzip: bool) -> (s: Session)
        ensures
            s.format_spec() == format,
            s.gzip_spec() == gzip,
            s.counters_spec() == zero_counters(),
            s.reassembler_spec() == initial_model(),
    {
        Session {
            format,
            gzip,
            counters: SessionCounters {
                lines: 0,
                parsed: 0,
                decoded: 0,
                parse_failures: 0,
                encoding_failures: 0,
                decompression_failures: 0,
            },
            reassembler: Reassembler::new(),
        }
    }

    /// Runs one input line through the decoder and, for WAV playback,
    /// the reassembler: the counters advance by exactly the line's
    /// outcome, a fragment comes back ready to forward, and any failure
    /// is reported without ending the stream.
    pub fn ingest_line(&mut self, line: &str) -> (r: IngestAction)
        ensures
            final(self).format_spec() == old(self).format_spec(),
            final(self).gzip_spec() == old(self).gzip_spec(),
            final(self).counters_spec() == counters_step(
                old(self).counters_spec(),
                outcome_of(line@, old(self).gzip_spec()),
            ),
            match outcome_of(line@, old(self).gzip_spec()) {
                LineModel::Blank => {
                    &&& r is Skip
                    &&& final(self).reassembler_spec() == old(self).reassembler_spec()
                },
                LineModel::Failed(f) => {
                    &&& (r matches IngestAction::Report(g) && g == f)
                    &&& final(self).reassembler_spec() == old(self).reassembler_spec()
                },
                LineModel::Fragment(bytes) => {
                    if old(self).format_spec() == AudioFormat::Wav {
                        &&& (r matches IngestAction::Forward(v) && v@ == output_step(
                            old(self).reassembler_spec(),
                            bytes,
                        ))
                        &&& final(self).reassembler_spec() == capture_step(
                            old(self).reassembler_spec(),
                            bytes,
                        )
                    } else {
                        &&& (r matches IngestAction::Forward(v) && v@ == bytes)
                        &&& final(self).reassembler_spec() == old(self).reassembler_spec()
                    }
                },
            },
    {
        match decode_line(line, self.gzip) {
            LineOutcome::Blank => {
                self.counters.lines = inc(self.counters.lines);
                IngestAction::Skip
            }
            LineOutcome::Failed(f) => {
                self.counters.lines = inc(self.counters.lines);
                match f {
                    LineFailure::MalformedEnvelope => {
                        self.counters.parse_failures = inc(self.counters.parse_failures);
                    }
                    LineFailure::InvalidEncoding => {
                        self.counters.parsed = inc(self.counters.parsed);
                        self.counters.encoding_failures = inc(self.counters.encoding_failures);
                    }
                    LineFailure::DecompressionFailure => {
                        self.counters.parsed = inc(self.counters.parsed);
                        self.counters.decompression_failures = inc(
                            self.counters.decompression_failures,
                        );
                    }
                }
                IngestAction::Report(f)
            }
            LineOutcome::Fragment(bytes) => {
                self.counters.lines = inc(self.counters.lines);
                self.counters.parsed = inc(self.counters.parsed);
                self.counters.decoded = inc(self.counters.decoded);
                if self.format == AudioFormat::Wav {
                    let out = self.reassembler.process(bytes);
                    IngestAction::Forward(out)
                } else {
                    IngestAction::Forward(bytes)
                }
            }
        }
    }

    /// The counters so far, for end-of-run reporting.
    pub fn counters(&self) -> (c: SessionCounters)
        ensures
            c == self.counters_spec(),
    {
        self.counters
    }
}

} // verus!
