//! Streaming audio-fragment pipeline: envelope decoding, RIFF/WAVE
//! container reassembly, an ordered fragment transport, and playback
//! bookkeeping. Each input line carries one base64-encoded fragment;
//! the pipeline recovers the bytes, rebuilds a self-contained container
//! per fragment when the stream is incrementally wrapped WAV, and hands
//! the fragments onward in arrival order.

pub mod driver;
pub mod envelope;
pub mod reassembler;
pub mod session;
pub mod transport;
pub mod wav;
