//! Stateful container reassembly: the first fragment of a WAV session may
//! yield a captured header; every later fragment is wrapped with that
//! header so it becomes an independently decodable container. When no
//! header could be captured from the first fragment, every fragment of
//! the session passes through unchanged.

use vstd::prelude::*;

use crate::wav::{extract_wav_header, reconstruct_spec, reconstruct_wav_file, wav_header_spec};

verus! {

/// The ghost image of a reassembler: whether the first fragment of the
/// session has been seen, and the header captured from it, if any.
pub struct ReassemblerModel {
    pub started: bool,
    pub header: Option<Seq<u8>>,
}

/// The state a reassembler starts a session in.
pub open spec fn initial_model() -> ReassemblerModel {
    ReassemblerModel { started: false, header: None }
}

/// Whether a captured header and a fragment are small enough for the two
/// patched 32-bit length fields of a reconstructed container.
pub open spec fn reconstruct_ok(h: Seq<u8>, a: Seq<u8>) -> bool {
    &&& h.len() >= 12
    &&& a.len() <= u32::MAX
    &&& h.len() + a.len() <= u32::MAX + 8
}

/// How one fragment advances the reassembler's state: the first fragment
/// fixes the captured header (or its absence) for the rest of the
/// session; later fragments leave the state unchanged.
pub open spec fn capture_step(m: ReassemblerModel, frag: Seq<u8>) -> ReassemblerModel {
    if m.started {
        m
    } else {
        ReassemblerModel {
            started: true,
            header: match wav_header_spec(frag) {
                Some(p) => Some(p.0),
                None => None,
            },
        }
    }
}

/// What the reassembler emits for one fragment: the first fragment and
/// every fragment of a session without a captured header pass through
/// unchanged; later fragments are wrapped in a reconstructed container
/// when the patched length fields can hold the sizes.
pub open spec fn output_step(m: ReassemblerModel, frag: Seq<u8>) -> Seq<u8> {
    if !m.started {
        frag
    } else {
        match m.header {
            Some(h) => if reconstruct_ok(h, frag) {
                reconstruct_spec(h, frag)
            } else {
                frag
            },
            None => frag,
        }
    }
}

/// The reassembler state after a sequence of fragments.
pub open spec fn model_after(frags: Seq<Seq<u8>>) -> ReassemblerModel
    decreases frags.len(),
{
    if frags.len() == 0 {
        initial_model()
    } else {
        capture_step(model_after(frags.drop_last()), frags.last())
    }
}

/// Everything the reassembler emits for a sequence of fragments, in
/// emission order.
pub open spec fn outputs_of(frags: Seq<Seq<u8>>) -> Seq<Seq<u8>>
    decreases frags.len(),
{
    if frags.len() == 0 {
        Seq::empty()
    } else {
        outputs_of(frags.drop_last()).push(
            output_step(model_after(frags.drop_last()), frags.last()),
        )
    }
}

/// One output leaves the reassembler for each fragment that enters it.
pub proof fn lemma_outputs_len(frags: Seq<Seq<u8>>)
    ensures
        outputs_of(frags).len() == frags.len(),
    decreases frags.len(),
{
    if frags.len() > 0 {
        lemma_outputs_len(frags.drop_last());
    }
}

/// Reassembly preserves arrival order: the outputs for the first `n`
/// fragments are exactly the first `n` outputs of the whole session, so
/// feeding fragments one at a time emits them in the order they arrived.
pub proof fn lemma_outputs_in_order(frags: Seq<Seq<u8>>, n: int)
    requires
        0 <= n <= frags.len(),
    ensures
        outputs_of(frags.take(n)) == outputs_of(frags).take(n),
    decreases frags.len(),
{
    lemma_outputs_len(frags);
    if n == frags.len() {
        assert(frags.take(n) =~= frags);
        assert(outputs_of(frags).take(n) =~= outputs_of(frags));
    } else {
        let dl = frags.drop_last();
        lemma_outputs_len(dl);
        lemma_outputs_in_order(dl, n);
        assert(frags.take(n) =~= dl.take(n));
        assert(outputs_of(frags).take(n) =~= outputs_of(dl).take(n));
    }
}

/// The output at position `i` is a function of the fragment at position
/// `i` and the state left by the fragments before it: no output draws on
/// later fragments, and none is reordered past another.
pub proof fn lemma_output_at(frags: Seq<Seq<u8>>, i: int)
    requires
        0 <= i < frags.len(),
    ensures
        outputs_of(frags)[i] == output_step(model_after(frags.take(i)), frags[i]),
    decreases frags.len(),
{
    lemma_outputs_len(frags.drop_last());
    if i == frags.len() - 1 {
        assert(frags.take(i) =~= frags.drop_last());
    } else {
        let dl = frags.drop_last();
        lemma_output_at(dl, i);
        assert(frags.take(i) =~= dl.take(i));
    }
}

/// Per-session reassembly state, fed one fragment at a time.
pub struct Reassembler {
    started: bool,
    header: Option<Vec<u8>>,
}

impl Reassembler {
    /// The ghost image of this reassembler.
    pub closed spec fn model(self) -> ReassemblerModel {
        ReassemblerModel {
            started: self.started,
            header: match self.header {
                Some(v) => Some(v@),
                None => None,
            },
        }
    }

    /// A reassembler for a fresh session: nothing seen, nothing captured.
    pub fn new() -> (r: Reassembler)
        ensures
            r.model() == initial_model(),
    {
        Reassembler { started: false, header: None }
    }

    /// Feeds one fragment through the reassembler and returns the bytes
    /// to hand onward: the fragment itself, or a reconstructed container
    /// once a header has been captured.
    pub fn process(&mut self, fragment: Vec<u8>) -> (out: Vec<u8>)
        ensures
            final(self).model() == capture_step(old(self).model(), fragment@),
            out@ == output_step(old(self).model(), fragment@),
    {
        if !self.started {
            self.started = true;
            match extract_wav_header(fragment.as_slice()) {
                Some(p) => {
                    self.header = Some(p.0);
                }
                None => {
                    self.header = None;
                }
            }
            fragment
        } else {
            match &self.header {
                Some(h) => {
                    if h.len() >= 12 && (fragment.len() as u64) <= (u32::MAX as u64)
                        && (h.len() as u64) <= (u32::MAX as u64) + 8
                        && (h.len() as u64) + (fragment.len() as u64) <= (u32::MAX as u64) + 8 {
                        reconstruct_wav_file(h.as_slice(), fragment.as_slice())
                    } else {
                        fragment
                    }
                }
                None => fragment,
            }
        }
    }
}

} // verus!
