//! RIFF/WAVE container handling: locating the `data` sub-chunk in a first
//! fragment, capturing the header bytes that precede its payload, and
//! splicing that header onto later fragments so each becomes a
//! self-contained container.

use vstd::prelude::*;

verus! {

/// The value of four bytes read as a little-endian 32-bit integer.
pub open spec fn le_u32(b0: u8, b1: u8, b2: u8, b3: u8) -> u32 {
    (b0 as u32) | (b1 as u32) << 8 | (b2 as u32) << 16 | (b3 as u32) << 24
}

/// The little-endian 32-bit value stored at offset `i` of `s`.
pub open spec fn le_u32_at(s: Seq<u8>, i: int) -> u32 {
    le_u32(s[i], s[i + 1], s[i + 2], s[i + 3])
}

/// The four bytes of `v` in little-endian order.
pub open spec fn u32_le_seq(v: u32) -> Seq<u8> {
    seq![
        (v & 0xff) as u8,
        ((v >> 8) & 0xff) as u8,
        ((v >> 16) & 0xff) as u8,
        ((v >> 24) & 0xff) as u8,
    ]
}

/// Reading back the four little-endian bytes of `v` recovers `v`.
pub proof fn lemma_le_roundtrip(v: u32)
    ensures
        le_u32_at(u32_le_seq(v), 0) == v,
{
    assert((((v & 0xff) as u8) as u32) | ((((v >> 8) & 0xff) as u8) as u32) << 8
        | ((((v >> 16) & 0xff) as u8) as u32) << 16 | ((((v >> 24) & 0xff) as u8) as u32) << 24
        == v) by (bit_vector);
}

/// Reads the little-endian 32-bit value at the start of `data`.
pub fn read_u32_le(data: &[u8]) -> (r: u32)
    requires
        data@.len() >= 4,
    ensures
        r == le_u32_at(data@, 0),
{
    read_u32_le_at(data, 0)
}

/// Reads the little-endian 32-bit value at offset `pos` of `data`.
fn read_u32_le_at(data: &[u8], pos: usize) -> (r: u32)
    requires
        pos + 4 <= data@.len(),
    ensures
        r == le_u32_at(data@, pos as int),
{
    (data[pos] as u32) | (data[pos + 1] as u32) << 8 | (data[pos + 2] as u32) << 16
        | (data[pos + 3] as u32) << 24
}

/// Writes `value` as four little-endian bytes.
pub fn write_u32_le(value: u32) -> (r: [u8; 4])
    ensures
        r@ == u32_le_seq(value),
{
    let r: [u8; 4] = [
        (value & 0xff) as u8,
        ((value >> 8) & 0xff) as u8,
        ((value >> 16) & 0xff) as u8,
        ((value >> 24) & 0xff) as u8,
    ];
    proof {
        assert(r@ =~= u32_le_seq(value));
    }
    r
}

/// The four ASCII bytes of the `RIFF` outer-chunk tag.
pub open spec fn riff_tag() -> Seq<u8> {
    seq![82u8, 73u8, 70u8, 70u8]
}

/// The four ASCII bytes of the `WAVE` form tag.
pub open spec fn wave_tag() -> Seq<u8> {
    seq![87u8, 65u8, 86u8, 69u8]
}

/// The four ASCII bytes of the `data` sub-chunk tag.
pub open spec fn data_tag() -> Seq<u8> {
    seq![100u8, 97u8, 116u8, 97u8]
}

/// Scans sub-chunk headers from `pos`, skipping each sub-chunk's payload
/// (and its pad byte when the payload length is odd and a byte follows),
/// and yields the offset just past the 8-byte header of the first
/// sub-chunk tagged `data`, if the scan finds one before running off the
/// end of `data`.
pub open spec fn find_data_start(data: Seq<u8>, pos: int) -> Option<int>
    decreases data.len() - pos,
{
    if pos < 0 || pos + 8 > data.len() {
        None
    } else if data.subrange(pos, pos + 4) == data_tag() {
        Some(pos + 8)
    } else {
        let size = le_u32_at(data, pos + 4) as int;
        let end = pos + 8 + size;
        if end > data.len() {
            None
        } else if size % 2 == 1 && end < data.len() {
            find_data_start(data, end + 1)
        } else {
            find_data_start(data, end)
        }
    }
}

/// A successful scan lands strictly past `pos + 8` and within `data`,
/// and the eight bytes before the result are the `data` sub-chunk header.
pub proof fn lemma_find_data_start_bounds(data: Seq<u8>, pos: int)
    requires
        find_data_start(data, pos) is Some,
    ensures
        pos + 8 <= find_data_start(data, pos).unwrap() <= data.len(),
        data.subrange(find_data_start(data, pos).unwrap() - 8, find_data_start(data, pos).unwrap() - 4)
            == data_tag(),
    decreases data.len() - pos,
{
    if data.subrange(pos, pos + 4) == data_tag() {
    } else {
        let size = le_u32_at(data, pos + 4) as int;
        let end = pos + 8 + size;
        if size % 2 == 1 && end < data.len() {
            lemma_find_data_start_bounds(data, end + 1);
        } else {
            lemma_find_data_start_bounds(data, end);
        }
    }
}

/// The captured header of a first WAV fragment: the bytes from the start
/// of the fragment through the 8-byte header of its `data` sub-chunk,
/// together with the offset at which the `data` payload begins. `None`
/// when the fragment does not start with a RIFF/WAVE signature or no
/// `data` sub-chunk lies within it.
pub open spec fn wav_header_spec(data: Seq<u8>) -> Option<(Seq<u8>, int)> {
    if data.len() < 12 {
        None
    } else if data.subrange(0, 4) != riff_tag() || data.subrange(8, 12) != wave_tag() {
        None
    } else {
        match find_data_start(data, 12) {
            Some(ds) => Some((data.subrange(0, ds), ds)),
            None => None,
        }
    }
}

/// A captured header spans at least the 12-byte outer header plus one
/// 8-byte sub-chunk header, lies within the fragment, and ends with the
/// `data` sub-chunk header.
pub proof fn lemma_wav_header_bounds(data: Seq<u8>)
    requires
        wav_header_spec(data) is Some,
    ensures
        20 <= wav_header_spec(data).unwrap().0.len() <= data.len(),
        wav_header_spec(data).unwrap().1 == wav_header_spec(data).unwrap().0.len(),
{
    lemma_find_data_start_bounds(data, 12);
}

/// Appends `src[from..to]` to `dst`.
fn push_range(dst: &mut Vec<u8>, src: &[u8], from: usize, to: usize)
    requires
        from <= to <= src@.len(),
    ensures
        final(dst)@ == old(dst)@ + src@.subrange(from as int, to as int),
{
    let mut i: usize = from;
    while i < to
        invariant
            from <= i <= to <= src@.len(),
            dst@ == old(dst)@ + src@.subrange(from as int, i as int),
        decreases to - i,
    {
        dst.push(src[i]);
        proof {
            assert(src@.subrange(from as int, i + 1) =~= src@.subrange(from as int, i as int)
                + seq![src@[i as int]]);
        }
        i = i + 1;
    }
    proof {
        assert(dst@ =~= old(dst)@ + src@.subrange(from as int, to as int));
    }
}

/// Whether the four bytes of `data` at `pos` are `t0 t1 t2 t3`.
fn tag_at(data: &[u8], pos: usize, t0: u8, t1: u8, t2: u8, t3: u8) -> (r: bool)
    requires
        pos + 4 <= data@.len(),
    ensures
        r <==> data@.subrange(pos as int, pos as int + 4) == seq![t0, t1, t2, t3],
{
    let r = data[pos] == t0 && data[pos + 1] == t1 && data[pos + 2] == t2 && data[pos + 3] == t3;
    proof {
        let s = data@.subrange(pos as int, pos as int + 4);
        let t = seq![t0, t1, t2, t3];
        assert(s[0] == data@[pos as int] && s[1] == data@[pos as int + 1]
            && s[2] == data@[pos as int + 2] && s[3] == data@[pos as int + 3]);
        assert(t[0] == t0 && t[1] == t1 && t[2] == t2 && t[3] == t3);
        if r {
            assert(s =~= t);
        }
    }
    r
}

/// Scans a first fragment for its `data` sub-chunk and returns the header
/// bytes up to and including that sub-chunk's 8-byte header, together
/// with the offset at which the `data` payload starts.
pub fn extract_wav_header(data: &[u8]) -> (r: Option<(Vec<u8>, usize)>)
    ensures
        match r {
            Some(p) => wav_header_spec(data@) == Some((p.0@, p.1 as int)),
            None => wav_header_spec(data@) is None,
        },
{
    if data.len() < 12 {
        return None;
    }
    if !tag_at(data, 0, 82, 73, 70, 70) {
        return None;
    }
    if !tag_at(data, 8, 87, 65, 86, 69) {
        return None;
    }
    let mut pos: usize = 12;
    loop
        invariant
            12 <= pos <= data@.len(),
            data@.subrange(0, 4) == riff_tag(),
            data@.subrange(8, 12) == wave_tag(),
            find_data_start(data@, 12) == find_data_start(data@, pos as int),
        decreases data@.len() - pos,
    {
        if data.len() - pos < 8 {
            proof {
                assert(find_data_start(data@, pos as int) is None);
            }
            return None;
        }
        if tag_at(data, pos, 100, 97, 116, 97) {
            let ds = pos + 8;
            proof {
                assert(find_data_start(data@, pos as int) == Some(pos + 8));
            }
            let mut header: Vec<u8> = Vec::new();
            push_range(&mut header, data, 0, ds);
            proof {
                assert(header@ =~= data@.subrange(0, ds as int));
            }
            return Some((header, ds));
        }
        let size = read_u32_le_at(data, pos + 4);
        if (size as usize) > data.len() - (pos + 8) {
            proof {
                assert(find_data_start(data@, pos as int) is None);
            }
            return None;
        }
        let end = pos + 8 + (size as usize);
        if size % 2 == 1 && end < data.len() {
            proof {
                assert(find_data_start(data@, pos as int) == find_data_start(data@, end + 1));
            }
            pos = end + 1;
        } else {
            proof {
                assert(find_data_start(data@, pos as int) == find_data_start(data@, end as int));
            }
            pos = end;
        }
    }
}

/// The container synthesized for a later fragment: the captured header
/// with the outer RIFF length patched to the total size minus 8 and the
/// `data` sub-chunk length (the header's last four bytes) patched to the
/// fragment's byte count, followed by the fragment's bytes.
pub open spec fn reconstruct_spec(h: Seq<u8>, a: Seq<u8>) -> Seq<u8> {
    h.subrange(0, 4) + u32_le_seq((h.len() + a.len() - 8) as u32)
        + h.subrange(8, h.len() - 4) + u32_le_seq(a.len() as u32) + a
}

/// Appends the four little-endian bytes of `v` to `dst`.
fn push_u32_le(dst: &mut Vec<u8>, v: u32)
    ensures
        final(dst)@ == old(dst)@ + u32_le_seq(v),
{
    let b = write_u32_le(v);
    dst.push(b[0]);
    dst.push(b[1]);
    dst.push(b[2]);
    dst.push(b[3]);
    proof {
        assert(dst@ =~= old(dst)@ + u32_le_seq(v));
    }
}

/// Builds a self-contained container from a captured header and one
/// fragment's raw bytes, patching the two length fields.
pub fn reconstruct_wav_file(header: &[u8], audio_data: &[u8]) -> (r: Vec<u8>)
    requires
        header@.len() >= 12,
        audio_data@.len() <= u32::MAX,
        header@.len() + audio_data@.len() <= u32::MAX + 8,
    ensures
        r@ == reconstruct_spec(header@, audio_data@),
{
    let riff_size: u32 = ((header.len() as u64) + (audio_data.len() as u64) - 8) as u32;
    let data_size: u32 = audio_data.len() as u32;
    let mut out: Vec<u8> = Vec::new();
    push_range(&mut out, header, 0, 4);
    push_u32_le(&mut out, riff_size);
    push_range(&mut out, header, 8, header.len() - 4);
    push_u32_le(&mut out, data_size);
    push_range(&mut out, audio_data, 0, audio_data.len());
    proof {
        assert(riff_size == (header@.len() + audio_data@.len() - 8) as u32);
        assert(audio_data@.subrange(0, audio_data@.len() as int) =~= audio_data@);
        assert(out@ == reconstruct_spec(header@, audio_data@));
    }
    out
}

/// The two patched length fields of a reconstructed container: the outer
/// RIFF length at offset 4 reads back as the total size minus 8, the
/// `data` sub-chunk length just before the payload reads back as the
/// fragment's byte count, and the payload and the unpatched header bytes
/// are carried over unchanged.
pub proof fn lemma_reconstruct_sizes(h: Seq<u8>, a: Seq<u8>)
    requires
        h.len() >= 12,
        a.len() <= u32::MAX,
        h.len() + a.len() <= u32::MAX + 8,
    ensures
        reconstruct_spec(h, a).len() == h.len() + a.len(),
        le_u32_at(reconstruct_spec(h, a), 4) == h.len() + a.len() - 8,
        le_u32_at(reconstruct_spec(h, a), h.len() - 4) == a.len(),
        reconstruct_spec(h, a).subrange(0, 4) == h.subrange(0, 4),
        reconstruct_spec(h, a).subrange(8, h.len() - 4) == h.subrange(8, h.len() - 4),
        reconstruct_spec(h, a).subrange(h.len() as int, h.len() + a.len() as int) == a,
{
    let r = reconstruct_spec(h, a);
    let riff = u32_le_seq((h.len() + a.len() - 8) as u32);
    let dlen = u32_le_seq(a.len() as u32);
    let hl = h.len() as int;
    let al = a.len() as int;
    assert(r.len() == hl + al);
    assert(r[4] == riff[0] && r[5] == riff[1] && r[6] == riff[2] && r[7] == riff[3]);
    assert(r[hl - 4] == dlen[0] && r[hl - 3] == dlen[1] && r[hl - 2] == dlen[2]
        && r[hl - 1] == dlen[3]);
    lemma_le_roundtrip((h.len() + a.len() - 8) as u32);
    lemma_le_roundtrip(a.len() as u32);
    assert(le_u32_at(r, 4) == le_u32_at(riff, 0));
    assert(le_u32_at(r, hl - 4) == le_u32_at(dlen, 0));
    assert(r.subrange(0, 4) =~= h.subrange(0, 4));
    assert(r.subrange(8, hl - 4) =~= h.subrange(8, hl - 4));
    assert(r.subrange(hl, hl + al) =~= a);
}

/// Law: a header captured from a first fragment, once patched for a
/// later fragment of length `M`, yields a container whose outer RIFF
/// length reads back as `header_len + M - 8`, whose `data` sub-chunk
/// length reads back as `M`, and which ends with the fragment's bytes.
pub proof fn lemma_capture_then_reconstruct(first: Seq<u8>, audio: Seq<u8>)
    requires
        wav_header_spec(first) is Some,
        audio.len() <= u32::MAX,
        wav_header_spec(first).unwrap().0.len() + audio.len() <= u32::MAX + 8,
    ensures
        ({
            let h = wav_header_spec(first).unwrap().0;
            let r = reconstruct_spec(h, audio);
            &&& r.len() == h.len() + audio.len()
            &&& le_u32_at(r, 4) == h.len() + audio.len() - 8
            &&& le_u32_at(r, h.len() - 4) == audio.len()
            &&& r.subrange(h.len() as int, r.len() as int) == audio
        }),
{
    lemma_wav_header_bounds(first);
    lemma_reconstruct_sizes(wav_header_spec(first).unwrap().0, audio);
}

} // verus!
