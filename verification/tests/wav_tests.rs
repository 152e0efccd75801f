use jsonl_player::reassembler::Reassembler;
use jsonl_player::wav::{extract_wav_header, read_u32_le, reconstruct_wav_file, write_u32_le};

fn wav_first_fragment(fmt_payload: &[u8], data_payload: &[u8]) -> Vec<u8> {
    let mut v: Vec<u8> = Vec::new();
    v.extend_from_slice(b"RIFF");
    let mut riff_len = 4 + 8 + fmt_payload.len() + 8 + data_payload.len();
    if fmt_payload.len() % 2 == 1 {
        riff_len += 1;
    }
    v.extend_from_slice(&(riff_len as u32).to_le_bytes());
    v.extend_from_slice(b"WAVE");
    v.extend_from_slice(b"fmt ");
    v.extend_from_slice(&(fmt_payload.len() as u32).to_le_bytes());
    v.extend_from_slice(fmt_payload);
    if fmt_payload.len() % 2 == 1 {
        v.push(0);
    }
    v.extend_from_slice(b"data");
    v.extend_from_slice(&(data_payload.len() as u32).to_le_bytes());
    v.extend_from_slice(data_payload);
    v
}

#[test]
fn read_u32_le_little_endian() {
    assert_eq!(read_u32_le(&[0x78, 0x56, 0x34, 0x12]), 0x1234_5678);
    assert_eq!(read_u32_le(&[0, 0, 0, 0]), 0);
    assert_eq!(read_u32_le(&[0xff, 0xff, 0xff, 0xff]), u32::MAX);
}

#[test]
fn write_u32_le_little_endian() {
    assert_eq!(write_u32_le(0x1234_5678), [0x78, 0x56, 0x34, 0x12]);
    assert_eq!(write_u32_le(0), [0, 0, 0, 0]);
    assert_eq!(read_u32_le(&write_u32_le(0xdead_beef)), 0xdead_beef);
}

#[test]
fn extract_header_finds_data_chunk() {
    let fmt = [1u8; 16];
    let pcm = [7u8; 32];
    let frag = wav_first_fragment(&fmt, &pcm);
    let (header, data_start) = extract_wav_header(&frag).expect("header expected");
    // 12-byte outer header + 8 + 16 bytes of fmt + 8-byte data header.
    assert_eq!(data_start, 44);
    assert_eq!(header.len(), 44);
    assert_eq!(&header[..], &frag[..44]);
    assert_eq!(&header[36..40], b"data");
    assert_eq!(read_u32_le(&header[40..44]), 32);
}

#[test]
fn extract_header_includes_pad_byte_of_odd_chunk() {
    let fmt = [2u8; 15];
    let pcm = [9u8; 4];
    let frag = wav_first_fragment(&fmt, &pcm);
    let (header, data_start) = extract_wav_header(&frag).expect("header expected");
    // 12 + 8 + 15 + 1 pad + 8.
    assert_eq!(data_start, 44);
    assert_eq!(&header[..], &frag[..44]);
}

#[test]
fn extract_header_rejects_missing_signature() {
    assert!(extract_wav_header(b"OGGS....WAVEfmt ........").is_none());
    assert!(extract_wav_header(b"RIFF....MP3 fmt ........").is_none());
    assert!(extract_wav_header(b"RIFF").is_none());
    assert!(extract_wav_header(&[]).is_none());
}

#[test]
fn extract_header_rejects_fragment_without_data_chunk() {
    let fmt = [1u8; 16];
    let pcm = [7u8; 8];
    let mut frag = wav_first_fragment(&fmt, &pcm);
    // Cut the fragment off before the data chunk header.
    frag.truncate(30);
    assert!(extract_wav_header(&frag).is_none());
}

#[test]
fn reconstruct_patches_both_length_fields() {
    let fmt = [1u8; 16];
    let pcm = [7u8; 32];
    let frag = wav_first_fragment(&fmt, &pcm);
    let (header, _) = extract_wav_header(&frag).expect("header expected");
    let audio = [5u8; 10];
    let rebuilt = reconstruct_wav_file(&header, &audio);
    assert_eq!(rebuilt.len(), header.len() + audio.len());
    assert_eq!(&rebuilt[0..4], b"RIFF");
    // RIFF length = total size - 8 = header_len + M - 8.
    assert_eq!(read_u32_le(&rebuilt[4..8]), (header.len() + audio.len() - 8) as u32);
    // Unpatched header bytes carried over.
    assert_eq!(&rebuilt[8..header.len() - 4], &header[8..header.len() - 4]);
    // data length = M.
    assert_eq!(read_u32_le(&rebuilt[header.len() - 4..header.len()]), 10);
    assert_eq!(&rebuilt[header.len()..], &audio[..]);
}

#[test]
fn reassembler_passes_first_fragment_and_wraps_later_ones() {
    let fmt = [1u8; 16];
    let pcm = [7u8; 32];
    let first = wav_first_fragment(&fmt, &pcm);
    let (header, _) = extract_wav_header(&first).expect("header expected");

    let mut r = Reassembler::new();
    let out1 = r.process(first.clone());
    assert_eq!(out1, first);

    let second = vec![42u8; 20];
    let out2 = r.process(second.clone());
    assert_eq!(out2, reconstruct_wav_file(&header, &second));
    assert_eq!(read_u32_le(&out2[4..8]), (header.len() + second.len() - 8) as u32);

    let third = vec![13u8; 6];
    let out3 = r.process(third.clone());
    assert_eq!(out3, reconstruct_wav_file(&header, &third));
}

#[test]
fn reassembler_falls_back_to_passthrough_without_header() {
    let first = vec![1u8, 2, 3, 4];
    let second = vec![5u8, 6, 7];
    let mut r = Reassembler::new();
    assert_eq!(r.process(first.clone()), first);
    // No header was captured, so later fragments also pass unchanged.
    assert_eq!(r.process(second.clone()), second);
}
