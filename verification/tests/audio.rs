//! The format of WAV recordings.

use voice_sessions::audio::{path_to_wide_null, AudioFormat, WaveFormat};
use voice_sessions::error::{Error, IoFailure};

fn fmt_body(tag: u16, channels: u16, sample_rate: u32, bits: u16) -> Vec<u8> {
    let mut body = Vec::new();
    body.extend_from_slice(&tag.to_le_bytes());
    body.extend_from_slice(&channels.to_le_bytes());
    body.extend_from_slice(&sample_rate.to_le_bytes());
    body.extend_from_slice(&[0; 6]);
    body.extend_from_slice(&bits.to_le_bytes());
    body
}

fn chunk(id: &[u8], body: &[u8]) -> Vec<u8> {
    let mut chunk = id.to_vec();
    chunk.extend_from_slice(&(body.len() as u32).to_le_bytes());
    chunk.extend_from_slice(body);
    if body.len() % 2 == 1 {
        chunk.push(0);
    }
    chunk
}

fn wav(chunks: &[Vec<u8>]) -> Vec<u8> {
    let mut bytes = b"RIFF\x00\x00\x00\x00WAVE".to_vec();
    for chunk in chunks {
        bytes.extend_from_slice(chunk);
    }
    bytes
}

fn unsupported(bytes: &[u8]) -> String {
    assert!(AudioFormat::chunk_sizes_fit(bytes));
    match AudioFormat::from_wav_reader(bytes) {
        Err(Error::UnsupportedWavFormat(detail)) => detail,
        other => panic!("{other:?}"),
    }
}

const CD: AudioFormat = AudioFormat { sample_rate: 44_100, bits_per_sample: 16, channels: 2 };

#[test]
fn pcm_recordings_declare_their_format() {
    let bytes = wav(&[chunk(b"fmt ", &fmt_body(1, 2, 44_100, 16))]);
    assert_eq!(AudioFormat::from_wav_reader(&bytes).unwrap(), CD);
}

#[test]
fn chunks_ahead_of_the_format_are_skipped() {
    let fmt = chunk(b"fmt ", &fmt_body(1, 2, 44_100, 16));
    let bytes = wav(&[chunk(b"LIST", b"odd"), chunk(b"fact", b""), fmt, chunk(b"data", b"1234")]);
    assert_eq!(AudioFormat::from_wav_reader(&bytes).unwrap(), CD);
}

#[test]
fn bytes_behind_the_format_do_not_matter() {
    let mut bytes = wav(&[chunk(b"fmt ", &fmt_body(1, 2, 44_100, 16))]);
    bytes.extend_from_slice(b"rubbish");
    assert_eq!(AudioFormat::from_wav_reader(&bytes).unwrap(), CD);
}

#[test]
fn the_first_format_counts() {
    let bytes = wav(&[
        chunk(b"fmt ", &fmt_body(1, 2, 44_100, 16)),
        chunk(b"fmt ", &fmt_body(1, 1, 8_000, 8)),
    ]);
    assert_eq!(AudioFormat::from_wav_reader(&bytes).unwrap(), CD);
}

#[test]
fn truncated_recordings_end_unexpectedly() {
    let whole = wav(&[chunk(b"fmt ", &fmt_body(1, 2, 44_100, 16))]);
    for len in [0, 11, 20, whole.len() - 1] {
        let r = AudioFormat::from_wav_reader(&whole[..len]);
        assert!(matches!(r, Err(Error::Io(IoFailure::UnexpectedEof))), "{len}: {r:?}");
    }
}

#[test]
fn unsupported_recordings_are_told_apart() {
    assert_eq!(unsupported(b"RIFX\x00\x00\x00\x00WAVE"), "missing RIFF/WAVE header");
    assert_eq!(unsupported(b"RIFF\x00\x00\x00\x00AVI "), "missing RIFF/WAVE header");
    assert_eq!(unsupported(&wav(&[])), "missing fmt chunk");
    assert_eq!(unsupported(&wav(&[chunk(b"data", b"12")])), "missing fmt chunk");
    assert_eq!(unsupported(&wav(&[b"data\x10\x00\x00\x00".to_vec()])), "missing fmt chunk");
    assert_eq!(unsupported(&wav(&[chunk(b"fmt ", &[0; 15])])), "fmt chunk is too small");
    assert_eq!(
        unsupported(&wav(&[chunk(b"fmt ", &fmt_body(65_534, 2, 44_100, 16))])),
        "only PCM WAV is supported, got format tag 65534"
    );
    assert_eq!(
        unsupported(&wav(&[chunk(b"fmt ", &fmt_body(0, 2, 44_100, 16))])),
        "only PCM WAV is supported, got format tag 0"
    );
    for body in [fmt_body(1, 0, 1, 1), fmt_body(1, 1, 0, 1), fmt_body(1, 1, 1, 0)] {
        assert_eq!(unsupported(&wav(&[chunk(b"fmt ", &body)])), "zero-valued PCM format field");
    }
}

#[test]
fn format_chunks_are_read_by_their_size() {
    let mut body = fmt_body(1, 2, 44_100, 16);
    body.extend_from_slice(&[0, 0]);
    assert_eq!(AudioFormat::from_wav_fmt_chunk(&body, 18).unwrap(), CD);
    assert!(matches!(
        AudioFormat::from_wav_fmt_chunk(&body, 19),
        Err(Error::Io(IoFailure::UnexpectedEof))
    ));
}

#[test]
fn oversized_chunks_are_noticed() {
    assert!(!AudioFormat::chunk_sizes_fit(&wav(&[b"data\xff\xff\xff\xff".to_vec()])));
    assert!(AudioFormat::chunk_sizes_fit(&wav(&[b"data\xfe\xff\xff\xff".to_vec()])));
    assert!(AudioFormat::chunk_sizes_fit(&wav(&[b"fmt \xff\xff\xff\xff".to_vec()])));
    assert!(AudioFormat::chunk_sizes_fit(b"RIFF"));
}

#[test]
fn wave_formats_hold_the_sizes() {
    assert!(CD.wave_format_fits());
    assert_eq!(
        CD.to_wave_format(),
        WaveFormat {
            format_tag: 1,
            channels: 2,
            samples_per_sec: 44_100,
            avg_bytes_per_sec: 176_400,
            block_align: 4,
            bits_per_sample: 16,
            extra_size: 0,
        }
    );
    let odd = AudioFormat { sample_rate: 8_000, bits_per_sample: 12, channels: 3 };
    assert_eq!(odd.to_wave_format().block_align, 3);
    assert_eq!(odd.to_wave_format().avg_bytes_per_sec, 24_000);
}

#[test]
fn wave_formats_that_do_not_fit_are_noticed() {
    let wide = AudioFormat { sample_rate: 1, bits_per_sample: 16, channels: 32_768 };
    assert!(!wide.wave_format_fits());
    let fast = AudioFormat { sample_rate: u32::MAX, bits_per_sample: 16, channels: 1 };
    assert!(!fast.wave_format_fits());
    let edge = AudioFormat { sample_rate: u32::MAX, bits_per_sample: 8, channels: 1 };
    assert!(edge.wave_format_fits());
}

#[test]
fn paths_become_utf16() {
    assert_eq!(path_to_wide_null(""), vec![0]);
    for path in ["C:\\a b.wav", "语音.wav", "𝄞\u{10ffff}\u{ffff}"] {
        let mut expected: Vec<u16> = path.encode_utf16().collect();
        expected.push(0);
        assert_eq!(path_to_wide_null(path), expected);
    }
    assert_eq!(path_to_wide_null("𝄞"), vec![0xd834, 0xdd1e, 0]);
    let wide = path_to_wide_null("a𝄞语");
    assert_eq!(String::from_utf16(&wide[..wide.len() - 1]).unwrap(), "a𝄞语");
}
