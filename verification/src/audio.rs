//! The PCM format of a WAV recording, read from its RIFF chunks.
use vstd::prelude::*;

use crate::error::{Error, IoFailure};
use crate::text::{decimal_text, encode_utf16, joined};
#[allow(unused_imports)]
use crate::text::{decimal, utf16};

verus! {

/// The format tag of uncompressed PCM samples.
pub const WAVE_FORMAT_PCM: u16 = 1;

/// The sample layout of a PCM recording.
#[derive(Clone, Copy, Debug, PartialEq, Eq, Structural)]
pub struct AudioFormat {
    pub sample_rate: u32,
    pub bits_per_sample: u16,
    pub channels: u16,
}

/// The wave format record that a speech engine takes.
#[derive(Clone, Copy, Debug, PartialEq, Eq, Structural)]
pub struct WaveFormat {
    pub format_tag: u16,
    pub channels: u16,
    pub samples_per_sec: u32,
    pub avg_bytes_per_sec: u32,
    pub block_align: u16,
    pub bits_per_sample: u16,
    pub extra_size: u16,
}

/// Why a recording has no usable format.
pub ghost enum WavFault {
    /// The bytes end inside a part that has to be there.
    Truncated,
    /// The bytes are not a supported recording, with the reason.
    Unsupported(Seq<char>),
}

/// The little-endian number in the two bytes at `at`.
pub open spec fn le16(bytes: Seq<u8>, at: int) -> int {
    bytes[at] + 0x100 * bytes[at + 1]
}

/// The little-endian number in the four bytes at `at`.
pub open spec fn le32(bytes: Seq<u8>, at: int) -> int {
    le16(bytes, at) + 0x1_0000 * le16(bytes, at + 2)
}

/// The four bytes at `at` spell `tag`.
pub open spec fn tagged(bytes: Seq<u8>, at: int, tag: Seq<u8>) -> bool {
    bytes.subrange(at, at + 4) == tag
}

/// `RIFF`
pub open spec fn riff_tag() -> Seq<u8> {
    seq![0x52, 0x49, 0x46, 0x46]
}

/// `WAVE`
pub open spec fn wave_tag() -> Seq<u8> {
    seq![0x57, 0x41, 0x56, 0x45]
}

/// `fmt `, with its trailing blank
pub open spec fn fmt_tag() -> Seq<u8> {
    seq![0x66, 0x6d, 0x74, 0x20]
}

/// Where the chunk after the one at `at` begins: behind an eight-byte header and a body that is
/// padded to an even length.
pub open spec fn next_chunk(bytes: Seq<u8>, at: int) -> int {
    at + 8 + le32(bytes, at + 4) + le32(bytes, at + 4) % 2
}

/// Where the first `fmt ` chunk at or behind the chunk at `at` begins.
pub open spec fn fmt_chunk(bytes: Seq<u8>, at: int) -> Option<int>
    decreases
            if at <= bytes.len() {
                bytes.len() - at
            } else {
                0
            },
{
    if at + 8 > bytes.len() {
        None
    } else if tagged(bytes, at, fmt_tag()) {
        Some(at)
    } else {
        fmt_chunk(bytes, next_chunk(bytes, at))
    }
}

/// No chunk that has to be skipped on the way to the `fmt ` chunk has a padded length that
/// exceeds 32 bits.
pub open spec fn chunks_fit(bytes: Seq<u8>, at: int) -> bool
    decreases
            if at <= bytes.len() {
                bytes.len() - at
            } else {
                0
            },
{
    if at + 8 > bytes.len() || tagged(bytes, at, fmt_tag()) {
        true
    } else {
        le32(bytes, at + 4) < u32::MAX && chunks_fit(bytes, next_chunk(bytes, at))
    }
}

/// The bytes begin with the header of a WAV recording.
pub open spec fn has_riff_header(bytes: Seq<u8>) -> bool {
    bytes.len() >= 12 && tagged(bytes, 0, riff_tag()) && tagged(bytes, 8, wave_tag())
}

/// The format that the body of a `fmt ` chunk of `size` bytes gives, where `rest` is all that
/// follows the chunk's header.
pub open spec fn fmt_body(rest: Seq<u8>, size: int) -> Result<AudioFormat, WavFault> {
    if size < 16 {
        Err(WavFault::Unsupported("fmt chunk is too small"@))
    } else if rest.len() < size {
        Err(WavFault::Truncated)
    } else if le16(rest, 0) != WAVE_FORMAT_PCM {
        Err(
            WavFault::Unsupported(
                "only PCM WAV is supported, got format tag "@ + decimal(le16(rest, 0) as nat),
            ),
        )
    } else if le16(rest, 2) == 0 || le32(rest, 4) == 0 || le16(rest, 14) == 0 {
        Err(WavFault::Unsupported("zero-valued PCM format field"@))
    } else {
        Ok(
            AudioFormat {
                sample_rate: le32(rest, 4) as u32,
                bits_per_sample: le16(rest, 14) as u16,
                channels: le16(rest, 2) as u16,
            },
        )
    }
}

/// The format that a recording declares.
pub open spec fn wav_format(bytes: Seq<u8>) -> Result<AudioFormat, WavFault> {
    if bytes.len() < 12 {
        Err(WavFault::Truncated)
    } else if !has_riff_header(bytes) {
        Err(WavFault::Unsupported("missing RIFF/WAVE header"@))
    } else {
        match fmt_chunk(bytes, 12) {
            None => Err(WavFault::Unsupported("missing fmt chunk"@)),
            Some(at) => fmt_body(bytes.skip(at + 8), le32(bytes, at + 4)),
        }
    }
}

/// `r` reports what `found` says.
pub open spec fn reports(r: Result<AudioFormat, Error>, found: Result<AudioFormat, WavFault>) -> bool {
    match found {
        Ok(format) => r == Ok::<AudioFormat, Error>(format),
        Err(WavFault::Truncated) => r == Err::<AudioFormat, Error>(
            Error::Io(IoFailure::UnexpectedEof),
        ),
        Err(WavFault::Unsupported(reason)) => r matches Err(Error::UnsupportedWavFormat(detail))
            && detail@ == reason,
    }
}

/// A format that a recording declares has no zero field.
pub proof fn declared_formats_are_nonzero(bytes: Seq<u8>)
    requires
        wav_format(bytes) is Ok,
    ensures
        wav_format(bytes)->Ok_0.sample_rate != 0,
        wav_format(bytes)->Ok_0.bits_per_sample != 0,
        wav_format(bytes)->Ok_0.channels != 0,
{
}

/// Numbers and tags are read alike behind a prefix.
proof fn reads_behind_prefix(prefix: Seq<u8>, bytes: Seq<u8>, at: int)
    requires
        0 <= at,
        at + 8 <= bytes.len(),
    ensures
        le32(prefix + bytes, prefix.len() + at + 4) == le32(bytes, at + 4),
        tagged(prefix + bytes, prefix.len() + at, fmt_tag()) == tagged(bytes, at, fmt_tag()),
{
    assert((prefix + bytes).subrange(prefix.len() + at, prefix.len() + at + 4) =~= bytes.subrange(
        at,
        at + 4,
    ));
}

/// The search for the `fmt ` chunk does not depend on what lies ahead of where it starts.
proof fn fmt_chunk_behind_prefix(prefix: Seq<u8>, bytes: Seq<u8>, at: int)
    requires
        0 <= at,
    ensures
        fmt_chunk(prefix + bytes, prefix.len() + at) == match fmt_chunk(bytes, at) {
            Some(found) => Some(prefix.len() + found),
            None => None,
        },
        fmt_chunk(bytes, at) matches Some(found) ==> at <= found && found + 8 <= bytes.len(),
    decreases
            if at <= bytes.len() {
                bytes.len() - at
            } else {
                0
            },
{
    if at + 8 <= bytes.len() {
        reads_behind_prefix(prefix, bytes, at);
        if !tagged(bytes, at, fmt_tag()) {
            fmt_chunk_behind_prefix(prefix, bytes, next_chunk(bytes, at));
        }
    }
}

/// A chunk other than `fmt `, put right behind the header of a recording with its padding, does
/// not change the format that the recording declares.
pub proof fn foreign_chunks_are_skipped(header: Seq<u8>, chunk: Seq<u8>, rest: Seq<u8>)
    requires
        header.len() == 12,
        chunk.len() >= 8,
        !tagged(chunk, 0, fmt_tag()),
        chunk.len() == next_chunk(chunk, 0),
    ensures
        wav_format(header + chunk + rest) == wav_format(header + rest),
{
    let long = header + chunk + rest;
    let short = header + rest;
    assert(long.subrange(0, 4) =~= short.subrange(0, 4));
    assert(long.subrange(8, 12) =~= short.subrange(8, 12));
    assert(long =~= header + (chunk + rest));
    reads_behind_prefix(header, chunk + rest, 0);
    assert((chunk + rest).subrange(0, 4) =~= chunk.subrange(0, 4));
    assert(next_chunk(long, 12) == 12 + chunk.len());
    fmt_chunk_behind_prefix(header + chunk, rest, 0);
    fmt_chunk_behind_prefix(header, rest, 0);
    if let Some(found) = fmt_chunk(rest, 0) {
        reads_behind_prefix(header + chunk, rest, found);
        reads_behind_prefix(header, rest, found);
        assert(long.skip(12 + chunk.len() + found + 8) =~= short.skip(12 + found + 8));
    }
}

/// The search for the `fmt ` chunk finds the same chunk when more bytes follow.
proof fn fmt_chunk_before_suffix(bytes: Seq<u8>, suffix: Seq<u8>, at: int)
    requires
        0 <= at,
        fmt_chunk(bytes, at) is Some,
    ensures
        fmt_chunk(bytes + suffix, at) == fmt_chunk(bytes, at),
        at <= fmt_chunk(bytes, at)->0,
        fmt_chunk(bytes, at)->0 + 8 <= bytes.len(),
    decreases
            if at <= bytes.len() {
                bytes.len() - at
            } else {
                0
            },
{
    let whole = bytes + suffix;
    assert(whole.subrange(at, at + 4) =~= bytes.subrange(at, at + 4));
    if !tagged(bytes, at, fmt_tag()) {
        assert(next_chunk(whole, at) == next_chunk(bytes, at));
        fmt_chunk_before_suffix(bytes, suffix, next_chunk(bytes, at));
    }
}

/// Whatever follows a recording that declares a format leaves the format as it is.
pub proof fn trailing_bytes_do_not_matter(bytes: Seq<u8>, suffix: Seq<u8>)
    requires
        wav_format(bytes) is Ok,
    ensures
        wav_format(bytes + suffix) == wav_format(bytes),
{
    let whole = bytes + suffix;
    assert(whole.subrange(0, 4) =~= bytes.subrange(0, 4));
    assert(whole.subrange(8, 12) =~= bytes.subrange(8, 12));
    fmt_chunk_before_suffix(bytes, suffix, 12);
    let at = fmt_chunk(bytes, 12)->0;
    let body = bytes.skip(at + 8);
    assert(whole.skip(at + 8) =~= body + suffix);
    assert(le32(whole, at + 4) == le32(bytes, at + 4));
    assert(body.len() >= 16);
    assert(le16(body + suffix, 0) == le16(body, 0));
    assert(le16(body + suffix, 2) == le16(body, 2));
    assert(le32(body + suffix, 4) == le32(body, 4));
    assert(le16(body + suffix, 14) == le16(body, 14));
}

/// A number in two bytes, the low one first.
pub open spec fn encoded16(n: int) -> Seq<u8> {
    seq![(n % 0x100) as u8, (n / 0x100) as u8]
}

/// A number in four bytes, the lowest first.
pub open spec fn encoded32(n: int) -> Seq<u8> {
    seq![
        (n % 0x100) as u8,
        (n / 0x100 % 0x100) as u8,
        (n / 0x1_0000 % 0x100) as u8,
        (n / 0x100_0000) as u8,
    ]
}

/// The twelve bytes ahead of the chunks of a recording; `size` are the four whose value does not
/// matter.
pub open spec fn riff_header(size: Seq<u8>) -> Seq<u8> {
    seq![0x52u8, 0x49u8, 0x46u8, 0x46u8] + size + seq![0x57u8, 0x41u8, 0x56u8, 0x45u8]
}

/// The body of a format chunk: the tag, the channels, the sample rate, six bytes that do not
/// matter, the bits per sample, and whatever follows.
pub open spec fn format_body(
    tag: u16,
    channels: u16,
    sample_rate: u32,
    unused: Seq<u8>,
    bits_per_sample: u16,
    extra: Seq<u8>,
) -> Seq<u8> {
    encoded16(tag as int) + encoded16(channels as int) + encoded32(sample_rate as int) + unused
        + encoded16(bits_per_sample as int) + extra
}

/// A chunk with an identifier and a body of so many bytes.
pub open spec fn chunk_bytes(id: Seq<u8>, size: int, body: Seq<u8>) -> Seq<u8> {
    id + encoded32(size) + body
}

/// The identifier of a format chunk.
pub open spec fn format_id() -> Seq<u8> {
    seq![0x66u8, 0x6du8, 0x74u8, 0x20u8]
}

/// A number is read from two bytes as it was written.
proof fn encoded16_is_read(bytes: Seq<u8>, at: int, n: u16)
    requires
        0 <= at,
        at + 2 <= bytes.len(),
        bytes.subrange(at, at + 2) == encoded16(n as int),
    ensures
        le16(bytes, at) == n,
{
    let part = bytes.subrange(at, at + 2);
    assert(part[0] == bytes[at]);
    assert(part[1] == bytes[at + 1]);
}

/// A number is read from four bytes as it was written.
proof fn encoded32_is_read(bytes: Seq<u8>, at: int, n: u32)
    requires
        0 <= at,
        at + 4 <= bytes.len(),
        bytes.subrange(at, at + 4) == encoded32(n as int),
    ensures
        le32(bytes, at) == n,
{
    let part = bytes.subrange(at, at + 4);
    assert(part[0] == bytes[at]);
    assert(part[1] == bytes[at + 1]);
    assert(part[2] == bytes[at + 2]);
    assert(part[3] == bytes[at + 3]);
    assert(n == n % 0x100 + 0x100 * (n / 0x100 % 0x100) + 0x1_0000 * (n / 0x1_0000 % 0x100)
        + 0x100_0000 * (n / 0x100_0000));
}

/// Numbers are read as they were written, the low byte first.
pub proof fn numbers_are_read_as_written(ahead: Seq<u8>, short: u16, long: u32, behind: Seq<u8>)
    ensures
        le16(ahead + encoded16(short as int) + behind, ahead.len() as int) == short,
        le32(ahead + encoded32(long as int) + behind, ahead.len() as int) == long,
{
    let at = ahead.len() as int;
    let shorts = ahead + encoded16(short as int) + behind;
    let longs = ahead + encoded32(long as int) + behind;
    assert(shorts.subrange(at, at + 2) =~= encoded16(short as int));
    assert(longs.subrange(at, at + 4) =~= encoded32(long as int));
    encoded16_is_read(shorts, at, short);
    encoded32_is_read(longs, at, long);
}

/// A recording whose first chunk is its format chunk declares what that chunk says.
proof fn format_chunk_is_read(size: Seq<u8>, chunk_size: u32, rest: Seq<u8>)
    requires
        size.len() == 4,
    ensures
        ({
            let bytes = riff_header(size) + chunk_bytes(format_id(), chunk_size as int, rest);
            &&& has_riff_header(bytes)
            &&& chunks_fit(bytes, 12)
            &&& wav_format(bytes) == fmt_body(rest, chunk_size as int)
        }),
{
    let bytes = riff_header(size) + chunk_bytes(format_id(), chunk_size as int, rest);
    assert(bytes.subrange(0, 4) =~= riff_tag());
    assert(bytes.subrange(8, 12) =~= wave_tag());
    assert(bytes.subrange(12, 16) =~= fmt_tag());
    assert(bytes.subrange(16, 20) =~= encoded32(chunk_size as int));
    encoded32_is_read(bytes, 16, chunk_size);
    assert(fmt_chunk(bytes, 12) == Some(12int));
    assert(bytes.skip(20) =~= rest);
}

/// The fields of a format chunk are read as they were written.
proof fn format_fields_are_read(
    tag: u16,
    channels: u16,
    sample_rate: u32,
    unused: Seq<u8>,
    bits_per_sample: u16,
    extra: Seq<u8>,
)
    requires
        unused.len() == 6,
    ensures
        ({
            let body = format_body(tag, channels, sample_rate, unused, bits_per_sample, extra);
            &&& body.len() == 16 + extra.len()
            &&& le16(body, 0) == tag
            &&& le16(body, 2) == channels
            &&& le32(body, 4) == sample_rate
            &&& le16(body, 14) == bits_per_sample
        }),
{
    let body = format_body(tag, channels, sample_rate, unused, bits_per_sample, extra);
    assert(body.subrange(0, 2) =~= encoded16(tag as int));
    assert(body.subrange(2, 4) =~= encoded16(channels as int));
    assert(body.subrange(4, 8) =~= encoded32(sample_rate as int));
    assert(body.subrange(14, 16) =~= encoded16(bits_per_sample as int));
    encoded16_is_read(body, 0, tag);
    encoded16_is_read(body, 2, channels);
    encoded32_is_read(body, 4, sample_rate);
    encoded16_is_read(body, 14, bits_per_sample);
}

/// A recording declares the channels, the sample rate and the bits per sample that were written
/// into it, whatever they are as long as none is zero, and whatever stands beside them.
pub proof fn recordings_declare_what_was_written(
    size: Seq<u8>,
    channels: u16,
    sample_rate: u32,
    unused: Seq<u8>,
    bits_per_sample: u16,
    extra: Seq<u8>,
    behind: Seq<u8>,
    r: Result<AudioFormat, Error>,
)
    requires
        size.len() == 4,
        unused.len() == 6,
        16 + extra.len() <= u32::MAX,
        channels > 0 && sample_rate > 0 && bits_per_sample > 0,
        reports(
            r,
            wav_format(
                riff_header(size) + chunk_bytes(
                    format_id(),
                    16 + extra.len() as int,
                    format_body(1, channels, sample_rate, unused, bits_per_sample, extra) + behind,
                ),
            ),
        ),
    ensures
        r == Ok::<AudioFormat, Error>(AudioFormat { sample_rate, bits_per_sample, channels }),
{
    let body = format_body(1, channels, sample_rate, unused, bits_per_sample, extra);
    format_chunk_is_read(size, (16 + extra.len()) as u32, body + behind);
    format_fields_are_read(1, channels, sample_rate, unused, bits_per_sample, extra + behind);
    assert(body + behind =~= format_body(
        1,
        channels,
        sample_rate,
        unused,
        bits_per_sample,
        extra + behind,
    ));
}

/// A recording with another tag than that of PCM is refused with the tag in decimal, and one with a
/// zero among its numbers is refused for that.
pub proof fn unusable_formats_are_refused(
    size: Seq<u8>,
    tag: u16,
    channels: u16,
    sample_rate: u32,
    unused: Seq<u8>,
    bits_per_sample: u16,
    extra: Seq<u8>,
    r: Result<AudioFormat, Error>,
)
    requires
        size.len() == 4,
        unused.len() == 6,
        16 + extra.len() <= u32::MAX,
        reports(
            r,
            wav_format(
                riff_header(size) + chunk_bytes(
                    format_id(),
                    16 + extra.len() as int,
                    format_body(tag, channels, sample_rate, unused, bits_per_sample, extra),
                ),
            ),
        ),
    ensures
        tag != 1 ==> (r matches Err(Error::UnsupportedWavFormat(detail)) && detail@
            == "only PCM WAV is supported, got format tag "@ + decimal(tag as nat)),
        tag == 1 && (channels == 0 || sample_rate == 0 || bits_per_sample == 0) ==> (
        r matches Err(Error::UnsupportedWavFormat(detail)) && detail@
            == "zero-valued PCM format field"@),
{
    let body = format_body(tag, channels, sample_rate, unused, bits_per_sample, extra);
    format_chunk_is_read(size, (16 + extra.len()) as u32, body);
    format_fields_are_read(tag, channels, sample_rate, unused, bits_per_sample, extra);
}

/// A format chunk that says it has fewer than sixteen bytes is too small; one that says it has more
/// bytes than there are is cut off.
pub proof fn format_chunks_have_to_be_whole(
    size: Seq<u8>,
    chunk_size: u32,
    rest: Seq<u8>,
    r: Result<AudioFormat, Error>,
)
    requires
        size.len() == 4,
        reports(
            r,
            wav_format(riff_header(size) + chunk_bytes(format_id(), chunk_size as int, rest)),
        ),
    ensures
        chunk_size < 16 ==> (r matches Err(Error::UnsupportedWavFormat(detail)) && detail@
            == "fmt chunk is too small"@),
        chunk_size >= 16 && rest.len() < chunk_size ==> r == Err::<AudioFormat, Error>(
            Error::Io(IoFailure::UnexpectedEof),
        ),
{
    format_chunk_is_read(size, chunk_size, rest);
}

/// Bytes that are fewer than a header are cut off; more bytes that do not begin as a recording does
/// are none; and a header with no whole chunk header behind it has no format chunk.
pub proof fn recordings_have_to_begin_as_such(bytes: Seq<u8>, r: Result<AudioFormat, Error>)
    requires
        reports(r, wav_format(bytes)),
    ensures
        bytes.len() < 12 ==> r == Err::<AudioFormat, Error>(Error::Io(IoFailure::UnexpectedEof)),
        bytes.len() >= 12 && (bytes[0] != 0x52 || bytes[1] != 0x49 || bytes[2] != 0x46 || bytes[3]
            != 0x46 || bytes[8] != 0x57 || bytes[9] != 0x41 || bytes[10] != 0x56 || bytes[11]
            != 0x45) ==> (r matches Err(Error::UnsupportedWavFormat(detail)) && detail@
            == "missing RIFF/WAVE header"@),
        12 <= bytes.len() < 20 && bytes[0] == 0x52 && bytes[1] == 0x49 && bytes[2] == 0x46
            && bytes[3] == 0x46 && bytes[8] == 0x57 && bytes[9] == 0x41 && bytes[10] == 0x56
            && bytes[11] == 0x45 ==> (r matches Err(Error::UnsupportedWavFormat(detail)) && detail@
            == "missing fmt chunk"@),
{
    if bytes.len() >= 12 {
        let first = bytes.subrange(0, 4);
        let third = bytes.subrange(8, 12);
        assert(first[0] == bytes[0] && first[1] == bytes[1] && first[2] == bytes[2] && first[3]
            == bytes[3]);
        assert(third[0] == bytes[8] && third[1] == bytes[9] && third[2] == bytes[10] && third[3]
            == bytes[11]);
        if bytes[0] == 0x52 && bytes[1] == 0x49 && bytes[2] == 0x46 && bytes[3] == 0x46 {
            assert(first =~= riff_tag());
        }
        if bytes[8] == 0x57 && bytes[9] == 0x41 && bytes[10] == 0x56 && bytes[11] == 0x45 {
            assert(third =~= wave_tag());
        }
    }
}

/// A chunk other than the format chunk is skipped by its size, and by one byte more where the size
/// is odd; one that says it has more bytes than there are leaves no format chunk behind it.
pub proof fn other_chunks_are_skipped_by_their_size(
    size: Seq<u8>,
    id: Seq<u8>,
    body: Seq<u8>,
    pad: Seq<u8>,
    rest: Seq<u8>,
    cut: Seq<u8>,
)
    requires
        size.len() == 4,
        id.len() == 4,
        id != format_id(),
        body.len() < u32::MAX,
        pad.len() == body.len() % 2,
        cut.len() < body.len(),
    ensures
        wav_format(riff_header(size) + chunk_bytes(id, body.len() as int, body + pad + rest))
            == wav_format(riff_header(size) + rest),
        wav_format(riff_header(size) + chunk_bytes(id, body.len() as int, cut)) == Err::<
            AudioFormat,
            WavFault,
        >(WavFault::Unsupported("missing fmt chunk"@)),
{
    let header = riff_header(size);
    let n = body.len() as u32;
    let chunk = chunk_bytes(id, n as int, body + pad);
    assert(chunk.subrange(0, 4) =~= id);
    assert(chunk.subrange(4, 8) =~= encoded32(n as int));
    encoded32_is_read(chunk, 4, n);
    assert(chunk.len() == next_chunk(chunk, 0));
    foreign_chunks_are_skipped(header, chunk, rest);
    assert(header + chunk_bytes(id, n as int, body + pad + rest) =~= header + chunk + rest);
    let short = header + chunk_bytes(id, n as int, cut);
    assert(short.subrange(0, 4) =~= riff_tag());
    assert(short.subrange(8, 12) =~= wave_tag());
    assert(short.subrange(12, 16) =~= id);
    assert(short.subrange(16, 20) =~= encoded32(n as int));
    encoded32_is_read(short, 16, n);
    assert(next_chunk(short, 12) > short.len());
    assert(fmt_chunk(short, next_chunk(short, 12)) is None);
}

/// Bytes in which no four behind each other are all ones hold no chunk that is too long, so that
/// their format can be asked for.
pub proof fn ordinary_recordings_fit(bytes: Seq<u8>, at: int)
    requires
        0 <= at,
        forall|i: int|
            0 <= i < bytes.len() - 3 ==> !(#[trigger] bytes[i] == 0xff && bytes[i + 1] == 0xff
                && bytes[i + 2] == 0xff && bytes[i + 3] == 0xff),
    ensures
        chunks_fit(bytes, at),
    decreases
            if at <= bytes.len() {
                bytes.len() - at
            } else {
                0
            },
{
    if at + 8 <= bytes.len() && !tagged(bytes, at, fmt_tag()) {
        assert(!(bytes[at + 4] == 0xff && bytes[at + 4 + 1] == 0xff && bytes[at + 4 + 2] == 0xff
            && bytes[at + 4 + 3] == 0xff));
        assert(le32(bytes, at + 4) < u32::MAX);
        ordinary_recordings_fit(bytes, next_chunk(bytes, at));
    }
}

/// What is found in a recording is reported as it is.
pub proof fn findings_are_reported(r: Result<AudioFormat, Error>, format: AudioFormat, reason: Seq<
    char,
>)
    ensures
        reports(r, Ok(format)) <==> r == Ok::<AudioFormat, Error>(format),
        reports(r, Err(WavFault::Truncated)) <==> r == Err::<AudioFormat, Error>(
            Error::Io(IoFailure::UnexpectedEof),
        ),
        reports(r, Err(WavFault::Unsupported(reason))) <==> (r matches Err(
            Error::UnsupportedWavFormat(detail),
        ) && detail@ == reason),
{
}

/// A frame holds a sample of every channel, each in as many whole bytes as its bits fill; a format
/// fits in a record where a frame has at most 65535 bytes and a second less than four gigabytes.
pub proof fn frames_hold_a_sample_of_every_channel(
    format: AudioFormat,
    bytes_per_sample: int,
    bits_left: int,
)
    requires
        format.bits_per_sample == 8 * bytes_per_sample + bits_left,
        0 <= bits_left < 8,
    ensures
        format.frame_size() == format.channels * bytes_per_sample,
        format.fits_wave_format() <==> format.channels * bytes_per_sample <= 65535
            && format.sample_rate * (format.channels * bytes_per_sample) <= 0xffff_ffff,
{
    assert(format.bits_per_sample as int / 8 == bytes_per_sample);
}

/// The little-endian number in the two bytes at `at`.
fn read_le16(bytes: &[u8], at: usize) -> (n: u16)
    requires
        at + 2 <= bytes.len(),
    ensures
        n == le16(bytes@, at as int),
{
    bytes[at] as u16 + 0x100 * (bytes[at + 1] as u16)
}

/// The little-endian number in the four bytes at `at`.
fn read_le32(bytes: &[u8], at: usize) -> (n: u32)
    requires
        at + 4 <= bytes.len(),
    ensures
        n == le32(bytes@, at as int),
{
    read_le16(bytes, at) as u32 + 0x1_0000 * (read_le16(bytes, at + 2) as u32)
}

/// Whether the four bytes at `at` are `a`, `b`, `c`, `d`.
fn has_tag(bytes: &[u8], at: usize, a: u8, b: u8, c: u8, d: u8) -> (r: bool)
    requires
        at + 4 <= bytes.len(),
    ensures
        r == tagged(bytes@, at as int, seq![a, b, c, d]),
{
    let r = bytes[at] == a && bytes[at + 1] == b && bytes[at + 2] == c && bytes[at + 3] == d;
    let ghost found = bytes@.subrange(at as int, at + 4);
    assert(found[0] == bytes@[at as int]);
    assert(found[1] == bytes@[at + 1]);
    assert(found[2] == bytes@[at + 2]);
    assert(found[3] == bytes@[at + 3]);
    assert(r ==> found =~= seq![a, b, c, d]);
    r
}

impl AudioFormat {
    /// The format that a WAV recording declares. The chunks ahead of the `fmt ` chunk are
    /// skipped, whatever they hold.
    pub fn from_wav_reader(bytes: &[u8]) -> (r: Result<AudioFormat, Error>)
        requires
            has_riff_header(bytes@) ==> chunks_fit(bytes@, 12),
        ensures
            reports(r, wav_format(bytes@)),
    {
        let len: usize = bytes.len();
        if len < 12 {
            return Err(Error::Io(IoFailure::UnexpectedEof));
        }
        if !has_tag(bytes, 0, 0x52, 0x49, 0x46, 0x46) || !has_tag(bytes, 8, 0x57, 0x41, 0x56, 0x45)
        {
            return Err(Error::UnsupportedWavFormat("missing RIFF/WAVE header".to_owned()));
        }
        let mut at: usize = 12;
        while len - at >= 8
            invariant
                len == bytes@.len(),
                12 <= at <= len,
                has_riff_header(bytes@),
                chunks_fit(bytes@, at as int),
                fmt_chunk(bytes@, 12) == fmt_chunk(bytes@, at as int),
            decreases len - at,
        {
            let size: u32 = read_le32(bytes, at + 4);
            if has_tag(bytes, at, 0x66, 0x6d, 0x74, 0x20) {
                let rest = vstd::slice::slice_subrange(bytes, at + 8, len);
                assert(rest@ =~= bytes@.skip(at + 8));
                return AudioFormat::from_wav_fmt_chunk(rest, size);
            }
            let skipped: u64 = size as u64 + (size % 2) as u64;
            if skipped > (len - at - 8) as u64 {
                assert(fmt_chunk(bytes@, next_chunk(bytes@, at as int)) is None);
                return Err(Error::UnsupportedWavFormat("missing fmt chunk".to_owned()));
            }
            at = at + 8 + skipped as usize;
        }
        Err(Error::UnsupportedWavFormat("missing fmt chunk".to_owned()))
    }

    /// The format in the body of a `fmt ` chunk of `chunk_size` bytes, where `rest` is all that
    /// follows the chunk's header.
    pub fn from_wav_fmt_chunk(rest: &[u8], chunk_size: u32) -> (r: Result<AudioFormat, Error>)
        ensures
            reports(r, fmt_body(rest@, chunk_size as int)),
    {
        if chunk_size < 16 {
            return Err(Error::UnsupportedWavFormat("fmt chunk is too small".to_owned()));
        }
        if (rest.len() as u64) < chunk_size as u64 {
            return Err(Error::Io(IoFailure::UnexpectedEof));
        }
        let format_tag: u16 = read_le16(rest, 0);
        if format_tag != WAVE_FORMAT_PCM {
            let detail = joined(
                "only PCM WAV is supported, got format tag ",
                &decimal_text(format_tag as u64),
            );
            return Err(Error::UnsupportedWavFormat(detail));
        }
        let channels: u16 = read_le16(rest, 2);
        let sample_rate: u32 = read_le32(rest, 4);
        let bits_per_sample: u16 = read_le16(rest, 14);
        if channels == 0 || sample_rate == 0 || bits_per_sample == 0 {
            return Err(Error::UnsupportedWavFormat("zero-valued PCM format field".to_owned()));
        }
        Ok(AudioFormat { sample_rate, bits_per_sample, channels })
    }

    /// Whether every chunk ahead of the `fmt ` chunk has a padded length that fits in 32 bits.
    pub fn chunk_sizes_fit(bytes: &[u8]) -> (fit: bool)
        ensures
            fit == (has_riff_header(bytes@) ==> chunks_fit(bytes@, 12)),
    {
        let len: usize = bytes.len();
        if len < 12 || !has_tag(bytes, 0, 0x52, 0x49, 0x46, 0x46) || !has_tag(
            bytes,
            8,
            0x57,
            0x41,
            0x56,
            0x45,
        ) {
            return true;
        }
        let mut at: usize = 12;
        while len - at >= 8
            invariant
                len == bytes@.len(),
                12 <= at <= len,
                has_riff_header(bytes@),
                chunks_fit(bytes@, 12) == chunks_fit(bytes@, at as int),
            decreases len - at,
        {
            if has_tag(bytes, at, 0x66, 0x6d, 0x74, 0x20) {
                return true;
            }
            let size: u32 = read_le32(bytes, at + 4);
            if size == u32::MAX {
                return false;
            }
            let skipped: u64 = size as u64 + (size % 2) as u64;
            if skipped > (len - at - 8) as u64 {
                assert(chunks_fit(bytes@, next_chunk(bytes@, at as int)));
                return true;
            }
            at = at + 8 + skipped as usize;
        }
        true
    }

    /// The number of bytes of one sample of every channel.
    pub open spec fn frame_size(self) -> int {
        self.channels * (self.bits_per_sample as int / 8)
    }

    /// The sizes that a wave format record holds fit in its fields.
    pub open spec fn fits_wave_format(self) -> bool {
        &&& self.frame_size() <= u16::MAX
        &&& self.sample_rate * self.frame_size() <= u32::MAX
    }

    /// Whether the sizes that a wave format record holds fit in its fields.
    pub fn wave_format_fits(self) -> (fits: bool)
        ensures
            fits == self.fits_wave_format(),
    {
        let channels: u64 = self.channels as u64;
        let bytes_per_sample: u64 = (self.bits_per_sample / 8) as u64;
        assert(channels * bytes_per_sample <= 0xffff * 0x1fff) by (nonlinear_arith)
            requires
                channels <= 0xffff,
                bytes_per_sample <= 0x1fff,
        ;
        let frame: u64 = channels * bytes_per_sample;
        if frame > u16::MAX as u64 {
            return false;
        }
        let rate: u64 = self.sample_rate as u64;
        assert(rate * frame <= 0xffff_ffff * 0xffff) by (nonlinear_arith)
            requires
                rate <= 0xffff_ffff,
                frame <= 0xffff,
        ;
        rate * frame <= u32::MAX as u64
    }

    /// The wave format record of this format.
    pub fn to_wave_format(self) -> (record: WaveFormat)
        requires
            self.fits_wave_format(),
        ensures
            record == (WaveFormat {
                format_tag: WAVE_FORMAT_PCM,
                channels: self.channels,
                samples_per_sec: self.sample_rate,
                avg_bytes_per_sec: (self.sample_rate * self.frame_size()) as u32,
                block_align: self.frame_size() as u16,
                bits_per_sample: self.bits_per_sample,
                extra_size: 0,
            }),
            record.format_tag == 1,
            record.block_align == self.channels * (self.bits_per_sample as int / 8),
            record.avg_bytes_per_sec == self.sample_rate * record.block_align,
    {
        let block_align: u16 = self.channels * (self.bits_per_sample / 8);
        WaveFormat {
            format_tag: WAVE_FORMAT_PCM,
            channels: self.channels,
            samples_per_sec: self.sample_rate,
            avg_bytes_per_sec: self.sample_rate * (block_align as u32),
            block_align,
            bits_per_sample: self.bits_per_sample,
            extra_size: 0,
        }
    }
}

/// A path as the zero-terminated UTF-16 text that Windows takes.
pub fn path_to_wide_null(path: &str) -> (wide: Vec<u16>)
    ensures
        wide@ == utf16(path@).push(0),
{
    let mut wide = encode_utf16(path);
    wide.push(0);
    wide
}

} // verus!
