//! Audio: the frames a recording is made of, how device buffers are reduced
//! to one channel of 16-bit samples, and how a recording becomes a WAV file.
use vstd::prelude::*;

use crate::error::{is_recording, VoxioError};
use crate::text::{concat2, lit};

verus! {

/// The sample rate Whisper expects, in Hz.
pub const WHISPER_SAMPLE_RATE: u32 = 16000;

/// A block of 16-bit mono samples.
#[derive(Debug)]
pub struct AudioFrame {
    pub samples: Vec<i16>,
}

/// A source of audio.
pub trait AudioCapture {
    fn start(&mut self) -> Result<(), VoxioError>;

    fn stop(&mut self) -> Result<(), VoxioError>;
}

/// A capture that records nothing and never fails.
pub struct NullAudioCapture;

impl AudioCapture for NullAudioCapture {
    fn start(&mut self) -> (r: Result<(), VoxioError>)
        ensures
            r is Ok,
    {
        Ok(())
    }

    fn stop(&mut self) -> (r: Result<(), VoxioError>)
        ensures
            r is Ok,
    {
        Ok(())
    }
}

/// How many frames of `channels` interleaved samples `len` samples make up;
/// a last, shorter frame counts too.
pub open spec fn frame_count(len: nat, channels: nat) -> nat {
    len / channels + if len % channels == 0 {
        0nat
    } else {
        1nat
    }
}

/// The first channel of interleaved samples: the first sample of each frame.
pub open spec fn first_channel(data: Seq<i16>, channels: nat) -> Seq<i16> {
    Seq::new(frame_count(data.len(), channels), |k: int| data[k * channels])
}

/// An unsigned 16-bit sample moved to the signed range: 32768 is silence.
pub open spec fn centered(x: u16) -> i16 {
    (x - 32768) as i16
}

/// The first channel of interleaved unsigned samples, moved to the signed range.
pub open spec fn first_channel_unsigned(data: Seq<u16>, channels: nat) -> Seq<i16> {
    Seq::new(frame_count(data.len(), channels), |k: int| centered(data[k * channels]))
}

proof fn lemma_frame_start_in_range(len: nat, channels: nat, k: nat)
    requires
        channels > 0,
        k < frame_count(len, channels),
    ensures
        k * channels < len,
{
    let q = len / channels;
    let r = len % channels;
    assert(len == q * channels + r) by (nonlinear_arith)
        requires
            channels > 0,
            q == len / channels,
            r == len % channels,
    ;
    assert(k * channels < len) by (nonlinear_arith)
        requires
            channels > 0,
            len == q * channels + r,
            0 <= r < channels,
            k < q || (k == q && r > 0),
    ;
}

fn frames_in(len: usize, channels: u16) -> (r: usize)
    requires
        channels > 0,
    ensures
        r == frame_count(len as nat, channels as nat),
{
    let c = channels as usize;
    if len % c == 0 {
        len / c
    } else {
        assert(len / c < usize::MAX) by (nonlinear_arith)
            requires
                c >= 2,
        ;
        len / c + 1
    }
}

/// Appends the first channel of an interleaved device buffer to `buffer`.
pub fn append_i16_samples(data: &[i16], channels: u16, buffer: &mut Vec<i16>)
    requires
        channels > 0,
    ensures
        final(buffer)@ == old(buffer)@ + first_channel(data@, channels as nat),
{
    let frames = frames_in(data.len(), channels);
    let c = channels as usize;
    let ghost start = buffer@;
    for k in 0..frames
        invariant
            frames == frame_count(data@.len(), channels as nat),
            c == channels as nat,
            channels > 0,
            buffer@ == start + first_channel(data@, channels as nat).take(k as int),
    {
        proof {
            lemma_frame_start_in_range(data@.len(), channels as nat, k as nat);
            assert(k * c < data.len());
        }
        let i = k * c;
        buffer.push(data[i]);
        proof {
            assert(first_channel(data@, channels as nat).take(k + 1) =~= first_channel(
                data@,
                channels as nat,
            ).take(k as int).push(data@[k * c]));
        }
    }
    proof {
        assert(first_channel(data@, channels as nat).take(frames as int) =~= first_channel(
            data@,
            channels as nat,
        ));
    }
}

/// Appends the first channel of an interleaved unsigned device buffer to
/// `buffer`, each sample moved to the signed range.
pub fn append_u16_samples(data: &[u16], channels: u16, buffer: &mut Vec<i16>)
    requires
        channels > 0,
    ensures
        final(buffer)@ == old(buffer)@ + first_channel_unsigned(data@, channels as nat),
{
    let frames = frames_in(data.len(), channels);
    let c = channels as usize;
    let ghost start = buffer@;
    for k in 0..frames
        invariant
            frames == frame_count(data@.len(), channels as nat),
            c == channels as nat,
            channels > 0,
            buffer@ == start + first_channel_unsigned(data@, channels as nat).take(k as int),
    {
        proof {
            lemma_frame_start_in_range(data@.len(), channels as nat, k as nat);
            assert(k * c < data.len());
        }
        let i = k * c;
        let sample = (data[i] as i32 - 32768) as i16;
        buffer.push(sample);
        proof {
            assert(first_channel_unsigned(data@, channels as nat).take(k + 1)
                =~= first_channel_unsigned(data@, channels as nat).take(k as int).push(sample));
        }
    }
    proof {
        assert(first_channel_unsigned(data@, channels as nat).take(frames as int)
            =~= first_channel_unsigned(data@, channels as nat));
    }
}

/// The bytes of a 16-bit value, least significant first.
pub open spec fn le16(x: nat) -> Seq<u8> {
    seq![(x % 256) as u8, ((x / 256) % 256) as u8]
}

/// The bytes of a 32-bit value, least significant first.
pub open spec fn le32(x: nat) -> Seq<u8> {
    seq![
        (x % 256) as u8,
        ((x / 256) % 256) as u8,
        ((x / 65536) % 256) as u8,
        ((x / 16777216) % 256) as u8,
    ]
}

/// The 44-byte header of a mono 16-bit PCM WAV file with `data_len` bytes of
/// samples: the RIFF chunk, a 16-byte `fmt ` chunk and the `data` chunk header.
pub open spec fn wav_header(sample_rate: nat, data_len: nat) -> Seq<u8> {
    seq![0x52u8, 0x49u8, 0x46u8, 0x46u8] + le32(36 + data_len) + seq![
        0x57u8,
        0x41u8,
        0x56u8,
        0x45u8,
        0x66u8,
        0x6du8,
        0x74u8,
        0x20u8,
    ] + le32(16) + le16(1) + le16(1) + le32(sample_rate) + le32(sample_rate * 2) + le16(2)
        + le16(16) + seq![0x64u8, 0x61u8, 0x74u8, 0x61u8] + le32(data_len)
}

/// The samples as little-endian two's-complement bytes.
pub open spec fn sample_bytes(samples: Seq<i16>) -> Seq<u8> {
    Seq::new(
        2 * samples.len(),
        |i: int|
            if i % 2 == 0 {
                ((samples[i / 2] as u16) as nat % 256) as u8
            } else {
                ((samples[i / 2] as u16) as nat / 256) as u8
            },
    )
}

/// A mono 16-bit PCM WAV file of the samples at the sample rate.
pub open spec fn wav_mono16(sample_rate: nat, samples: Seq<i16>) -> Seq<u8> {
    wav_header(sample_rate, 2 * samples.len()) + sample_bytes(samples)
}

#[verifier::external_type_specification]
#[verifier::external_body]
pub struct ExWavError(hound::Error);

/// Writes the samples as a WAV file in memory with `hound::WavWriter` (new,
/// `write_sample` for each sample, `finalize`) over a `Cursor<Vec<u8>>`.
/// For one channel of 16-bit integer samples hound writes the plain 44-byte
/// PCM header and the samples in little-endian order; writing into memory
/// does not fail, and the sizes fit the header's 32-bit fields under the
/// stated bounds, which the contract states.
#[verifier::external_body]
fn encode_wav(
    samples: &[i16],
    channels: u16,
    sample_rate: u32,
    bits_per_sample: u16,
) -> (r: Result<Vec<u8>, hound::Error>)
    requires
        channels == 1,
        bits_per_sample == 16,
        0 < sample_rate <= u32::MAX / 2,
        samples@.len() * 2 + 36 <= u32::MAX,
    ensures
        r is Ok,
        r->Ok_0@ == wav_mono16(sample_rate as nat, samples@),
{
    let spec = hound::WavSpec { channels, sample_rate, bits_per_sample, sample_format: hound::SampleFormat::Int };
    let mut buffer = std::io::Cursor::new(Vec::new());
    {
        let mut writer = hound::WavWriter::new(&mut buffer, spec)?;
        for sample in samples {
            writer.write_sample(*sample)?;
        }
        writer.finalize()?;
    }
    Ok(buffer.into_inner())
}

/// The text of a hound error (its `Display`).
#[verifier::external_body]
fn wav_error_text(e: &hound::Error) -> (r: String) {
    e.to_string()
}

/// A finished recording: a WAV file and how many samples it holds.
#[derive(Debug)]
pub struct RecordingArtifact {
    pub wav_bytes: Vec<u8>,
    pub sample_count: usize,
}

/// The most samples a WAV file can hold.
pub open spec fn max_wav_samples() -> nat {
    ((u32::MAX - 36) / 2) as nat
}

/// Turns the samples of a stopped recording into its artifact: fails when
/// nothing was captured or nothing came out of resampling; otherwise the
/// resampled samples as a mono 16-bit WAV file at 16 kHz.
pub fn finish_recording(captured: &[i16], resampled: Vec<i16>) -> (r: Result<
    RecordingArtifact,
    VoxioError,
>)
    requires
        resampled@.len() <= max_wav_samples(),
    ensures
        captured@.len() == 0 ==> (r matches Err(e) && is_recording(
            e,
            "no audio samples were captured"@,
        )),
        captured@.len() > 0 && resampled@.len() == 0 ==> (r matches Err(e) && is_recording(
            e,
            "failed to resample recorded audio"@,
        )),
        captured@.len() > 0 && resampled@.len() > 0 ==> (r matches Ok(a) && a.wav_bytes@
            == wav_mono16(16000, resampled@) && a.sample_count == resampled@.len()),
{
    if captured.len() == 0 {
        return Err(VoxioError::Recording(lit("no audio samples were captured")));
    }
    if resampled.len() == 0 {
        return Err(VoxioError::Recording(lit("failed to resample recorded audio")));
    }
    match encode_wav(resampled.as_slice(), 1, WHISPER_SAMPLE_RATE, 16) {
        Ok(wav_bytes) => Ok(RecordingArtifact { wav_bytes, sample_count: resampled.len() }),
        Err(e) => Err(
            VoxioError::Recording(concat2("failed to write wav buffer: ", wav_error_text(&e).as_str())),
        ),
    }
}

/// A WAV file of `n` samples is the 44-byte header and two bytes per sample,
/// and its header announces exactly that many data bytes.
pub proof fn lemma_wav_size(sample_rate: nat, samples: Seq<i16>)
    ensures
        wav_mono16(sample_rate, samples).len() == 44 + 2 * samples.len(),
        wav_mono16(sample_rate, samples).subrange(40, 44) == le32(2 * samples.len()),
{
    let w = wav_mono16(sample_rate, samples);
    assert(w.subrange(40, 44) =~= le32(2 * samples.len()));
}

} // verus!
