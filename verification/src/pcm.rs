//! 16-bit PCM: how many bytes a recording takes, how recorded bytes become
//! samples, and the bytes of a mono WAV file.

use vstd::prelude::*;

verus! {

// ---------------------------------------------------------------------------
// Durations
// ---------------------------------------------------------------------------

/// The number of bytes that the target samples of a duration take: two
/// per 16-bit sample. The sample count itself is computed in floating
/// point, outside this library.
pub fn duration_to_target_bytes(target_samples: usize) -> (r: usize)
    requires
        target_samples * 2 <= usize::MAX,
    ensures
        r == target_samples * 2,
{
    target_samples * 2
}

// ---------------------------------------------------------------------------
// Samples and bytes
// ---------------------------------------------------------------------------

/// The bytes of 16-bit samples in the machine's byte order, as
/// `bytemuck::cast_slice` lays them out.
pub uninterp spec fn pcm_native_bytes(samples: Seq<i16>) -> Seq<u8>;

/// The 16-bit samples that `bytemuck::pod_collect_to_vec` reads from bytes
/// in the machine's byte order.
pub uninterp spec fn pcm_collect(bytes: Seq<u8>) -> Seq<i16>;

/// Calls `bytemuck::cast_slice::<i16, u8>` and copies the bytes out: two
/// bytes per sample, in the machine's byte order (named `pcm_native_bytes`).
#[verifier::external_body]
pub(crate) fn samples_to_bytes(samples: &[i16]) -> (r: Vec<u8>)
    ensures
        r@ == pcm_native_bytes(samples@),
        r@.len() == 2 * samples@.len(),
{
    bytemuck::cast_slice::<i16, u8>(samples).to_vec()
}

/// Calls `bytemuck::pod_collect_to_vec::<u8, i16>`: one sample per two
/// bytes, rounded up, read in the machine's byte order (named
/// `pcm_collect`). Reading back the bytes of some samples gives those
/// samples.
#[verifier::external_body]
pub(crate) fn bytes_to_samples(bytes: &[u8]) -> (r: Vec<i16>)
    ensures
        r@ == pcm_collect(bytes@),
        r@.len() == (bytes@.len() + 1) / 2,
        forall|s: Seq<i16>| bytes@ == pcm_native_bytes(s) ==> r@ == s,
{
    bytemuck::pod_collect_to_vec::<u8, i16>(bytes)
}

/// The recorded bytes that become samples: at most `target_bytes` of them,
/// less a last odd byte.
pub open spec fn trimmed_pcm_bytes(bytes: Seq<u8>, target_bytes: int) -> Seq<u8> {
    let t = if bytes.len() > target_bytes {
        bytes.take(target_bytes)
    } else {
        bytes
    };
    if t.len() % 2 != 0 {
        t.drop_last()
    } else {
        t
    }
}

/// Turns the bytes read from a PulseAudio recording into samples: keeps
/// the first `target_bytes`, drops a last odd byte, and reads the rest as
/// 16-bit samples.
pub fn finish_pulse_recording(bytes: Vec<u8>, target_bytes: usize) -> (r: Vec<i16>)
    ensures
        r@ == pcm_collect(trimmed_pcm_bytes(bytes@, target_bytes as int)),
        r@.len() == trimmed_pcm_bytes(bytes@, target_bytes as int).len() / 2,
{
    let mut bytes = bytes;
    let ghost original = bytes@;
    bytes.truncate(target_bytes);
    assert(bytes@ == (if original.len() > target_bytes {
        original.take(target_bytes as int)
    } else {
        original
    }));
    if bytes.len() % 2 != 0 {
        bytes.pop();
    }
    bytes_to_samples(bytes.as_slice())
}

// ---------------------------------------------------------------------------
// WAV files
// ---------------------------------------------------------------------------

/// The little-endian bytes of a 32-bit value.
pub open spec fn le_u32(x: u32) -> Seq<u8> {
    seq![
        (x % 256) as u8,
        ((x / 256) % 256) as u8,
        ((x / 65536) % 256) as u8,
        (x / 16777216) as u8,
    ]
}

/// The little-endian bytes of a 16-bit value.
pub open spec fn le_u16(x: u16) -> Seq<u8> {
    seq![(x % 256) as u8, (x / 256) as u8]
}

/// The value of four little-endian bytes.
pub open spec fn read_le_u32(b: Seq<u8>) -> int {
    b[0] + 256 * b[1] + 65536 * b[2] + 16777216 * b[3]
}

/// The 44-byte header of a 16-bit mono PCM WAV file.
pub open spec fn wav_header(sample_rate: u32, data_bytes: u32, riff_size: u32) -> Seq<u8> {
    seq![82u8, 73, 70, 70] + le_u32(riff_size) + seq![87u8, 65, 86, 69] + seq![102u8, 109, 116, 32]
        + le_u32(16) + le_u16(1) + le_u16(1) + le_u32(sample_rate) + le_u32(
        (sample_rate * 2) as u32,
    ) + le_u16(2) + le_u16(16) + seq![100u8, 97, 116, 97] + le_u32(data_bytes)
}

/// The size of the sample data that the header gives: two bytes per sample,
/// counted in 32 bits.
pub open spec fn wav_data_bytes(sample_count: nat) -> int {
    (sample_count as u32) * 2
}

/// The WAV file holds more than 32 bits can count.
#[derive(Debug, Clone, Copy, PartialEq, Eq, Structural)]
pub struct WavTooLarge;

fn push_le_u32(out: &mut Vec<u8>, x: u32)
    ensures
        final(out)@ == old(out)@ + le_u32(x),
{
    out.push((x % 256) as u8);
    out.push(((x / 256) % 256) as u8);
    out.push(((x / 65536) % 256) as u8);
    out.push((x / 16777216) as u8);
    assert(out@ =~= old(out)@ + le_u32(x));
}

fn push_le_u16(out: &mut Vec<u8>, x: u16)
    ensures
        final(out)@ == old(out)@ + le_u16(x),
{
    out.push((x % 256) as u8);
    out.push((x / 256) as u8);
    assert(out@ =~= old(out)@ + le_u16(x));
}

fn push_tag(out: &mut Vec<u8>, a: u8, b: u8, c: u8, d: u8)
    ensures
        final(out)@ == old(out)@ + seq![a, b, c, d],
{
    out.push(a);
    out.push(b);
    out.push(c);
    out.push(d);
    assert(out@ =~= old(out)@ + seq![a, b, c, d]);
}

/// The bytes of a 16-bit mono PCM WAV file at `sample_rate` holding
/// `samples`: the 44-byte header, then the samples. Refused when the RIFF
/// size, 36 plus the data size, does not fit in 32 bits.
pub fn wav_i16_mono_bytes(sample_rate: u32, samples: &[i16]) -> (r: Result<Vec<u8>, WavTooLarge>)
    requires
        sample_rate <= u32::MAX / 2,
        wav_data_bytes(samples@.len()) <= u32::MAX,
    ensures
        match r {
            Ok(bytes) => {
                &&& 36 + wav_data_bytes(samples@.len()) <= u32::MAX
                &&& bytes@.len() == 44 + 2 * samples@.len()
                &&& bytes@ == wav_header(
                    sample_rate,
                    wav_data_bytes(samples@.len()) as u32,
                    (36 + wav_data_bytes(samples@.len())) as u32,
                ) + pcm_native_bytes(samples@)
            },
            Err(_) => 36 + wav_data_bytes(samples@.len()) > u32::MAX,
        },
{
    let count = samples.len() as u32;
    let data_bytes = count * 2;
    let riff_size = match 36u32.checked_add(data_bytes) {
        Some(s) => s,
        None => return Err(WavTooLarge),
    };
    let mut out: Vec<u8> = Vec::new();
    push_tag(&mut out, 82, 73, 70, 70);
    push_le_u32(&mut out, riff_size);
    push_tag(&mut out, 87, 65, 86, 69);
    push_tag(&mut out, 102, 109, 116, 32);
    push_le_u32(&mut out, 16);
    push_le_u16(&mut out, 1);
    push_le_u16(&mut out, 1);
    push_le_u32(&mut out, sample_rate);
    push_le_u32(&mut out, sample_rate * 2);
    push_le_u16(&mut out, 2);
    push_le_u16(&mut out, 16);
    push_tag(&mut out, 100, 97, 116, 97);
    push_le_u32(&mut out, data_bytes);
    let ghost header = out@;
    assert(header =~= wav_header(sample_rate, data_bytes, riff_size));
    let mut data = samples_to_bytes(samples);
    out.append(&mut data);
    Ok(out)
}

/// While the file fits in 32 bits, the data size in the header is exactly
/// two bytes per sample, so a WAV file of `n` samples is `44 + 2n` bytes
/// long and its RIFF size is `36 + 2n`.
pub proof fn lemma_wav_sizes_count_samples(sample_count: nat)
    requires
        36 + 2 * sample_count <= u32::MAX,
    ensures
        wav_data_bytes(sample_count) == 2 * sample_count,
        36 + wav_data_bytes(sample_count) == 36 + 2 * sample_count,
{
    assert((sample_count as u32) == sample_count);
}

/// Little-endian bytes read back as the value they were written from.
pub proof fn lemma_le_u32_roundtrip(x: u32)
    ensures
        le_u32(x).len() == 4,
        read_le_u32(le_u32(x)) == x,
{
    let b = le_u32(x);
    assert(b[0] == x % 256);
    assert(b[1] == (x / 256) % 256);
    assert(b[2] == (x / 65536) % 256);
    assert(b[3] == x / 16777216);
    assert(x == x % 256 + 256 * ((x / 256) % 256) + 65536 * ((x / 65536) % 256) + 16777216 * (x
        / 16777216)) by (nonlinear_arith);
}

/// A WAV header is 44 bytes; the RIFF size stands at bytes 4 to 8, the
/// sample rate at 24 to 28 and the data size at 40 to 44.
pub proof fn lemma_wav_header_layout(sample_rate: u32, data_bytes: u32, riff_size: u32)
    requires
        sample_rate <= u32::MAX / 2,
    ensures
        wav_header(sample_rate, data_bytes, riff_size).len() == 44,
        read_le_u32(wav_header(sample_rate, data_bytes, riff_size).subrange(4, 8)) == riff_size,
        read_le_u32(wav_header(sample_rate, data_bytes, riff_size).subrange(24, 28))
            == sample_rate,
        read_le_u32(wav_header(sample_rate, data_bytes, riff_size).subrange(40, 44))
            == data_bytes,
{
    let h = wav_header(sample_rate, data_bytes, riff_size);
    lemma_le_u32_roundtrip(riff_size);
    lemma_le_u32_roundtrip(sample_rate);
    lemma_le_u32_roundtrip(data_bytes);
    assert(h.subrange(4, 8) =~= le_u32(riff_size));
    assert(h.subrange(24, 28) =~= le_u32(sample_rate));
    assert(h.subrange(40, 44) =~= le_u32(data_bytes));
}

} // verus!
