//! WAV (RIFF) encoding of 16-bit mono PCM, and reading the timing fields of a
//! WAV header.
use vstd::prelude::*;

verus! {

/// Little-endian bytes of a 16-bit value.
pub open spec fn le16(x: int) -> Seq<u8> {
    seq![(x % 256) as u8, ((x / 256) % 256) as u8]
}

/// Little-endian bytes of a 32-bit value.
pub open spec fn le32(x: int) -> Seq<u8> {
    seq![
        (x % 256) as u8,
        ((x / 256) % 256) as u8,
        ((x / 65536) % 256) as u8,
        ((x / 16777216) % 256) as u8,
    ]
}

pub open spec fn ascii4(a: char, b: char, c: char, d: char) -> Seq<u8> {
    seq![a as u8, b as u8, c as u8, d as u8]
}

/// The 44-byte header of a 16-bit mono PCM WAV file holding `n` samples at
/// `sample_rate` Hz.
pub open spec fn wav_header(n: int, sample_rate: u32) -> Seq<u8> {
    ascii4('R', 'I', 'F', 'F') + le32(36 + 2 * n) + ascii4('W', 'A', 'V', 'E') + ascii4('f', 'm', 't', ' ')
        + le32(16) + le16(1) + le16(1) + le32(sample_rate as int) + le32(2 * sample_rate) + le16(2)
        + le16(16) + ascii4('d', 'a', 't', 'a') + le32(2 * n)
}

/// The two bytes of a sample, low byte first, in two's complement.
pub open spec fn sample_bytes(s: i16) -> Seq<u8> {
    le16(if s < 0 { s + 65536 } else { s as int })
}

/// The PCM data of `samples`.
pub open spec fn pcm_bytes(samples: Seq<i16>) -> Seq<u8>
    decreases samples.len(),
{
    if samples.len() == 0 {
        Seq::empty()
    } else {
        pcm_bytes(samples.drop_last()) + sample_bytes(samples.last())
    }
}

fn push_le16(v: &mut Vec<u8>, x: u16)
    ensures
        final(v)@ == old(v)@ + le16(x as int),
{
    v.push((x % 256) as u8);
    v.push((x / 256) as u8);
    assert(v@ =~= old(v)@ + le16(x as int));
}

fn push_le32(v: &mut Vec<u8>, x: u32)
    ensures
        final(v)@ == old(v)@ + le32(x as int),
{
    v.push((x % 256) as u8);
    v.push(((x / 256) % 256) as u8);
    v.push(((x / 65536) % 256) as u8);
    v.push((x / 16777216) as u8);
    assert(v@ =~= old(v)@ + le32(x as int));
}

fn push_ascii4(v: &mut Vec<u8>, a: u8, b: u8, c: u8, d: u8)
    ensures
        final(v)@ == old(v)@ + seq![a, b, c, d],
{
    v.push(a);
    v.push(b);
    v.push(c);
    v.push(d);
    assert(v@ =~= old(v)@ + seq![a, b, c, d]);
}

/// A complete WAV file of 16-bit mono PCM `samples` at `sample_rate` Hz.
pub fn i16_to_wav(samples: &[i16], sample_rate: u32) -> (wav: Vec<u8>)
    requires
        36 + 2 * samples@.len() <= u32::MAX,
        2 * sample_rate <= u32::MAX,
    ensures
        wav@ == wav_header(samples@.len() as int, sample_rate) + pcm_bytes(samples@),
{
    let data_len = samples.len() * 2;
    let mut wav: Vec<u8> = Vec::new();
    push_ascii4(&mut wav, 82, 73, 70, 70);
    push_le32(&mut wav, 36 + data_len as u32);
    push_ascii4(&mut wav, 87, 65, 86, 69);
    push_ascii4(&mut wav, 102, 109, 116, 32);
    push_le32(&mut wav, 16);
    push_le16(&mut wav, 1);
    push_le16(&mut wav, 1);
    push_le32(&mut wav, sample_rate);
    push_le32(&mut wav, sample_rate * 2);
    push_le16(&mut wav, 2);
    push_le16(&mut wav, 16);
    push_ascii4(&mut wav, 100, 97, 116, 97);
    push_le32(&mut wav, data_len as u32);
    let ghost header = wav@;
    assert(header =~= wav_header(samples@.len() as int, sample_rate)) by {
        assert(ascii4('R', 'I', 'F', 'F') =~= seq![82u8, 73, 70, 70]);
        assert(ascii4('W', 'A', 'V', 'E') =~= seq![87u8, 65, 86, 69]);
        assert(ascii4('f', 'm', 't', ' ') =~= seq![102u8, 109, 116, 32]);
        assert(ascii4('d', 'a', 't', 'a') =~= seq![100u8, 97, 116, 97]);
    }
    let mut i: usize = 0;
    while i < samples.len()
        invariant
            i <= samples.len(),
            wav@ == header + pcm_bytes(samples@.take(i as int)),
        decreases samples.len() - i,
    {
        let s = samples[i];
        let u: u16 = if s < 0 {
            (s as i32 + 65536) as u16
        } else {
            s as u16
        };
        push_le16(&mut wav, u);
        assert(samples@.take(i + 1).drop_last() =~= samples@.take(i as int));
        assert(header + pcm_bytes(samples@.take(i + 1)) =~= header + pcm_bytes(samples@.take(i as int))
            + sample_bytes(s));
        i += 1;
    }
    assert(samples@.take(samples.len() as int) =~= samples@);
    wav
}

/// The fields of a WAV header that give its duration.
pub struct WavTiming {
    pub sample_rate: u32,
    /// Bytes per frame: channels times bytes per sample.
    pub bytes_per_frame: u32,
    /// Size of the data chunk, in bytes.
    pub data_size: u32,
}

pub open spec fn u16_at(b: Seq<u8>, i: int) -> int {
    b[i] as int + 256 * b[i + 1] as int
}

pub open spec fn u32_at(b: Seq<u8>, i: int) -> int {
    b[i] as int + 256 * b[i + 1] as int + 65536 * b[i + 2] as int + 16777216 * b[i + 3] as int
}

/// Reads the channel count (offset 22), sample rate (24), bits per sample
/// (34) and data size (40) of a 44-byte WAV header, all little-endian.
pub fn wav_timing(header: &[u8]) -> (t: WavTiming)
    requires
        header@.len() >= 44,
    ensures
        t.sample_rate == u32_at(header@, 24),
        t.bytes_per_frame == u16_at(header@, 22) * (u16_at(header@, 34) / 8),
        t.data_size == u32_at(header@, 40),
{
    let channels: u32 = header[22] as u32 + 256 * header[23] as u32;
    let sample_rate: u32 = header[24] as u32 + 256 * header[25] as u32 + 65536 * header[26] as u32 + 16777216
        * header[27] as u32;
    let bits: u32 = header[34] as u32 + 256 * header[35] as u32;
    let data_size: u32 = header[40] as u32 + 256 * header[41] as u32 + 65536 * header[42] as u32 + 16777216
        * header[43] as u32;
    assert(channels * (bits / 8) <= 65535 * 8191) by (nonlinear_arith)
        requires
            channels <= 65535,
            bits <= 65535,
    ;
    WavTiming { sample_rate, bytes_per_frame: channels * (bits / 8), data_size }
}


/// A recording is too short to transcribe below one and a half seconds (a
/// header without rate or frame size counts as empty).
pub open spec fn too_short_spec(t: WavTiming) -> bool {
    t.sample_rate == 0 || t.bytes_per_frame == 0 || 2 * t.data_size < 3 * (t.sample_rate * t.bytes_per_frame)
}

pub fn recording_too_short(t: &WavTiming) -> (r: bool)
    requires
        t.bytes_per_frame <= 65535 * 8191,
    ensures
        r == too_short_spec(*t),
{
    if t.sample_rate == 0 || t.bytes_per_frame == 0 {
        return true;
    }
    let sr = t.sample_rate as u64;
    let bpf = t.bytes_per_frame as u64;
    assert(sr * bpf <= 0xffff_ffff * (65535 * 8191)) by (nonlinear_arith)
        requires
            sr <= 0xffff_ffff,
            bpf <= 65535 * 8191,
    ;
    let frame_bytes_per_s = sr * bpf;
    2 * (t.data_size as u64) < 3 * frame_bytes_per_s
}

} // verus!
