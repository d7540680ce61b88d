//! Framing of 16-bit mono PCM audio as a RIFF/WAVE file held in memory.
//!
//! The file is the canonical 44-byte header (a `fmt ` chunk describing PCM,
//! one channel, 16 bits per sample) followed by a `data` chunk holding every
//! sample as two little-endian bytes.

use vstd::prelude::*;

verus! {

/// Size in bytes of the canonical WAVE header written before the samples.
pub const WAV_HEADER_LEN: usize = 44;

/// Two little-endian bytes of `v`.
pub open spec fn le16(v: u16) -> Seq<u8> {
    seq![(v & 0xff) as u8, (v >> 8u16) as u8]
}

/// Four little-endian bytes of `v`.
pub open spec fn le32(v: u32) -> Seq<u8> {
    seq![(v & 0xff) as u8, ((v >> 8u32) & 0xff) as u8, ((v >> 16u32) & 0xff) as u8, (v >> 24u32) as u8]
}

/// The 16-bit value whose little-endian bytes are `lo`, `hi`.
pub open spec fn u16_from_le(lo: u8, hi: u8) -> u16 {
    ((hi as u16) << 8u16) | (lo as u16)
}

/// The 32-bit value whose little-endian bytes are `b0`..`b3`.
pub open spec fn u32_from_le(b0: u8, b1: u8, b2: u8, b3: u8) -> u32 {
    ((b3 as u32) << 24u32) | ((b2 as u32) << 16u32) | ((b1 as u32) << 8u32) | (b0 as u32)
}

/// The ASCII bytes "RIFF", "WAVE", "fmt " and "data".
pub open spec fn tag_riff() -> Seq<u8> {
    seq![0x52u8, 0x49u8, 0x46u8, 0x46u8]
}

pub open spec fn tag_wave() -> Seq<u8> {
    seq![0x57u8, 0x41u8, 0x56u8, 0x45u8]
}

pub open spec fn tag_fmt() -> Seq<u8> {
    seq![0x66u8, 0x6du8, 0x74u8, 0x20u8]
}

pub open spec fn tag_data() -> Seq<u8> {
    seq![0x64u8, 0x61u8, 0x74u8, 0x61u8]
}

/// The header of a 16-bit mono PCM file of `n` samples at `rate` Hz.
pub open spec fn wav_header(n: nat, rate: u32) -> Seq<u8> {
    let data_len: u32 = (2 * n) as u32;
    tag_riff() + le32((36 + 2 * n) as u32) + tag_wave() + tag_fmt() + le32(16) + le16(1) + le16(1)
        + le32(rate) + le32((rate * 2) as u32) + le16(2) + le16(16) + tag_data() + le32(data_len)
}

/// The samples as consecutive little-endian two's-complement byte pairs.
pub open spec fn pcm16_bytes(samples: Seq<i16>) -> Seq<u8> {
    Seq::new(
        2 * samples.len(),
        |k: int|
            if k % 2 == 0 {
                le16(samples[k / 2] as u16)[0]
            } else {
                le16(samples[k / 2] as u16)[1]
            },
    )
}

/// The whole file: header, then the sample bytes.
pub open spec fn wav_file(samples: Seq<i16>, rate: u32) -> Seq<u8> {
    wav_header(samples.len(), rate) + pcm16_bytes(samples)
}

fn push_le16(buf: &mut Vec<u8>, v: u16)
    ensures
        final(buf)@ == old(buf)@ + le16(v),
{
    buf.push((v & 0xff) as u8);
    buf.push((v >> 8u16) as u8);
}

fn push_le32(buf: &mut Vec<u8>, v: u32)
    ensures
        final(buf)@ == old(buf)@ + le32(v),
{
    buf.push((v & 0xff) as u8);
    buf.push(((v >> 8u32) & 0xff) as u8);
    buf.push(((v >> 16u32) & 0xff) as u8);
    buf.push((v >> 24u32) as u8);
}

fn push_tag(buf: &mut Vec<u8>, a: u8, b: u8, c: u8, d: u8)
    ensures
        final(buf)@ == old(buf)@ + seq![a, b, c, d],
{
    buf.push(a);
    buf.push(b);
    buf.push(c);
    buf.push(d);
}

proof fn lemma_pcm16_push(samples: Seq<i16>, i: int)
    requires
        0 <= i < samples.len(),
    ensures
        pcm16_bytes(samples.take(i + 1)) == pcm16_bytes(samples.take(i)) + le16(samples[i] as u16),
{
    let a = pcm16_bytes(samples.take(i + 1));
    let b = pcm16_bytes(samples.take(i)) + le16(samples[i] as u16);
    assert(a.len() == b.len());
    assert forall|k: int| 0 <= k < a.len() implies a[k] == b[k] by {
        if k < 2 * i {
            assert(samples.take(i + 1)[k / 2] == samples.take(i)[k / 2]);
        } else {
            assert(k / 2 == i);
        }
    }
    assert(a =~= b);
}

/// Encodes 16-bit mono PCM samples taken at `sample_rate` Hz as a WAVE file.
pub fn encode_wav(samples: &[i16], sample_rate: u32) -> (wav: Vec<u8>)
    requires
        36 + 2 * samples@.len() <= u32::MAX,
        2 * sample_rate <= u32::MAX,
    ensures
        wav@ == wav_file(samples@, sample_rate),
        wav@.len() == WAV_HEADER_LEN + 2 * samples@.len(),
{
    let bits: u16 = 16;
    let channels: u16 = 1;
    let byte_rate: u32 = sample_rate * 2;
    let block_align: u16 = 2;
    let n: usize = samples.len();
    let data_len: u32 = (n as u32) * 2;

    let mut buf: Vec<u8> = Vec::with_capacity((data_len as usize).saturating_add(44));
    push_tag(&mut buf, 0x52, 0x49, 0x46, 0x46);
    push_le32(&mut buf, 36 + data_len);
    push_tag(&mut buf, 0x57, 0x41, 0x56, 0x45);
    push_tag(&mut buf, 0x66, 0x6d, 0x74, 0x20);
    push_le32(&mut buf, 16);
    push_le16(&mut buf, 1);
    push_le16(&mut buf, channels);
    push_le32(&mut buf, sample_rate);
    push_le32(&mut buf, byte_rate);
    push_le16(&mut buf, block_align);
    push_le16(&mut buf, bits);
    push_tag(&mut buf, 0x64, 0x61, 0x74, 0x61);
    push_le32(&mut buf, data_len);
    let ghost header = buf@;
    assert(header =~= wav_header(n as nat, sample_rate));
    assert(samples@.take(0) =~= Seq::<i16>::empty());
    assert(pcm16_bytes(samples@.take(0)) =~= Seq::<u8>::empty());

    let mut i: usize = 0;
    while i < n
        invariant
            n == samples@.len(),
            0 <= i <= n,
            buf@ == header + pcm16_bytes(samples@.take(i as int)),
            header == wav_header(n as nat, sample_rate),
        decreases n - i,
    {
        proof {
            lemma_pcm16_push(samples@, i as int);
        }
        push_le16(&mut buf, #[verifier::truncate] (samples[i] as u16));
        assert(buf@ =~= header + pcm16_bytes(samples@.take(i + 1)));
        i = i + 1;
    }
    assert(samples@.take(n as int) =~= samples@);
    buf
}

proof fn lemma_le16_roundtrip(v: u16)
    ensures
        u16_from_le(le16(v)[0], le16(v)[1]) == v,
{
    let lo: u8 = (v & 0xff) as u8;
    let hi: u8 = (v >> 8u16) as u8;
    assert((((hi as u16) << 8u16) | (lo as u16)) == v) by (bit_vector)
        requires
            lo == (v & 0xff) as u8,
            hi == (v >> 8u16) as u8,
    ;
}

proof fn lemma_le32_roundtrip(v: u32)
    ensures
        u32_from_le(le32(v)[0], le32(v)[1], le32(v)[2], le32(v)[3]) == v,
{
    let b0: u8 = (v & 0xff) as u8;
    let b1: u8 = ((v >> 8u32) & 0xff) as u8;
    let b2: u8 = ((v >> 16u32) & 0xff) as u8;
    let b3: u8 = (v >> 24u32) as u8;
    assert((((b3 as u32) << 24u32) | ((b2 as u32) << 16u32) | ((b1 as u32) << 8u32) | (b0 as u32)) == v)
        by (bit_vector)
        requires
            b0 == (v & 0xff) as u8,
            b1 == ((v >> 8u32) & 0xff) as u8,
            b2 == ((v >> 16u32) & 0xff) as u8,
            b3 == (v >> 24u32) as u8,
    ;
}

/// Readback law: every sample can be read back from its two bytes at offset
/// `44 + 2 * i` of the encoded file, and the file is exactly the header plus
/// two bytes per sample.
pub proof fn lemma_wav_sample_readback(samples: Seq<i16>, rate: u32, i: int)
    requires
        0 <= i < samples.len(),
    ensures
        wav_file(samples, rate).len() == WAV_HEADER_LEN + 2 * samples.len(),
        u16_from_le(wav_file(samples, rate)[44 + 2 * i], wav_file(samples, rate)[45 + 2 * i]) as i16
            == samples[i],
{
    let w = wav_file(samples, rate);
    let h = wav_header(samples.len(), rate);
    assert(h.len() == 44);
    let p = pcm16_bytes(samples);
    assert(w[44 + 2 * i] == p[2 * i]);
    assert(w[45 + 2 * i] == p[2 * i + 1]);
    assert((2 * i) / 2 == i);
    assert((2 * i + 1) / 2 == i);
    let x: i16 = samples[i];
    lemma_le16_roundtrip(x as u16);
    assert(((x as u16) as i16) == x) by (bit_vector);
}

/// Header law: the encoded file declares RIFF/WAVE with a PCM `fmt ` chunk of
/// one channel, 16 bits per sample, the given sample rate and byte rate, and
/// its two size fields agree with the actual length of the file.
pub proof fn lemma_wav_header_fields(samples: Seq<i16>, rate: u32)
    requires
        36 + 2 * samples.len() <= u32::MAX,
        2 * rate <= u32::MAX,
    ensures
        ({
            let w = wav_file(samples, rate);
            &&& w.subrange(0, 4) == tag_riff()
            &&& u32_from_le(w[4], w[5], w[6], w[7]) == w.len() - 8
            &&& w.subrange(8, 12) == tag_wave()
            &&& w.subrange(12, 16) == tag_fmt()
            &&& u32_from_le(w[16], w[17], w[18], w[19]) == 16
            &&& u16_from_le(w[20], w[21]) == 1
            &&& u16_from_le(w[22], w[23]) == 1
            &&& u32_from_le(w[24], w[25], w[26], w[27]) == rate
            &&& u32_from_le(w[28], w[29], w[30], w[31]) == 2 * rate
            &&& u16_from_le(w[32], w[33]) == 2
            &&& u16_from_le(w[34], w[35]) == 16
            &&& w.subrange(36, 40) == tag_data()
            &&& u32_from_le(w[40], w[41], w[42], w[43]) == w.len() - WAV_HEADER_LEN
        }),
{
    let n: nat = samples.len();
    let w = wav_file(samples, rate);
    let h = wav_header(n, rate);
    assert(w.subrange(0, 44) =~= h);
    lemma_le32_roundtrip((36 + 2 * n) as u32);
    lemma_le32_roundtrip(16);
    lemma_le16_roundtrip(1);
    lemma_le32_roundtrip(rate);
    lemma_le32_roundtrip((rate * 2) as u32);
    lemma_le16_roundtrip(2);
    lemma_le16_roundtrip(16);
    lemma_le32_roundtrip((2 * n) as u32);
    assert(w.subrange(0, 4) =~= tag_riff());
    assert(w.subrange(8, 12) =~= tag_wave());
    assert(w.subrange(12, 16) =~= tag_fmt());
    assert(w.subrange(36, 40) =~= tag_data());
}

} // verus!
