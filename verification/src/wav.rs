//! Framing of sound samples as a WAV file: 16-bit PCM, one channel.

use vstd::prelude::*;

verus! {

/// Samples per second of every sound the game makes.
pub const SAMPLE_RATE: u32 = 44_100;

/// Bytes per second: two for each sample.
pub const BYTE_RATE: u32 = 88_200;

/// Length of the header in bytes.
pub const HEADER_LEN: usize = 44;

/// The most samples that one file can hold: its size fields have 32 bits.
pub const MAX_SAMPLES: usize = 2_147_483_629;

/// The two bytes of `v`, low byte first.
pub open spec fn le_bytes_u16(v: u16) -> Seq<u8> {
    seq![(v % 256) as u8, (v / 256) as u8]
}

/// The four bytes of `v`, lowest byte first.
pub open spec fn le_bytes_u32(v: u32) -> Seq<u8> {
    seq![
        (v % 256) as u8,
        ((v / 256) % 256) as u8,
        ((v / 65_536) % 256) as u8,
        (v / 16_777_216) as u8,
    ]
}

/// A sample as the unsigned word with the same sixteen bits.
pub open spec fn sample_word(s: i16) -> u16 {
    if s >= 0 {
        s as u16
    } else {
        (s + 65_536) as u16
    }
}

/// The bytes of the samples, each low byte first.
pub open spec fn sample_bytes(samples: Seq<i16>) -> Seq<u8>
    decreases samples.len(),
{
    if samples.len() == 0 {
        Seq::empty()
    } else {
        sample_bytes(samples.drop_last()) + le_bytes_u16(sample_word(samples.last()))
    }
}

/// The header of a file of `count` samples: the RIFF chunk with the size of
/// all that follows it, the format chunk that says PCM, one channel, the
/// sample rate, the byte rate, two bytes to a block and sixteen bits to a
/// sample, and the head of the data chunk with the size of the samples.
pub open spec fn wav_header(count: u32) -> Seq<u8> {
    seq![0x52u8, 0x49, 0x46, 0x46] + le_bytes_u32((36 + 2 * count) as u32) + seq![
        0x57u8,
        0x41,
        0x56,
        0x45,
        0x66,
        0x6d,
        0x74,
        0x20,
    ] + le_bytes_u32(16) + le_bytes_u16(1) + le_bytes_u16(1) + le_bytes_u32(SAMPLE_RATE)
        + le_bytes_u32(BYTE_RATE) + le_bytes_u16(2) + le_bytes_u16(16) + seq![
        0x64u8,
        0x61,
        0x74,
        0x61,
    ] + le_bytes_u32((2 * count) as u32)
}

/// The file that holds `samples`.
pub open spec fn wav_file(samples: Seq<i16>) -> Seq<u8> {
    wav_header(samples.len() as u32) + sample_bytes(samples)
}

fn push_u16(data: &mut Vec<u8>, v: u16)
    ensures
        final(data)@ == old(data)@ + le_bytes_u16(v),
{
    data.push((v % 256) as u8);
    data.push((v / 256) as u8);
    assert(data@ =~= old(data)@ + le_bytes_u16(v));
}

fn push_u32(data: &mut Vec<u8>, v: u32)
    ensures
        final(data)@ == old(data)@ + le_bytes_u32(v),
{
    data.push((v % 256) as u8);
    data.push(((v / 256) % 256) as u8);
    data.push(((v / 65_536) % 256) as u8);
    data.push((v / 16_777_216) as u8);
    assert(data@ =~= old(data)@ + le_bytes_u32(v));
}

fn push_tag(data: &mut Vec<u8>, a: u8, b: u8, c: u8, d: u8)
    ensures
        final(data)@ == old(data)@ + seq![a, b, c, d],
{
    data.push(a);
    data.push(b);
    data.push(c);
    data.push(d);
    assert(data@ =~= old(data)@ + seq![a, b, c, d]);
}

/// The header of a file of `count` samples.
pub fn header(count: u32) -> (r: Vec<u8>)
    requires
        count <= MAX_SAMPLES,
    ensures
        r@ == wav_header(count),
        r@.len() == HEADER_LEN,
{
    let mut data: Vec<u8> = Vec::new();
    push_tag(&mut data, 0x52, 0x49, 0x46, 0x46);
    push_u32(&mut data, 36 + 2 * count);
    push_tag(&mut data, 0x57, 0x41, 0x56, 0x45);
    push_tag(&mut data, 0x66, 0x6d, 0x74, 0x20);
    push_u32(&mut data, 16);
    push_u16(&mut data, 1);
    push_u16(&mut data, 1);
    push_u32(&mut data, SAMPLE_RATE);
    push_u32(&mut data, BYTE_RATE);
    push_u16(&mut data, 2);
    push_u16(&mut data, 16);
    push_tag(&mut data, 0x64, 0x61, 0x74, 0x61);
    push_u32(&mut data, 2 * count);
    assert(data@ =~= wav_header(count));
    data
}

/// Frames `samples` as a WAV file: the header, then each sample as two
/// bytes, low byte first.
pub fn encode_wav(samples: &[i16]) -> (r: Vec<u8>)
    requires
        samples@.len() <= MAX_SAMPLES,
    ensures
        r@ == wav_file(samples@),
        r@.len() == HEADER_LEN + 2 * samples@.len(),
{
    let mut data = header(samples.len() as u32);
    let mut i: usize = 0;
    while i < samples.len()
        invariant
            0 <= i <= samples@.len(),
            data@ == wav_header(samples@.len() as u32) + sample_bytes(samples@.subrange(0, i as int)),
            data@.len() == HEADER_LEN + 2 * i,
        decreases samples@.len() - i,
    {
        let s: i16 = samples[i];
        let word: u16 = if s >= 0 {
            s as u16
        } else {
            (s as i32 + 65_536) as u16
        };
        let ghost before = data@;
        push_u16(&mut data, word);
        proof {
            let next = samples@.subrange(0, i + 1);
            assert(next.drop_last() =~= samples@.subrange(0, i as int));
            assert(next.last() == s);
            assert(data@ =~= wav_header(samples@.len() as u32) + sample_bytes(next));
        }
        i = i + 1;
    }
    assert(samples@.subrange(0, i as int) =~= samples@);
    data
}

} // verus!
