use snake_engine::wav::{encode_wav, header, HEADER_LEN, SAMPLE_RATE};

fn reference(samples: &[i16]) -> Vec<u8> {
    let count = samples.len() as u32;
    let mut data: Vec<u8> = Vec::new();
    data.extend_from_slice(b"RIFF");
    data.extend_from_slice(&(36 + count * 2).to_le_bytes());
    data.extend_from_slice(b"WAVE");
    data.extend_from_slice(b"fmt ");
    data.extend_from_slice(&16u32.to_le_bytes());
    data.extend_from_slice(&1u16.to_le_bytes());
    data.extend_from_slice(&1u16.to_le_bytes());
    data.extend_from_slice(&44100u32.to_le_bytes());
    data.extend_from_slice(&88200u32.to_le_bytes());
    data.extend_from_slice(&2u16.to_le_bytes());
    data.extend_from_slice(&16u16.to_le_bytes());
    data.extend_from_slice(b"data");
    data.extend_from_slice(&(count * 2).to_le_bytes());
    for s in samples {
        data.extend_from_slice(&s.to_le_bytes());
    }
    data
}

#[test]
fn empty_sound_is_just_the_header() {
    let bytes = encode_wav(&[]);
    assert_eq!(bytes.len(), HEADER_LEN);
    assert_eq!(
        bytes,
        vec![
            0x52, 0x49, 0x46, 0x46, 36, 0, 0, 0, 0x57, 0x41, 0x56, 0x45, 0x66, 0x6d, 0x74, 0x20,
            16, 0, 0, 0, 1, 0, 1, 0, 0x44, 0xac, 0, 0, 0x88, 0x58, 1, 0, 2, 0, 16, 0, 0x64, 0x61,
            0x74, 0x61, 0, 0, 0, 0
        ]
    );
    assert_eq!(header(0), bytes);
    assert_eq!(SAMPLE_RATE, 44_100);
}

#[test]
fn samples_are_written_low_byte_first() {
    let bytes = encode_wav(&[1, -1, 256, i16::MIN, i16::MAX, -2]);
    assert_eq!(
        &bytes[44..],
        &[1, 0, 0xff, 0xff, 0, 1, 0, 0x80, 0xff, 0x7f, 0xfe, 0xff]
    );
    assert_eq!(&bytes[4..8], &[48, 0, 0, 0]);
    assert_eq!(&bytes[40..44], &[12, 0, 0, 0]);
}

#[test]
fn framing_agrees_with_the_byte_conversions() {
    let samples: Vec<i16> = (0..3528).map(|i| ((i * 7919) % 65536 - 32768) as i16).collect();
    assert_eq!(encode_wav(&samples), reference(&samples));
    assert_eq!(header(3528), reference(&samples)[..44].to_vec());
    assert_eq!(header(70_000), {
        let mut expected = reference(&[]);
        expected[4..8].copy_from_slice(&140_036u32.to_le_bytes());
        expected[40..44].copy_from_slice(&140_000u32.to_le_bytes());
        expected
    });
}
