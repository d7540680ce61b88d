use hlas::wav::{encode_wav, WAV_HEADER_LEN};

#[test]
fn empty_recording_is_a_bare_header() {
    let wav = encode_wav(&[], 16_000);
    assert_eq!(wav.len(), WAV_HEADER_LEN);
    assert_eq!(
        wav,
        vec![
            b'R', b'I', b'F', b'F', 36, 0, 0, 0, b'W', b'A', b'V', b'E', b'f', b'm', b't', b' ', 16, 0, 0, 0, 1, 0,
            1, 0, 0x80, 0x3e, 0, 0, 0, 0x7d, 0, 0, 2, 0, 16, 0, b'd', b'a', b't', b'a', 0, 0, 0, 0,
        ]
    );
}

#[test]
fn samples_follow_the_header_little_endian() {
    let samples: [i16; 3] = [1, -1, i16::MAX];
    let wav = encode_wav(&samples, 16_000);
    assert_eq!(wav.len(), 44 + 6);
    assert_eq!(&wav[4..8], &(36u32 + 6).to_le_bytes());
    assert_eq!(&wav[40..44], &6u32.to_le_bytes());
    assert_eq!(&wav[44..], &[1, 0, 0xff, 0xff, 0xff, 0x7f]);
}

#[test]
fn every_sample_reads_back() {
    let samples: Vec<i16> = vec![0, 12345, -12345, i16::MIN, i16::MAX, 7];
    let wav = encode_wav(&samples, 44_100);
    for (i, s) in samples.iter().enumerate() {
        let v = i16::from_le_bytes([wav[44 + 2 * i], wav[45 + 2 * i]]);
        assert_eq!(v, *s);
    }
    assert_eq!(u32::from_le_bytes([wav[24], wav[25], wav[26], wav[27]]), 44_100);
    assert_eq!(u32::from_le_bytes([wav[28], wav[29], wav[30], wav[31]]), 88_200);
}
