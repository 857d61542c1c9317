use voice_launcher::{encode_wav, read_header, WavError, WavHeader, SAMPLE_RATE};

#[test]
fn encoded_header_reports_format() {
    let bytes = encode_wav(&[0, 1, -1], SAMPLE_RATE).unwrap();
    assert_eq!(bytes.len(), 44 + 6);
    let h = read_header(&bytes).unwrap();
    assert_eq!(
        h,
        WavHeader {
            channels: 1,
            sample_rate: 44100,
            byte_rate: 88200,
            block_align: 2,
            bits_per_sample: 16,
            data_len: 6,
        }
    );
}

#[test]
fn encoded_bytes_are_exact() {
    let bytes = encode_wav(&[256, -2], 8000).unwrap();
    let mut expected: Vec<u8> = Vec::new();
    expected.extend_from_slice(b"RIFF");
    expected.extend_from_slice(&[40, 0, 0, 0]);
    expected.extend_from_slice(b"WAVEfmt ");
    expected.extend_from_slice(&[16, 0, 0, 0, 1, 0, 1, 0]);
    expected.extend_from_slice(&[0x40, 0x1f, 0, 0, 0x80, 0x3e, 0, 0, 2, 0, 16, 0]);
    expected.extend_from_slice(b"data");
    expected.extend_from_slice(&[4, 0, 0, 0]);
    expected.extend_from_slice(&[0, 1, 0xfe, 0xff]);
    assert_eq!(bytes, expected);
}

#[test]
fn empty_buffer_gives_header_only() {
    let bytes = encode_wav(&[], SAMPLE_RATE).unwrap();
    assert_eq!(bytes.len(), 44);
    assert_eq!(read_header(&bytes).unwrap().data_len, 0);
}

#[test]
fn unsupported_rates_are_rejected() {
    assert_eq!(encode_wav(&[1], 0), Err(WavError::UnsupportedRate));
    assert_eq!(encode_wav(&[1], u32::MAX), Err(WavError::UnsupportedRate));
    assert!(encode_wav(&[1], u32::MAX / 2).is_ok());
}

#[test]
fn header_reader_rejects_other_bytes() {
    assert_eq!(read_header(&[0u8; 10]), None);
    let mut bytes = encode_wav(&[3], SAMPLE_RATE).unwrap();
    bytes[0] = b'X';
    assert_eq!(read_header(&bytes), None);
}

#[test]
fn four_samples_encode_exactly() {
    let bytes = encode_wav(&[32767, -32767, 16383, 0], SAMPLE_RATE).unwrap();
    assert_eq!(bytes.len(), 52);
    assert_eq!(read_header(&bytes).unwrap().data_len, 8);
    assert_eq!(&bytes[44..], &[0xff, 0x7f, 0x01, 0x80, 0xff, 0x3f, 0x00, 0x00]);
}
