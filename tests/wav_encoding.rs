use speaky_stt::wav::{clamp_sample, encode_wav_in_memory, EncodeError, HEADER_LEN};

fn le16(b: &[u8], at: usize) -> u16 {
    u16::from_le_bytes([b[at], b[at + 1]])
}

fn le32(b: &[u8], at: usize) -> u32 {
    u32::from_le_bytes([b[at], b[at + 1], b[at + 2], b[at + 3]])
}

#[test]
fn empty_input_gives_mono_16bit_16k_header() {
    let b = encode_wav_in_memory(&vec![]).unwrap();
    assert_eq!(b.len(), HEADER_LEN);
    assert_eq!(&b[0..4], b"RIFF");
    assert_eq!(le32(&b, 4), 36);
    assert_eq!(&b[8..16], b"WAVEfmt ");
    assert_eq!(le32(&b, 16), 16);
    assert_eq!(le16(&b, 20), 1);
    assert_eq!(le16(&b, 22), 1);
    assert_eq!(le32(&b, 24), 16000);
    assert_eq!(le32(&b, 28), 32000);
    assert_eq!(le16(&b, 32), 2);
    assert_eq!(le16(&b, 34), 16);
    assert_eq!(&b[36..40], b"data");
    assert_eq!(le32(&b, 40), 0);
}

#[test]
fn samples_are_stored_little_endian_after_header() {
    let b = encode_wav_in_memory(&vec![0, 1, -1, 32767, -32768, 256]).unwrap();
    assert_eq!(b.len(), 44 + 12);
    assert_eq!(le32(&b, 4), 36 + 12);
    assert_eq!(le32(&b, 40), 12);
    assert_eq!(&b[44..], &[0, 0, 1, 0, 0xff, 0xff, 0xff, 0x7f, 0x00, 0x80, 0x00, 0x01]);
}

#[test]
fn out_of_range_samples_saturate() {
    let b = encode_wav_in_memory(&vec![40000, -40000, i32::MAX, i32::MIN, 32768, -32769]).unwrap();
    let got: Vec<i16> = (0..6).map(|i| le16(&b, 44 + 2 * i) as i16).collect();
    assert_eq!(got, vec![32767, -32768, 32767, -32768, 32767, -32768]);
}

#[test]
fn scaled_float_examples_encode_exactly() {
    let b = encode_wav_in_memory(&vec![65534, -65534, 49150, -98301]).unwrap();
    assert_eq!(b.len(), 52);
    let got: Vec<i16> = (0..4).map(|i| le16(&b, 44 + 2 * i) as i16).collect();
    assert_eq!(got, vec![32767, -32768, 32767, -32768]);
    let b = encode_wav_in_memory(&vec![0, 16383, -16383, 32767, -32767]).unwrap();
    assert_eq!(b.len(), 54);
    let got: Vec<i16> = (0..5).map(|i| le16(&b, 44 + 2 * i) as i16).collect();
    assert_eq!(got, vec![0, 16383, -16383, 32767, -32767]);
}

#[test]
fn clamp_sample_limits_to_i16_range() {
    assert_eq!(clamp_sample(0), 0);
    assert_eq!(clamp_sample(-5), -5);
    assert_eq!(clamp_sample(32767), 32767);
    assert_eq!(clamp_sample(32768), 32767);
    assert_eq!(clamp_sample(-32768), -32768);
    assert_eq!(clamp_sample(-32769), -32768);
    assert_eq!(clamp_sample(i32::MAX), 32767);
    assert_eq!(clamp_sample(i32::MIN), -32768);
}

#[test]
fn encode_error_variants_compare() {
    assert_ne!(EncodeError::TooLong, EncodeError::Writer(String::from("x")));
}
