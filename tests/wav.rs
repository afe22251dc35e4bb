use morse_traducer::buffer::WavOutBuffer;
use morse_traducer::wav::{pcm_of, WavBuilder, WavOptions, MAX_PAYLOAD};

fn le32_at(b: &[u8], i: usize) -> u32 {
    u32::from_le_bytes([b[i], b[i + 1], b[i + 2], b[i + 3]])
}

#[test]
fn test_file() {
    let wav_file = WavBuilder::new().set_output(WavOutBuffer::new());
    let mut wav_file = wav_file.init();
    assert_eq!(wav_file.write(&[0; 28]), 28);
    wav_file.write_half_words(&[0, 1000, -1000, i16::MAX, i16::MIN]);
    wav_file.write_half_words(&[]);
    let out = wav_file.close().into_inner();
    assert_eq!(out.len(), 44 + 28 + 10);
    assert_eq!(le32_at(&out, 4), 38 + 36);
    assert_eq!(le32_at(&out, 40), 38 + 32);
    assert_eq!(&out[72..], &[0, 0, 0xe8, 0x03, 0x18, 0xfc, 0xff, 0x7f, 0x00, 0x80]);
}

#[test]
fn close_rewrites_size_fields() {
    let w = WavBuilder::new().set_output(WavOutBuffer::new()).init();
    let empty = w.close().into_inner();
    assert_eq!(empty.len(), 44);
    assert_eq!(le32_at(&empty, 40), 32);
    let mut w = WavBuilder::new().set_output(WavOutBuffer::new()).init();
    w.write(&[7; 100]);
    let out = w.close().into_inner();
    assert_eq!(le32_at(&out, 40), 100 + 32);
    assert_eq!(le32_at(&out, 4), 100 + 36);
}

#[test]
fn header_at_an_offset() {
    let mut buf = WavOutBuffer::from_bytes(vec![9; 3]);
    buf.set_position(3);
    let mut w = WavBuilder::new().set_output(buf).init();
    w.write(&[1, 2]);
    let out = w.close();
    assert_eq!(out.position(), 3 + 44);
    let b = out.into_inner();
    assert_eq!(&b[0..3], &[9, 9, 9]);
    assert_eq!(&b[3..7], b"RIFF");
    assert_eq!(le32_at(&b, 43), 2 + 32);
    assert_eq!(&b[47..], &[1, 2]);
}

#[test]
fn builder_settings_reach_the_header() {
    let mut b = WavBuilder::new();
    b.sample_rate(8000).bits_per_sample(8).num_channels(2).pcm(3).chunk_size(18);
    let out = b.set_output(WavOutBuffer::new()).init().close().into_inner();
    assert_eq!(le32_at(&out, 16), 18);
    assert_eq!(&out[20..24], &[3, 0, 2, 0]);
    assert_eq!(le32_at(&out, 24), 8000);
    assert_eq!(le32_at(&out, 28), 8000);
    assert_eq!(&out[32..36], &[1, 0, 8, 0]);
}

#[test]
fn align_derives_rates() {
    let mut o = WavOptions::default();
    assert_eq!(o.header()[28..32], 88200u32.to_le_bytes());
    o.align();
    assert_eq!(o.header()[32..34], [2, 0]);
    assert_eq!(o.written_data(), 0);
}

#[test]
fn payload_limit_is_the_32_bit_maximum() {
    let w = WavBuilder::new().set_output(WavOutBuffer::new()).init();
    assert!(w.can_write(MAX_PAYLOAD as usize));
    assert!(!w.can_write(MAX_PAYLOAD as usize + 1));
    assert_eq!(MAX_PAYLOAD, u32::MAX);
}

#[test]
fn pcm_is_little_endian() {
    assert_eq!(pcm_of(&[0x1234, -2]), vec![0x34, 0x12, 0xfe, 0xff]);
}

#[test]
fn buffer_overwrites_and_pads() {
    let mut b = WavOutBuffer::from_bytes(vec![1, 2, 3]);
    b.set_position(1);
    b.write_all(&[8, 8, 8]);
    assert_eq!(b.get_ref(), &vec![1, 8, 8, 8]);
    b.set_position(6);
    b.write_all(&[5]);
    assert_eq!(b.get_ref(), &vec![1, 8, 8, 8, 0, 0, 5]);
    assert_eq!(b.position(), 7);
    let c = b.duplicate();
    assert_eq!(c.get_ref(), b.get_ref());
}

#[test]
fn write_wav_in_one_pass() {
    let mut out = WavOutBuffer::new();
    morse_traducer::wav::write_wav(vec![1, -1], 8000, &mut out);
    let b = out.into_inner();
    assert_eq!(b.len(), 48);
    assert_eq!(&b[0..4], b"RIFF");
    assert_eq!(le32_at(&b, 4), 24);
    assert_eq!(le32_at(&b, 24), 8000);
    assert_eq!(le32_at(&b, 28), 8000);
    assert_eq!(le32_at(&b, 40), 4);
    assert_eq!(&b[44..], &[1, 0, 255, 255]);
}
