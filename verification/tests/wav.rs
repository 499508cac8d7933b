use sf2deluge::wav::{Header, SampleChunk};

#[test]
fn test_header_fields() {
    let h = Header::new(1, 44100);
    assert_eq!(h.audio_format, 1);
    assert_eq!(h.channel_count, 1);
    assert_eq!(h.sampling_rate, 44100);
    assert_eq!(h.bytes_per_second, 88200);
    assert_eq!(h.bytes_per_sample, 2);
    assert_eq!(h.bits_per_sample, 16);
}

#[test]
fn test_wav_bytes_without_loop() {
    let h = Header::new(1, 44100);
    let track: Vec<i16> = vec![1, -1];
    let bytes = sf2deluge::wav::write(h, &track, None);
    assert_eq!(&bytes[0..4], b"RIFF");
    // WAVE + (fmt header and payload) + (data header and payload)
    assert_eq!(&bytes[4..8], &(4u32 + 24 + 12).to_le_bytes());
    assert_eq!(&bytes[8..12], b"WAVE");
    assert_eq!(&bytes[12..16], b"fmt ");
    assert_eq!(&bytes[16..20], &16u32.to_le_bytes());
    assert_eq!(&bytes[20..22], &1u16.to_le_bytes()); // PCM
    assert_eq!(&bytes[36..40], b"data");
    assert_eq!(&bytes[40..44], &4u32.to_le_bytes());
    assert_eq!(&bytes[44..48], &[0x01, 0x00, 0xFF, 0xFF]);
    assert_eq!(bytes.len(), 48);
}

#[test]
fn test_wav_bytes_with_loop() {
    let h = Header::new(1, 44100);
    let track: Vec<i16> = vec![0];
    let chunk = SampleChunk::new(44100, 5, 9);
    let bytes = sf2deluge::wav::write(h, &track, Some(chunk));
    assert_eq!(&bytes[36..40], b"smpl");
    assert_eq!(&bytes[40..44], &60u32.to_le_bytes()); // 36 + one 24-byte loop
    // the sample period in nanoseconds
    assert_eq!(&bytes[52..56], &(1_000_000_000u32 / 44100).to_le_bytes());
    // one loop
    assert_eq!(&bytes[72..76], &1u32.to_le_bytes());
    // forward loop over [5, 9]
    assert_eq!(&bytes[84..88], &0u32.to_le_bytes());
    assert_eq!(&bytes[88..92], &5u32.to_le_bytes());
    assert_eq!(&bytes[92..96], &9u32.to_le_bytes());
    assert_eq!(&bytes[104..108], b"data");
}
