use whisper_overlay::pcm::{duration_to_target_bytes, finish_pulse_recording, wav_i16_mono_bytes};

#[test]
fn target_bytes_are_two_per_sample() {
    assert_eq!(duration_to_target_bytes(480_000), 960_000);
    assert_eq!(duration_to_target_bytes(2008), 4016);
    assert_eq!(duration_to_target_bytes(0), 0);
}

fn native(samples: &[i16]) -> Vec<u8> {
    samples.iter().flat_map(|s| s.to_ne_bytes()).collect()
}

#[test]
fn pulse_recording_is_cut_to_target_and_even_length() {
    let bytes = native(&[1, -2, 300]);
    assert_eq!(finish_pulse_recording(bytes.clone(), 4), vec![1, -2]);
    assert_eq!(finish_pulse_recording(bytes.clone(), 5), vec![1, -2]);
    assert_eq!(finish_pulse_recording(bytes.clone(), 100), vec![1, -2, 300]);
    let mut odd = bytes.clone();
    odd.push(7);
    assert_eq!(finish_pulse_recording(odd, 100), vec![1, -2, 300]);
    assert_eq!(finish_pulse_recording(Vec::new(), 100), Vec::<i16>::new());
}

#[test]
fn wav_bytes_hold_header_and_samples() {
    let samples = [1i16, -2];
    let bytes = wav_i16_mono_bytes(16_000, &samples).unwrap();
    let mut expected = Vec::new();
    expected.extend_from_slice(b"RIFF");
    expected.extend_from_slice(&40u32.to_le_bytes());
    expected.extend_from_slice(b"WAVE");
    expected.extend_from_slice(b"fmt ");
    expected.extend_from_slice(&16u32.to_le_bytes());
    expected.extend_from_slice(&1u16.to_le_bytes());
    expected.extend_from_slice(&1u16.to_le_bytes());
    expected.extend_from_slice(&16_000u32.to_le_bytes());
    expected.extend_from_slice(&32_000u32.to_le_bytes());
    expected.extend_from_slice(&2u16.to_le_bytes());
    expected.extend_from_slice(&16u16.to_le_bytes());
    expected.extend_from_slice(b"data");
    expected.extend_from_slice(&4u32.to_le_bytes());
    expected.extend_from_slice(&native(&samples));
    assert_eq!(bytes, expected);
    assert_eq!(bytes.len(), 48);

}

#[test]
fn empty_wav_is_header_only() {
    let bytes = wav_i16_mono_bytes(8_000, &[]).unwrap();
    assert_eq!(bytes.len(), 44);
    assert_eq!(&bytes[4..8], &36u32.to_le_bytes());
    assert_eq!(&bytes[24..28], &8_000u32.to_le_bytes());
    assert_eq!(&bytes[40..44], &0u32.to_le_bytes());
}

#[test]
fn wav_bytes_for_two_samples_on_little_endian_host() {
    let bytes = wav_i16_mono_bytes(16_000, &[1, -1]).unwrap();
    let mut expected = b"RIFF".to_vec();
    expected.extend_from_slice(&[40, 0, 0, 0]);
    expected.extend_from_slice(b"WAVEfmt ");
    expected.extend_from_slice(&[16, 0, 0, 0, 1, 0, 1, 0, 0x80, 0x3E, 0, 0, 0x00, 0x7D, 0, 0, 2, 0, 16, 0]);
    expected.extend_from_slice(b"data");
    expected.extend_from_slice(&[4, 0, 0, 0, 1, 0, 0xFF, 0xFF]);
    assert_eq!(bytes, expected);
}
