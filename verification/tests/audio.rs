use voxio::error::VoxioError;
use voxio::modules::audio::{append_i16_samples, append_u16_samples, finish_recording};
use voxio::modules::injector::{has_injectable_text, NullInjector, TextInjector};
use voxio::app::{detect_permissions, PermissionStatus};

#[test]
fn first_channel_of_interleaved_samples() {
    let mut buf = vec![9i16];
    append_i16_samples(&[1, 2, 3, 4, 5], 2, &mut buf);
    assert_eq!(buf, vec![9, 1, 3, 5]);
    let mut mono = Vec::new();
    append_i16_samples(&[1, -2, 3], 1, &mut mono);
    assert_eq!(mono, vec![1, -2, 3]);
    let mut none = Vec::new();
    append_i16_samples(&[], 3, &mut none);
    assert!(none.is_empty());
}

#[test]
fn unsigned_samples_are_centered() {
    let mut buf = Vec::new();
    append_u16_samples(&[0, 7, 32768, 7, 65535, 7], 2, &mut buf);
    assert_eq!(buf, vec![-32768, 0, 32767]);
}

#[test]
fn recording_becomes_a_wav_file() {
    let art = finish_recording(&[1, 2], vec![1, -1, 256]).unwrap();
    assert_eq!(art.sample_count, 3);
    let b = &art.wav_bytes;
    assert_eq!(b.len(), 44 + 6);
    assert_eq!(&b[0..4], b"RIFF");
    assert_eq!(&b[4..8], &(36u32 + 6).to_le_bytes());
    assert_eq!(&b[8..16], b"WAVEfmt ");
    assert_eq!(&b[16..20], &16u32.to_le_bytes());
    assert_eq!(&b[20..22], &1u16.to_le_bytes());
    assert_eq!(&b[22..24], &1u16.to_le_bytes());
    assert_eq!(&b[24..28], &16000u32.to_le_bytes());
    assert_eq!(&b[28..32], &32000u32.to_le_bytes());
    assert_eq!(&b[32..34], &2u16.to_le_bytes());
    assert_eq!(&b[34..36], &16u16.to_le_bytes());
    assert_eq!(&b[36..40], b"data");
    assert_eq!(&b[40..44], &6u32.to_le_bytes());
    assert_eq!(&b[44..], &[1, 0, 0xff, 0xff, 0, 1]);
}

#[test]
fn empty_recordings_fail() {
    match finish_recording(&[], vec![]) {
        Err(VoxioError::Recording(m)) => assert_eq!(m, "no audio samples were captured"),
        _ => panic!(),
    }
    match finish_recording(&[3], vec![]) {
        Err(VoxioError::Recording(m)) => assert_eq!(m, "failed to resample recorded audio"),
        _ => panic!(),
    }
}

#[test]
fn injection_checks() {
    assert!(!has_injectable_text(" \n\t"));
    assert!(has_injectable_text(" a "));
    assert!(NullInjector.inject("x").unwrap().applied);
    assert!(!NullInjector.inject("").unwrap().applied);
}

#[test]
fn permissions() {
    let p = detect_permissions(true, false);
    assert!(p.microphone && !p.accessibility && !p.input_monitoring);
    let q = detect_permissions(false, true);
    assert!(!q.microphone && q.accessibility && q.input_monitoring);
    let d = PermissionStatus::default();
    assert!(!d.microphone && !d.accessibility && !d.input_monitoring);
}
