use rmtfar::audio::{apply_stereo_mode, sample_and_hold};

#[test]
fn left_only_silences_right_channel() {
    let mut s = vec![1.0f32, 2.0, 3.0, 4.0, 5.0, 6.0];
    apply_stereo_mode(&mut s, 2, 1, 0.0);
    assert_eq!(s, vec![1.0, 0.0, 3.0, 0.0, 5.0, 0.0]);
}

#[test]
fn right_only_silences_left_channel() {
    let mut s = vec![1.0f32, 2.0, 3.0, 4.0];
    apply_stereo_mode(&mut s, 2, 2, 0.0);
    assert_eq!(s, vec![0.0, 2.0, 0.0, 4.0]);
}

#[test]
fn both_ears_and_mono_are_untouched() {
    let mut s = vec![1.0f32, 2.0, 3.0, 4.0];
    apply_stereo_mode(&mut s, 2, 0, 0.0);
    assert_eq!(s, vec![1.0, 2.0, 3.0, 4.0]);
    apply_stereo_mode(&mut s, 1, 1, 0.0);
    assert_eq!(s, vec![1.0, 2.0, 3.0, 4.0]);
    apply_stereo_mode(&mut s, 2, 3, 0.0);
    assert_eq!(s, vec![1.0, 2.0, 3.0, 4.0]);
}

#[test]
fn short_last_frame_keeps_its_single_sample() {
    let mut s = vec![1.0f32, 2.0, 3.0, 4.0, 5.0];
    apply_stereo_mode(&mut s, 2, 2, 0.0);
    assert_eq!(s, vec![0.0, 2.0, 0.0, 4.0, 5.0]);
    let mut t = vec![1.0f32, 2.0, 3.0, 4.0, 5.0, 6.0, 7.0];
    apply_stereo_mode(&mut t, 3, 1, -1.0);
    assert_eq!(t, vec![1.0, -1.0, 3.0, 4.0, -1.0, 6.0, 7.0]);
}

#[test]
fn bitcrusher_produces_steps() {
    let mut s: Vec<f32> = (0..48).map(|i| i as f32).collect();
    sample_and_hold(&mut s, 48000, 8000);
    for (k, chunk) in s.chunks(6).enumerate() {
        assert!(chunk.iter().all(|x| *x == (k * 6) as f32), "bitcrusher: samples within chunk differ");
    }
}

#[test]
fn hold_with_uneven_tail_and_low_ratio() {
    let mut s = vec![1u8, 2, 3, 4, 5, 6, 7];
    sample_and_hold(&mut s, 48000, 16000);
    assert_eq!(s, vec![1, 1, 1, 4, 4, 4, 7]);
    let mut t = vec![1u8, 2, 3];
    sample_and_hold(&mut t, 8000, 48000);
    assert_eq!(t, vec![1, 2, 3]);
    let mut e: Vec<u8> = Vec::new();
    sample_and_hold(&mut e, 48000, 8000);
    assert!(e.is_empty());
}
