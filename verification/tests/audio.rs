use synesthesia::audio::{AudioSourceOptions, StereoSample};

#[test]
fn it_works() {
    assert_eq!(2 + 2, 4);
}

#[test]
fn new_window_is_empty() {
    let s: StereoSample<f32> = StereoSample::new(768, 48000, 12345);
    assert_eq!(s.len(), 0);
    assert_eq!(s.target_size(), 768);
    assert_eq!(s.rate(), 48000);
    assert_eq!(s.time(), 12345);
    assert!(s.left().is_empty());
    assert!(s.right().is_empty());
}

#[test]
fn extend_appends_whole_block_while_room_is_left() {
    let mut s: StereoSample<f32> = StereoSample::new(8, 44100, 0);
    assert!(!s.extend(&[0.1, 0.2, 0.3], &[1.1, 1.2, 1.3]));
    assert_eq!(s.len(), 3);
    assert!(!s.extend(&[0.4, 0.5], &[1.4, 1.5]));
    assert_eq!(s.left(), &[0.1, 0.2, 0.3, 0.4, 0.5]);
    assert_eq!(s.right(), &[1.1, 1.2, 1.3, 1.4, 1.5]);
}

#[test]
fn extend_is_full_when_block_fits_exactly() {
    let mut s: StereoSample<f32> = StereoSample::new(4, 48000, 7);
    assert!(!s.extend(&[0.1, 0.2], &[1.1, 1.2]));
    assert!(s.extend(&[0.3, 0.4], &[1.3, 1.4]));
    assert_eq!(s.len(), 4);
    assert_eq!(s.len(), s.target_size());
}

#[test]
fn extend_drops_what_does_not_fit() {
    let mut s: StereoSample<f32> = StereoSample::new(4, 48000, 7);
    assert!(!s.extend(&[0.1, 0.2, 0.3], &[1.1, 1.2, 1.3]));
    assert!(s.extend(&[0.4, 0.5, 0.6], &[1.4, 1.5, 1.6]));
    assert_eq!(s.left(), &[0.1, 0.2, 0.3, 0.4]);
    assert_eq!(s.right(), &[1.1, 1.2, 1.3, 1.4]);
}

#[test]
fn extend_never_grows_past_target_and_keeps_channels_equal() {
    let mut s: StereoSample<f32> = StereoSample::new(10, 48000, 0);
    let block = [0.5f32; 3];
    for _ in 0..7 {
        let full = s.extend(&block, &block);
        assert!(s.len() <= s.target_size());
        assert_eq!(s.left().len(), s.right().len());
        assert_eq!(full, s.len() == s.target_size());
    }
    assert_eq!(s.len(), 10);
}

#[test]
fn full_window_is_not_changed_any_more() {
    let mut s: StereoSample<f32> = StereoSample::new(2, 48000, 3);
    assert!(s.extend(&[0.1, 0.2], &[1.1, 1.2]));
    assert!(s.extend(&[9.0, 9.0, 9.0], &[8.0, 8.0, 8.0]));
    assert!(s.extend(&[], &[]));
    assert_eq!(s.left(), &[0.1, 0.2]);
    assert_eq!(s.right(), &[1.1, 1.2]);
    assert_eq!(s.rate(), 48000);
    assert_eq!(s.time(), 3);
}

#[test]
fn empty_block_leaves_window_as_it_is() {
    let mut s: StereoSample<f32> = StereoSample::new(2, 48000, 3);
    assert!(!s.extend(&[], &[]));
    assert_eq!(s.len(), 0);
}

#[test]
fn window_of_no_samples_is_full_at_once() {
    let mut s: StereoSample<f32> = StereoSample::new(0, 48000, 3);
    assert!(s.extend(&[], &[]));
    assert!(s.extend(&[1.0], &[2.0]));
    assert_eq!(s.len(), 0);
}

#[test]
fn window_holds_any_kind_of_sample() {
    let mut s: StereoSample<i16> = StereoSample::new(3, 8000, 1);
    assert!(s.extend(&[-1, 2, -3, 4], &[5, -6, 7, -8]));
    assert_eq!(s.left(), &[-1, 2, -3]);
    assert_eq!(s.right(), &[5, -6, 7]);
}

#[test]
fn options_carry_the_report_interval() {
    let o = AudioSourceOptions { stats: 60 };
    let p = o;
    assert_eq!(o.stats, 60);
    assert_eq!(p.stats, 60);
}
