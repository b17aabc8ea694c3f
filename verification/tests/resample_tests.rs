use hyprwhspr_rs::resample::{output_len, resample, tap, Tap};

fn lerp(left: f32, right: f32, numerator: u64, denominator: u64) -> f32 {
    let frac = numerator as f64 / denominator as f64;
    left + (right - left) * frac as f32
}

#[test]
fn resample_equal_rates_is_identity() {
    let input: Vec<f32> = vec![0.0, 0.25, -0.5, 1.0];
    let out = resample(&input, 16_000, 16_000, lerp);
    assert_eq!(out, input);
}

#[test]
fn resample_empty_or_zero_rate_is_empty() {
    let empty: Vec<f32> = Vec::new();
    assert!(resample(&empty, 16_000, 8_000, lerp).is_empty());
    let input: Vec<f32> = vec![0.5, 0.25];
    assert!(resample(&input, 0, 8_000, lerp).is_empty());
    assert!(resample(&input, 8_000, 0, lerp).is_empty());
    assert!(resample(&input, 0, 0, lerp).is_empty());
}

#[test]
fn resample_downsample_takes_every_other_sample() {
    let input: Vec<f32> = vec![0.0, 1.0, 2.0, 3.0, 4.0, 5.0];
    let out = resample(&input, 16_000, 8_000, lerp);
    assert_eq!(out, vec![0.0, 2.0, 4.0]);
}

#[test]
fn resample_upsample_interpolates_and_clamps_at_the_end() {
    let input: Vec<f32> = vec![0.0, 1.0, 2.0];
    let out = resample(&input, 8_000, 16_000, lerp);
    assert_eq!(out, vec![0.0, 0.5, 1.0, 1.5, 2.0, 2.0]);
}

#[test]
fn output_len_rounds_to_nearest() {
    assert_eq!(output_len(3, 16_000, 8_000), Some(2));
    assert_eq!(output_len(5, 48_000, 16_000), Some(2));
    assert_eq!(output_len(4, 48_000, 16_000), Some(1));
    assert_eq!(output_len(44_100, 44_100, 16_000), Some(16_000));
    assert_eq!(output_len(7, 16_000, 16_000), Some(7));
    assert_eq!(output_len(0, 16_000, 8_000), Some(0));
}

#[test]
fn tap_gives_position_as_index_and_fraction() {
    assert_eq!(
        tap(5, 20, 44_100, 16_000),
        Tap { left: 13, right: 14, numerator: 12_500, denominator: 16_000 }
    );
    assert_eq!(
        tap(9, 4, 16_000, 8_000),
        Tap { left: 3, right: 3, numerator: 0, denominator: 8_000 }
    );
}

#[test]
fn resample_round_trip_length_within_one() {
    let mut len: usize = 0;
    while len < 200 {
        let input: Vec<f32> = vec![0.25; len];
        let down = resample(&input, 16_000, 8_000, lerp);
        let back = resample(&down, 8_000, 16_000, lerp);
        let diff = if back.len() > len { back.len() - len } else { len - back.len() };
        assert!(diff <= 1);
        len += 1;
    }
}
