use synesthesia::audio::WEIGHT;
use synesthesia::control::{Algorithm, Effect, LedCommand};
use synesthesia::flat_stack::{
    bands, channel_intensities, flat_stack, intensity, peak_level, process_s4fs, weigh, BAND_END,
    BAND_START, BINS, FLOOR, TOP,
};

/// The weights in decibels, as the ear's curve is tabulated.
const DECIBELS: [f32; 256] = [
    0.0, -20.45, -14.43, -10.92, -8.43, -6.50, -4.93, -3.61, -2.47, -1.47,
    -0.58, 0.22, 0.95, 1.61, 2.22, 2.79, 3.31, 3.80, 4.26, 4.68,
    5.09, 5.47, 5.83, 6.17, 6.49, 6.80, 7.09, 7.37, 7.64, 7.89,
    8.14, 8.37, 8.60, 8.81, 9.02, 9.22, 9.41, 9.59, 9.77, 9.93,
    10.10, 10.25, 10.40, 10.54, 10.68, 10.81, 10.94, 11.06, 11.17, 11.27,
    11.38, 11.47, 11.56, 11.64, 11.72, 11.79, 11.85, 11.91, 11.97, 12.01,
    12.05, 12.09, 12.12, 12.14, 12.16, 12.17, 12.18, 12.18, 12.17, 12.16,
    12.15, 12.13, 12.10, 12.07, 12.04, 12.00, 11.95, 11.91, 11.85, 11.79,
    11.73, 11.67, 11.60, 11.52, 11.44, 11.36, 11.27, 11.18, 11.08, 10.98,
    10.87, 10.76, 10.64, 10.51, 10.38, 10.24, 10.10, 9.95, 9.79, 9.63,
    9.45, 9.27, 9.08, 8.89, 8.68, 8.47, 8.25, 8.02, 7.78, 7.54,
    7.28, 7.02, 6.75, 6.48, 6.20, 5.91, 5.61, 5.31, 5.01, 4.70,
    4.38, 4.06, 3.74, 3.41, 3.09, 2.76, 2.42, 2.09, 1.75, 1.41,
    1.08, 0.74, 0.40, 0.06, -0.28, -0.62, -0.96, -1.29, -1.63, -1.97,
    -2.30, -2.63, -2.97, -3.30, -3.63, -3.95, -4.28, -4.60, -4.93, -5.25,
    -5.57, -5.88, -6.20, -6.51, -6.83, -7.13, -7.44, -7.75, -8.05, -8.35,
    -8.65, -8.95, -9.25, -9.54, -9.84, -10.13, -10.42, -10.70, -10.99, -11.27,
    -11.55, -11.83, -12.11, -12.38, -12.66, -12.93, -13.20, -13.47, -13.74, -14.00,
    -14.27, -14.53, -14.79, -15.05, -15.31, -15.56, -15.82, -16.07, -16.32, -16.57,
    -16.82, -17.06, -17.31, -17.55, -17.79, -18.04, -18.27, -18.51, -18.75, -18.98,
    -19.22, -19.45, -19.68, -19.91, -20.14, -20.37, -20.59, -20.82, -21.04, -21.27,
    -21.49, -21.71, -21.93, -22.14, -22.36, -22.58, -22.79, -23.00, -23.21, -23.43,
    -23.64, -23.84, -24.05, -24.26, -24.46, -24.67, -24.87, -25.08, -25.28, -25.48,
    -25.68, -25.88, -26.07, -26.27, -26.47, -26.66, -26.86, -27.05, -27.24, -27.43,
    -27.62, -27.81, -28.00, -28.19, -28.38, -28.56, -28.75, -28.93, -29.12, -29.30,
    -29.48, -29.66, -29.84, -30.02, -30.20, -30.38,
];

fn linear_in_floats(db: f32) -> u8 {
    ((db + 35.0) * 2.0 * 0.31).min(31.0).max(0.0).round() as u8
}

fn quadratic_in_floats(db: f32) -> u8 {
    let val = ((db + 35.0) / 5.0).max(0.0);
    (val * val * 0.31).min(31.0).round() as u8
}

fn lamp(element: u8, color: u8, cmd: u8) -> LedCommand {
    LedCommand { element, color, cmd, time: 0 }
}

/// A spectrum that, once weighted, is `level` in every bin but those given.
fn flat_weighted(level: i32, peaks: &[(usize, i32)]) -> Vec<i32> {
    let mut s: Vec<i32> = (0..256).map(|i| level - WEIGHT[i]).collect();
    for (bin, value) in peaks {
        s[*bin] = *value - WEIGHT[*bin];
    }
    s
}

#[test]
fn weights_are_the_tabulated_decibels_in_hundredths() {
    assert_eq!(WEIGHT.len(), 256);
    for i in 0..256 {
        assert_eq!(WEIGHT[i] as f32 / 100.0, DECIBELS[i], "bin {}", i);
    }
    assert_eq!(WEIGHT[0], 0);
    assert_eq!(WEIGHT[1], -2045);
    assert_eq!(WEIGHT[66], 1218);
    assert_eq!(WEIGHT[255], -3038);
}

#[test]
fn weights_rise_to_bin_66_and_fall_from_there() {
    for i in 1..66 {
        assert!(WEIGHT[i] <= WEIGHT[i + 1]);
    }
    for i in 66..255 {
        assert!(WEIGHT[i] >= WEIGHT[i + 1]);
    }
}

#[test]
fn band_limits_leave_out_bin_0_and_cover_the_rest() {
    assert_eq!(BINS, 256);
    assert_eq!(BAND_START, [1, 3, 6, 21]);
    assert_eq!(BAND_END, [3, 6, 21, 256]);
    assert_eq!(FLOOR, -3500);
    assert_eq!(TOP, 31);
}

#[test]
fn linear_curve_at_chosen_levels() {
    assert_eq!(intensity(Algorithm::Linear, -3500), 0);
    assert_eq!(intensity(Algorithm::Linear, -3420), 0); // 0.8 dB * 0.62 = 0.496
    assert_eq!(intensity(Algorithm::Linear, -3419), 1); // 0.81 dB * 0.62 = 0.5022
    assert_eq!(intensity(Algorithm::Linear, -1000), 16); // 25 dB * 0.62 = 15.5
    assert_eq!(intensity(Algorithm::Linear, -1001), 15);
    assert_eq!(intensity(Algorithm::Linear, 0), 22); // 35 dB * 0.62 = 21.7
    assert_eq!(intensity(Algorithm::Linear, 1419), 30); // 49.19 dB * 0.62 = 30.4978
    assert_eq!(intensity(Algorithm::Linear, 1420), 31);
    assert_eq!(intensity(Algorithm::Linear, 1500), 31);
    assert_eq!(intensity(Algorithm::Linear, 9000), 31);
}

#[test]
fn quadratic_curve_at_chosen_levels() {
    assert_eq!(intensity(Algorithm::Quadratic, -3500), 0);
    assert_eq!(intensity(Algorithm::Quadratic, -3000), 0); // (5/5)^2 * 0.31 = 0.31
    assert_eq!(intensity(Algorithm::Quadratic, -2865), 0); // 1.27^2 * 0.31 = 0.499999
    assert_eq!(intensity(Algorithm::Quadratic, -2864), 1); // 1.272^2 * 0.31 = 0.5016
    assert_eq!(intensity(Algorithm::Quadratic, -1000), 8); // 5^2 * 0.31 = 7.75
    assert_eq!(intensity(Algorithm::Quadratic, 0), 15); // 7^2 * 0.31 = 15.19
    assert_eq!(intensity(Algorithm::Quadratic, 1500), 31); // 10^2 * 0.31 = 31
    assert_eq!(intensity(Algorithm::Quadratic, 1459), 30); // 9.918^2 * 0.31 = 30.4937
    assert_eq!(intensity(Algorithm::Quadratic, 1460), 31);
    assert_eq!(intensity(Algorithm::Quadratic, 9000), 31);
}

#[test]
fn curves_clamp_at_the_ends_of_the_scale() {
    for alg in [Algorithm::Linear, Algorithm::Quadratic] {
        assert_eq!(intensity(alg, i64::MIN), 0);
        assert_eq!(intensity(alg, i32::MIN as i64), 0);
        assert_eq!(intensity(alg, -3501), 0);
        assert_eq!(intensity(alg, i32::MAX as i64), 31);
        assert_eq!(intensity(alg, i64::MAX), 31);
    }
}

#[test]
fn curves_never_fall_and_never_exceed_the_top() {
    for alg in [Algorithm::Linear, Algorithm::Quadratic] {
        let mut before = 0;
        for level in -4000..2000 {
            let now = intensity(alg, level);
            assert!(now >= before);
            assert!(now <= TOP);
            before = now;
        }
    }
}

#[test]
fn curves_agree_with_the_formulas_in_floats() {
    for level in -6000i32..4000 {
        let db = level as f32 / 100.0;
        assert_eq!(intensity(Algorithm::Linear, level as i64), linear_in_floats(db), "{}", level);
        assert_eq!(
            intensity(Algorithm::Quadratic, level as i64),
            quadratic_in_floats(db),
            "{}",
            level
        );
    }
}

#[test]
fn peak_is_the_highest_level_of_the_range() {
    let levels: Vec<i64> = vec![5, -3, 9, 9, 2, -7, 40, 1];
    assert_eq!(peak_level(&levels, 0, 8), 40);
    assert_eq!(peak_level(&levels, 0, 6), 9);
    assert_eq!(peak_level(&levels, 1, 2), -3);
    assert_eq!(peak_level(&levels, 4, 6), 2);
    assert_eq!(peak_level(&levels, 5, 6), -7);
    assert_eq!(peak_level(&levels, 7, 8), 1);
}

#[test]
fn peak_of_equal_levels_is_that_level() {
    let levels: Vec<i64> = vec![-12; 30];
    assert_eq!(peak_level(&levels, 3, 29), -12);
}

#[test]
fn bands_take_the_peak_of_their_bins() {
    let mut levels: Vec<i64> = vec![-100; 256];
    levels[0] = 9999; // bin 0 belongs to no band
    levels[2] = 10;
    levels[3] = 20;
    levels[20] = 30;
    levels[21] = 40;
    assert_eq!(bands(&levels), [10, 20, 30, 40]);
    levels[5] = 21;
    levels[6] = 31;
    levels[255] = 41;
    levels[1] = 11;
    assert_eq!(bands(&levels), [11, 21, 31, 41]);
}

#[test]
fn single_peak_in_the_woofer_range() {
    for bin in 3..6 {
        let mut levels: Vec<i64> = vec![-2000; 256];
        // the highest of each other range
        levels[1] = -1900;
        levels[10] = -1700;
        levels[200] = -1600;
        levels[bin] = 700;
        assert_eq!(bands(&levels), [-1900, 700, -1700, -1600]);
    }
}

#[test]
fn weigh_adds_the_weight_to_each_bin() {
    let spectrum: Vec<i32> = (0..256).map(|i| i * 10 - 1000).collect();
    let levels = weigh(&spectrum);
    assert_eq!(levels.len(), 256);
    for i in 0..256 {
        assert_eq!(levels[i], (i as i64) * 10 - 1000 + WEIGHT[i] as i64);
    }
}

#[test]
fn weigh_averages_the_spectra_of_a_window() {
    let mut spectrum: Vec<i32> = vec![0; 768];
    spectrum[7] = 100;
    spectrum[256 + 7] = 200;
    spectrum[512 + 7] = 600;
    spectrum[8] = -100;
    spectrum[256 + 8] = -200;
    spectrum[512 + 8] = -600;
    let levels = weigh(&spectrum);
    assert_eq!(levels[7], 300 + WEIGHT[7] as i64);
    assert_eq!(levels[8], -300 + WEIGHT[8] as i64);
    assert_eq!(levels[9], WEIGHT[9] as i64);
}

#[test]
fn weigh_drops_the_fraction_of_a_mean() {
    let mut spectrum: Vec<i32> = vec![0; 768];
    spectrum[30] = 100;
    spectrum[256 + 30] = 100;
    spectrum[512 + 30] = 101; // 301 / 3 = 100.33
    spectrum[31] = 100;
    spectrum[256 + 31] = 101;
    spectrum[512 + 31] = 101; // 302 / 3 = 100.67
    spectrum[32] = -100;
    spectrum[256 + 32] = -101;
    spectrum[512 + 32] = -101; // -302 / 3 = -100.67
    let levels = weigh(&spectrum);
    assert_eq!(levels[30], 100 + WEIGHT[30] as i64);
    assert_eq!(levels[31], 100 + WEIGHT[31] as i64);
    assert_eq!(levels[32], -100 + WEIGHT[32] as i64);
}

#[test]
fn weigh_ignores_what_is_left_of_a_broken_spectrum() {
    let mut spectrum: Vec<i32> = vec![50; 300];
    for i in 256..300 {
        spectrum[i] = 10000;
    }
    let levels = weigh(&spectrum);
    for i in 0..256 {
        assert_eq!(levels[i], 50 + WEIGHT[i] as i64);
    }
}

#[test]
fn weigh_bears_the_widest_levels() {
    let low = weigh(&vec![i32::MIN; 768]);
    let high = weigh(&vec![i32::MAX; 768]);
    for i in 0..256 {
        assert_eq!(low[i], i32::MIN as i64 + WEIGHT[i] as i64);
        assert_eq!(high[i], i32::MAX as i64 + WEIGHT[i] as i64);
    }
}

#[test]
fn row_for_silent_bands() {
    let row = flat_stack(&[0, 0, 0, 0], &[0, 0, 0, 0]);
    assert_eq!(
        row,
        [
            lamp(0, 1, 0),
            lamp(1, 2, 0),
            lamp(2, 3, 0),
            lamp(3, 4, 0),
            lamp(4, 0, 247),
            lamp(5, 4, 0),
            lamp(6, 3, 0),
            lamp(7, 2, 0),
            lamp(8, 1, 0),
        ]
    );
}

#[test]
fn row_puts_left_bands_upward_and_right_bands_downward() {
    let row = flat_stack(&[1, 2, 3, 4], &[5, 6, 7, 8]);
    assert_eq!(
        row,
        [
            lamp(0, 1, 1),
            lamp(1, 2, 2),
            lamp(2, 3, 3),
            lamp(3, 4, 4),
            lamp(4, 0, 255 - 44),
            lamp(5, 4, 8),
            lamp(6, 3, 7),
            lamp(7, 2, 6),
            lamp(8, 1, 5),
        ]
    );
}

#[test]
fn fill_for_one_band_at_the_top() {
    let row = flat_stack(&[31, 0, 0, 0], &[0, 0, 0, 0]);
    assert_eq!(row[0].cmd, 31);
    assert_eq!(row[4].cmd, 216);
}

#[test]
fn fill_wraps_when_all_bands_are_at_the_top() {
    let row = flat_stack(&[31, 31, 31, 31], &[31, 31, 31, 31]);
    assert_eq!(row[4].cmd, 255);
    let row = flat_stack(&[31, 31, 31, 31], &[31, 31, 31, 30]);
    assert_eq!(row[4].cmd, 0);
}

#[test]
fn fill_wraps_for_any_intensities() {
    let row = flat_stack(&[255, 255, 255, 255], &[255, 255, 255, 255]);
    assert_eq!(row[4].cmd, 255);
    let row = flat_stack(&[200, 100, 7, 0], &[0, 0, 0, 1]);
    assert_eq!(row[4].cmd, ((255i32 - 316).rem_euclid(256)) as u8);
}

#[test]
fn linear_row_for_bands_at_the_floor() {
    let spectrum = flat_weighted(-3500, &[]);
    assert_eq!(channel_intensities(Algorithm::Linear, &spectrum), [0, 0, 0, 0]);
    let row = process_s4fs(&spectrum, &spectrum, Algorithm::Linear, false);
    for i in 0..9 {
        if i != 4 {
            assert_eq!(row[i].cmd, 0);
        }
    }
    assert_eq!(row[4].cmd, 247);
}

#[test]
fn quadratic_row_for_one_band_at_15_decibels() {
    let silent = flat_weighted(-3500, &[]);
    let loud = flat_weighted(-3500, &[(4, 1500)]);
    assert_eq!(channel_intensities(Algorithm::Quadratic, &loud), [0, 31, 0, 0]);
    let row = process_s4fs(&loud, &silent, Algorithm::Quadratic, false);
    assert_eq!(row[1], lamp(1, 2, 31));
    assert_eq!(row[4].cmd, 216);
    for i in [0, 2, 3, 5, 6, 7, 8] {
        assert_eq!(row[i].cmd, 0);
    }
}

#[test]
fn weighting_comes_before_the_bands() {
    // unweighted, bin 3 is the highest of its band; weighted, bin 5 is
    let mut spectrum = flat_weighted(-3500, &[]);
    spectrum[3] = 500;
    spectrum[5] = 100;
    let levels = weigh(&spectrum);
    assert_eq!(levels[3], -592);
    assert_eq!(levels[5], -550);
    assert_eq!(bands(&levels)[1], -550);
    assert_eq!(channel_intensities(Algorithm::Linear, &spectrum)[1], 18);
}

#[test]
fn row_of_a_whole_window() {
    let left = flat_weighted(-2000, &[(1, -1000), (5, 0), (20, 500), (100, 1500)]);
    let right = flat_weighted(-3000, &[(2, -3400), (3, -2000), (6, -1500), (255, -500)]);
    let row = process_s4fs(&left, &right, Algorithm::Linear, false);
    assert_eq!(
        row,
        [
            lamp(0, 1, 16),
            lamp(1, 2, 22),
            lamp(2, 3, 25),
            lamp(3, 4, 31),
            lamp(4, 0, (255 - (16 + 22 + 25 + 31 + 4) - (3 + 9 + 12 + 19 + 4)) as u8),
            lamp(5, 4, 19),
            lamp(6, 3, 12),
            lamp(7, 2, 9),
            lamp(8, 1, 3),
        ]
    );
}

#[test]
fn invert_exchanges_the_channels_and_nothing_else() {
    let left = flat_weighted(-2000, &[(1, -1000), (5, 0), (20, 500), (100, 1500)]);
    let right = flat_weighted(-3000, &[(2, -3400), (3, -2000), (6, -1500), (255, -500)]);
    for alg in [Algorithm::Linear, Algorithm::Quadratic] {
        let plain = process_s4fs(&left, &right, alg, false);
        let inverted = process_s4fs(&left, &right, alg, true);
        assert_eq!(inverted, process_s4fs(&right, &left, alg, false));
        assert_eq!(inverted[4], plain[4]);
        for k in 0..4 {
            assert_eq!(inverted[k].cmd, plain[8 - k].cmd);
            assert_eq!(inverted[8 - k].cmd, plain[k].cmd);
            assert_eq!(inverted[k].color, plain[k].color);
            assert_eq!(inverted[k].element, plain[k].element);
        }
    }
}

#[test]
fn silence_and_overload_reach_the_ends_of_the_scale() {
    let silence = vec![i32::MIN; 768];
    let overload = vec![i32::MAX; 768];
    for alg in [Algorithm::Linear, Algorithm::Quadratic] {
        assert_eq!(channel_intensities(alg, &silence), [0, 0, 0, 0]);
        assert_eq!(channel_intensities(alg, &overload), [31, 31, 31, 31]);
        assert_eq!(process_s4fs(&silence, &silence, alg, false)[4].cmd, 247);
        assert_eq!(process_s4fs(&overload, &overload, alg, false)[4].cmd, 255);
    }
}

#[test]
fn effect_names_its_curve_and_its_sides() {
    let e = Effect::Stereo4FlatStack(Algorithm::Quadratic, true);
    let Effect::Stereo4FlatStack(alg, invert) = e;
    assert_eq!(alg, Algorithm::Quadratic);
    assert!(invert);
    assert_ne!(e, Effect::Stereo4FlatStack(Algorithm::Linear, true));
}
