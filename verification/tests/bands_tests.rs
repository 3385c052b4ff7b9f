use eeg_pipeline::bands::{
    band_of_bin, Band, ALPHA_FROM, ALPHA_TO, BETA_FROM, DELTA_FROM, GAMMA_FROM, GAMMA_TO,
    NOMINAL_RATE_MILLIHERTZ, THETA_FROM,
};
use rustfft::num_complex::Complex;
use rustfft::FftPlanner;

fn reference(index: usize, sample_rate: f32, window_size: usize) -> Option<Band> {
    let freq = index as f32 * (sample_rate / window_size as f32);
    if freq >= 0.5 && freq < 4.0 {
        Some(Band::Delta)
    } else if freq >= 4.0 && freq < 8.0 {
        Some(Band::Theta)
    } else if freq >= 8.0 && freq < 12.0 {
        Some(Band::Alpha)
    } else if freq >= 13.0 && freq < 30.0 {
        Some(Band::Beta)
    } else if freq >= 30.0 && freq < 100.0 {
        Some(Band::Gamma)
    } else {
        None
    }
}

fn band_magnitudes(window: &[f32], sample_rate: u64) -> [f32; 5] {
    let mut planner = FftPlanner::new();
    let fft = planner.plan_fft_forward(window.len());
    let mut spectrum: Vec<Complex<f32>> = window.iter().map(|&x| Complex::new(x, 0.0)).collect();
    fft.process(&mut spectrum);
    let mut power = [0.0f32; 5];
    for (index, coefficient) in spectrum.iter().enumerate() {
        match band_of_bin(index, sample_rate, window.len()) {
            Some(Band::Delta) => power[0] += coefficient.norm_sqr(),
            Some(Band::Theta) => power[1] += coefficient.norm_sqr(),
            Some(Band::Alpha) => power[2] += coefficient.norm_sqr(),
            Some(Band::Beta) => power[3] += coefficient.norm_sqr(),
            Some(Band::Gamma) => power[4] += coefficient.norm_sqr(),
            None => {}
        }
    }
    [power[0].sqrt(), power[1].sqrt(), power[2].sqrt(), power[3].sqrt(), power[4].sqrt()]
}

fn tone(frequency: f32, sample_rate: f32, length: usize) -> Vec<f32> {
    (0..length)
        .map(|n| (2.0 * std::f64::consts::PI * frequency as f64 * n as f64 / sample_rate as f64).sin() as f32)
        .collect()
}

#[test]
fn band_edges_in_millihertz() {
    assert_eq!(NOMINAL_RATE_MILLIHERTZ, 250_000);
    assert_eq!(
        [DELTA_FROM, THETA_FROM, ALPHA_FROM, ALPHA_TO, BETA_FROM, GAMMA_FROM, GAMMA_TO],
        [500, 4_000, 8_000, 12_000, 13_000, 30_000, 100_000]
    );
}

#[test]
fn bins_of_the_default_window_fall_into_the_expected_bands() {
    let rate = NOMINAL_RATE_MILLIHERTZ;
    assert_eq!(band_of_bin(0, rate, 512), None);
    assert_eq!(band_of_bin(1, rate, 512), None);
    assert_eq!(band_of_bin(2, rate, 512), Some(Band::Delta));
    assert_eq!(band_of_bin(8, rate, 512), Some(Band::Delta));
    assert_eq!(band_of_bin(9, rate, 512), Some(Band::Theta));
    assert_eq!(band_of_bin(16, rate, 512), Some(Band::Theta));
    assert_eq!(band_of_bin(17, rate, 512), Some(Band::Alpha));
    assert_eq!(band_of_bin(24, rate, 512), Some(Band::Alpha));
    assert_eq!(band_of_bin(25, rate, 512), None);
    assert_eq!(band_of_bin(26, rate, 512), None);
    assert_eq!(band_of_bin(27, rate, 512), Some(Band::Beta));
    assert_eq!(band_of_bin(61, rate, 512), Some(Band::Beta));
    assert_eq!(band_of_bin(62, rate, 512), Some(Band::Gamma));
    assert_eq!(band_of_bin(204, rate, 512), Some(Band::Gamma));
    assert_eq!(band_of_bin(205, rate, 512), None);
    assert_eq!(band_of_bin(511, rate, 512), None);
}

#[test]
fn band_edges_are_half_open() {
    let rate = 250_000;
    assert_eq!(band_of_bin(0, rate, 500), None);
    assert_eq!(band_of_bin(1, rate, 500), Some(Band::Delta));
    assert_eq!(band_of_bin(7, rate, 500), Some(Band::Delta));
    assert_eq!(band_of_bin(8, rate, 500), Some(Band::Theta));
    assert_eq!(band_of_bin(15, rate, 500), Some(Band::Theta));
    assert_eq!(band_of_bin(16, rate, 500), Some(Band::Alpha));
    assert_eq!(band_of_bin(23, rate, 500), Some(Band::Alpha));
    assert_eq!(band_of_bin(24, rate, 500), None);
    assert_eq!(band_of_bin(25, rate, 500), None);
    assert_eq!(band_of_bin(26, rate, 500), Some(Band::Beta));
    assert_eq!(band_of_bin(59, rate, 500), Some(Band::Beta));
    assert_eq!(band_of_bin(60, rate, 500), Some(Band::Gamma));
    assert_eq!(band_of_bin(199, rate, 500), Some(Band::Gamma));
    assert_eq!(band_of_bin(200, rate, 500), None);
}

#[test]
fn band_of_bin_agrees_with_floating_point_for_the_default_window() {
    for index in 0..512 {
        assert_eq!(band_of_bin(index, 250_000, 512), reference(index, 250.0, 512), "bin {index}");
    }
}

#[test]
fn empty_window_has_no_bands() {
    assert_eq!(band_of_bin(0, 250_000, 0), None);
    assert_eq!(band_of_bin(10, 250_000, 0), None);
}

#[test]
fn largest_arguments_do_not_overflow() {
    assert_eq!(band_of_bin(usize::MAX, u64::MAX, usize::MAX), None);
    assert_eq!(band_of_bin(usize::MAX, 10_000, usize::MAX), Some(Band::Alpha));
    assert_eq!(band_of_bin(1, u64::MAX, usize::MAX), None);
}

#[test]
fn tone_at_twelve_and_a_half_hertz_adds_to_neither_alpha_nor_beta() {
    let window = tone(12.5, 250.0, 500);
    let mut planner = FftPlanner::new();
    let fft = planner.plan_fft_forward(500);
    let mut spectrum: Vec<Complex<f32>> = window.iter().map(|&x| Complex::new(x, 0.0)).collect();
    fft.process(&mut spectrum);
    assert!(spectrum[25].norm_sqr().sqrt() > 200.0);
    assert_eq!(band_of_bin(25, 250_000, 500), None);
    assert_eq!(band_of_bin(475, 250_000, 500), None);
    let magnitudes = band_magnitudes(&window, 250_000);
    assert!(magnitudes[2] < 0.05, "alpha {}", magnitudes[2]);
    assert!(magnitudes[3] < 0.05, "beta {}", magnitudes[3]);
}

#[test]
fn tone_at_ten_hertz_shows_in_alpha_only() {
    let window = tone(10.0, 250.0, 500);
    let magnitudes = band_magnitudes(&window, 250_000);
    assert!((magnitudes[2] - 250.0).abs() < 0.5, "alpha {}", magnitudes[2]);
    for other in [0, 1, 3, 4] {
        assert!(magnitudes[other] < 0.05, "band {other}: {}", magnitudes[other]);
    }
}

#[test]
fn tone_at_twenty_hertz_shows_in_beta_only() {
    let window = tone(20.0, 250.0, 500);
    let magnitudes = band_magnitudes(&window, 250_000);
    assert!((magnitudes[3] - 250.0).abs() < 0.5, "beta {}", magnitudes[3]);
    for other in [0, 1, 2, 4] {
        assert!(magnitudes[other] < 0.05, "band {other}: {}", magnitudes[other]);
    }
}
