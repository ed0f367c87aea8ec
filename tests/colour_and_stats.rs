use mandelbrot::color::{color_from_iteration, Rgb};
use mandelbrot::stats::{calculate_mean, calculate_standard_deviation, calculate_variance, integer_sqrt};

#[test]
fn cap_is_black() {
    for cap in [0u32, 1, 50, 1000, u32::MAX] {
        assert_eq!(color_from_iteration(cap, cap), Rgb::black());
    }
    assert_eq!(Rgb::black(), Rgb { r: 0, g: 0, b: 0 });
}

#[test]
fn ramp_starts_dark_blue() {
    for cap in [1u32, 2, 1000, u32::MAX] {
        let c = color_from_iteration(0, cap);
        assert_ne!(c, Rgb::black());
        assert_eq!(c, Rgb { r: 0, g: 0, b: 32 });
    }
}

#[test]
fn only_the_sentinel_is_black() {
    for count in 0..1000u32 {
        assert_ne!(color_from_iteration(count, 1000), Rgb::black());
    }
    assert_ne!(color_from_iteration(1, 1_000_000_000), Rgb::black());
}

#[test]
fn ramp_midpoint() {
    // t = 1/2: 9/16, 15/16 and 8.5/32 of 255, rounded down; blue raised by 32
    assert_eq!(color_from_iteration(500, 1000), Rgb { r: 143, g: 239, b: 167 });
}

#[test]
fn ramp_quarter_points() {
    // t = 1/4: r = 9 * 3/4 * 1/64 * 255, g = 15 * 9/16 * 1/16 * 255,
    // b = 32 + 8.5 * 27/64 * 1/4 * 255, clamped to 255
    assert_eq!(color_from_iteration(1, 4), Rgb { r: 26, g: 134, b: 255 });
    // t = 3/4
    assert_eq!(color_from_iteration(3, 4), Rgb { r: 242, g: 134, b: 57 });
}

#[test]
fn neighbouring_counts_have_close_colours() {
    let close = |a: u8, b: u8| (a as i32 - b as i32).abs() <= 3;
    for count in 0..999u32 {
        let x = color_from_iteration(count, 1000);
        let y = color_from_iteration(count + 1, 1000);
        assert!(close(x.r, y.r) && close(x.g, y.g) && close(x.b, y.b), "at {}", count);
    }
}

#[test]
fn count_above_cap_is_black() {
    assert_eq!(color_from_iteration(11, 10), Rgb::black());
}

#[test]
fn mean_of_samples() {
    assert_eq!(calculate_mean(&vec![10, 20, 30]), 20);
    assert_eq!(calculate_mean(&vec![1, 2]), 1);
    assert_eq!(calculate_mean(&vec![]), 0);
    assert_eq!(calculate_mean(&vec![u32::MAX, u32::MAX]), u32::MAX);
}

#[test]
fn variance_of_samples() {
    assert_eq!(calculate_variance(&vec![10, 20, 30], 20), 66);
    assert_eq!(calculate_variance(&vec![5], 5), 0);
    assert_eq!(calculate_variance(&vec![], 7), 0);
    assert_eq!(calculate_variance(&vec![0, u32::MAX], 0), (u32::MAX as u64) * (u32::MAX as u64) / 2);
}

#[test]
fn standard_deviation_of_samples() {
    assert_eq!(calculate_standard_deviation(&vec![10, 20, 30]), 8);
    assert_eq!(calculate_standard_deviation(&vec![2, 4, 4, 4, 5, 5, 7, 9]), 2);
}

#[test]
fn single_sample_has_no_spread() {
    assert_eq!(calculate_standard_deviation(&vec![123456]), 0);
    assert_eq!(calculate_standard_deviation(&vec![]), 0);
}

#[test]
fn integer_square_roots() {
    assert_eq!(integer_sqrt(0), 0);
    assert_eq!(integer_sqrt(1), 1);
    assert_eq!(integer_sqrt(15), 3);
    assert_eq!(integer_sqrt(16), 4);
    assert_eq!(integer_sqrt(u64::MAX), u32::MAX);
}
