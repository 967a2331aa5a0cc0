use vis_core::windows::{self, WindowKind};
use vis_core::Error;

const NAMES: [&str; 7] = [
    "none",
    "blackman",
    "hamming",
    "hanning",
    "nuttall",
    "sine",
    "triangular",
];

#[test]
fn test_rectangular_is_all_ones() {
    for n in [1usize, 2, 7, 512] {
        let coeffs = windows::generate("none", n).unwrap();
        assert_eq!(coeffs.len(), n);
        for c in coeffs {
            assert_eq!(f64::from_bits(c), 1.0);
        }
    }
}

#[test]
fn test_every_generator_returns_exactly_n_coefficients() {
    for name in NAMES {
        for n in [1usize, 2, 16, 101] {
            let coeffs = windows::generate(name, n).unwrap();
            assert_eq!(coeffs.len(), n, "window {name} at length {n}");
        }
    }
}

#[test]
fn test_unknown_name_is_name_not_found() {
    assert_eq!(windows::generate("gauss", 8), Err(Error::NameNotFound));
    assert_eq!(windows::from_str("gauss"), None);
    assert_eq!(windows::from_str(""), None);
    assert_eq!(windows::from_str("Hanning"), None);
}

#[test]
fn test_name_lookup_table() {
    assert_eq!(windows::from_str("none"), Some(WindowKind::Rectangular));
    assert_eq!(windows::from_str("blackman"), Some(WindowKind::Blackman));
    assert_eq!(windows::from_str("hamming"), Some(WindowKind::Hamming));
    assert_eq!(windows::from_str("hanning"), Some(WindowKind::Hanning));
    assert_eq!(windows::from_str("nuttall"), Some(WindowKind::Nuttall));
    assert_eq!(windows::from_str("sine"), Some(WindowKind::Sine));
    assert_eq!(windows::from_str("triangular"), Some(WindowKind::Triangular));
}

#[test]
fn test_coefficients_lie_in_unit_interval() {
    // up to rounding: the cosine sums land a few ulps outside at the edges
    let slack = 1e-12;
    for name in NAMES {
        for c in windows::generate(name, 64).unwrap() {
            let v = f64::from_bits(c);
            assert!(v >= -slack && v <= 1.0 + slack, "window {name}: {v}");
        }
    }
}

#[test]
fn test_hanning_matches_cosine_formula() {
    let n = 8usize;
    let coeffs = windows::hanning(n);
    for (i, c) in coeffs.iter().enumerate() {
        let x = std::f64::consts::PI * i as f64 / (n - 1) as f64;
        let expected = 0.5 - 0.5 * (2.0 * x).cos();
        assert!((f64::from_bits(*c) - expected).abs() < 1e-12);
    }
}

#[test]
fn test_nuttall_matches_cosine_formula() {
    let n = 8usize;
    let coeffs = windows::nuttall(n);
    for (i, c) in coeffs.iter().enumerate() {
        let x = std::f64::consts::PI * i as f64 / (n - 1) as f64;
        let expected = 0.355_768 - 0.487_396 * (2.0 * x).cos() + 0.144_232 * (4.0 * x).cos()
            - 0.012_604 * (6.0 * x).cos();
        assert!((f64::from_bits(*c) - expected).abs() < 1e-12);
    }
}

#[test]
fn test_hamming_matches_cosine_formula() {
    let n = 8usize;
    let coeffs = windows::hamming(n);
    for (i, c) in coeffs.iter().enumerate() {
        let x = std::f64::consts::PI * i as f64 / (n - 1) as f64;
        let expected = 0.54 - 0.46 * (2.0 * x).cos();
        assert!((f64::from_bits(*c) - expected).abs() < 1e-12);
    }
}

#[test]
fn test_blackman_matches_cosine_formula() {
    let n = 8usize;
    let coeffs = windows::blackman(n);
    for (i, c) in coeffs.iter().enumerate() {
        let x = std::f64::consts::PI * i as f64 / (n - 1) as f64;
        let expected = 0.35875 - 0.48829 * (2.0 * x).cos() + 0.14128 * (4.0 * x).cos()
            - 0.01168 * (6.0 * x).cos();
        assert!((f64::from_bits(*c) - expected).abs() < 1e-12);
    }
}

#[test]
fn test_sine_matches_half_sine_shape() {
    let n = 9usize;
    let coeffs = windows::sine(n);
    for (i, c) in coeffs.iter().enumerate() {
        let expected = (std::f64::consts::PI * i as f64 / (n - 1) as f64).sin();
        assert!((f64::from_bits(*c) - expected).abs() < 1e-9);
    }
}

#[test]
fn test_triangular_peak_is_one_at_odd_center() {
    let coeffs = windows::triangular(5);
    assert_eq!(coeffs.len(), 5);
    let mid = f64::from_bits(coeffs[2]);
    assert!((mid - 1.0).abs() < 1e-12);
    let first = f64::from_bits(coeffs[0]);
    let last = f64::from_bits(coeffs[4]);
    assert!((first - last).abs() < 1e-12);
}

#[test]
fn test_shaped_window_of_length_one_is_unit() {
    for name in NAMES {
        let coeffs = windows::generate(name, 1).unwrap();
        assert_eq!(coeffs.len(), 1);
        assert_eq!(f64::from_bits(coeffs[0]), 1.0, "window {name}");
    }
}
