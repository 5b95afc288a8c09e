use wavepacket::{check_intervals, interior, interior_count, sample_grid, SimError};

fn gaussian(x: f64, x0: f64, sigma: f64) -> f64 {
    let n = 1.0 / (std::f64::consts::PI.powf(0.25) * sigma.sqrt());
    n * (-(x - x0) * (x - x0) / (2.0 * sigma * sigma)).exp()
}

#[test]
fn intervals_below_two_are_rejected() {
    assert_eq!(check_intervals(0), Err(SimError::InvalidParameter));
    assert_eq!(check_intervals(1), Err(SimError::InvalidParameter));
    assert_eq!(check_intervals(usize::MAX), Err(SimError::InvalidParameter));
}

#[test]
fn intervals_of_two_or_more_are_accepted() {
    assert_eq!(check_intervals(2), Ok(()));
    assert_eq!(check_intervals(50), Ok(()));
}

#[test]
fn interior_count_excludes_both_ends() {
    assert_eq!(interior_count(2), 1);
    assert_eq!(interior_count(50), 49);
}

#[test]
fn sampled_grid_has_zero_ends() {
    // The Gaussian centred on the right end would be at its peak there.
    let m: usize = 10;
    let dx = 1.0;
    let full = sample_grid(m, |j| gaussian(j as f64 * dx, 10.0, 3.0), 0.0);
    assert_eq!(full.len(), 11);
    assert_eq!(full[0], 0.0);
    assert_eq!(full[10], 0.0);
    assert_eq!(full[9], gaussian(9.0, 10.0, 3.0));
    assert!(full[9] > 0.0);
}

#[test]
fn normalized_grid_has_unit_probability_and_zero_ends() {
    let (l, m, x0, sigma) = (10.0, 50usize, 8.0, 0.5);
    let dx = l / m as f64;
    let mut full = sample_grid(m, |j| gaussian(j as f64 * dx, x0, sigma), 0.0);
    let norm = (full.iter().map(|p| p * p).sum::<f64>() * dx).sqrt();
    for p in full.iter_mut() {
        *p /= norm;
    }
    let total = full.iter().map(|p| p * p).sum::<f64>() * dx;
    assert!((total - 1.0).abs() < 1e-9);
    assert_eq!(full[0], 0.0);
    assert_eq!(full[m], 0.0);
}

#[test]
fn interior_drops_first_and_last() {
    let full = vec![0.0, 1.5, 2.5, 3.5, 0.0];
    assert_eq!(interior(&full), vec![1.5, 2.5, 3.5]);
    assert_eq!(interior(&vec![7, 8]), Vec::<i32>::new());
}
