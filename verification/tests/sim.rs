use brownianmotion::price::{Price, INFINITY_BITS};
use brownianmotion::sim::{SimConfig, Simulation};

use rand::rngs::StdRng;
use rand::SeedableRng;
use rand_distr::{Distribution, Normal};

fn price(v: f64) -> Price {
    Price::from_bits(v.to_bits()).expect("value must be strictly positive and finite")
}

/// The multiplicative geometric-Brownian-motion update, applied to `start`
/// once per drawn value.
fn gbm_prices(start: f64, mu: f64, sigma: f64, delta_t: f64, zs: &[f64]) -> Vec<f64> {
    let mut out = Vec::new();
    let mut current = start;
    for &z in zs {
        let delta_w = z * delta_t.sqrt();
        let drift = (mu - 0.5 * sigma.powi(2)) * delta_t;
        let diffusion = sigma * delta_w;
        current *= (drift + diffusion).exp();
        out.push(current);
    }
    out
}

fn draw_standard_normals(seed: u64, count: usize) -> Vec<f64> {
    let mut rng = StdRng::seed_from_u64(seed);
    let normal = Normal::new(0.0, 1.0).expect("unit normal parameters are valid");
    (0..count).map(|_| normal.sample(&mut rng)).collect()
}

fn small_config(time_steps: usize, render_cadence: usize) -> SimConfig {
    let mut config = SimConfig::default();
    config.time_steps = time_steps;
    config.render_cadence = render_cadence;
    config
}

#[test]
fn path_has_n_elements_with_start_first() {
    let config = small_config(12, 10);
    let zs = draw_standard_normals(1, 11);
    let values = gbm_prices(100.0, 0.05, 0.2, 1.0 / 252.0, &zs);
    let steps: Vec<Price> = values.iter().map(|&v| price(v)).collect();
    let sim = Simulation::replay(config, &steps);
    assert_eq!(sim.len(), 12);
    assert_eq!(sim.path().get(0).bits(), 100.0f64.to_bits());
    for (i, &v) in values.iter().enumerate() {
        assert_eq!(sim.path().get(i + 1).bits(), v.to_bits());
    }
}

#[test]
fn prices_stay_strictly_positive_and_finite() {
    let config = SimConfig::default();
    let zs = draw_standard_normals(2, 251);
    let values = gbm_prices(100.0, 0.05, 0.2, 1.0 / 252.0, &zs);
    let steps: Vec<Price> = values.iter().map(|&v| price(v)).collect();
    let sim = Simulation::replay(config, &steps);
    assert_eq!(sim.len(), 252);
    for i in 0..sim.len() {
        let bits = sim.path().get(i).bits();
        assert!(bits > 0 && bits < INFINITY_BITS);
        let v = f64::from_bits(bits);
        assert!(v > 0.0 && v.is_finite());
    }
}

#[test]
fn identical_seeds_give_identical_paths() {
    let config = SimConfig::default();
    let run = |seed: u64| {
        let zs = draw_standard_normals(seed, 251);
        let values = gbm_prices(100.0, 0.05, 0.2, 1.0 / 252.0, &zs);
        let steps: Vec<Price> = values.iter().map(|&v| price(v)).collect();
        Simulation::replay(config, &steps)
    };
    let first = run(42);
    let second = run(42);
    assert_eq!(first.len(), second.len());
    for i in 0..first.len() {
        assert_eq!(first.path().get(i).bits(), second.path().get(i).bits());
    }
}

#[test]
fn fixed_draws_match_the_closed_form_within_tolerance() {
    let zs = [0.5, -1.0, 2.0, 0.0, -0.25];
    let (start, mu, sigma, delta_t) = (100.0f64, 0.05f64, 0.2f64, 1.0f64 / 252.0);
    let values = gbm_prices(start, mu, sigma, delta_t, &zs);
    let steps: Vec<Price> = values.iter().map(|&v| price(v)).collect();
    let sim = Simulation::replay(small_config(6, 10), &steps);
    let drift = (mu - 0.5 * sigma.powi(2)) * delta_t;
    let mut z_sum = 0.0f64;
    for (i, &z) in zs.iter().enumerate() {
        z_sum += z;
        let closed_form = start * ((i + 1) as f64 * drift + sigma * delta_t.sqrt() * z_sum).exp();
        let stored = f64::from_bits(sim.path().get(i + 1).bits());
        assert!(((stored - closed_form) / closed_form).abs() < 1e-9);
    }
}

#[test]
fn from_bits_accepts_exactly_the_positive_finite_patterns() {
    assert!(Price::from_bits(0).is_none());
    assert!(Price::from_bits((-1.0f64).to_bits()).is_none());
    assert!(Price::from_bits(f64::NAN.to_bits()).is_none());
    assert!(Price::from_bits(f64::INFINITY.to_bits()).is_none());
    assert!(Price::from_bits(f64::NEG_INFINITY.to_bits()).is_none());
    let kept = Price::from_bits(100.0f64.to_bits()).unwrap();
    assert_eq!(kept.bits(), 100.0f64.to_bits());
    let tiny = Price::from_bits(1).unwrap();
    assert_eq!(tiny.bits(), 1);
}

#[test]
fn default_config_matches_reference_parameters() {
    let config = SimConfig::default();
    assert_eq!(config.start.bits(), 100.0f64.to_bits());
    assert_eq!(config.mu_bits, 0.05f64.to_bits());
    assert_eq!(config.sigma_bits, 0.2f64.to_bits());
    assert_eq!(config.delta_t_bits, (1.0f64 / 252.0f64).to_bits());
    assert_eq!(config.time_steps, 252);
    assert_eq!(config.render_cadence, 10);
}

#[test]
fn record_step_reports_the_render_cadence() {
    let config = small_config(12, 10);
    let mut sim = Simulation::new(config);
    let mut rendered_steps: Vec<usize> = Vec::new();
    while !sim.is_complete() {
        let step = sim.len();
        if sim.record_step(price(100.0 + step as f64)) {
            rendered_steps.push(step);
        }
    }
    assert_eq!(sim.len(), 12);
    assert_eq!(rendered_steps, vec![10, 11]);
}
