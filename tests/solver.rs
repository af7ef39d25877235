use optrush::{Action, NewtonControl, Outcome};
use statrs::distribution::{Continuous, ContinuousCDF, Normal};

fn n_cdf(x: f64) -> f64 {
    Normal::new(0.0, 1.0).unwrap().cdf(x)
}

fn n_pdf(x: f64) -> f64 {
    Normal::new(0.0, 1.0).unwrap().pdf(x)
}

fn spot_d1(s: f64, k: f64, t: f64, r: f64, sigma: f64) -> f64 {
    (s.ln() - k.ln() + (r + 0.5 * sigma.powi(2)) * t) / (sigma * t.sqrt())
}

fn spot_call(s: f64, k: f64, t: f64, r: f64, sigma: f64) -> f64 {
    let d1 = spot_d1(s, k, t, r, sigma);
    let d2 = d1 - sigma * t.sqrt();
    s * n_cdf(d1) - k * (-r * t).exp() * n_cdf(d2)
}

fn spot_put(s: f64, k: f64, t: f64, r: f64, sigma: f64) -> f64 {
    let d1 = spot_d1(s, k, t, r, sigma);
    let d2 = d1 - sigma * t.sqrt();
    k * (-r * t).exp() * n_cdf(-d2) - s * n_cdf(-d1)
}

fn spot_vega(s: f64, k: f64, t: f64, r: f64, sigma: f64) -> f64 {
    s * n_pdf(spot_d1(s, k, t, r, sigma)) * t.sqrt()
}

/// Drives the control with real arithmetic; returns the volatility, the
/// outcome and the number of prices evaluated.
fn solve(
    price: fn(f64, f64, f64, f64, f64) -> f64,
    market: f64,
    sigma0: f64,
    tol: f64,
    max_iteration: usize,
) -> (f64, Outcome, usize) {
    let (s, k, t, r) = (100.0, 100.0, 1.0, 0.05);
    let mut sigma = sigma0;
    let mut diff = 0.0;
    let mut priced = 0;
    let mut control = NewtonControl::new(max_iteration);
    loop {
        match control.next_action() {
            Action::EvaluatePrice => {
                priced += 1;
                diff = market - price(s, k, t, r, sigma);
                control.on_price(diff.abs() < tol);
            }
            Action::EvaluateVegaAndStep => {
                sigma += diff / spot_vega(s, k, t, r, sigma);
                control.on_step();
            }
            Action::Finish(outcome) => return (sigma, outcome, priced),
        }
    }
}

#[test]
fn implied_vol_spot_call_scenario() {
    let (sigma, outcome, _) = solve(spot_call, 10.4506, 0.2, 1e-8, 100);
    assert_eq!(outcome, Outcome::Converged);
    assert!((sigma - 0.2).abs() < 1e-4);
}

#[test]
fn implied_vol_round_trip() {
    for target in [0.1, 0.35, 0.6] {
        let market = spot_put(100.0, 100.0, 1.0, 0.05, target);
        let (sigma, outcome, priced) = solve(spot_put, market, 0.2, 1e-10, 50);
        assert_eq!(outcome, Outcome::Converged);
        assert!(priced < 10);
        assert!((sigma - target).abs() < 1e-6);
    }
}

#[test]
fn cap_zero_finishes_at_once() {
    let c = NewtonControl::new(0);
    assert_eq!(c.next_action(), Action::Finish(Outcome::CapReached));
    assert_eq!(c.completed(), 0);
}

#[test]
fn converged_on_first_price() {
    let mut c = NewtonControl::new(3);
    assert_eq!(c.next_action(), Action::EvaluatePrice);
    c.on_price(true);
    assert_eq!(c.next_action(), Action::Finish(Outcome::Converged));
    assert_eq!(c.completed(), 0);
}

#[test]
fn cap_reached_after_every_step() {
    let mut c = NewtonControl::new(3);
    let mut actions = Vec::new();
    loop {
        let a = c.next_action();
        actions.push(a);
        match a {
            Action::EvaluatePrice => c.on_price(false),
            Action::EvaluateVegaAndStep => c.on_step(),
            Action::Finish(_) => break,
        }
    }
    assert_eq!(
        actions,
        vec![
            Action::EvaluatePrice,
            Action::EvaluateVegaAndStep,
            Action::EvaluatePrice,
            Action::EvaluateVegaAndStep,
            Action::EvaluatePrice,
            Action::EvaluateVegaAndStep,
            Action::Finish(Outcome::CapReached),
        ]
    );
    assert_eq!(c.completed(), 3);
}

#[test]
fn stops_at_first_price_within_tolerance() {
    let reports = [false, false, true, false];
    let mut c = NewtonControl::new(4);
    let mut i = 0;
    loop {
        match c.next_action() {
            Action::EvaluatePrice => {
                c.on_price(reports[i]);
                i += 1;
            }
            Action::EvaluateVegaAndStep => c.on_step(),
            Action::Finish(outcome) => {
                assert_eq!(outcome, Outcome::Converged);
                break;
            }
        }
    }
    assert_eq!(i, 3);
    assert_eq!(c.completed(), 2);
}

#[test]
fn nonconvergence_keeps_last_sigma() {
    // A single allowed step from 0.2 cannot reach a volatility far away.
    let market = spot_call(100.0, 100.0, 1.0, 0.05, 0.9);
    let (sigma, outcome, priced) = solve(spot_call, market, 0.2, 1e-12, 1);
    assert_eq!(outcome, Outcome::CapReached);
    assert_eq!(priced, 1);
    let expected = 0.2 + (market - spot_call(100.0, 100.0, 1.0, 0.05, 0.2))
        / spot_vega(100.0, 100.0, 1.0, 0.05, 0.2);
    assert_eq!(sigma, expected);
}
