// The estimator's discrete policy: Russian roulette past depth 5, the
// hard ceiling at depth 12, the deterministic Fresnel split up to
// depth 2 — and the validation and work-list rules of the driver.

use pathtracer::config::{ConfigError, RenderConfig};
use pathtracer::image::Resolution;
use pathtracer::policy::{
    fresnel_split_is_deterministic, roulette_decision, PathDecision, FRESNEL_SPLIT_MAX_DEPTH,
    MAX_DEPTH, ROULETTE_MIN_DEPTH,
};
use pathtracer::worklist::shuffled_pixel_indices;

#[test]
fn shallow_bounces_always_continue() {
    for depth in 0..=ROULETTE_MIN_DEPTH {
        assert_eq!(roulette_decision(depth, false), PathDecision::Continue);
        assert_eq!(roulette_decision(depth, true), PathDecision::Continue);
    }
}

#[test]
fn roulette_band_follows_the_draw() {
    for depth in (ROULETTE_MIN_DEPTH + 1)..MAX_DEPTH {
        assert_eq!(roulette_decision(depth, true), PathDecision::ContinueRescaled);
        assert_eq!(roulette_decision(depth, false), PathDecision::Terminate);
    }
}

#[test]
fn ceiling_terminates_even_surviving_draws() {
    assert_eq!(roulette_decision(MAX_DEPTH, true), PathDecision::Terminate);
    assert_eq!(roulette_decision(MAX_DEPTH, false), PathDecision::Terminate);
    assert_eq!(roulette_decision(MAX_DEPTH + 1, true), PathDecision::Terminate);
    assert_eq!(roulette_decision(100, true), PathDecision::Terminate);
}

#[test]
fn fresnel_split_is_deterministic_only_early() {
    for depth in 0..=FRESNEL_SPLIT_MAX_DEPTH {
        assert!(fresnel_split_is_deterministic(depth));
    }
    assert!(!fresnel_split_is_deterministic(FRESNEL_SPLIT_MAX_DEPTH + 1));
    assert!(!fresnel_split_is_deterministic(MAX_DEPTH));
}

#[test]
fn config_rejects_exactly_the_invalid_inputs() {
    let res = Resolution::new(450, 300);
    assert_eq!(RenderConfig::new(0, res), Err(ConfigError::ZeroSamples));
    assert_eq!(
        RenderConfig::new(4, Resolution::new(0, 300)),
        Err(ConfigError::ZeroResolution)
    );
    assert_eq!(
        RenderConfig::new(4, Resolution::new(450, 0)),
        Err(ConfigError::ZeroResolution)
    );
    assert_eq!(
        RenderConfig::new(4, Resolution::new(usize::MAX, 2)),
        Err(ConfigError::ResolutionTooLarge)
    );

    let ok = RenderConfig::new(4, res).unwrap();
    assert_eq!(ok.samples_per_pixel, 4);
    assert_eq!(ok.resolution, res);
}

#[test]
fn work_list_is_a_permutation_of_the_grid() {
    let mut indices = shuffled_pixel_indices(100);
    assert_eq!(indices.len(), 100);
    indices.sort();
    for (expect, got) in indices.iter().enumerate() {
        assert_eq!(expect, *got);
    }
}

#[test]
fn work_list_edge_sizes() {
    assert!(shuffled_pixel_indices(0).is_empty());
    assert_eq!(shuffled_pixel_indices(1), vec![0]);
}
