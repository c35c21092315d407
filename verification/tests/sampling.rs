use econgen::rng::RandomSource;
use econgen::sampling::range_sample;
use econgen::sampling::weighted_index;
use econgen::sampling::ConfigError;

#[test]
fn weighted_index_empty_is_config_error() {
    let mut rng = RandomSource::from_seed(1);
    let weights: Vec<u64> = Vec::new();
    assert_eq!(weighted_index(&weights, &mut rng), Err(ConfigError::EmptyWeights));
}

#[test]
fn weighted_index_zero_total_is_config_error() {
    let mut rng = RandomSource::from_seed(2);
    let weights: Vec<u64> = vec![0, 0, 0];
    assert_eq!(weighted_index(&weights, &mut rng), Err(ConfigError::ZeroTotalWeight));
}

#[test]
fn weighted_index_single_entry_always_selected() {
    let mut rng = RandomSource::from_seed(3);
    let weights: Vec<u64> = vec![7];
    for _ in 0..100 {
        assert_eq!(weighted_index(&weights, &mut rng), Ok(0));
    }
}

#[test]
fn weighted_index_skips_zero_weight_entries() {
    let mut rng = RandomSource::from_seed(4);
    let weights: Vec<u64> = vec![0, 5, 0];
    for _ in 0..100 {
        assert_eq!(weighted_index(&weights, &mut rng), Ok(1));
    }
}

#[test]
fn weighted_index_frequencies_follow_weights() {
    // Large-sample check of weight-proportional selection: weights 1 and 3
    // should give roughly a 25%/75% split.
    let mut rng = RandomSource::from_seed(5);
    let weights: Vec<u64> = vec![1, 3];
    let draws = 10_000;
    let mut counts = [0u32; 2];
    for _ in 0..draws {
        let i = weighted_index(&weights, &mut rng).unwrap();
        counts[i] += 1;
    }
    // Expected 2500 / 7500; allow a wide statistical margin.
    assert!(counts[0] > 2000 && counts[0] < 3000, "counts: {:?}", counts);
    assert!(counts[1] > 7000 && counts[1] < 8000, "counts: {:?}", counts);
}

#[test]
fn weighted_index_order_of_equal_weights_is_unbiased() {
    let mut rng = RandomSource::from_seed(6);
    let weights: Vec<u64> = vec![5, 5];
    let draws = 10_000;
    let mut first = 0u32;
    for _ in 0..draws {
        if weighted_index(&weights, &mut rng).unwrap() == 0 {
            first += 1;
        }
    }
    assert!(first > 4500 && first < 5500, "first: {}", first);
}

#[test]
fn range_sample_stays_in_bounds() {
    let mut rng = RandomSource::from_seed(7);
    for _ in 0..10_000 {
        let v = range_sample(&mut rng, 535, 2140).unwrap();
        assert!((535..=2140).contains(&v));
    }
}

#[test]
fn range_sample_point_range_returns_the_point() {
    let mut rng = RandomSource::from_seed(8);
    assert_eq!(range_sample(&mut rng, 42, 42), Ok(42));
}

#[test]
fn range_sample_inverted_range_is_config_error() {
    let mut rng = RandomSource::from_seed(9);
    assert_eq!(range_sample(&mut rng, 10, 9), Err(ConfigError::InvertedRange));
}
