use talos::entropy::Entropy;
use talos::gen::{gen_anomaly, gen_anomaly_count, gen_planet_size, gen_planet_type};
use talos::sampler::{GenError, WeightedTable};
use talos::types::{PlanetAnomaly, PlanetSize, PlanetType};

#[test]
fn empty_weight_table_is_invalid() {
    let r = WeightedTable::new(&vec![]);
    assert!(matches!(r, Err(GenError::InvalidWeights)));
}

#[test]
fn all_zero_weight_table_is_invalid() {
    let r = WeightedTable::new(&vec![0, 0]);
    assert!(matches!(r, Err(GenError::InvalidWeights)));
}

#[test]
fn negative_weight_table_is_invalid() {
    let r = WeightedTable::new(&vec![-1, 5]);
    assert!(matches!(r, Err(GenError::InvalidWeights)));
}

#[test]
fn overflowing_weight_table_is_invalid() {
    let r = WeightedTable::new(&vec![i64::MAX, i64::MAX, i64::MAX]);
    assert!(matches!(r, Err(GenError::InvalidWeights)));
}

#[test]
fn valid_weight_table_is_accepted() {
    assert!(WeightedTable::new(&vec![5, 1, 1]).is_ok());
    assert!(WeightedTable::new(&vec![1]).is_ok());
    assert!(WeightedTable::new(&vec![0, 1]).is_ok());
}

#[test]
fn single_weight_always_draws_index_zero() {
    let t = WeightedTable::new(&vec![9]).unwrap();
    let mut e = Entropy::from_seed(5);
    for _ in 0..100 {
        assert_eq!(t.draw(&mut e), 0);
    }
}

#[test]
fn zero_weight_index_is_never_drawn() {
    let t = WeightedTable::new(&vec![0, 1, 0]).unwrap();
    let mut e = Entropy::from_seed(17);
    for _ in 0..200 {
        assert_eq!(t.draw(&mut e), 1);
    }
}

#[test]
fn draws_stay_inside_the_table() {
    let t = WeightedTable::new(&vec![3, 2, 1, 1]).unwrap();
    let mut e = Entropy::from_seed(23);
    for _ in 0..500 {
        assert!(t.draw(&mut e) < 4);
    }
}

/// Pearson's goodness-of-fit statistic for observed counts against the
/// proportions a weight table configures.
fn chi_square(counts: &[u64], weights: &[u64]) -> f64 {
    let n: u64 = counts.iter().sum();
    let total: u64 = weights.iter().sum();
    let mut stat = 0.0f64;
    for (c, w) in counts.iter().zip(weights.iter()) {
        let expected = (n as f64) * (*w as f64) / (total as f64);
        let diff = *c as f64 - expected;
        stat += diff * diff / expected;
    }
    stat
}

// The chi-square thresholds below are far above the 99th percentile for the
// tables' degrees of freedom, and the draws are seeded, so these tests are
// deterministic regressions of the configured proportions.

#[test]
fn planet_type_frequencies_follow_the_table() {
    let mut e = Entropy::from_seed(101);
    let mut counts = [0u64; 3];
    for _ in 0..21_000 {
        let i = match gen_planet_type(&mut e) {
            PlanetType::Standard => 0,
            PlanetType::Gia => 1,
            PlanetType::Barren => 2,
        };
        counts[i] += 1;
    }
    assert!(chi_square(&counts, &[5, 1, 1]) < 20.0, "counts {:?}", counts);
}

#[test]
fn planet_size_frequencies_follow_the_table() {
    let mut e = Entropy::from_seed(103);
    let mut counts = [0u64; 6];
    for _ in 0..33_300 {
        let i = match gen_planet_size(&mut e) {
            PlanetSize::ExtraSmall => 0,
            PlanetSize::Small => 1,
            PlanetSize::Medium => 2,
            PlanetSize::Large => 3,
            PlanetSize::ExtraLarge => 4,
            PlanetSize::Giant => 5,
        };
        counts[i] += 1;
    }
    assert!(chi_square(&counts, &[10, 20, 50, 20, 10, 1]) < 25.0, "counts {:?}", counts);
}

#[test]
fn anomaly_count_frequencies_follow_the_table() {
    let mut e = Entropy::from_seed(107);
    let mut counts = [0u64; 4];
    for _ in 0..25_020 {
        counts[gen_anomaly_count(&mut e)] += 1;
    }
    assert!(chi_square(&counts, &[500, 500, 250, 1]) < 25.0, "counts {:?}", counts);
}

#[test]
fn anomaly_kind_frequencies_follow_the_table() {
    let mut e = Entropy::from_seed(109);
    let mut counts = [0u64; 6];
    for _ in 0..21_000 {
        let i = match gen_anomaly(&mut e) {
            PlanetAnomaly::MineralRich => 0,
            PlanetAnomaly::CrystalRich => 1,
            PlanetAnomaly::EnergyRich => 2,
            PlanetAnomaly::TribalCiv => 3,
            PlanetAnomaly::AdvancedCiv => 4,
            PlanetAnomaly::NuclearWasteLand => 5,
        };
        counts[i] += 1;
    }
    assert!(chi_square(&counts, &[10, 10, 10, 10, 1, 1]) < 25.0, "counts {:?}", counts);
}

#[test]
fn seeded_draw_sequences_are_reproducible() {
    let t1 = WeightedTable::new(&vec![3, 1, 4, 1, 5]).unwrap();
    let t2 = WeightedTable::new(&vec![3, 1, 4, 1, 5]).unwrap();
    let mut e1 = Entropy::from_seed(31);
    let mut e2 = Entropy::from_seed(31);
    for _ in 0..300 {
        assert_eq!(t1.draw(&mut e1), t2.draw(&mut e2));
    }
}
