use exo_planets::labels::ExampleKind;
use exo_planets::pipeline::{split_shuffled, stratified_holdout, RNG_SEED, SPLIT_SEED};

fn rows() -> Vec<(ExampleKind, String)> {
    let mut v = Vec::new();
    for i in 0..10 {
        v.push((ExampleKind::Injected, format!("inj-{i:02}")));
    }
    for i in 0..6 {
        v.push((ExampleKind::PlanetOnly, format!("po-{i:02}")));
    }
    v.push((ExampleKind::Holdout, "Kepler-1625 b".to_string()));
    v.push((ExampleKind::Holdout, "Kepler-1708 b".to_string()));
    v
}

#[test]
fn quarter_split_counts_round_half_away_from_zero() {
    let rows = rows();
    let (fit, eval) = stratified_holdout(&rows, 1, 4, SPLIT_SEED);
    // 10 injected: 2.5 -> 3 held; 6 planet-only: 1.5 -> 2 held.
    assert_eq!(eval.len(), 5);
    assert_eq!(fit.len(), 11);
    assert!(eval[..3].iter().all(|&i| rows[i].0 == ExampleKind::Injected));
    assert!(eval[3..].iter().all(|&i| rows[i].0 == ExampleKind::PlanetOnly));
    assert!(fit[..7].iter().all(|&i| rows[i].0 == ExampleKind::Injected));
    assert!(fit[7..].iter().all(|&i| rows[i].0 == ExampleKind::PlanetOnly));
}

#[test]
fn split_is_a_partition_without_holdouts() {
    let rows = rows();
    let (fit, eval) = stratified_holdout(&rows, 1, 4, SPLIT_SEED);
    let mut all: Vec<usize> = fit.iter().chain(eval.iter()).copied().collect();
    all.sort();
    assert_eq!(all, (0..16).collect::<Vec<usize>>());
}

#[test]
fn split_is_reproducible_and_order_independent() {
    let rows = rows();
    let a = stratified_holdout(&rows, 1, 4, SPLIT_SEED);
    let b = stratified_holdout(&rows, 1, 4, SPLIT_SEED);
    assert_eq!(a, b);
    let mut rev = rows.clone();
    rev.reverse();
    let (fit_r, eval_r) = stratified_holdout(&rev, 1, 4, SPLIT_SEED);
    let ids = |v: &Vec<usize>, r: &Vec<(ExampleKind, String)>| {
        v.iter().map(|&i| r[i].1.clone()).collect::<Vec<String>>()
    };
    assert_eq!(ids(&a.0, &rows), ids(&fit_r, &rev));
    assert_eq!(ids(&a.1, &rows), ids(&eval_r, &rev));
    assert_eq!(SPLIT_SEED, RNG_SEED + 7);
}

#[test]
fn extreme_fractions() {
    let rows = rows();
    let (fit, eval) = stratified_holdout(&rows, 0, 1, 1);
    assert_eq!((fit.len(), eval.len()), (16, 0));
    let (fit, eval) = stratified_holdout(&rows, 3, 1, 1);
    assert_eq!((fit.len(), eval.len()), (0, 16));
    let (fit, eval) = stratified_holdout(&Vec::new(), 1, 4, 1);
    assert!(fit.is_empty() && eval.is_empty());
}

#[test]
fn split_shuffled_takes_the_first_share_of_each() {
    let inj = vec![9, 3, 7, 1, 5];
    let po = vec![8, 2, 6];
    // 5 · 1/4 = 1.25 -> 1 held; 3 · 1/4 = 0.75 -> 1 held.
    let (fit, eval) = split_shuffled(&inj, &po, 1, 4);
    assert_eq!(eval, vec![9, 8]);
    assert_eq!(fit, vec![3, 7, 1, 5, 2, 6]);
    let (fit, eval) = split_shuffled(&inj, &po, 1, 2);
    // 2.5 -> 3 held; 1.5 -> 2 held.
    assert_eq!(eval, vec![9, 3, 7, 8, 2]);
    assert_eq!(fit, vec![1, 5, 6]);
}

#[test]
fn the_seed_decides_the_shuffle() {
    let rows = rows();
    let a = stratified_holdout(&rows, 1, 4, SPLIT_SEED);
    let b = stratified_holdout(&rows, 1, 4, SPLIT_SEED + 1);
    let c = stratified_holdout(&rows, 1, 4, 0);
    assert!(a != b || a != c, "three seeds gave one split");
}
