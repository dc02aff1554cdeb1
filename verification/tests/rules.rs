use gridsim::rules::{apply_growth, apply_shrink, migrate_pops};

#[test]
fn growth_adds_one_percent_rounded_down() {
    assert_eq!(apply_growth(200), 202);
    assert_eq!(apply_growth(100), 101);
    assert_eq!(apply_growth(99), 99);
    assert_eq!(apply_growth(0), 0);
    assert_eq!(apply_growth(12345), 12345 + 123);
}

#[test]
fn growth_saturates_at_machine_limit() {
    assert_eq!(apply_growth(usize::MAX), usize::MAX);
}

#[test]
fn shrink_removes_one_percent_rounded_down() {
    assert_eq!(apply_shrink(1000), 990);
    assert_eq!(apply_shrink(12345), 12345 - 123);
}

#[test]
fn shrink_extinguishes_small_populations() {
    for pop in 0..=10usize {
        assert_eq!(apply_shrink(pop), 0);
    }
    assert_eq!(apply_shrink(11), 11);
    assert_eq!(apply_shrink(99), 99);
}

#[test]
fn migration_moves_one_percent() {
    assert_eq!(migrate_pops(500, 0), (495, 5));
    assert_eq!(migrate_pops(500, 7), (495, 12));
    assert_eq!(migrate_pops(5, 3), (5, 3));
}

#[test]
fn migration_conserves_units() {
    for from in [0usize, 10, 99, 100, 500, 12345] {
        for to in [0usize, 1, 777] {
            let (nf, nt) = migrate_pops(from, to);
            assert_eq!(nf + nt, from + to);
        }
    }
}

#[test]
fn migration_saturates_at_machine_limit() {
    assert_eq!(migrate_pops(1000, usize::MAX), (990, usize::MAX));
}

#[test]
fn rule_sequences_keep_counts_nonnegative() {
    let mut pop: usize = 37;
    for round in 0..200 {
        pop = apply_growth(pop);
        let (left, _sent) = migrate_pops(pop, round);
        pop = apply_shrink(left);
        assert!(pop <= usize::MAX);
    }
    let mut tiny: usize = 10;
    tiny = apply_shrink(tiny);
    tiny = apply_shrink(tiny);
    assert_eq!(tiny, 0);
}
