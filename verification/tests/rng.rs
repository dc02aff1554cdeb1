use gridsim::rng::{prob, RandomSource};

#[test]
fn scripted_draws_replay_in_order() {
    let mut r = RandomSource::from_script(vec![999, 0, 3]);
    assert_eq!(r.next_below(1000), 999);
    assert_eq!(r.next_below(1000), 0);
    assert_eq!(r.next_below(2), 1);
}

#[test]
fn scripted_draws_reduce_modulo() {
    let mut r = RandomSource::from_script(vec![10, 10, 10]);
    assert_eq!(r.next_below(3), 1);
    assert_eq!(r.next_below(7), 3);
    assert_eq!(r.next_below(100), 10);
}

#[test]
fn exhausted_script_yields_zero() {
    let mut r = RandomSource::from_script(vec![5]);
    assert_eq!(r.next_below(10), 5);
    assert_eq!(r.next_below(10), 0);
    assert_eq!(r.next_below(10), 0);
}

#[test]
fn system_draws_stay_below_bound() {
    let mut r = RandomSource::system();
    for _ in 0..500 {
        assert!(r.next_below(7) < 7);
        assert!(r.next_below(1) == 0);
    }
}

#[test]
fn prob_compares_draw_against_threshold() {
    let mut r = RandomSource::from_script(vec![4, 5, 0, 999]);
    assert!(prob(&mut r, 5));
    assert!(!prob(&mut r, 5));
    assert!(prob(&mut r, 1));
    assert!(!prob(&mut r, 999));
}
