use combat_sim::pool::{base_points_for_round, compute_carry_over, compute_pool};

#[test]
fn base_points_round_values() {
    assert_eq!(base_points_for_round(1), 2);
    assert_eq!(base_points_for_round(2), 3);
    assert_eq!(base_points_for_round(3), 4);
    assert_eq!(base_points_for_round(4), 4);
    assert_eq!(base_points_for_round(100), 4);
}

#[test]
fn base_points_non_decreasing_and_capped() {
    let mut prev = base_points_for_round(1);
    for r in 2..50u32 {
        let p = base_points_for_round(r);
        assert!(p >= prev);
        assert!(p <= 4);
        if r >= 3 {
            assert_eq!(p, 4);
        }
        prev = p;
    }
}

#[test]
fn pool_is_capped_at_eight() {
    assert_eq!(compute_pool(0, 0), 0);
    assert_eq!(compute_pool(2, 0), 2);
    assert_eq!(compute_pool(4, 3), 7);
    assert_eq!(compute_pool(4, 8), 8);
    assert_eq!(compute_pool(8, 8), 8);
    for base in 0..10u32 {
        for saved in 0..10u32 {
            let pool = compute_pool(base, saved);
            assert!(pool <= 8);
        }
    }
}

#[test]
fn carry_over_values() {
    assert_eq!(compute_carry_over(6, 4), 2);
    assert_eq!(compute_carry_over(8, 0), 8);
    assert_eq!(compute_carry_over(5, 5), 0);
    assert_eq!(compute_carry_over(0, 0), 0);
}
