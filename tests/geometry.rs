use times_circle::geometry::{line_targets, paired_index, point_angles, UNIT};

#[test]
fn paired_index_truncates_before_modulo() {
    // 3 * 2.5 = 7.5, truncated to 7, and 7 mod 10 = 7 (not 8).
    assert_eq!(paired_index(3, 2_500_000, 10), 7);
}

#[test]
fn paired_index_wraps_modulo_count() {
    // 7 * 2 = 14, 14 mod 10 = 4.
    assert_eq!(paired_index(7, 2 * UNIT, 10), 4);
    assert_eq!(paired_index(9, 3_700_000, 10), 3);
}

#[test]
fn paired_index_identity_at_multiplier_one() {
    for n in [1usize, 2, 10, 500] {
        for i in 0..n {
            assert_eq!(paired_index(i, UNIT, n), i);
        }
    }
}

#[test]
fn paired_index_multiplier_zero_joins_to_first() {
    for i in 0..20usize {
        assert_eq!(paired_index(i, 0, 20), 0);
    }
}

#[test]
fn paired_index_largest_inputs_do_not_overflow() {
    let j = paired_index(usize::MAX, u64::MAX, 10_000);
    assert!(j < 10_000);
}

#[test]
fn line_targets_lists_every_point() {
    assert_eq!(line_targets(10, 2 * UNIT), vec![0, 2, 4, 6, 8, 0, 2, 4, 6, 8]);
    assert_eq!(line_targets(4, 2_500_000), vec![0, 2, 1, 3]);
}

#[test]
fn line_targets_empty_for_no_points() {
    assert!(line_targets(0, 2 * UNIT).is_empty());
}

#[test]
fn point_angles_count_and_spacing() {
    let angles = point_angles(4, 0);
    assert_eq!(angles, vec![0, 250_000, 500_000, 750_000]);
    for n in 1..50usize {
        let angles = point_angles(n, 123_456);
        assert_eq!(angles.len(), n);
        let base = UNIT / n as u64;
        for k in 0..n {
            let next = angles[(k + 1) % n];
            let gap = (next + UNIT - angles[k]) % UNIT;
            if n == 1 {
                assert_eq!(gap, 0);
            } else {
                assert!(gap == base || gap == base + 1, "n={} k={} gap={}", n, k, gap);
            }
        }
    }
}

#[test]
fn point_angles_wrap_past_one_turn() {
    // Point 0 half a turn round: the third of four points is back at 0.
    assert_eq!(point_angles(4, 500_000), vec![500_000, 750_000, 0, 250_000]);
    // Thirds of a turn are rounded down to a millionth.
    assert_eq!(point_angles(3, 0), vec![0, 333_333, 666_666]);
}

#[test]
fn point_angles_empty_for_no_points() {
    for rotation in [0u64, 1, 500_000, 999_999, u64::MAX] {
        assert!(point_angles(0, rotation).is_empty());
    }
}

#[test]
fn point_angles_same_arguments_same_result() {
    let first = point_angles(500, 314_159);
    let second = point_angles(500, 314_159);
    assert_eq!(first, second);
}
