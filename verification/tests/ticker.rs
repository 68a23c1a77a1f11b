use cosmo_svg_animation_lib::tick;
use cosmo_svg_animation_lib::tick_bool;
use cosmo_svg_animation_lib::tick_iterate;

#[test]
fn tick_iterate_over_nothing_gives_nothing() {
    let values: Vec<char> = vec![];
    assert_eq!(tick_iterate(1000, 0, &values, 0, 0), None);
    assert_eq!(tick_iterate(1000, 0, &values, 0, 3_500), None);
}

#[test]
fn tick_iterate_wraps_around_after_3500() {
    let values = vec!['A', 'B', 'C'];
    let created_at = 20_000;
    let first_tick = created_at;
    assert_eq!(tick_iterate(1000, 0, &values, created_at, first_tick + 3_500), Some(&'A'));
}

#[test]
fn tick_iterate_steps_through_the_values() {
    let values = vec!['A', 'B', 'C'];
    assert_eq!(tick_iterate(1000, 0, &values, 0, 0), Some(&'A'));
    assert_eq!(tick_iterate(1000, 0, &values, 0, 999), Some(&'A'));
    assert_eq!(tick_iterate(1000, 0, &values, 0, 1_000), Some(&'B'));
    assert_eq!(tick_iterate(1000, 0, &values, 0, 2_000), Some(&'C'));
    assert_eq!(tick_iterate(1000, 0, &values, 0, 2_999), Some(&'C'));
    assert_eq!(tick_iterate(1000, 0, &values, 0, 3_000), Some(&'A'));
    assert_eq!(tick_iterate(1000, 0, &values, 0, 4_000), Some(&'B'));
}

#[test]
fn tick_holds_zero_for_the_delay() {
    assert_eq!(tick(1000, 1000, 500, 0), 0);
    assert_eq!(tick(1000, 1000, 500, 500), 0);
    assert_eq!(tick(1000, 1000, 500, 1_499), 0);
    assert_eq!(tick(1000, 1000, 500, 1_500), 0);
    assert_eq!(tick(1000, 1000, 500, 2_499), 0);
    assert_eq!(tick(1000, 1000, 500, 2_500), 1);
    assert_eq!(tick(1000, 1000, 500, 3_500), 2);
    assert_eq!(tick(1000, 1000, 500, 7_777), 6);
}

#[test]
fn tick_rounds_down() {
    assert_eq!(tick(100, 0, 0, 99), 0);
    assert_eq!(tick(100, 0, 0, 100), 1);
    assert_eq!(tick(100, 0, 0, 1_799), 17);
    assert_eq!(tick(7, 3, 10, 10 + 3 + 7 * 12 + 6), 12);
}

#[test]
fn tick_at_the_ends_of_the_clock() {
    assert_eq!(tick(1, 0, 0, u64::MAX), u64::MAX);
    assert_eq!(tick(1, u64::MAX, u64::MAX, u64::MAX), 0);
    assert_eq!(tick(u64::MAX, 0, 0, u64::MAX), 1);
    assert_eq!(tick(2, 1, 0, u64::MAX), (u64::MAX - 1) / 2);
}

#[test]
fn tick_bool_is_the_parity_of_tick() {
    assert!(tick_bool(250, 0, 0, 0));
    assert!(tick_bool(250, 0, 0, 249));
    assert!(!tick_bool(250, 0, 0, 250));
    assert!(tick_bool(250, 0, 0, 500));
    assert!(!tick_bool(250, 0, 0, 999));
    assert!(tick_bool(250, 1_000, 0, 999));
}

#[test]
fn tick_iterate_agrees_with_tick() {
    let values: Vec<usize> = (0..=5).collect();
    for now in (0..20_000u64).step_by(137) {
        let index = tick(1000, 1000, 0, now);
        assert_eq!(
            tick_iterate(1000, 1000, &values, 0, now),
            Some(&((index % 6) as usize))
        );
    }
}
