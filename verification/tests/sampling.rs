use raytrace::utils::random_int_range;

#[test]
fn degenerate_range_is_pinned() {
    for _ in 0..20 {
        assert_eq!(random_int_range(5, 5), 5);
    }
}

#[test]
fn draws_stay_inside_the_closed_range() {
    for _ in 0..200 {
        let r = random_int_range(0, 2);
        assert!((0..=2).contains(&r));
    }
}

#[test]
fn negative_bounds_are_respected() {
    for _ in 0..200 {
        let r = random_int_range(-7, -3);
        assert!((-7..=-3).contains(&r));
    }
}

#[test]
fn every_axis_comes_up() {
    // the BVH draws its split axis from {0, 1, 2}; over many draws each
    // value should appear
    let mut seen = [false; 3];
    for _ in 0..1000 {
        seen[random_int_range(0, 2) as usize] = true;
    }
    assert!(seen.iter().all(|&s| s));
}
