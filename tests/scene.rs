use raytrace::scene::{nearest_hit, pick_root, Root};

/// An order key for a ray parameter: keys compare as the parameters do.
fn key(t: f64) -> u64 {
    let bits = (t + 0.0).to_bits();
    if bits >> 63 == 1 {
        !bits
    } else {
        bits | (1u64 << 63)
    }
}

#[test]
fn no_members_no_hit() {
    assert_eq!(nearest_hit(&vec![], key(f64::MAX)), None);
}

#[test]
fn all_misses_no_hit() {
    assert_eq!(nearest_hit(&vec![None, None, None], key(f64::MAX)), None);
}

#[test]
fn nearer_surface_wins_in_either_order() {
    // Two spheres along the ray from the origin towards -z: the near one is hit
    // at t = 0.5, the far one at t = 1.5.
    let near = Some(key(0.5));
    let far = Some(key(1.5));
    assert_eq!(nearest_hit(&vec![near, far], key(f64::MAX)), Some(0));
    assert_eq!(nearest_hit(&vec![far, near], key(f64::MAX)), Some(1));
    assert_eq!(nearest_hit(&vec![None, far, None, near, None], key(f64::MAX)), Some(3));
}

#[test]
fn later_member_wins_a_tie() {
    let a = Some(key(2.0));
    assert_eq!(nearest_hit(&vec![a, a], key(f64::MAX)), Some(1));
    assert_eq!(nearest_hit(&vec![a, Some(key(3.0)), a, Some(key(2.5))], key(f64::MAX)), Some(2));
}

#[test]
fn hits_beyond_the_bound_are_ignored() {
    assert_eq!(nearest_hit(&vec![Some(key(5.0)), Some(key(7.0))], key(4.0)), None);
    assert_eq!(nearest_hit(&vec![Some(key(5.0)), Some(key(3.0))], key(4.0)), Some(1));
    assert_eq!(nearest_hit(&vec![Some(key(4.0))], key(4.0)), Some(0));
}

#[test]
fn keys_order_as_parameters() {
    assert!(key(-1.0) < key(-0.5));
    assert!(key(-0.5) < key(0.0));
    assert_eq!(key(-0.0), key(0.0));
    assert!(key(0.0) < key(1e-5));
    assert!(key(0.5) < key(1.5));
    assert!(key(1.5) < key(f64::MAX));
}

#[test]
fn near_root_is_preferred() {
    // Unit ray towards a sphere at distance 1 with radius 0.5: roots 0.5 and 1.5.
    assert_eq!(pick_root(key(0.5), key(1.5), key(0.0), key(f64::MAX)), Some(Root::Near));
}

#[test]
fn far_root_when_near_is_behind() {
    // From inside the sphere the near root lies behind the ray origin.
    assert_eq!(pick_root(key(-0.5), key(0.5), key(1e-5), key(f64::MAX)), Some(Root::Far));
    assert_eq!(pick_root(key(0.5), key(1.5), key(1.0), key(2.0)), Some(Root::Far));
}

#[test]
fn no_root_in_range() {
    assert_eq!(pick_root(key(-2.0), key(-1.0), key(0.0), key(f64::MAX)), None);
    assert_eq!(pick_root(key(3.0), key(4.0), key(0.0), key(2.0)), None);
}

#[test]
fn range_bounds_are_inclusive() {
    assert_eq!(pick_root(key(1.0), key(2.0), key(1.0), key(2.0)), Some(Root::Near));
    assert_eq!(pick_root(key(0.5), key(2.0), key(1.0), key(2.0)), Some(Root::Far));
}
