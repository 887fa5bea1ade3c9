use raytrace::hit::{nearest_hit, select_root, RootPair};

#[test]
fn near_root_wins_when_in_range() {
    assert_eq!(select_root(2, 8, 1, 100), Some(2));
}

#[test]
fn far_root_wins_when_near_is_too_close() {
    // The near root sits at or below the lower bound, as when the ray starts
    // inside the sphere: the far root is the reported hit.
    assert_eq!(select_root(1, 8, 1, 100), Some(8));
    assert_eq!(select_root(0, 8, 1, 100), Some(8));
}

#[test]
fn range_bounds_are_exclusive() {
    // Both bounds are strict: a root exactly on either bound is rejected.
    assert_eq!(select_root(1, 100, 1, 100), None);
    assert_eq!(select_root(5, 7, 1, 100), Some(5));
}

#[test]
fn no_root_in_range_is_a_miss() {
    assert_eq!(select_root(101, 200, 1, 100), None);
}

#[test]
fn empty_scene_never_hits() {
    let objects: Vec<RootPair> = Vec::new();
    assert_eq!(nearest_hit(&objects, 1, 100), None);
}

#[test]
fn overlapping_spheres_nearest_wins() {
    // Two overlapping spheres: the aggregate hit is the minimum of the two
    // individual hits.
    let objects = vec![RootPair { near: 2, far: 8 }, RootPair { near: 1, far: 9 }];
    assert_eq!(nearest_hit(&objects, 0, 100), Some((1, 1)));

    let objects = vec![RootPair { near: 1, far: 9 }, RootPair { near: 2, far: 8 }];
    assert_eq!(nearest_hit(&objects, 0, 100), Some((0, 1)));
}

#[test]
fn equally_distant_hit_goes_to_first_object() {
    let objects = vec![RootPair { near: 2, far: 8 }, RootPair { near: 2, far: 9 }];
    assert_eq!(nearest_hit(&objects, 0, 100), Some((0, 2)));
}

#[test]
fn far_root_of_enclosing_sphere_can_win() {
    // The first object's near root is below the lower bound; its far root
    // still beats the second object's hit.
    let objects = vec![RootPair { near: 0, far: 3 }, RootPair { near: 5, far: 9 }];
    assert_eq!(nearest_hit(&objects, 0, 100), Some((0, 3)));
}

#[test]
fn scan_narrows_to_closest_over_many_objects() {
    let objects = vec![
        RootPair { near: 40, far: 50 },
        RootPair { near: 10, far: 45 },
        RootPair { near: 20, far: 30 },
        RootPair { near: 10, far: 12 },
    ];
    assert_eq!(nearest_hit(&objects, 5, 1000), Some((1, 10)));
}

#[test]
fn all_objects_out_of_range_is_a_miss() {
    let objects = vec![RootPair { near: 1, far: 2 }, RootPair { near: 300, far: 400 }];
    assert_eq!(nearest_hit(&objects, 5, 100), None);
}
