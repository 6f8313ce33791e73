use raycaster::hit::{nearest_hit, slab_crossing, Crossing, HitKind};

#[test]
fn slab_reports_entry_from_outside() {
    // origin outside: 0 < t0 <= t1
    assert_eq!(slab_crossing(true, true, true), Some(Crossing::Entry));
}

#[test]
fn slab_reports_exit_from_inside() {
    // origin inside: t0 <= 0 < t1
    assert_eq!(slab_crossing(true, true, false), Some(Crossing::Exit));
}

#[test]
fn slab_misses_empty_interval() {
    assert_eq!(slab_crossing(false, true, true), None);
    assert_eq!(slab_crossing(false, true, false), None);
    assert_eq!(slab_crossing(false, false, false), None);
}

#[test]
fn slab_misses_box_behind_origin() {
    assert_eq!(slab_crossing(true, false, false), None);
    assert_eq!(slab_crossing(true, false, true), None);
}

#[test]
fn slab_through_centre_of_unit_box() {
    // Ray along +z through the centre of the box [-1, 1]^3.
    let cross = |origin_z: f32| {
        let (near, far) = (-1.0 - origin_z, 1.0 - origin_z);
        let (t0, t1) = (near.max(0.001), far.min(1e9));
        assert!(near < far);
        match slab_crossing(t1 >= t0, t1 > 0.0, t0 > 0.0) {
            Some(Crossing::Entry) => Some(t0),
            Some(Crossing::Exit) => Some(t1),
            None => None,
        }
    };
    assert_eq!(cross(-5.0), Some(4.0));
    assert_eq!(cross(5.0), None);
    // From inside, the lower bound of the query interval is the near end.
    assert_eq!(cross(0.0), Some(0.001));
}

#[test]
fn nearest_hit_of_nothing() {
    assert_eq!(nearest_hit(false, true, false, false), None);
    assert_eq!(nearest_hit(false, false, false, false), None);
    assert_eq!(nearest_hit(false, false, true, true), None);
}

#[test]
fn nearest_hit_cube_only() {
    assert_eq!(nearest_hit(true, true, false, false), Some(HitKind::Cube));
    assert_eq!(nearest_hit(true, false, false, false), Some(HitKind::Cube));
}

#[test]
fn nearest_hit_plane_only() {
    assert_eq!(nearest_hit(false, true, true, false), Some(HitKind::Plane));
    assert_eq!(nearest_hit(false, true, true, true), Some(HitKind::Plane));
}

#[test]
fn nearest_hit_keeps_smaller_parameter() {
    assert_eq!(nearest_hit(true, true, true, true), Some(HitKind::Plane));
    assert_eq!(nearest_hit(true, true, true, false), Some(HitKind::Cube));
}

#[test]
fn nearest_hit_ignores_disabled_plane() {
    assert_eq!(nearest_hit(true, false, true, true), Some(HitKind::Cube));
    assert_eq!(nearest_hit(false, false, true, false), None);
}

#[test]
fn nearest_hit_by_ray_parameters() {
    let pick = |cube: Option<f32>, plane: Option<f32>| {
        let nearer = match (cube, plane) {
            (Some(c), Some(p)) => p < c,
            _ => false,
        };
        nearest_hit(cube.is_some(), true, plane.is_some(), nearer)
    };
    assert_eq!(pick(Some(2.0), Some(3.5)), Some(HitKind::Cube));
    assert_eq!(pick(Some(4.0), Some(3.5)), Some(HitKind::Plane));
    assert_eq!(pick(Some(3.5), Some(3.5)), Some(HitKind::Cube));
    assert_eq!(pick(None, Some(0.002)), Some(HitKind::Plane));
    assert_eq!(pick(None, None), None);
}
