use raycaster::face::Lean::{Negative, Neutral, Positive};
use raycaster::face::{dominant_face, Axis, Face, Lean, Touching, UvCoord, UvLayout};

const FACES: [Face; 6] = [Face::NegX, Face::PosX, Face::NegY, Face::PosY, Face::NegZ, Face::PosZ];

fn nothing() -> Touching {
    Touching { neg_x: false, pos_x: false, neg_y: false, pos_y: false, neg_z: false, pos_z: false }
}

fn lean(c: i8) -> Lean {
    if 2 * c > 1 {
        Positive
    } else if 2 * c < -1 {
        Negative
    } else {
        Neutral
    }
}

#[test]
fn normals_of_the_six_faces() {
    assert_eq!(Face::NegX.normal(), (-1, 0, 0));
    assert_eq!(Face::PosX.normal(), (1, 0, 0));
    assert_eq!(Face::NegY.normal(), (0, -1, 0));
    assert_eq!(Face::PosY.normal(), (0, 1, 0));
    assert_eq!(Face::NegZ.normal(), (0, 0, -1));
    assert_eq!(Face::PosZ.normal(), (0, 0, 1));
}

#[test]
fn normals_are_axis_aligned_units() {
    for face in FACES {
        let (x, y, z) = face.normal();
        assert_eq!(x * x + y * y + z * z, 1);
        assert_eq!([x, y, z].iter().filter(|c| **c != 0).count(), 1);
    }
}

#[test]
fn first_face_of_single_touch() {
    assert_eq!(Touching { neg_x: true, ..nothing() }.first_face(), Some(Face::NegX));
    assert_eq!(Touching { pos_x: true, ..nothing() }.first_face(), Some(Face::PosX));
    assert_eq!(Touching { neg_y: true, ..nothing() }.first_face(), Some(Face::NegY));
    assert_eq!(Touching { pos_y: true, ..nothing() }.first_face(), Some(Face::PosY));
    assert_eq!(Touching { neg_z: true, ..nothing() }.first_face(), Some(Face::NegZ));
    assert_eq!(Touching { pos_z: true, ..nothing() }.first_face(), Some(Face::PosZ));
}

#[test]
fn first_face_of_no_touch() {
    assert_eq!(nothing().first_face(), None);
}

#[test]
fn first_face_follows_fixed_order() {
    // On an edge or a corner the earlier face in -x, +x, -y, +y, -z, +z wins.
    assert_eq!(Touching { pos_x: true, pos_y: true, ..nothing() }.first_face(), Some(Face::PosX));
    assert_eq!(Touching { neg_y: true, pos_z: true, ..nothing() }.first_face(), Some(Face::NegY));
    assert_eq!(Touching { pos_y: true, neg_z: true, pos_z: true, ..nothing() }.first_face(), Some(Face::PosY));
    assert_eq!(Touching { neg_z: true, pos_z: true, ..nothing() }.first_face(), Some(Face::NegZ));
    let all = Touching { neg_x: true, pos_x: true, neg_y: true, pos_y: true, neg_z: true, pos_z: true };
    assert_eq!(all.first_face(), Some(Face::NegX));
}

#[test]
fn dominant_face_by_lean() {
    assert_eq!(dominant_face(Positive, Neutral, Neutral), Face::PosX);
    assert_eq!(dominant_face(Negative, Neutral, Neutral), Face::NegX);
    assert_eq!(dominant_face(Neutral, Positive, Neutral), Face::PosY);
    assert_eq!(dominant_face(Neutral, Negative, Neutral), Face::NegY);
    assert_eq!(dominant_face(Neutral, Neutral, Positive), Face::PosZ);
    assert_eq!(dominant_face(Neutral, Neutral, Negative), Face::NegZ);
}

#[test]
fn dominant_face_defaults_to_neg_z() {
    assert_eq!(dominant_face(Neutral, Neutral, Neutral), Face::NegZ);
}

#[test]
fn dominant_face_prefers_x_then_y() {
    assert_eq!(dominant_face(Positive, Positive, Positive), Face::PosX);
    assert_eq!(dominant_face(Negative, Positive, Negative), Face::NegX);
    assert_eq!(dominant_face(Neutral, Negative, Positive), Face::NegY);
}

#[test]
fn dominant_face_recovers_face_from_its_normal() {
    for face in FACES {
        let (x, y, z) = face.normal();
        assert_eq!(dominant_face(lean(x), lean(y), lean(z)), face);
    }
}

#[test]
fn uv_layout_of_each_face() {
    let coord = |axis, from_max| UvCoord { axis, from_max };
    assert_eq!(Face::PosX.uv_layout(), UvLayout { u: coord(Axis::Z, false), v: coord(Axis::Y, false) });
    assert_eq!(Face::NegX.uv_layout(), UvLayout { u: coord(Axis::Z, true), v: coord(Axis::Y, false) });
    assert_eq!(Face::PosY.uv_layout(), UvLayout { u: coord(Axis::X, false), v: coord(Axis::Z, true) });
    assert_eq!(Face::NegY.uv_layout(), UvLayout { u: coord(Axis::X, false), v: coord(Axis::Z, false) });
    assert_eq!(Face::PosZ.uv_layout(), UvLayout { u: coord(Axis::X, true), v: coord(Axis::Y, false) });
    assert_eq!(Face::NegZ.uv_layout(), UvLayout { u: coord(Axis::X, false), v: coord(Axis::Y, false) });
}

#[test]
fn uv_layout_spans_the_face() {
    for face in FACES {
        let (x, y, z) = face.normal();
        let own = if x != 0 {
            Axis::X
        } else if y != 0 {
            Axis::Y
        } else {
            assert_ne!(z, 0);
            Axis::Z
        };
        let layout = face.uv_layout();
        assert_ne!(layout.u.axis, layout.v.axis);
        assert_ne!(layout.u.axis, own);
        assert_ne!(layout.v.axis, own);
    }
}

#[test]
fn uv_of_a_point_on_the_top_face() {
    // Box from (-1, -1, -4) to (1, 1, -2); the point (0.5, 1, -2.5) on its
    // top face unwraps to u = (x - xMin) / width, v = (zMax - z) / depth.
    let (min, max) = ([-1.0f32, -1.0, -4.0], [1.0f32, 1.0, -2.0]);
    let p = [0.5f32, 1.0, -2.5];
    let touching = Touching { pos_y: (p[1] - max[1]).abs() < 1e-4, ..nothing() };
    let face = touching.first_face().unwrap();
    assert_eq!(face, Face::PosY);
    let along = |c: UvCoord| {
        let i = match c.axis {
            Axis::X => 0,
            Axis::Y => 1,
            Axis::Z => 2,
        };
        if c.from_max {
            (max[i] - p[i]) / (max[i] - min[i])
        } else {
            (p[i] - min[i]) / (max[i] - min[i])
        }
    };
    let layout = face.uv_layout();
    assert_eq!(along(layout.u), 0.75);
    assert_eq!(along(layout.v), 0.25);
}
