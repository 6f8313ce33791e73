//! The six faces of an axis-aligned box: their fixed order, their outward
//! normals and the way each is unwrapped into texture space.

use vstd::prelude::*;

verus! {

/// A world axis.
#[derive(Clone, Copy, Debug, PartialEq, Eq, Structural)]
pub enum Axis {
    X,
    Y,
    Z,
}

/// A face of the box, named by the direction its normal points in.
#[derive(Clone, Copy, Debug, PartialEq, Eq, Structural)]
pub enum Face {
    NegX,
    PosX,
    NegY,
    PosY,
    NegZ,
    PosZ,
}

/// Which faces a point lies within tolerance of.
#[derive(Clone, Copy, Debug, PartialEq, Eq, Structural)]
pub struct Touching {
    pub neg_x: bool,
    pub pos_x: bool,
    pub neg_y: bool,
    pub pos_y: bool,
    pub neg_z: bool,
    pub pos_z: bool,
}

/// How strongly one component of a normal points along its axis:
/// above one half, below minus one half, or in between.
#[derive(Clone, Copy, Debug, PartialEq, Eq, Structural)]
pub enum Lean {
    Negative,
    Neutral,
    Positive,
}

/// One texture coordinate of a face: the box axis it runs along, and
/// whether it is measured from the box's upper bound back (`from_max`)
/// or from its lower bound up. Either way it is divided by the box's
/// extent along that axis.
#[derive(Clone, Copy, Debug, PartialEq, Eq, Structural)]
pub struct UvCoord {
    pub axis: Axis,
    pub from_max: bool,
}

/// The two texture coordinates of a face.
#[derive(Clone, Copy, Debug, PartialEq, Eq, Structural)]
pub struct UvLayout {
    pub u: UvCoord,
    pub v: UvCoord,
}

impl Face {
    /// The axis the face is perpendicular to.
    pub open spec fn axis(self) -> Axis {
        match self {
            Face::NegX | Face::PosX => Axis::X,
            Face::NegY | Face::PosY => Axis::Y,
            Face::NegZ | Face::PosZ => Axis::Z,
        }
    }

    /// Whether the face looks along its axis rather than against it.
    pub open spec fn positive(self) -> bool {
        self is PosX || self is PosY || self is PosZ
    }

    /// Place of the face in the order in which faces are tried:
    /// -x, +x, -y, +y, -z, +z.
    pub open spec fn rank(self) -> nat {
        match self {
            Face::NegX => 0,
            Face::PosX => 1,
            Face::NegY => 2,
            Face::PosY => 3,
            Face::NegZ => 4,
            Face::PosZ => 5,
        }
    }

    /// The outward normal: one step along the face's axis, towards the
    /// side the face looks to.
    pub open spec fn normal_of(self) -> (int, int, int) {
        let step: int = if self.positive() { 1 } else { -1 };
        match self.axis() {
            Axis::X => (step, 0, 0),
            Axis::Y => (0, step, 0),
            Axis::Z => (0, 0, step),
        }
    }

    /// The texture coordinates of the face. `u` runs along x, or along
    /// z on the two faces that x pierces; `v` runs along y, or along z
    /// on the two faces that y pierces. `u` is reversed on -x and +z,
    /// and `v` on +y.
    pub open spec fn uv_layout_of(self) -> UvLayout {
        UvLayout {
            u: UvCoord {
                axis: if self.axis() == Axis::X { Axis::Z } else { Axis::X },
                from_max: self is NegX || self is PosZ,
            },
            v: UvCoord {
                axis: if self.axis() == Axis::Y { Axis::Z } else { Axis::Y },
                from_max: self is PosY,
            },
        }
    }

    /// The outward unit normal of the face.
    pub fn normal(self) -> (n: (i8, i8, i8))
        ensures
            (n.0 as int, n.1 as int, n.2 as int) == self.normal_of(),
    {
        match self {
            Face::NegX => (-1, 0, 0),
            Face::PosX => (1, 0, 0),
            Face::NegY => (0, -1, 0),
            Face::PosY => (0, 1, 0),
            Face::NegZ => (0, 0, -1),
            Face::PosZ => (0, 0, 1),
        }
    }

    /// How a surface point of the face maps to texture coordinates.
    pub fn uv_layout(self) -> (layout: UvLayout)
        ensures
            layout == self.uv_layout_of(),
    {
        let (u_axis, u_from_max, v_axis, v_from_max) = match self {
            Face::PosX => (Axis::Z, false, Axis::Y, false),
            Face::NegX => (Axis::Z, true, Axis::Y, false),
            Face::PosY => (Axis::X, false, Axis::Z, true),
            Face::NegY => (Axis::X, false, Axis::Z, false),
            Face::PosZ => (Axis::X, true, Axis::Y, false),
            Face::NegZ => (Axis::X, false, Axis::Y, false),
        };
        UvLayout {
            u: UvCoord { axis: u_axis, from_max: u_from_max },
            v: UvCoord { axis: v_axis, from_max: v_from_max },
        }
    }
}

impl Touching {
    /// Whether the point lies within tolerance of `face`.
    pub open spec fn touches(self, face: Face) -> bool {
        match face {
            Face::NegX => self.neg_x,
            Face::PosX => self.pos_x,
            Face::NegY => self.neg_y,
            Face::PosY => self.pos_y,
            Face::NegZ => self.neg_z,
            Face::PosZ => self.pos_z,
        }
    }

    /// Whether `face` is the first face, in the fixed order, that the
    /// point touches.
    pub open spec fn first_touched(self, face: Face) -> bool {
        self.touches(face) && forall|other: Face|
            other.rank() < face.rank() ==> !self.touches(other)
    }

    /// The face whose normal a surface point takes: the first in the
    /// fixed order that the point touches. `None` where it touches no
    /// face, and the caller falls back to the direction from the box
    /// centre.
    pub fn first_face(self) -> (found: Option<Face>)
        ensures
            (match found {
                Some(face) => self.first_touched(face),
                None => forall|face: Face| !self.touches(face),
            }),
    {
        if self.neg_x {
            Some(Face::NegX)
        } else if self.pos_x {
            Some(Face::PosX)
        } else if self.neg_y {
            Some(Face::NegY)
        } else if self.pos_y {
            Some(Face::PosY)
        } else if self.neg_z {
            Some(Face::NegZ)
        } else if self.pos_z {
            Some(Face::PosZ)
        } else {
            None
        }
    }
}

impl Lean {
    /// The lean of a component with an integer value.
    pub open spec fn of_component(c: int) -> Lean {
        if 2 * c > 1 {
            Lean::Positive
        } else if 2 * c < -1 {
            Lean::Negative
        } else {
            Lean::Neutral
        }
    }
}

/// The face a normal with the given leans belongs to: x decides before
/// y, y before z, and a normal that leans nowhere counts as -z.
pub open spec fn dominant_face_of(x: Lean, y: Lean, z: Lean) -> Face {
    if x is Positive {
        Face::PosX
    } else if x is Negative {
        Face::NegX
    } else if y is Positive {
        Face::PosY
    } else if y is Negative {
        Face::NegY
    } else if z is Positive {
        Face::PosZ
    } else {
        Face::NegZ
    }
}

/// Picks the face to unwrap from the leans of a hit normal's components.
pub fn dominant_face(x: Lean, y: Lean, z: Lean) -> (face: Face)
    ensures
        face == dominant_face_of(x, y, z),
{
    match (x, y, z) {
        (Lean::Positive, _, _) => Face::PosX,
        (Lean::Negative, _, _) => Face::NegX,
        (Lean::Neutral, Lean::Positive, _) => Face::PosY,
        (Lean::Neutral, Lean::Negative, _) => Face::NegY,
        (Lean::Neutral, Lean::Neutral, Lean::Positive) => Face::PosZ,
        (Lean::Neutral, Lean::Neutral, _) => Face::NegZ,
    }
}

/// At most one face is the first that a point touches, and there is
/// one as soon as the point touches any face.
pub proof fn lemma_first_touched_unique(touching: Touching, a: Face, b: Face)
    ensures
        touching.first_touched(a) && touching.first_touched(b) ==> a == b,
        touching.touches(a) ==> exists|face: Face| touching.first_touched(face),
{
    if touching.touches(a) {
        if touching.neg_x {
            assert(touching.first_touched(Face::NegX));
        } else if touching.pos_x {
            assert(touching.first_touched(Face::PosX));
        } else if touching.neg_y {
            assert(touching.first_touched(Face::NegY));
        } else if touching.pos_y {
            assert(touching.first_touched(Face::PosY));
        } else if touching.neg_z {
            assert(touching.first_touched(Face::NegZ));
        } else {
            assert(touching.first_touched(Face::PosZ));
        }
    }
}

/// A face normal is a unit vector along exactly one world axis: the
/// face's own, pointing to the face's side.
pub proof fn lemma_normal_axis_aligned(face: Face)
    ensures
        ({
            let n = face.normal_of();
            &&& n.0 * n.0 + n.1 * n.1 + n.2 * n.2 == 1
            &&& (n.0 != 0) == (face.axis() == Axis::X)
            &&& (n.1 != 0) == (face.axis() == Axis::Y)
            &&& (n.2 != 0) == (face.axis() == Axis::Z)
            &&& (n.0 + n.1 + n.2 == 1) == face.positive()
            &&& (n.0 + n.1 + n.2 == -1) == !face.positive()
        }),
{
}

/// The normal of a face leans along one axis only, and unwrapping by
/// the leans of that normal finds the face again.
pub proof fn lemma_dominant_face_of_normal(face: Face)
    ensures
        ({
            let n = face.normal_of();
            dominant_face_of(
                Lean::of_component(n.0),
                Lean::of_component(n.1),
                Lean::of_component(n.2),
            ) == face
        }),
{
}

/// The two texture coordinates of a face run along the two axes that
/// span it: they differ from each other and from the face's own axis.
pub proof fn lemma_uv_spans_face(face: Face)
    ensures
        face.uv_layout_of().u.axis != face.uv_layout_of().v.axis,
        face.uv_layout_of().u.axis != face.axis(),
        face.uv_layout_of().v.axis != face.axis(),
{
}

} // verus!
