use vstd::prelude::*;

verus! {

// The detectors' decisions are taken on order keys: an order key of a scalar
// is an `i32` ordered as the scalars are, which is zero for a zero and
// negative exactly for the values below zero (and for a negative zero).

/// A world axis.
#[derive(Clone, Copy, Debug, PartialEq, Eq, Structural)]
pub enum Axis {
    X,
    Y,
    Z,
}

impl Axis {
    pub open spec fn index_spec(self) -> int {
        match self {
            Axis::X => 0,
            Axis::Y => 1,
            Axis::Z => 2,
        }
    }

    /// Position of the axis in an `[x, y, z]` triple.
    pub fn index(&self) -> (r: usize)
        ensures
            r as int == self.index_spec(),
    {
        match self {
            Axis::X => 0,
            Axis::Y => 1,
            Axis::Z => 2,
        }
    }
}

/// The contact normal of two boxes: the unit vector along `axis`, pointing
/// the positive way when `positive` holds and the negative way otherwise.
#[derive(Clone, Copy, Debug, PartialEq, Eq, Structural)]
pub struct AxisContact {
    pub axis: Axis,
    pub positive: bool,
}

/// Some axis has no positive overlap.
pub open spec fn separated(overlap: Seq<i32>) -> bool {
    overlap[0] <= 0 || overlap[1] <= 0 || overlap[2] <= 0
}

/// Axis `k` holds the smallest overlap, and every axis before it holds a
/// larger one: among equal smallest overlaps the earliest axis wins.
pub open spec fn first_min_axis(overlap: Seq<i32>, k: int) -> bool {
    &&& 0 <= k < 3
    &&& forall|m: int| 0 <= m < 3 ==> overlap[k] <= overlap[m]
    &&& forall|m: int| 0 <= m < k ==> overlap[k] < overlap[m]
}

/// Decides the contact of two boxes from the order keys of their per-axis
/// overlaps (half extents summed, minus the distance of the centers) and of
/// the center delta (center of the second box minus center of the first).
///
/// There is no contact when an overlap is not positive. Otherwise the normal
/// lies along the axis of least overlap (x before y before z among equals)
/// and points the way the delta points on that axis; a zero delta counts as
/// positive. The penetration depth is the overlap on that axis.
pub fn box_contact_axis(overlap: [i32; 3], delta: [i32; 3]) -> (r: Option<AxisContact>)
    ensures
        r.is_none() <==> separated(overlap@),
        r matches Some(c) ==> first_min_axis(overlap@, c.axis.index_spec()) && c.positive == (
        delta@[c.axis.index_spec()] >= 0),
{
    if overlap[0] <= 0 || overlap[1] <= 0 || overlap[2] <= 0 {
        return None;
    }
    let axis = if overlap[0] <= overlap[1] && overlap[0] <= overlap[2] {
        Axis::X
    } else if overlap[1] <= overlap[2] {
        Axis::Y
    } else {
        Axis::Z
    };
    let k = axis.index();
    Some(AxisContact { axis, positive: delta[k] >= 0 })
}

/// The shape of a bounding volume.
#[derive(Clone, Copy, Debug, PartialEq, Eq, Structural)]
pub enum VolumeKind {
    Aabb,
    Sphere,
}

/// One of the three pairwise detectors.
#[derive(Clone, Copy, Debug, PartialEq, Eq, Structural)]
pub enum Detector {
    BoxBox,
    BoxSphere,
    SphereSphere,
}

/// How a pair of volumes is tested: with `detector`, on the operands in the
/// order given or, when `swapped` holds, in reverse order, in which case the
/// normal that comes out is negated.
#[derive(Clone, Copy, Debug, PartialEq, Eq, Structural)]
pub struct Dispatch {
    pub detector: Detector,
    pub swapped: bool,
}

/// Picks the detector for volumes of kinds `a` and `b`. A sphere followed by
/// a box goes to the box-sphere detector with the operands swapped.
pub fn dispatch(a: VolumeKind, b: VolumeKind) -> (r: Dispatch)
    ensures
        r.swapped <==> (a == VolumeKind::Sphere && b == VolumeKind::Aabb),
        r.detector == Detector::BoxBox <==> (a == VolumeKind::Aabb && b == VolumeKind::Aabb),
        r.detector == Detector::SphereSphere <==> (a == VolumeKind::Sphere && b
            == VolumeKind::Sphere),
        r.detector == Detector::BoxSphere <==> a != b,
{
    match (a, b) {
        (VolumeKind::Aabb, VolumeKind::Aabb) => Dispatch { detector: Detector::BoxBox, swapped: false },
        (VolumeKind::Aabb, VolumeKind::Sphere) => Dispatch {
            detector: Detector::BoxSphere,
            swapped: false,
        },
        (VolumeKind::Sphere, VolumeKind::Aabb) => Dispatch {
            detector: Detector::BoxSphere,
            swapped: true,
        },
        (VolumeKind::Sphere, VolumeKind::Sphere) => Dispatch {
            detector: Detector::SphereSphere,
            swapped: false,
        },
    }
}

} // verus!
