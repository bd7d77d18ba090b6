use cg_coop::narrow::{box_contact_axis, dispatch, Axis, AxisContact, Detector, VolumeKind};

/// Order key of a finite `f32`: ordered as the floats are, zero for +0.0,
/// negative exactly below zero.
fn key(x: f32) -> i32 {
    let b = x.to_bits() as i32;
    b ^ ((((b >> 31) as u32) >> 1) as i32)
}

fn keys(v: [f32; 3]) -> [i32; 3] {
    [key(v[0]), key(v[1]), key(v[2])]
}

/// Per-axis overlap and center delta of two boxes given by min and max.
fn overlap_and_delta(a: ([f32; 3], [f32; 3]), b: ([f32; 3], [f32; 3])) -> ([f32; 3], [f32; 3]) {
    let mut overlap = [0.0f32; 3];
    let mut delta = [0.0f32; 3];
    for i in 0..3 {
        let ca = (a.0[i] + a.1[i]) * 0.5;
        let cb = (b.0[i] + b.1[i]) * 0.5;
        let ha = (a.1[i] - a.0[i]) * 0.5;
        let hb = (b.1[i] - b.0[i]) * 0.5;
        delta[i] = cb - ca;
        overlap[i] = ha + hb - delta[i].abs();
    }
    (overlap, delta)
}

#[test]
fn keys_follow_float_order() {
    assert_eq!(key(0.0), 0);
    assert!(key(-0.0) < 0);
    assert!(key(-1.0) < key(-0.5));
    assert!(key(0.25) < key(0.5));
    assert!(key(1.0e-30) > 0);
}

#[test]
fn equal_overlaps_resolve_to_x() {
    let (overlap, delta) = overlap_and_delta(([0.0, 0.0, 0.0], [1.0, 1.0, 1.0]), ([0.5, 0.5, 0.5], [1.5, 1.5, 1.5]));
    assert_eq!(overlap, [0.5, 0.5, 0.5]);
    let c = box_contact_axis(keys(overlap), keys(delta));
    assert_eq!(c, Some(AxisContact { axis: Axis::X, positive: true }));
    assert_eq!(overlap[c.unwrap().axis.index()], 0.5);
}

#[test]
fn boxes_apart_on_one_axis_have_no_contact() {
    let (overlap, delta) = overlap_and_delta(([0.0, 0.0, 0.0], [1.0, 1.0, 1.0]), ([0.5, 2.0, 0.5], [1.5, 3.0, 1.5]));
    assert!(overlap[1] < 0.0);
    assert_eq!(box_contact_axis(keys(overlap), keys(delta)), None);
}

#[test]
fn touching_boxes_have_no_contact() {
    let (overlap, delta) = overlap_and_delta(([0.0, 0.0, 0.0], [1.0, 1.0, 1.0]), ([0.0, 0.0, 1.0], [1.0, 1.0, 2.0]));
    assert_eq!(overlap[2], 0.0);
    assert_eq!(box_contact_axis(keys(overlap), keys(delta)), None);
    assert_eq!(box_contact_axis([5, 5, -1], [0, 0, 0]), None);
    assert_eq!(box_contact_axis([0, 5, 5], [0, 0, 0]), None);
}

#[test]
fn least_overlap_axis_and_sign() {
    // B sits mostly below A: least overlap on y, delta negative there.
    let (overlap, delta) = overlap_and_delta(([0.0, 0.0, 0.0], [2.0, 2.0, 2.0]), ([0.0, -1.5, 0.0], [2.0, 0.25, 2.0]));
    let c = box_contact_axis(keys(overlap), keys(delta)).unwrap();
    assert_eq!(c, AxisContact { axis: Axis::Y, positive: false });
    assert_eq!(overlap[1], 0.25);
}

#[test]
fn ties_go_to_the_earlier_axis() {
    assert_eq!(box_contact_axis([3, 2, 2], [1, 1, 1]), Some(AxisContact { axis: Axis::Y, positive: true }));
    assert_eq!(box_contact_axis([3, 3, 2], [1, 1, -1]), Some(AxisContact { axis: Axis::Z, positive: false }));
    assert_eq!(box_contact_axis([2, 3, 2], [-1, 1, 1]), Some(AxisContact { axis: Axis::X, positive: false }));
    assert_eq!(box_contact_axis([4, 4, 4], [0, -1, -1]), Some(AxisContact { axis: Axis::X, positive: true }));
}

#[test]
fn dispatch_reuses_box_sphere_swapped() {
    let d = dispatch(VolumeKind::Sphere, VolumeKind::Aabb);
    assert_eq!(d.detector, Detector::BoxSphere);
    assert!(d.swapped);
    let d = dispatch(VolumeKind::Aabb, VolumeKind::Sphere);
    assert_eq!(d.detector, Detector::BoxSphere);
    assert!(!d.swapped);
    assert_eq!(dispatch(VolumeKind::Aabb, VolumeKind::Aabb).detector, Detector::BoxBox);
    assert_eq!(dispatch(VolumeKind::Sphere, VolumeKind::Sphere).detector, Detector::SphereSphere);
    assert!(!dispatch(VolumeKind::Sphere, VolumeKind::Sphere).swapped);
}
