use bevy::math::{DQuat, DVec3};
use fixed::types::extra::U62;
use fixed::types::I48F16;
use fixed::FixedI128;
use fixframe::astro::frame::{LocalFrame, Pose, Twist, WorldFrame};
use fixframe::math::orientation::Orientation;
use fixframe::math::scalar::{FixOrigin, FixWide};
use fixframe::math::vector::{FixVec3, TypeVec3};
use std::f64::consts::PI;

fn fx(x: f64) -> FixOrigin {
    FixOrigin::from_bits(I48F16::from_num(x).to_bits())
}

fn vec3(x: f64, y: f64, z: f64) -> FixVec3 {
    FixVec3::new(fx(x), fx(y), fx(z))
}

fn wide(x: f64) -> FixWide {
    FixWide::from_bits(FixedI128::<U62>::from_num(x).to_bits())
}

fn orient(q: DQuat) -> Orientation {
    Orientation::new(wide(q.w), wide(q.x), wide(q.y), wide(q.z))
}

fn frame(pos: FixVec3, rot: DQuat, lin: FixVec3, ang: DVec3) -> WorldFrame<DVec3> {
    WorldFrame { pose: Pose { pos, rot: orient(rot) }, twist: Twist { lin, ang } }
}

/// The whole conversion: the linear part by the library, the angular part
/// in floating point.
fn to_local(subject: &WorldFrame<DVec3>, rot: DQuat, viewer: &WorldFrame<DVec3>, viewer_rot: DQuat) -> (LocalFrame<DVec3>, DQuat) {
    let rel_rot = viewer_rot.inverse();
    let rot_local = rel_rot * rot;
    let ang_local = rel_rot * (subject.twist.ang - viewer.twist.ang);
    (subject.to_local(viewer, orient(rot_local), ang_local), rot_local)
}

#[test]
fn identical_frames_give_the_zero_frame() {
    let rot = DQuat::from_xyzw(0.1, -0.2, 0.3, 0.9).normalize();
    let body = frame(vec3(1.0e12, -2.0e12, 3.5), rot, vec3(7.5, 0.0, -1.25), DVec3::new(0.1, 0.2, 0.3));
    let (local, rot_local) = to_local(&body, rot, &body, rot);
    assert_eq!(local.pose.pos, FixVec3::zero());
    assert_eq!(local.twist.lin, FixVec3::zero());
    assert_eq!(local.twist.ang, DVec3::ZERO);
    assert!(rot_local.abs_diff_eq(DQuat::IDENTITY, 1e-15));
    assert_eq!(local.pose.rot, orient(rot_local));
}

#[test]
fn small_offset_far_from_the_origin_is_recovered_exactly() {
    let viewer = frame(vec3(1.0e12, 1.0e12, -1.0e12), DQuat::IDENTITY, FixVec3::zero(), DVec3::ZERO);
    //	one step beside the viewer on z: no 64-bit float holds that position
    let beside = FixOrigin::from_bits(fx(-1.0e12).bits + 1);
    let subject = frame(
        FixVec3::new(fx(1.0e12 + 10.0), fx(1.0e12 - 0.5), beside),
        DQuat::IDENTITY,
        vec3(0.25, 0.0, -3.0),
        DVec3::ZERO,
    );
    let (local, _) = to_local(&subject, DQuat::IDENTITY, &viewer, DQuat::IDENTITY);
    assert_eq!(local.pose.pos, FixVec3::new(fx(10.0), fx(-0.5), FixOrigin::delta()));
    assert_eq!(local.twist.lin, vec3(0.25, 0.0, -3.0));
}

#[test]
fn small_offset_is_turned_into_the_viewers_axes() {
    let turn = DQuat::from_rotation_z(PI / 2.0);
    let viewer = frame(vec3(1.0e12, 1.0e12, 0.0), turn, vec3(100.0, 0.0, 0.0), DVec3::ZERO);
    let subject = frame(vec3(1.0e12, 1.0e12 + 10.0, 0.0), turn, vec3(100.0, 2.0, 0.0), DVec3::new(0.0, 0.0, 1.0));
    let (local, rot_local) = to_local(&subject, turn, &viewer, turn);
    //	the viewer looks along world y: the offset lies on its x axis
    let pos = local.pose.pos;
    assert!((pos.x - fx(10.0)).abs() <= FixOrigin::delta());
    assert!(pos.y.abs() <= FixOrigin::delta());
    assert_eq!(pos.z, FixOrigin::zero());
    let lin = local.twist.lin;
    assert!((lin.x - fx(2.0)).abs() <= FixOrigin::delta());
    assert!(lin.y.abs() <= FixOrigin::delta());
    assert!(rot_local.abs_diff_eq(DQuat::IDENTITY, 1e-15));
    assert!(local.twist.ang.abs_diff_eq(DVec3::new(0.0, 0.0, 1.0), 1e-15));
}

#[test]
fn local_position_is_the_rotated_difference() {
    let turn = DQuat::from_xyzw(0.1, -0.2, 0.3, 0.9).normalize();
    let viewer = frame(vec3(5.0e11, -3.0e11, 2.0e11), turn, vec3(1.0, 2.0, 3.0), DVec3::ZERO);
    let subject = frame(vec3(5.0e11 + 3.0, -3.0e11 + 4.0, 2.0e11 - 12.0), turn, vec3(2.0, 2.0, 2.0), DVec3::ZERO);
    let (local, _) = to_local(&subject, turn, &viewer, turn);
    let basis = orient(turn).inverse();
    assert_eq!(local.pose.pos, vec3(3.0, 4.0, -12.0).rotate(basis));
    assert_eq!(local.twist.lin, vec3(1.0, 0.0, -1.0).rotate(basis));
}

#[test]
fn checked_conversion_is_defined_near_the_viewer() {
    let turn = DQuat::from_rotation_z(PI / 2.0);
    let viewer = frame(vec3(1.0e14, -1.0e14, 0.0), turn, vec3(1.0, 2.0, 3.0), DVec3::ZERO);
    let subject = frame(vec3(1.0e14 - 8.0, -1.0e14 + 1.0, 0.5), turn, vec3(2.0, 2.0, 2.0), DVec3::ONE);
    let local = subject.checked_to_local(&viewer, orient(DQuat::IDENTITY), DVec3::X);
    let local = local.expect("near the viewer");
    let plain = subject.to_local(&viewer, orient(DQuat::IDENTITY), DVec3::X);
    assert_eq!(local.pose.pos, plain.pose.pos);
    assert_eq!(local.twist.lin, plain.twist.lin);
    assert_eq!(local.pose.rot, Orientation::identity());
    assert_eq!(local.twist.ang, DVec3::X);
    assert!((local.pose.pos.x - fx(1.0)).abs() <= FixOrigin::delta());
    assert!((local.pose.pos.y - fx(8.0)).abs() <= FixOrigin::delta());
}

#[test]
fn checked_conversion_refuses_what_is_out_of_range() {
    let here = frame(vec3(0.0, 0.0, 0.0), DQuat::IDENTITY, FixVec3::zero(), DVec3::ZERO);
    //	a viewer whose orientation is no unit quaternion
    let mut stretched = here;
    stretched.pose.rot = Orientation::new(wide(1.01), wide(0.0), wide(0.0), wide(0.0));
    assert!(here.checked_to_local(&stretched, Orientation::identity(), DVec3::ZERO).is_none());
    //	a subject beyond the supported distance
    let far = frame(vec3(1.0e14, 0.0, 0.0), DQuat::IDENTITY, FixVec3::zero(), DVec3::ZERO);
    assert!(far.checked_to_local(&here, Orientation::identity(), DVec3::ZERO).is_none());
    //	an offset that the storage scalar cannot hold
    let opposite = frame(vec3(-1.0e14, 0.0, 0.0), DQuat::IDENTITY, FixVec3::zero(), DVec3::ZERO);
    assert!(far.checked_to_local(&opposite, Orientation::identity(), DVec3::ZERO).is_none());
    //	a linear velocity beyond the supported magnitude
    let fast = frame(vec3(0.0, 0.0, 0.0), DQuat::IDENTITY, vec3(0.0, 1.0e14, 0.0), DVec3::ZERO);
    assert!(fast.checked_to_local(&here, Orientation::identity(), DVec3::ZERO).is_none());
    assert!(here.checked_to_local(&here, Orientation::identity(), DVec3::ZERO).is_some());
}
