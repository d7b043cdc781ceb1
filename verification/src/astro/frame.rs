//! Poses, twists and the conversion from the world frame to the frame of a
//! viewer.

use crate::math::bounds::lemma_conjugate_is_unit;
use crate::math::laws::{lemma_rotate_identity, lemma_rotate_zero};
use crate::math::length::{lemma_length_kept, length_tolerance, unit_defect, wide_one_squared};
use crate::math::model::{rotate_fits, rotate_model, RawQuat, RawVec3};
use crate::math::orientation::{lemma_unit_is_invertible, Orientation};
use crate::math::range::lemma_rotate_in_range;
use crate::math::scalar::{MAX_COORD, STORAGE_ONE};
use crate::math::vector::{FixVec3, TypeVec3};
use vstd::prelude::*;

verus! {

/// The placement of a rigid body: a position and an orientation.
#[derive(Clone, Copy, Debug)]
pub struct Pose<P, R> {
    pub pos: P,
    pub rot: R,
}

/// The rate of change of a pose: a linear and an angular velocity.
#[derive(Clone, Copy, Debug, Default)]
pub struct Twist<L, A> {
    pub lin: L,
    pub ang: A,
}

/// Pose and twist of a body in absolute world coordinates. Position and
/// linear velocity are vectors of storage scalars. `A` is the representation
/// of the angular velocity, which this crate carries and never reads.
#[derive(Clone, Copy, Debug)]
pub struct WorldFrame<A> {
    pub pose: Pose<FixVec3, Orientation>,
    pub twist: Twist<FixVec3, A>,
}

/// Pose and twist of a body relative to a viewer: small in magnitude
/// wherever the body is near the viewer, however far both are from the world
/// origin.
#[derive(Clone, Copy, Debug)]
pub struct LocalFrame<A> {
    pub pose: Pose<FixVec3, Orientation>,
    pub twist: Twist<FixVec3, A>,
}

/// What a viewer at `viewer`, oriented by `viewer_rot`, sees of the world
/// vector `subject`: the exact difference of the two, rotated by the inverse
/// of the viewer's orientation.
pub open spec fn relative_to(subject: RawVec3, viewer: RawVec3, viewer_rot: RawQuat) -> RawVec3 {
    rotate_model(subject.minus(viewer), viewer_rot.conjugate(), STORAGE_ONE as int)
}

/// True when [`relative_to`] is representable: the difference is a vector
/// of storage scalars, and so is its rotation.
pub open spec fn relative_fits(subject: RawVec3, viewer: RawVec3, viewer_rot: RawQuat) -> bool {
    &&& FixVec3::representable(subject.minus(viewer))
    &&& rotate_fits(
        subject.minus(viewer),
        viewer_rot.conjugate(),
        STORAGE_ONE as int,
        i64::MIN as int,
        i64::MAX as int,
    )
}

impl<A> WorldFrame<A> {
    /// True when the linear part of this frame can be expressed relative to
    /// `viewer`.
    pub open spec fn localizable(self, viewer: WorldFrame<A>) -> bool {
        &&& viewer.pose.rot.invertible()
        &&& relative_fits(self.pose.pos@, viewer.pose.pos@, viewer.pose.rot@)
        &&& relative_fits(self.twist.lin@, viewer.twist.lin@, viewer.pose.rot@)
    }

    /// True when the viewer's orientation is a unit quaternion and this
    /// frame is near the viewer: no coordinate of the offset in position or
    /// in linear velocity exceeds
    /// [`MAX_COORD`](crate::math::scalar::MAX_COORD) in raw magnitude.
    pub open spec fn near(self, viewer: WorldFrame<A>) -> bool {
        &&& viewer.pose.rot@.is_unit()
        &&& self.pose.pos@.minus(viewer.pose.pos@).within(-(MAX_COORD as int), MAX_COORD as int)
        &&& self.twist.lin@.minus(viewer.twist.lin@).within(-(MAX_COORD as int), MAX_COORD as int)
    }

    /// This frame as `viewer` sees it, where it is [`near`](Self::near) the
    /// viewer; `None` otherwise. Near the viewer the conversion never
    /// overflows, however far both are from the world origin.
    pub fn checked_to_local(&self, viewer: &WorldFrame<A>, rot: Orientation, ang: A) -> (r: Option<
        LocalFrame<A>,
    >)
        ensures
            r.is_some() == self.near(*viewer),
            r is Some ==> {
                &&& r.unwrap().pose.pos@ == relative_to(
                    self.pose.pos@,
                    viewer.pose.pos@,
                    viewer.pose.rot@,
                )
                &&& r.unwrap().twist.lin@ == relative_to(
                    self.twist.lin@,
                    viewer.twist.lin@,
                    viewer.pose.rot@,
                )
                &&& r.unwrap().pose.rot == rot
                &&& r.unwrap().twist.ang == ang
            },
    {
        if !viewer.pose.rot.is_normalized() {
            return None;
        }
        let rel_pos = self.pose.pos.checked_sub(viewer.pose.pos);
        let rel_v = self.twist.lin.checked_sub(viewer.twist.lin);
        match (rel_pos, rel_v) {
            (Some(p), Some(v)) => {
                if p.is_in_range() && v.is_in_range() {
                    proof {
                        lemma_local_of_near_body(*self, *viewer, MAX_COORD as int);
                    }
                    Some(self.to_local(viewer, rot, ang))
                } else {
                    None
                }
            },
            _ => None,
        }
    }

    /// This frame as `viewer` sees it. Position and linear velocity are
    /// subtracted exactly in the storage scalar, then rotated by the inverse
    /// of the viewer's orientation. The orientation `rot` and the angular
    /// velocity `ang` of the body relative to the viewer are the caller's:
    /// orientations are composed and angular velocities turned outside the
    /// fixed-point scalars, and both are put into the result as they are.
    pub fn to_local(&self, viewer: &WorldFrame<A>, rot: Orientation, ang: A) -> (r: LocalFrame<A>)
        requires
            self.localizable(*viewer),
        ensures
            r.pose.pos@ == relative_to(self.pose.pos@, viewer.pose.pos@, viewer.pose.rot@),
            r.twist.lin@ == relative_to(self.twist.lin@, viewer.twist.lin@, viewer.pose.rot@),
            r.pose.rot == rot,
            r.twist.ang == ang,
    {
        let rel_pos = self.pose.pos - viewer.pose.pos;
        let rel_rot = viewer.pose.rot.inverse();
        let pos_local = rel_pos.rotate(rel_rot);
        let local_pose = Pose { pos: pos_local, rot };

        let rel_v = self.twist.lin - viewer.twist.lin;
        let local_twist = Twist { lin: rel_v.rotate(rel_rot), ang };

        LocalFrame { pose: local_pose, twist: local_twist }
    }
}

/// A body seen from itself is at rest at the origin: where subject and
/// viewer have the same position and the same linear velocity, the
/// conversion is defined and gives the zero position and the zero linear
/// velocity, whatever the viewer's orientation.
pub proof fn lemma_local_to_itself<A>(subject: WorldFrame<A>, viewer: WorldFrame<A>)
    requires
        subject.pose.pos == viewer.pose.pos,
        subject.twist.lin == viewer.twist.lin,
        viewer.pose.rot.invertible(),
    ensures
        subject.localizable(viewer),
        relative_to(subject.pose.pos@, viewer.pose.pos@, viewer.pose.rot@) == RawVec3::zero(),
        relative_to(subject.twist.lin@, viewer.twist.lin@, viewer.pose.rot@) == RawVec3::zero(),
{
    lemma_rotate_zero(viewer.pose.rot@.conjugate());
    assert(subject.pose.pos@.minus(viewer.pose.pos@) == RawVec3::zero());
    assert(subject.twist.lin@.minus(viewer.twist.lin@) == RawVec3::zero());
}

/// What a viewer sees depends on the offset alone: moving subject and
/// viewer by the same vector `d`, however far, changes nothing.
pub proof fn lemma_relative_translation(s: RawVec3, v: RawVec3, d: RawVec3, q: RawQuat)
    ensures
        relative_to(s.plus(d), v.plus(d), q) == relative_to(s, v, q),
        relative_fits(s.plus(d), v.plus(d), q) == relative_fits(s, v, q),
{
    assert(s.plus(d).minus(v.plus(d)) == s.minus(v));
}

/// A viewer that is not turned sees the exact offset: with the identity as
/// the viewer's orientation the conversion is the subtraction, to the last
/// raw step, at every distance from the origin at which the offset is a
/// vector of storage scalars.
pub proof fn lemma_relative_unturned(s: FixVec3, v: FixVec3)
    requires
        FixVec3::representable(s@.minus(v@)),
    ensures
        relative_fits(s@, v@, RawQuat::identity()),
        relative_to(s@, v@, RawQuat::identity()) == s@.minus(v@),
{
    let d = FixVec3::from_raw(s@.minus(v@));
    assert(d@ == s@.minus(v@));
    lemma_rotate_identity(d);
    assert(RawQuat::identity().conjugate() == RawQuat::identity());
}

/// A near body is seen at a small position. Where no coordinate of the
/// offset between subject and viewer, in position and in linear velocity,
/// has a raw magnitude above `m`, with `m` at most
/// [`MAX_COORD`](crate::math::scalar::MAX_COORD), and the viewer's
/// orientation is a unit quaternion, the conversion is defined and four
/// times a coordinate of the result has a raw magnitude of at most
/// `7 m + 4`: however large the world coordinates of the two are.
pub proof fn lemma_local_of_near_body<A>(subject: WorldFrame<A>, viewer: WorldFrame<A>, m: int)
    requires
        viewer.pose.rot@.is_unit(),
        subject.pose.pos@.minus(viewer.pose.pos@).within(-m, m),
        subject.twist.lin@.minus(viewer.twist.lin@).within(-m, m),
        m <= MAX_COORD,
    ensures
        subject.localizable(viewer),
        relative_to(subject.pose.pos@, viewer.pose.pos@, viewer.pose.rot@).times(4).within(
            -7 * m - 4,
            7 * m,
        ),
        relative_to(subject.twist.lin@, viewer.twist.lin@, viewer.pose.rot@).times(4).within(
            -7 * m - 4,
            7 * m,
        ),
{
    let q = viewer.pose.rot@;
    lemma_conjugate_is_unit(q);
    lemma_unit_is_invertible(viewer.pose.rot);
    lemma_rotate_in_range(subject.pose.pos@.minus(viewer.pose.pos@), q.conjugate(), m);
    lemma_rotate_in_range(subject.twist.lin@.minus(viewer.twist.lin@), q.conjugate(), m);
}

/// A viewer sees an offset at its true length. Where the viewer's
/// orientation is a unit quaternion, the squared norm of what the viewer
/// sees of an offset, taken exactly over the raw values, lies within
/// [`length_tolerance`] of that of the offset itself, whose coordinates
/// have raw magnitude at most `m`: what is lost is in proportion to the
/// offset, not to the distance from the world origin.
pub proof fn lemma_local_length_kept(s: RawVec3, v: RawVec3, q: RawQuat, m: int)
    requires
        q.is_unit(),
        s.minus(v).within(-m, m),
    ensures
        -length_tolerance(m, unit_defect(q)) <= wide_one_squared() * (relative_to(s, v, q).norm2()
            - s.minus(v).norm2()) <= length_tolerance(m, unit_defect(q)),
{
    lemma_conjugate_is_unit(q);
    lemma_length_kept(s.minus(v), q.conjugate(), m);
    assert(unit_defect(q.conjugate()) == unit_defect(q));
}

} // verus!
