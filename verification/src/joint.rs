//! Joints between two rigid bodies, as plain descriptions.
//!
//! A generic joint has six degrees of freedom, three along and three about the axes of its
//! own frame. A description says which of them are locked, where the joint is anchored in
//! each body, and how the free ones are limited or driven. A [`JointUpdate`] says what a
//! control system wants changed on a joint that already exists.

use vstd::prelude::*;
use crate::vector::{Point3, Rotation, Vec3};

verus! {

/// One degree of freedom of a joint, in the joint's own frame.
#[derive(Clone, Copy, Debug, PartialEq, Eq, Structural)]
pub enum JointAxis {
    /// Translation along the first axis of the joint's frame.
    X,
    /// Translation along the second axis.
    Y,
    /// Translation along the third axis.
    Z,
    /// Rotation about the first axis.
    AngX,
    /// Rotation about the second axis.
    AngY,
    /// Rotation about the third axis.
    AngZ,
}

impl JointAxis {
    /// The position of the axis's bit in a [`JointAxesMask`].
    spec fn index(self) -> u8 {
        match self {
            JointAxis::X => 0,
            JointAxis::Y => 1,
            JointAxis::Z => 2,
            JointAxis::AngX => 3,
            JointAxis::AngY => 4,
            JointAxis::AngZ => 5,
        }
    }

    /// Whether the axis is one of the three rotations.
    pub open spec fn spec_is_angular(self) -> bool {
        self is AngX || self is AngY || self is AngZ
    }

    /// Whether the axis is one of the three rotations.
    #[verifier::when_used_as_spec(spec_is_angular)]
    pub fn is_angular(self) -> (r: bool)
        ensures
            r == self.spec_is_angular(),
    {
        match self {
            JointAxis::AngX | JointAxis::AngY | JointAxis::AngZ => true,
            _ => false,
        }
    }
}

/// The value with only bit `index` set.
spec fn bit_at(index: u8) -> u8 {
    1u8 << index
}

proof fn lemma_bits_distinct()
    ensures
        forall|i: u8, j: u8|
            i < 6 && j < 6 ==> ((#[trigger] bit_at(i) & #[trigger] bit_at(j)) != 0 <==> i == j),
{
    assert(forall|i: u8, j: u8| i < 6 && j < 6 ==> (((1u8 << i) & (1u8 << j)) != 0 <==> i == j))
        by (bit_vector);
}

proof fn lemma_bits_of_union(a: u8, b: u8, m: u8)
    ensures
        ((a | b) & m != 0) <==> (a & m != 0 || b & m != 0),
        0u8 & m == 0,
        a < 64 && b < 64 ==> (a | b) < 64,
{
    assert(((a | b) & m != 0) <==> (a & m != 0 || b & m != 0)) by (bit_vector);
    assert(0u8 & m == 0) by (bit_vector);
    assert(a < 64 && b < 64 ==> (a | b) < 64) by (bit_vector);
}

proof fn lemma_bits_decide(a: u8, b: u8)
    requires
        a < 64,
        b < 64,
        forall|i: u8| i < 6 ==> ((a & #[trigger] bit_at(i)) != 0 <==> (b & bit_at(i)) != 0),
    ensures
        a == b,
{
    assert(bit_at(0) == 1 && bit_at(1) == 2 && bit_at(2) == 4 && bit_at(3) == 8 && bit_at(4) == 16
        && bit_at(5) == 32) by (bit_vector);
    assert(((a & bit_at(0)) != 0 <==> (b & bit_at(0)) != 0) && ((a & bit_at(1)) != 0 <==> (b
        & bit_at(1)) != 0) && ((a & bit_at(2)) != 0 <==> (b & bit_at(2)) != 0) && ((a & bit_at(3))
        != 0 <==> (b & bit_at(3)) != 0) && ((a & bit_at(4)) != 0 <==> (b & bit_at(4)) != 0) && ((a
        & bit_at(5)) != 0 <==> (b & bit_at(5)) != 0));
    assert(a == b) by (bit_vector)
        requires
            a < 64,
            b < 64,
            (a & 1 != 0) <==> (b & 1 != 0),
            (a & 2 != 0) <==> (b & 2 != 0),
            (a & 4 != 0) <==> (b & 4 != 0),
            (a & 8 != 0) <==> (b & 8 != 0),
            (a & 16 != 0) <==> (b & 16 != 0),
            (a & 32 != 0) <==> (b & 32 != 0),
    ;
}

/// The bit of `axis` in a mask.
fn bit_of(axis: JointAxis) -> (bit: u8)
    ensures
        bit == bit_at(axis.index()),
        bit < 64,
{
    proof {
        assert(bit_at(0) == 1 && bit_at(1) == 2 && bit_at(2) == 4 && bit_at(3) == 8 && bit_at(4)
            == 16 && bit_at(5) == 32) by (bit_vector);
    }
    match axis {
        JointAxis::X => 1,
        JointAxis::Y => 2,
        JointAxis::Z => 4,
        JointAxis::AngX => 8,
        JointAxis::AngY => 16,
        JointAxis::AngZ => 32,
    }
}

/// A set of degrees of freedom, one bit for each. Masks that hold the same axes are the same
/// mask.
#[derive(Clone, Copy, Debug, PartialEq, Eq, Structural)]
pub struct JointAxesMask {
    bits: u8,
}

impl View for JointAxesMask {
    type V = Set<JointAxis>;

    closed spec fn view(&self) -> Set<JointAxis> {
        Set::new(|axis: JointAxis| self.bits & bit_at(axis.index()) != 0)
    }
}

impl JointAxesMask {
    /// No bit is set but those of the six axes.
    #[verifier::type_invariant]
    spec fn only_axes(self) -> bool {
        self.bits < 64
    }

    /// The mask that holds no axis.
    pub fn empty() -> (mask: JointAxesMask)
        ensures
            mask@ == Set::<JointAxis>::empty(),
    {
        let mask = JointAxesMask { bits: 0 };
        proof {
            assert forall|axis: JointAxis| !mask@.contains(axis) by {
                lemma_bits_of_union(0, 0, bit_at(axis.index()));
            }
            assert(mask@ =~= Set::<JointAxis>::empty());
        }
        mask
    }

    /// The mask that holds `axis` alone.
    pub fn single(axis: JointAxis) -> (mask: JointAxesMask)
        ensures
            mask@ == set![axis],
    {
        let mask = JointAxesMask { bits: bit_of(axis) };
        proof {
            lemma_bits_distinct();
            assert forall|other: JointAxis| mask@.contains(other) <==> other == axis by {
                assert(other.index() < 6 && axis.index() < 6);
                assert(other.index() == axis.index() <==> other == axis);
            }
            assert(mask@ =~= set![axis]);
        }
        mask
    }

    /// The mask that holds the axes of both masks.
    pub fn union(self, other: JointAxesMask) -> (mask: JointAxesMask)
        ensures
            mask@ == self@.union(other@),
    {
        proof {
            use_type_invariant(&self);
            use_type_invariant(&other);
            lemma_bits_of_union(self.bits, other.bits, 0);
        }
        let mask = JointAxesMask { bits: self.bits | other.bits };
        proof {
            assert forall|axis: JointAxis|
                mask@.contains(axis) <==> (self@.contains(axis) || other@.contains(axis)) by {
                lemma_bits_of_union(self.bits, other.bits, bit_at(axis.index()));
            }
            assert(mask@ =~= self@.union(other@));
        }
        mask
    }

    /// The mask with `axis` added.
    pub fn with(self, axis: JointAxis) -> (mask: JointAxesMask)
        ensures
            mask@ == self@.insert(axis),
    {
        let mask = self.union(JointAxesMask::single(axis));
        proof {
            assert(mask@ =~= self@.insert(axis));
        }
        mask
    }

    /// Whether the mask holds `axis`.
    pub fn contains(&self, axis: JointAxis) -> (r: bool)
        ensures
            r == self@.contains(axis),
    {
        self.bits & bit_of(axis) != 0
    }

    /// Whether the two masks hold the same axes, which is to say whether they are the same
    /// mask.
    pub fn same_axes(&self, other: &JointAxesMask) -> (r: bool)
        ensures
            r == (self@ == other@),
            r == (*self == *other),
    {
        proof {
            use_type_invariant(self);
            use_type_invariant(other);
            if self@ == other@ {
                assert forall|i: u8| i < 6 implies ((self.bits & #[trigger] bit_at(i)) != 0 <==> (
                other.bits & bit_at(i)) != 0) by {
                    let axis = if i == 0 {
                        JointAxis::X
                    } else if i == 1 {
                        JointAxis::Y
                    } else if i == 2 {
                        JointAxis::Z
                    } else if i == 3 {
                        JointAxis::AngX
                    } else if i == 4 {
                        JointAxis::AngY
                    } else {
                        JointAxis::AngZ
                    };
                    assert(axis.index() == i);
                    assert(self@.contains(axis) == other@.contains(axis));
                }
                lemma_bits_decide(self.bits, other.bits);
            }
        }
        self.bits == other.bits
    }
}

/// The range in which a free axis may move: lengths for a translation, degrees for a rotation.
#[derive(Clone, Copy, Debug, PartialEq, Eq, Structural)]
pub struct AxisLimits {
    pub axis: JointAxis,
    pub min: i64,
    pub max: i64,
}

/// A motor on one axis that tracks a position and a velocity.
#[derive(Clone, Copy, Debug, PartialEq, Eq, Structural)]
pub struct JointMotor {
    pub axis: JointAxis,
    pub target_pos: i64,
    pub target_vel: i64,
    pub stiffness: i64,
    pub damping: i64,
}

/// A joint between a first and a second body.
#[derive(Clone, Copy, Debug, PartialEq, Eq, Structural)]
pub struct GenericJoint {
    /// The degrees of freedom that the joint takes away.
    pub locked_axes: JointAxesMask,
    /// The first axis of the joint's frame, seen from the first body.
    pub local_axis1: Vec3,
    /// The first axis of the joint's frame, seen from the second body.
    pub local_axis2: Vec3,
    /// The whole frame of the joint in the first body, where it is given; it then stands in
    /// place of the frame that `local_axis1` alone would give.
    pub local_basis1: Option<Rotation>,
    /// Where the joint holds the first body.
    pub local_anchor1: Point3,
    /// Where the joint holds the second body.
    pub local_anchor2: Point3,
    /// The range of the one translation that is limited, if any.
    pub linear_limits: Option<AxisLimits>,
    /// The range of the one rotation that is limited, if any.
    pub angular_limits: Option<AxisLimits>,
    /// The motor of the joint, if it has one.
    pub motor: Option<JointMotor>,
    /// Whether the two bodies may still collide with each other.
    pub contacts_enabled: bool,
}

impl GenericJoint {
    /// Whether the joint takes the degree of freedom `axis` away.
    pub open spec fn is_locked(self, axis: JointAxis) -> bool {
        self.locked_axes@.contains(axis)
    }

    /// Whether the joint leaves the degree of freedom `axis` to the bodies.
    pub open spec fn is_free(self, axis: JointAxis) -> bool {
        !self.locked_axes@.contains(axis)
    }

    /// Whether the joint leaves `axis` free; the same as [`Self::is_free`], computed.
    pub fn leaves_free(&self, axis: JointAxis) -> (r: bool)
        ensures
            r == self.is_free(axis),
    {
        !self.locked_axes.contains(axis)
    }
}

/// A velocity for the motor of one axis, and the factor by which the motor pulls toward it.
#[derive(Clone, Copy, Debug, PartialEq, Eq, Structural)]
pub struct MotorVelocity {
    pub axis: JointAxis,
    pub target_vel: i64,
    pub factor: i64,
}

/// A position for the motor of one axis, and the gains with which the motor tracks it.
#[derive(Clone, Copy, Debug, PartialEq, Eq, Structural)]
pub struct MotorPosition {
    pub axis: JointAxis,
    pub target_pos: i64,
    pub stiffness: i64,
    pub damping: i64,
}

/// What is to change on one joint. A field that is `None` leaves its part of the joint as it
/// was last set.
#[derive(Clone, Copy, Debug, PartialEq, Eq, Structural)]
pub struct JointUpdate {
    pub motor_velocity: Option<MotorVelocity>,
    pub motor_position: Option<MotorPosition>,
    pub local_anchor1: Option<Point3>,
    pub local_anchor2: Option<Point3>,
}

impl JointUpdate {
    /// The update that changes nothing.
    pub open spec fn spec_none() -> JointUpdate {
        JointUpdate {
            motor_velocity: None,
            motor_position: None,
            local_anchor1: None,
            local_anchor2: None,
        }
    }

    /// Whether the update changes nothing.
    pub open spec fn spec_is_none(&self) -> bool {
        *self == Self::spec_none()
    }

    /// What holds after this update and then `later`: each part as `later` sets it, or else
    /// as this update sets it.
    pub open spec fn spec_followed_by(self, later: JointUpdate) -> JointUpdate {
        JointUpdate {
            motor_velocity: if later.motor_velocity is Some {
                later.motor_velocity
            } else {
                self.motor_velocity
            },
            motor_position: if later.motor_position is Some {
                later.motor_position
            } else {
                self.motor_position
            },
            local_anchor1: if later.local_anchor1 is Some {
                later.local_anchor1
            } else {
                self.local_anchor1
            },
            local_anchor2: if later.local_anchor2 is Some {
                later.local_anchor2
            } else {
                self.local_anchor2
            },
        }
    }

    /// The update that changes nothing.
    #[verifier::when_used_as_spec(spec_none)]
    pub fn none() -> (update: JointUpdate)
        ensures
            update == Self::spec_none(),
    {
        JointUpdate {
            motor_velocity: None,
            motor_position: None,
            local_anchor1: None,
            local_anchor2: None,
        }
    }

    /// Whether the update changes nothing.
    #[verifier::when_used_as_spec(spec_is_none)]
    pub fn is_none(&self) -> (r: bool)
        ensures
            r == self.spec_is_none(),
    {
        self.motor_velocity.is_none() && self.motor_position.is_none()
            && self.local_anchor1.is_none() && self.local_anchor2.is_none()
    }

    /// This update and then `later`, as one update.
    #[verifier::when_used_as_spec(spec_followed_by)]
    pub fn followed_by(self, later: JointUpdate) -> (both: JointUpdate)
        ensures
            both == self.spec_followed_by(later),
    {
        JointUpdate {
            motor_velocity: if later.motor_velocity.is_some() {
                later.motor_velocity
            } else {
                self.motor_velocity
            },
            motor_position: if later.motor_position.is_some() {
                later.motor_position
            } else {
                self.motor_position
            },
            local_anchor1: if later.local_anchor1.is_some() {
                later.local_anchor1
            } else {
                self.local_anchor1
            },
            local_anchor2: if later.local_anchor2.is_some() {
                later.local_anchor2
            } else {
                self.local_anchor2
            },
        }
    }
}

/// What a joint was last told, after `count` more rounds of the same `update`.
pub open spec fn after_rounds(told: JointUpdate, update: JointUpdate, count: nat) -> JointUpdate
    decreases count,
{
    if count == 0 {
        told
    } else {
        after_rounds(told, update, (count - 1) as nat).spec_followed_by(update)
    }
}

/// An update that changes nothing is neutral, and updates may be grouped at will.
pub proof fn lemma_followed_by_laws(a: JointUpdate, b: JointUpdate, c: JointUpdate)
    ensures
        a.spec_followed_by(JointUpdate::spec_none()) == a,
        JointUpdate::spec_none().spec_followed_by(a) == a,
        a.spec_followed_by(b).spec_followed_by(c) == a.spec_followed_by(b.spec_followed_by(c)),
        a.spec_followed_by(a) == a,
{
}

/// However often an update that changes nothing is applied, the joint stays as it was last
/// told.
pub proof fn lemma_rounds_of_none(told: JointUpdate, count: nat)
    ensures
        after_rounds(told, JointUpdate::spec_none(), count) == told,
    decreases count,
{
    if count > 0 {
        lemma_rounds_of_none(told, (count - 1) as nat);
    }
}

/// Applying the same update again changes nothing more: one round is as good as many.
pub proof fn lemma_rounds_idempotent(told: JointUpdate, update: JointUpdate, count: nat)
    requires
        count >= 1,
    ensures
        after_rounds(told, update, count) == told.spec_followed_by(update),
    decreases count,
{
    if count > 1 {
        lemma_rounds_idempotent(told, update, (count - 1) as nat);
    } else {
        assert(after_rounds(told, update, 0) == told);
    }
}

} // verus!
