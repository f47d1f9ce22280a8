//! Uprights and wheels: where they stand and what a wheel position is made of.

use vstd::prelude::*;
use crate::car::{wheel_anchor, wheel_is_front, wheel_is_left, CarSpecs, Upright, WHEEL_COUNT};
use crate::car::dynamics::{UprightJoint, WheelJoint};
use crate::car::dynamics::suspension::{
    is_upright_chasis_joint, is_upright_wheel_joint, make_front_upright_chasis_joint,
    make_upright_wheel_joint,
};
use crate::fixed::mirrored;
use crate::joint::{GenericJoint, JointAxis};
use crate::plugins::{CollisionGroups, GROUP_SURFACE, GROUP_WHEEL};
use crate::vector::{Point3, Rotation, Vec3, Vector};

verus! {

/// A quarter of a turn, in degrees.
pub const QUARTER_TURN: i32 = 90_000;

/// Where an upright stands: at its mount on the body, moved sideways by the signed offset.
pub open spec fn upright_translation(
    upright_offset_relative: int,
    body_pos: Vector,
    anchor: Vector,
) -> Vector {
    body_pos.plus(anchor).shifted_x(upright_offset_relative)
}

/// Where a wheel stands: beside its upright, `wheel_offset_abs` further out.
pub open spec fn wheel_translation(
    is_left: bool,
    wheel_offset_abs: int,
    upright: Vector,
) -> Vector {
    upright.shifted_x(mirrored(is_left, wheel_offset_abs))
}

/// How a wheel is turned: a quarter about the z axis, one way on the left and the other way
/// on the right, so that its axle lies across the car on either side.
pub open spec fn wheel_rotation(is_left: bool) -> Rotation {
    Rotation::EulerXyz {
        x: 0,
        y: 0,
        z: if is_left {
            90_000i32
        } else {
            -90_000i32
        },
    }
}

/// Where the upright and the wheel of one wheel position stand, and how they are turned:
/// first the upright, then the wheel.
pub fn get_suspension_geometry(
    is_left: bool,
    upright_offset_relative: i32,
    wheel_offset_abs: i32,
    body_pos: Vec3,
    anchor: Vec3,
) -> (poses: ((Point3, Rotation), (Point3, Rotation)))
    ensures
        poses.0.0@ == upright_translation(upright_offset_relative as int, body_pos@, anchor@),
        poses.0.1 == Rotation::Identity,
        poses.1.0@ == wheel_translation(is_left, wheel_offset_abs as int, poses.0.0@),
        poses.1.1 == wheel_rotation(is_left),
        poses.1.0.x - poses.0.0.x == if is_left {
            -wheel_offset_abs
        } else {
            wheel_offset_abs as int
        },
{
    let upright_translation = Point3::new(
        upright_offset_relative as i64 + body_pos.x as i64 + anchor.x as i64,
        body_pos.y as i64 + anchor.y as i64,
        body_pos.z as i64 + anchor.z as i64,
    );
    let upright_rotation = Rotation::Identity;

    let (wheel_pos_x, wheel_rot_z): (i64, i32) = if is_left {
        (upright_translation.x - wheel_offset_abs as i64, QUARTER_TURN)
    } else {
        (upright_translation.x + wheel_offset_abs as i64, -QUARTER_TURN)
    };
    let wheel_translation = Point3::new(wheel_pos_x, upright_translation.y, upright_translation.z);
    let wheel_rotation = Rotation::EulerXyz { x: 0, y: 0, z: wheel_rot_z };

    ((upright_translation, upright_rotation), (wheel_translation, wheel_rotation))
}

/// The wheel stands `wheel_offset_abs` from its upright, to the left on the left-hand side
/// and to the right on the right-hand side, at the upright's height and depth.
pub proof fn lemma_wheel_beside_upright(is_left: bool, wheel_offset_abs: int, upright: Vector)
    ensures
        wheel_translation(is_left, wheel_offset_abs, upright).x - upright.x == if is_left {
            -wheel_offset_abs
        } else {
            wheel_offset_abs
        },
        wheel_translation(is_left, wheel_offset_abs, upright).y == upright.y,
        wheel_translation(is_left, wheel_offset_abs, upright).z == upright.z,
        wheel_translation(true, wheel_offset_abs, upright).x - upright.x == -(wheel_translation(
            false,
            wheel_offset_abs,
            upright,
        ).x - upright.x),
{
}

/// The two sides of a car mirror each other: with the mount and the offset of the upright
/// reflected, the upright and the wheel on the left stand at the reflections of where they
/// stand on the right.
pub proof fn lemma_geometry_mirror(
    upright_offset: int,
    wheel_offset_abs: int,
    body_pos: Vector,
    anchor: Vector,
)
    ensures
        upright_translation(-upright_offset, body_pos.reflected(), anchor.reflected())
            == upright_translation(upright_offset, body_pos, anchor).reflected(),
        wheel_translation(
            true,
            wheel_offset_abs,
            upright_translation(-upright_offset, body_pos.reflected(), anchor.reflected()),
        ) == wheel_translation(
            false,
            wheel_offset_abs,
            upright_translation(upright_offset, body_pos, anchor),
        ).reflected(),
{
}

/// A vector that is fixed to a wheel, as it lies in the car once the wheel is turned to its
/// side: the quarter turn about the z axis lays `x` on `y` and `y` against `x` on the
/// left, and the other way round on the right.
pub open spec fn turned_with_wheel(is_left: bool, v: Vector) -> Vector {
    if is_left {
        Vector { x: -v.y, y: v.x, z: v.z }
    } else {
        Vector { x: v.y, y: -v.x, z: v.z }
    }
}

/// Where upright and wheel are laid out with the offsets that their joints are made with,
/// they stand as the joints hold them: the two anchors of each joint are one point of the
/// car. The wheel offset is to be even, so that its half is whole.
pub proof fn lemma_joints_hold_at_rest(
    is_left: bool,
    upright_offset_relative: int,
    wheel_offset_abs: int,
    body_pos: Vector,
    anchor: Vector,
    upright_joint: GenericJoint,
    wheel_joint: GenericJoint,
    lowest: int,
    highest: int,
    lock_direction: bool,
)
    requires
        wheel_offset_abs % 2 == 0,
        is_upright_chasis_joint(
            upright_joint,
            anchor,
            upright_offset_relative,
            lowest,
            highest,
            lock_direction,
        ),
        is_upright_wheel_joint(wheel_joint, wheel_offset_abs, is_left),
    ensures
        ({
            let upright = upright_translation(upright_offset_relative, body_pos, anchor);
            let wheel = wheel_translation(is_left, wheel_offset_abs, upright);
            &&& body_pos.plus(upright_joint.local_anchor1@) == upright.plus(
                upright_joint.local_anchor2@,
            )
            &&& upright.plus(wheel_joint.local_anchor1@) == wheel.plus(
                turned_with_wheel(is_left, wheel_joint.local_anchor2@),
            )
        }),
{
}

/// How far below its rest an upright may travel: one whole unit.
pub const SUSPENSION_LOWEST: i32 = -1000;

/// How far above its rest an upright may travel: not at all.
pub const SUSPENSION_HIGHEST: i32 = 0;

/// All that one wheel position of a car is made of.
#[derive(Clone, Copy, Debug, PartialEq, Eq, Structural)]
pub struct WheelAssembly {
    /// The number of the wheel position: 0 and 1 in front, 2 and 3 behind, the even ones on
    /// the left.
    pub wheel_num: usize,
    /// The tag of the upright.
    pub upright: Upright,
    pub upright_translation: Point3,
    pub upright_rotation: Rotation,
    pub upright_mass: i32,
    pub wheel_translation: Point3,
    pub wheel_rotation: Rotation,
    pub wheel_mass: i32,
    /// The wheel belongs to the wheels and collides with the ground alone.
    pub wheel_groups: CollisionGroups,
    /// The joint that holds the wheel to the upright.
    pub wheel_joint: GenericJoint,
    pub wheel_joint_tag: WheelJoint,
    /// The joint that holds the upright to the body.
    pub upright_joint: GenericJoint,
    pub upright_joint_tag: UprightJoint,
}

/// Whether `assembly` is the wheel position `wheel_num` of a car with these measures, whose
/// body stands at `car_translation` and carries the upright at `anchor`.
pub open spec fn is_wheel_assembly(
    assembly: WheelAssembly,
    car_translation: Vector,
    car_specs: CarSpecs,
    anchor: Vector,
    wheel_num: int,
) -> bool {
    let is_front = wheel_is_front(wheel_num);
    let is_left = wheel_is_left(wheel_num);
    &&& assembly.wheel_num == wheel_num
    &&& assembly.upright == (Upright { is_left, is_front })
    &&& assembly.wheel_joint_tag == (WheelJoint { is_left, is_front })
    &&& assembly.upright_joint_tag == (UprightJoint { is_left, is_front })
    &&& assembly.upright_translation@ == upright_translation(0, car_translation, anchor)
    &&& assembly.upright_rotation == Rotation::Identity
    &&& assembly.upright_mass == car_specs.upright_mass
    &&& assembly.wheel_translation@ == wheel_translation(
        is_left,
        car_specs.wheel_offset as int,
        assembly.upright_translation@,
    )
    &&& assembly.wheel_rotation == wheel_rotation(is_left)
    &&& assembly.wheel_mass == car_specs.wheel_mass
    &&& assembly.wheel_groups == (CollisionGroups {
        memberships: GROUP_WHEEL,
        filters: GROUP_SURFACE,
    })
    &&& is_upright_wheel_joint(assembly.wheel_joint, car_specs.wheel_offset as int, is_left)
    &&& is_upright_chasis_joint(
        assembly.upright_joint,
        anchor,
        0,
        SUSPENSION_LOWEST as int,
        SUSPENSION_HIGHEST as int,
        !is_front,
    )
}

/// Lays out the wheel position `wheel_num` of a car: the upright at its mount, the wheel
/// `wheel_offset` further out, which is where the joint between the two holds it, that joint
/// and the joint between upright and body. Only the uprights of the front axle steer.
pub fn spawn_wheel(
    car_translation: Vec3,
    car_specs: &CarSpecs,
    anchor: Vec3,
    wheel_num: usize,
) -> (assembly: WheelAssembly)
    ensures
        is_wheel_assembly(assembly, car_translation@, *car_specs, anchor@, wheel_num as int),
{
    let is_front = wheel_num / 2 == 0;
    let is_left = wheel_num % 2 == 0;

    let ((upright_translation, upright_rotation), (wheel_translation, wheel_rotation)) =
        get_suspension_geometry(is_left, 0, car_specs.wheel_offset, car_translation, anchor);

    let wheel_joint = make_upright_wheel_joint(car_specs.wheel_offset, is_left);
    let upright_joint = make_front_upright_chasis_joint(
        anchor,
        0,
        [SUSPENSION_LOWEST, SUSPENSION_HIGHEST],
        !is_front,
    );

    WheelAssembly {
        wheel_num,
        upright: Upright { is_left, is_front },
        upright_translation,
        upright_rotation,
        upright_mass: car_specs.upright_mass,
        wheel_translation,
        wheel_rotation,
        wheel_mass: car_specs.wheel_mass,
        wheel_groups: CollisionGroups { memberships: GROUP_WHEEL, filters: GROUP_SURFACE },
        wheel_joint,
        wheel_joint_tag: WheelJoint { is_left, is_front },
        upright_joint,
        upright_joint_tag: UprightJoint { is_left, is_front },
    }
}

/// Lays out the four wheel positions of a car whose body stands at `car_translation`, each
/// at its mount.
pub fn spawn_wheels(car_translation: Vec3, car_specs: &CarSpecs) -> (assemblies: Vec<WheelAssembly>)
    ensures
        assemblies@.len() == WHEEL_COUNT,
        forall|i: int|
            0 <= i < WHEEL_COUNT ==> is_wheel_assembly(
                #[trigger] assemblies@[i],
                car_translation@,
                *car_specs,
                wheel_anchor(*car_specs, i),
                i,
            ),
{
    let anchors = car_specs.wheel_anchors();
    let mut assemblies: Vec<WheelAssembly> = Vec::new();
    let mut i: usize = 0;
    while i < WHEEL_COUNT
        invariant
            i <= WHEEL_COUNT == 4,
            assemblies@.len() == i,
            forall|k: int| 0 <= k < 4 ==> (#[trigger] anchors[k])@ == wheel_anchor(*car_specs, k),
            forall|k: int|
                0 <= k < i ==> is_wheel_assembly(
                    #[trigger] assemblies@[k],
                    car_translation@,
                    *car_specs,
                    wheel_anchor(*car_specs, k),
                    k,
                ),
        decreases WHEEL_COUNT - i,
    {
        let assembly = spawn_wheel(car_translation, car_specs, anchors[i], i);
        assemblies.push(assembly);
        i += 1;
    }
    assemblies
}

/// Of every wheel position: the upright, the joint of the wheel and the joint of the upright
/// carry the same tag; the upright stands at its mount; the wheel stands `wheel_offset`
/// beside its upright, to the left on the left-hand side and to the right on the right-hand
/// side, at the upright's height and depth; the wheel spins and does nothing else; and the
/// upright steers exactly if it belongs to the front axle.
pub proof fn lemma_wheel_assembly_consistent(
    assembly: WheelAssembly,
    car_translation: Vector,
    car_specs: CarSpecs,
    anchor: Vector,
    wheel_num: int,
)
    requires
        is_wheel_assembly(assembly, car_translation, car_specs, anchor, wheel_num),
    ensures
        assembly.wheel_joint_tag.is_left == assembly.upright_joint_tag.is_left,
        assembly.wheel_joint_tag.is_front == assembly.upright_joint_tag.is_front,
        assembly.upright.is_left == assembly.upright_joint_tag.is_left,
        assembly.upright.is_front == assembly.upright_joint_tag.is_front,
        assembly.upright_translation@ == car_translation.plus(anchor),
        assembly.wheel_translation.x - assembly.upright_translation.x == mirrored(
            assembly.upright.is_left,
            car_specs.wheel_offset as int,
        ),
        assembly.upright.is_left ==> assembly.wheel_translation.x
            == assembly.upright_translation.x - car_specs.wheel_offset,
        !assembly.upright.is_left ==> assembly.wheel_translation.x
            == assembly.upright_translation.x + car_specs.wheel_offset,
        assembly.wheel_translation.y == assembly.upright_translation.y,
        assembly.wheel_translation.z == assembly.upright_translation.z,
        forall|axis: JointAxis| #[trigger]
            assembly.wheel_joint.is_free(axis) <==> axis == JointAxis::AngX,
        assembly.upright_joint.is_free(JointAxis::AngX) <==> assembly.upright.is_front,
        assembly.upright_joint.is_free(JointAxis::X),
{
}

/// Every wheel position is laid out as its joints hold it: the two anchors of the joint
/// between body and upright are one point of the car, and so are the two anchors of the
/// joint between upright and wheel, where the wheel offset is even, so that its half is
/// whole.
pub proof fn lemma_wheel_assembly_at_rest(
    assembly: WheelAssembly,
    car_translation: Vector,
    car_specs: CarSpecs,
    anchor: Vector,
    wheel_num: int,
)
    requires
        is_wheel_assembly(assembly, car_translation, car_specs, anchor, wheel_num),
    ensures
        car_translation.plus(assembly.upright_joint.local_anchor1@)
            == assembly.upright_translation@.plus(assembly.upright_joint.local_anchor2@),
        car_specs.wheel_offset % 2 == 0 ==> assembly.upright_translation@.plus(
            assembly.wheel_joint.local_anchor1@,
        ) == assembly.wheel_translation@.plus(
            turned_with_wheel(assembly.upright.is_left, assembly.wheel_joint.local_anchor2@),
        ),
{
    if car_specs.wheel_offset % 2 == 0 {
        lemma_joints_hold_at_rest(
            wheel_is_left(wheel_num),
            0,
            car_specs.wheel_offset as int,
            car_translation,
            anchor,
            assembly.upright_joint,
            assembly.wheel_joint,
            SUSPENSION_LOWEST as int,
            SUSPENSION_HIGHEST as int,
            !wheel_is_front(wheel_num),
        );
    }
}

/// The four wheel positions of a car are front left, front right, rear left and rear right,
/// in this order.
pub proof fn lemma_wheel_numbers()
    ensures
        wheel_is_front(0) && wheel_is_left(0),
        wheel_is_front(1) && !wheel_is_left(1),
        !wheel_is_front(2) && wheel_is_left(2),
        !wheel_is_front(3) && !wheel_is_left(3),
{
}

} // verus!
