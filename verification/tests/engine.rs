use multibody_scene::joint::Joint;
use multibody_scene::multibody::Multibody;
use multibody_scene::scene::init_world;
use multibody_scene::vector::{Axis, Vec3};
use multibody_scene::world::Body;
use nalgebra::{Isometry3, Unit, Vector3};
use nphysics3d::joint::{
    BallJoint, FixedJoint, HelicalJoint, PinSlotJoint, PlanarJoint, PrismaticJoint,
    RectangularJoint, RevoluteJoint, UniversalJoint,
};
use nphysics3d::object::{Body as EngineBody, Multibody as EngineMultibody, MultibodyDesc};

fn scalar(thousandths: i64) -> f64 {
    thousandths as f64 / 1000.0
}

fn axis(a: Axis) -> Unit<Vector3<f64>> {
    Unit::new_normalize(Vector3::new(a.x as f64, a.y as f64, a.z as f64))
}

fn describe(joint: &Joint) -> MultibodyDesc<f64> {
    match *joint {
        Joint::Fixed => MultibodyDesc::new(FixedJoint::new(Isometry3::identity())),
        Joint::Revolute { axis: a, revo } => {
            MultibodyDesc::new(RevoluteJoint::new(axis(a), scalar(revo.offset)))
        }
        Joint::Prismatic { axis: a, prism } => {
            MultibodyDesc::new(PrismaticJoint::new(axis(a), scalar(prism.offset)))
        }
        Joint::Ball { axisangle } => MultibodyDesc::new(BallJoint::new(Vector3::new(
            scalar(axisangle.x),
            scalar(axisangle.y),
            scalar(axisangle.z),
        ))),
        Joint::Universal { axis1, axis2, revo1, revo2 } => MultibodyDesc::new(UniversalJoint::new(
            axis(axis1),
            axis(axis2),
            scalar(revo1.offset),
            scalar(revo2.offset),
        )),
        Joint::Helical { axis: a, pitch, revo } => {
            MultibodyDesc::new(HelicalJoint::new(axis(a), scalar(pitch), scalar(revo.offset)))
        }
        Joint::Planar { axis1, axis2, prism1, prism2, revo } => {
            MultibodyDesc::new(PlanarJoint::new(
                axis(axis1),
                axis(axis2),
                scalar(prism1.offset),
                scalar(prism2.offset),
                scalar(revo.offset),
            ))
        }
        Joint::Rectangular { axis1, axis2, prism1, prism2 } => {
            MultibodyDesc::new(RectangularJoint::new(
                axis(axis1),
                axis(axis2),
                scalar(prism1.offset),
                scalar(prism2.offset),
            ))
        }
        Joint::PinSlot { axis_v, axis_w, prism, revo } => MultibodyDesc::new(PinSlotJoint::new(
            axis(axis_v),
            axis(axis_w),
            scalar(prism.offset),
            scalar(revo.offset),
        )),
    }
}

fn build(mb: &Multibody) -> EngineMultibody<f64> {
    let mut built = describe(&mb.link(0).unwrap().joint).build();
    for index in 1..mb.num_links() {
        let link = mb.link(index).unwrap();
        describe(&link.joint).build_with_parent(&mut built, link.parent.unwrap());
    }
    built
}

fn one_of_each() -> Vec<Joint> {
    let x = Axis::x_axis();
    let y = Axis::y_axis();
    vec![
        Joint::fixed(),
        Joint::revolute(x, 0).unwrap(),
        Joint::prismatic(x, 0).unwrap(),
        Joint::ball(Vec3::zeros()),
        Joint::universal(x, y, 0, 0).unwrap(),
        Joint::helical(x, 1000, 0).unwrap(),
        Joint::planar(x, y, 0, 0, 0).unwrap(),
        Joint::rectangular(x, y, 0, 0).unwrap(),
        Joint::pin_slot(x, y, 0, 0).unwrap(),
    ]
}

fn same_damping(mb: &Multibody, built: &EngineMultibody<f64>) {
    assert_eq!(built.damping().len(), mb.damping().len());
    for (k, d) in mb.damping().iter().enumerate() {
        assert!((built.damping()[k] - scalar(*d)).abs() < 1e-12);
    }
}

#[test]
fn engine_counts_the_same_degrees_of_freedom() {
    for joint in one_of_each() {
        let mb = Multibody::new(joint).unwrap();
        let built = build(&mb);
        assert_eq!(built.ndofs(), joint.degrees_of_freedom());
        assert_eq!(built.ndofs(), mb.ndofs());
        assert_eq!(built.link(0).unwrap().joint().ndofs(), joint.degrees_of_freedom());
    }
}

#[test]
fn engine_starts_with_the_same_damping() {
    for joint in one_of_each() {
        let mb = Multibody::new(joint).unwrap();
        same_damping(&mb, &build(&mb));
    }
}

#[test]
fn engine_numbers_the_links_alike() {
    let joints = one_of_each();
    let children = vec![
        (0, joints[6]),
        (0, joints[3]),
        (1, joints[8]),
        (3, joints[2]),
        (1, joints[4]),
        (0, joints[1]),
        (5, joints[7]),
        (2, joints[5]),
    ];
    let mb = Multibody::assemble(joints[0], &children).unwrap();
    let built = build(&mb);
    assert_eq!(built.num_links(), mb.num_links());
    assert_eq!(built.num_links(), children.len() + 1);
    for index in 0..mb.num_links() {
        let link = built.link(index).unwrap();
        assert_eq!(link.link_id(), index);
        assert_eq!(link.parent_id(), mb.link(index).unwrap().parent);
        assert_eq!(link.joint().ndofs(), mb.link(index).unwrap().joint.degrees_of_freedom());
    }
    assert!(built.link(mb.num_links()).is_none());
    assert_eq!(built.ndofs(), mb.ndofs());
    same_damping(&mb, &build(&mb));
}

#[test]
fn engine_takes_every_multibody_of_the_scene() {
    let scene = init_world();
    let mut links = 0;
    for h in scene.world.body_handles() {
        if let Some(Body::Multibody(mb)) = scene.world.body(h) {
            let built = build(mb);
            assert_eq!(built.num_links(), mb.num_links());
            assert_eq!(built.ndofs(), mb.ndofs());
            assert_eq!(built.damping().len(), mb.damping().len());
            for index in 0..mb.num_links() {
                assert_eq!(built.link(index).unwrap().parent_id(), mb.link(index).unwrap().parent);
            }
            links += mb.num_links();
        }
    }
    assert_eq!(links, scene.world.collider_handles().len());
}
