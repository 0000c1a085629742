use multibody_scene::dof::{DofChange, Motor, UnitDof};
use multibody_scene::error::{Error, ErrorKind};
use multibody_scene::joint::{DofKind, Joint, JointKind, ANGULAR_DAMPING, LINEAR_DAMPING};
use multibody_scene::vector::{Axis, Vec3, UNITS_PER_ONE};

#[test]
fn zero_axis_is_rejected() {
    assert_eq!(Axis::new(0, 0, 0), Err(Error::ZeroAxis));
    assert_eq!(Axis::new(0, 2, 0), Ok(Axis { x: 0, y: 2, z: 0 }));
    assert_eq!(Axis::new(-1, 0, 0), Ok(Axis { x: -1, y: 0, z: 0 }));
    assert!(Axis::x_axis().is_valid());
    assert!(!Axis { x: 0, y: 0, z: 0 }.is_valid());
}

#[test]
fn unit_axes() {
    assert_eq!(Axis::x_axis(), Axis { x: 1, y: 0, z: 0 });
    assert_eq!(Axis::y_axis(), Axis { x: 0, y: 1, z: 0 });
    assert_eq!(Axis::z_axis(), Axis { x: 0, y: 0, z: 1 });
}

#[test]
fn vectors() {
    assert_eq!(UNITS_PER_ONE, 1000);
    assert_eq!(Vec3::new(1, -2, 3), Vec3 { x: 1, y: -2, z: 3 });
    assert_eq!(Vec3::zeros(), Vec3 { x: 0, y: 0, z: 0 });
    assert_eq!(Vec3::repeat(200), Vec3 { x: 200, y: 200, z: 200 });
    assert!(Vec3::new(0, 5, 0).is_non_negative());
    assert!(!Vec3::new(0, 5, -1).is_non_negative());
}

#[test]
fn collinearity() {
    let a = Axis::new(1, 2, 3).unwrap();
    let b = Axis::new(-2, -4, -6).unwrap();
    let c = Axis::new(1, 2, 4).unwrap();
    assert!(a.is_collinear_with(&b));
    assert!(b.is_collinear_with(&a));
    assert!(a.is_collinear_with(&a));
    assert!(!a.is_collinear_with(&c));
    assert!(!Axis::x_axis().is_collinear_with(&Axis::y_axis()));
}

#[test]
fn collinearity_at_the_ends_of_the_range() {
    let big = Axis::new(i32::MIN, i32::MAX, i32::MIN).unwrap();
    let other = Axis::new(i32::MAX, i32::MIN, i32::MAX).unwrap();
    assert!(big.is_collinear_with(&big));
    assert!(!big.is_collinear_with(&other));
    assert!(!big.is_collinear_with(&Axis::z_axis()));
}

#[test]
fn error_families() {
    let config = [
        Error::ZeroAxis,
        Error::CollinearAxes,
        Error::LimitsCrossed,
        Error::NegativeExtent,
        Error::NegativeDensity,
        Error::EmptyRing,
    ];
    for e in config {
        assert_eq!(e.kind(), ErrorKind::InvalidConfiguration);
    }
    let lookup = [
        Error::BodyNotFound,
        Error::NotAMultibody,
        Error::LinkNotFound,
        Error::DofNotFound,
    ];
    for e in lookup {
        assert_eq!(e.kind(), ErrorKind::NotFound);
    }
}

#[test]
fn fresh_motor_is_idle() {
    let m = Motor::new();
    assert_eq!(m, Motor { enabled: false, desired_velocity: 0, max_force: None });
}

#[test]
fn fresh_unit_has_no_limits() {
    let u = UnitDof::new(-100);
    assert_eq!(u, UnitDof { offset: -100, min: None, max: None, motor: Motor::new() });
    assert!(u.is_valid());
}

#[test]
fn limits_cannot_cross() {
    let mut u = UnitDof::new(0);
    assert_eq!(u.apply(DofChange::EnableMin(-400)), Ok(()));
    assert_eq!(u.min, Some(-400));
    assert_eq!(u.apply(DofChange::EnableMax(-401)), Err(Error::LimitsCrossed));
    assert_eq!(u.max, None);
    assert_eq!(u.apply(DofChange::EnableMax(-400)), Ok(()));
    assert_eq!(u.max, Some(-400));
    assert_eq!(u.apply(DofChange::EnableMin(-399)), Err(Error::LimitsCrossed));
    assert_eq!(u.min, Some(-400));
    assert!(u.is_valid());
}

#[test]
fn limits_can_be_lifted() {
    let mut u = UnitDof::new(0);
    u.apply(DofChange::EnableMin(1)).unwrap();
    u.apply(DofChange::EnableMax(2)).unwrap();
    u.apply(DofChange::DisableMin).unwrap();
    assert_eq!((u.min, u.max), (None, Some(2)));
    u.apply(DofChange::EnableMin(2)).unwrap();
    u.apply(DofChange::DisableMax).unwrap();
    assert_eq!((u.min, u.max), (Some(2), None));
    u.apply(DofChange::EnableMax(i64::MAX)).unwrap();
    assert_eq!(u.apply(DofChange::EnableMin(i64::MIN)), Ok(()));
}

#[test]
fn crossed_limits_written_by_hand_are_found() {
    let u = UnitDof { offset: 0, min: Some(3), max: Some(2), motor: Motor::new() };
    assert!(!u.is_valid());
    let j = Joint::Prismatic { axis: Axis::x_axis(), prism: u };
    assert_eq!(j.validate(), Err(Error::LimitsCrossed));
    assert_eq!(j.check(), Err(Error::LimitsCrossed));
}

#[test]
fn motor_changes() {
    let mut u = UnitDof::new(5);
    u.apply(DofChange::EnableMotor).unwrap();
    assert!(u.motor.enabled);
    u.apply(DofChange::SetDesiredVelocity(4000)).unwrap();
    u.apply(DofChange::SetMaxForce(Some(70))).unwrap();
    assert_eq!(u.motor, Motor { enabled: true, desired_velocity: 4000, max_force: Some(70) });
    u.apply(DofChange::DisableMotor).unwrap();
    u.apply(DofChange::SetMaxForce(None)).unwrap();
    assert_eq!(u.motor, Motor { enabled: false, desired_velocity: 4000, max_force: None });
    assert_eq!(u.offset, 5);
    assert_eq!((u.min, u.max), (None, None));
}

#[test]
fn degrees_of_freedom_per_kind() {
    let x = Axis::x_axis();
    let y = Axis::y_axis();
    assert_eq!(Joint::fixed().degrees_of_freedom(), 0);
    assert_eq!(Joint::revolute(x, 0).unwrap().degrees_of_freedom(), 1);
    assert_eq!(Joint::prismatic(x, 0).unwrap().degrees_of_freedom(), 1);
    assert_eq!(Joint::ball(Vec3::zeros()).degrees_of_freedom(), 3);
    assert_eq!(Joint::universal(x, y, 0, 0).unwrap().degrees_of_freedom(), 2);
    assert_eq!(Joint::helical(x, 1000, 0).unwrap().degrees_of_freedom(), 1);
    assert_eq!(Joint::planar(x, y, 0, 0, 0).unwrap().degrees_of_freedom(), 3);
    assert_eq!(Joint::rectangular(x, y, 0, 0).unwrap().degrees_of_freedom(), 2);
    assert_eq!(Joint::pin_slot(x, y, 0, 0).unwrap().degrees_of_freedom(), 2);
}

#[test]
fn kinds() {
    let x = Axis::x_axis();
    let y = Axis::y_axis();
    assert_eq!(Joint::fixed().kind(), JointKind::Fixed);
    assert_eq!(Joint::revolute(x, 0).unwrap().kind(), JointKind::Revolute);
    assert_eq!(Joint::prismatic(x, 0).unwrap().kind(), JointKind::Prismatic);
    assert_eq!(Joint::ball(Vec3::zeros()).kind(), JointKind::Ball);
    assert_eq!(Joint::universal(x, y, 0, 0).unwrap().kind(), JointKind::Universal);
    assert_eq!(Joint::helical(x, 1000, 0).unwrap().kind(), JointKind::Helical);
    assert_eq!(Joint::planar(x, y, 0, 0, 0).unwrap().kind(), JointKind::Planar);
    assert_eq!(Joint::rectangular(x, y, 0, 0).unwrap().kind(), JointKind::Rectangular);
    assert_eq!(Joint::pin_slot(x, y, 0, 0).unwrap().kind(), JointKind::PinSlot);
}

#[test]
fn dof_kinds_in_coordinate_order() {
    let x = Axis::x_axis();
    let y = Axis::y_axis();
    let planar = Joint::planar(x, y, 0, 0, 0).unwrap();
    assert_eq!(planar.dof_kind(0), Some(DofKind::Linear));
    assert_eq!(planar.dof_kind(1), Some(DofKind::Linear));
    assert_eq!(planar.dof_kind(2), Some(DofKind::Angular));
    assert_eq!(planar.dof_kind(3), None);
    let pin = Joint::pin_slot(x, y, 0, 0).unwrap();
    assert_eq!(pin.dof_kind(0), Some(DofKind::Linear));
    assert_eq!(pin.dof_kind(1), Some(DofKind::Angular));
    assert_eq!(pin.dof_kind(2), None);
    let ball = Joint::ball(Vec3::zeros());
    assert_eq!(ball.dof_kind(2), Some(DofKind::Angular));
    assert_eq!(ball.dof_kind(3), None);
    assert_eq!(Joint::fixed().dof_kind(0), None);
    assert_eq!(Joint::helical(x, 1, 0).unwrap().dof_kind(0), Some(DofKind::Angular));
    assert_eq!(Joint::prismatic(x, 0).unwrap().dof_kind(0), Some(DofKind::Linear));
    assert_eq!(DofKind::Angular.default_damping(), ANGULAR_DAMPING);
    assert_eq!(DofKind::Linear.default_damping(), LINEAR_DAMPING);
    assert_eq!(ANGULAR_DAMPING, 100);
    assert_eq!(LINEAR_DAMPING, 0);
}

#[test]
fn constructors_fill_in_what_they_are_given() {
    let x = Axis::x_axis();
    let z = Axis::z_axis();
    assert_eq!(
        Joint::revolute(x, -100),
        Ok(Joint::Revolute { axis: x, revo: UnitDof::new(-100) })
    );
    assert_eq!(
        Joint::helical(z, 1000, 7),
        Ok(Joint::Helical { axis: z, pitch: 1000, revo: UnitDof::new(7) })
    );
    assert_eq!(
        Joint::pin_slot(z, x, -10000, 3),
        Ok(Joint::PinSlot {
            axis_v: z,
            axis_w: x,
            prism: UnitDof::new(-10000),
            revo: UnitDof::new(3)
        })
    );
    assert_eq!(
        Joint::planar(z, x, 1, 2, 3),
        Ok(Joint::Planar {
            axis1: z,
            axis2: x,
            prism1: UnitDof::new(1),
            prism2: UnitDof::new(2),
            revo: UnitDof::new(3)
        })
    );
    assert_eq!(Joint::ball(Vec3::new(1, 2, 3)), Joint::Ball { axisangle: Vec3::new(1, 2, 3) });
}

#[test]
fn joints_with_a_zero_axis_are_rejected() {
    let zero = Axis { x: 0, y: 0, z: 0 };
    let x = Axis::x_axis();
    assert_eq!(Joint::revolute(zero, 0), Err(Error::ZeroAxis));
    assert_eq!(Joint::prismatic(zero, 0), Err(Error::ZeroAxis));
    assert_eq!(Joint::helical(zero, 1, 0), Err(Error::ZeroAxis));
    assert_eq!(Joint::universal(x, zero, 0, 0), Err(Error::ZeroAxis));
    assert_eq!(Joint::universal(zero, x, 0, 0), Err(Error::ZeroAxis));
    assert_eq!(Joint::rectangular(x, zero, 0, 0), Err(Error::ZeroAxis));
    assert_eq!(Joint::pin_slot(zero, x, 0, 0), Err(Error::ZeroAxis));
    assert_eq!(Joint::planar(zero, zero, 0, 0, 0), Err(Error::ZeroAxis));
}

#[test]
fn planar_joint_needs_a_plane() {
    let x = Axis::x_axis();
    let twice = Axis::new(2, 0, 0).unwrap();
    assert_eq!(Joint::planar(x, twice, 0, 0, 0), Err(Error::CollinearAxes));
    assert_eq!(Joint::planar(x, x, 0, 0, 0), Err(Error::CollinearAxes));
    assert!(Joint::planar(x, Axis::new(1, 1, 0).unwrap(), 0, 0, 0).is_ok());
    // Only the planar joint asks for a plane.
    assert!(Joint::rectangular(x, x, 0, 0).is_ok());
    assert!(Joint::universal(x, x, 0, 0).is_ok());
}

#[test]
fn units_and_axes_by_index() {
    let x = Axis::x_axis();
    let y = Axis::y_axis();
    let planar = Joint::planar(x, y, 10, 20, 30).unwrap();
    assert_eq!(planar.unit(0), Some(UnitDof::new(10)));
    assert_eq!(planar.unit(1), Some(UnitDof::new(20)));
    assert_eq!(planar.unit(2), Some(UnitDof::new(30)));
    assert_eq!(planar.unit(3), None);
    assert_eq!(planar.axis(0), Some(x));
    assert_eq!(planar.axis(1), Some(y));
    assert_eq!(planar.axis(2), None);
    assert_eq!(Joint::fixed().unit(0), None);
    assert_eq!(Joint::fixed().axis(0), None);
    assert_eq!(Joint::ball(Vec3::zeros()).unit(0), None);
    let uni = Joint::universal(x, y, 1, 2).unwrap();
    assert_eq!(uni.unit(1), Some(UnitDof::new(2)));
    assert_eq!(uni.unit(2), None);
}

#[test]
fn change_reaches_the_right_unit() {
    let x = Axis::x_axis();
    let z = Axis::z_axis();
    let mut uni = Joint::universal(x, z, 0, 0).unwrap();
    assert_eq!(uni.change(1, DofChange::EnableMotor), Ok(()));
    assert_eq!(uni.change(1, DofChange::SetDesiredVelocity(5000)), Ok(()));
    assert_eq!(uni.unit(0), Some(UnitDof::new(0)));
    assert_eq!(
        uni.unit(1).unwrap().motor,
        Motor { enabled: true, desired_velocity: 5000, max_force: None }
    );
    assert_eq!(uni.kind(), JointKind::Universal);
    assert_eq!(uni.axis(0), Some(x));
    assert_eq!(uni.axis(1), Some(z));
}

#[test]
fn change_on_a_missing_unit() {
    let mut ball = Joint::ball(Vec3::zeros());
    assert_eq!(ball.change(0, DofChange::EnableMotor), Err(Error::DofNotFound));
    let mut revo = Joint::revolute(Axis::x_axis(), 0).unwrap();
    assert_eq!(revo.change(1, DofChange::EnableMotor), Err(Error::DofNotFound));
    assert_eq!(revo, Joint::revolute(Axis::x_axis(), 0).unwrap());
    let mut fixed = Joint::fixed();
    assert_eq!(fixed.change(0, DofChange::DisableMin), Err(Error::DofNotFound));
}

#[test]
fn refused_change_leaves_the_joint_alone() {
    let mut j = Joint::prismatic(Axis::y_axis(), 0).unwrap();
    j.change(0, DofChange::EnableMax(5)).unwrap();
    let before = j;
    assert_eq!(j.change(0, DofChange::EnableMin(6)), Err(Error::LimitsCrossed));
    assert_eq!(j, before);
    assert_eq!(j.validate(), Ok(()));
}

#[test]
fn third_unit_of_a_planar_joint() {
    let mut planar = Joint::planar(Axis::z_axis(), Axis::y_axis(), 0, 0, 0).unwrap();
    planar.change(2, DofChange::EnableMin(-7)).unwrap();
    assert_eq!(planar.unit(2).unwrap().min, Some(-7));
    assert_eq!(planar.unit(0).unwrap().min, None);
    assert_eq!(planar.unit(1).unwrap().min, None);
}
