use multibody_scene::dof::{DofChange, UnitDof};
use multibody_scene::error::Error;
use multibody_scene::joint::Joint;
use multibody_scene::multibody::{Link, Multibody, Placement};
use multibody_scene::vector::{Axis, Vec3};

fn revolute() -> Joint {
    Joint::revolute(Axis::x_axis(), -100).unwrap()
}

fn fresh(parent: Option<usize>, joint: Joint) -> Link {
    Link {
        joint,
        parent,
        parent_shift: Vec3::zeros(),
        body_shift: Placement::Offset(Vec3::zeros()),
    }
}

#[test]
fn new_multibody_has_one_link() {
    let mb = Multibody::new(revolute()).unwrap();
    assert_eq!(mb.num_links(), 1);
    assert_eq!(mb.num_children(), 0);
    assert_eq!(mb.link(0), Some(fresh(None, revolute())));
    assert_eq!(mb.link(1), None);
    assert_eq!(mb.ndofs(), 1);
    assert_eq!(mb.damping(), &vec![100]);
}

#[test]
fn malformed_root_is_rejected() {
    let zero = Joint::Revolute { axis: Axis { x: 0, y: 0, z: 0 }, revo: UnitDof::new(0) };
    assert_eq!(Multibody::new(zero).err(), Some(Error::ZeroAxis));
    let flat = Joint::Planar {
        axis1: Axis::x_axis(),
        axis2: Axis::x_axis(),
        prism1: UnitDof::new(0),
        prism2: UnitDof::new(0),
        revo: UnitDof::new(0),
    };
    assert_eq!(Multibody::new(flat).err(), Some(Error::CollinearAxes));
}

#[test]
fn link_round_trip() {
    for k in 0..8usize {
        let mut mb = Multibody::new(revolute()).unwrap();
        for n in 0..k {
            assert_eq!(mb.add_child(n, revolute()), Ok(n + 1));
        }
        assert_eq!(mb.num_children(), k);
        for i in 0..=k {
            assert!(mb.link(i).is_some());
        }
        assert_eq!(mb.link(k + 1), None);
        assert_eq!(mb.link(usize::MAX), None);
    }
}

#[test]
fn children_are_numbered_in_order_of_attachment() {
    let mut mb = Multibody::new(Joint::fixed()).unwrap();
    assert_eq!(mb.add_child(0, revolute()), Ok(1));
    assert_eq!(mb.add_child(0, revolute()), Ok(2));
    assert_eq!(mb.add_child(1, revolute()), Ok(3));
    assert_eq!(mb.add_child(3, revolute()), Ok(4));
    assert_eq!(mb.link(0).unwrap().parent, None);
    assert_eq!(mb.link(1).unwrap().parent, Some(0));
    assert_eq!(mb.link(2).unwrap().parent, Some(0));
    assert_eq!(mb.link(3).unwrap().parent, Some(1));
    assert_eq!(mb.link(4).unwrap().parent, Some(3));
    assert_eq!(mb.depth(0), Some(0));
    assert_eq!(mb.depth(1), Some(1));
    assert_eq!(mb.depth(2), Some(1));
    assert_eq!(mb.depth(3), Some(2));
    assert_eq!(mb.depth(4), Some(3));
    assert_eq!(mb.depth(5), None);
}

#[test]
fn child_needs_a_parent_that_is_there() {
    let mut mb = Multibody::new(revolute()).unwrap();
    assert_eq!(mb.add_child(1, revolute()), Err(Error::LinkNotFound));
    assert_eq!(mb.num_links(), 1);
    assert_eq!(mb.ndofs(), 1);
}

#[test]
fn malformed_child_is_rejected() {
    let mut mb = Multibody::new(revolute()).unwrap();
    let zero = Joint::Prismatic { axis: Axis { x: 0, y: 0, z: 0 }, prism: UnitDof::new(0) };
    assert_eq!(mb.add_child(0, zero), Err(Error::ZeroAxis));
    // A missing parent is reported before a malformed joint.
    assert_eq!(mb.add_child(9, zero), Err(Error::LinkNotFound));
    assert_eq!(mb.num_links(), 1);
    assert_eq!(mb.damping(), &vec![100]);
}

#[test]
fn degrees_of_freedom_are_laid_out_link_after_link() {
    let x = Axis::x_axis();
    let y = Axis::y_axis();
    let mut mb = Multibody::new(Joint::fixed()).unwrap();
    mb.add_child(0, Joint::planar(x, y, 0, 0, 0).unwrap()).unwrap();
    mb.add_child(1, Joint::ball(Vec3::zeros())).unwrap();
    mb.add_child(1, Joint::pin_slot(x, y, 0, 0).unwrap()).unwrap();
    mb.add_child(0, Joint::prismatic(x, 0).unwrap()).unwrap();
    assert_eq!(mb.ndofs(), 9);
    assert_eq!(mb.assembly_id(0), Some(0));
    assert_eq!(mb.assembly_id(1), Some(0));
    assert_eq!(mb.assembly_id(2), Some(3));
    assert_eq!(mb.assembly_id(3), Some(6));
    assert_eq!(mb.assembly_id(4), Some(8));
    assert_eq!(mb.assembly_id(5), None);
    assert_eq!(mb.damping(), &vec![0, 0, 100, 100, 100, 100, 0, 100, 0]);
}

#[test]
fn damping_can_be_filled() {
    let mut mb = Multibody::new(Joint::fixed()).unwrap();
    mb.add_child(0, Joint::universal(Axis::x_axis(), Axis::z_axis(), 0, 0).unwrap()).unwrap();
    assert_eq!(mb.damping(), &vec![100, 100]);
    mb.fill_damping(0);
    assert_eq!(mb.damping(), &vec![0, 0]);
    mb.fill_damping(-7);
    assert_eq!(mb.damping(), &vec![-7, -7]);
    assert_eq!(mb.num_links(), 2);
}

#[test]
fn shifts_are_set_on_the_link_asked_for() {
    let mut mb = Multibody::new(revolute()).unwrap();
    mb.add_child(0, revolute()).unwrap();
    assert_eq!(mb.set_parent_shift(1, Vec3::new(0, 0, 600)), Ok(()));
    assert_eq!(mb.set_body_shift(0, Placement::Offset(Vec3::new(0, 0, 640))), Ok(()));
    assert_eq!(mb.link(0).unwrap().parent_shift, Vec3::zeros());
    assert_eq!(mb.link(0).unwrap().body_shift, Placement::Offset(Vec3::new(0, 0, 640)));
    assert_eq!(mb.link(1).unwrap().parent_shift, Vec3::new(0, 0, 600));
    assert_eq!(mb.link(1).unwrap().body_shift, Placement::Offset(Vec3::zeros()));
    assert_eq!(mb.set_parent_shift(2, Vec3::zeros()), Err(Error::LinkNotFound));
    assert_eq!(mb.set_body_shift(2, Placement::Offset(Vec3::zeros())), Err(Error::LinkNotFound));
}

#[test]
fn ring_of_zero_steps_is_rejected() {
    let mut mb = Multibody::new(revolute()).unwrap();
    let empty = Placement::Ring { step: 0, steps: 0, radius: 1000, height: 300 };
    assert!(!empty.is_valid());
    assert_eq!(mb.set_body_shift(0, empty), Err(Error::EmptyRing));
    assert_eq!(mb.link(0).unwrap().body_shift, Placement::Offset(Vec3::zeros()));
    let ring = Placement::Ring { step: 2, steps: 6, radius: 1000, height: 300 };
    assert!(ring.is_valid());
    assert_eq!(mb.set_body_shift(0, ring), Ok(()));
    assert_eq!(mb.link(0).unwrap().body_shift, ring);
    // A missing link is reported before a malformed placement.
    assert_eq!(mb.set_body_shift(1, empty), Err(Error::LinkNotFound));
}

#[test]
fn change_dof_on_a_link() {
    let mut mb = Multibody::new(Joint::fixed()).unwrap();
    mb.add_child(0, Joint::prismatic(Axis::y_axis(), 0).unwrap()).unwrap();
    assert_eq!(mb.change_dof(1, 0, DofChange::EnableMin(-400)), Ok(()));
    assert_eq!(mb.unit(1, 0).unwrap().min, Some(-400));
    assert_eq!(mb.change_dof(1, 0, DofChange::EnableMax(-500)), Err(Error::LimitsCrossed));
    assert_eq!(mb.unit(1, 0).unwrap().max, None);
    assert_eq!(mb.change_dof(1, 1, DofChange::EnableMotor), Err(Error::DofNotFound));
    assert_eq!(mb.change_dof(0, 0, DofChange::EnableMotor), Err(Error::DofNotFound));
    assert_eq!(mb.change_dof(2, 0, DofChange::EnableMotor), Err(Error::LinkNotFound));
    assert_eq!(mb.unit(2, 0), Err(Error::LinkNotFound));
    assert_eq!(mb.unit(0, 0), Err(Error::DofNotFound));
    assert_eq!(mb.ndofs(), 1);
    assert_eq!(mb.assembly_id(1), Some(0));
}

#[test]
fn assemble_attaches_the_children_in_order() {
    let children = vec![(0, revolute()), (1, revolute()), (0, Joint::ball(Vec3::zeros()))];
    let mb = Multibody::assemble(Joint::fixed(), &children).unwrap();
    assert_eq!(mb.num_links(), 4);
    assert_eq!(mb.link(0), Some(fresh(None, Joint::fixed())));
    assert_eq!(mb.link(1), Some(fresh(Some(0), revolute())));
    assert_eq!(mb.link(2), Some(fresh(Some(1), revolute())));
    assert_eq!(mb.link(3), Some(fresh(Some(0), Joint::ball(Vec3::zeros()))));
    assert_eq!(mb.link(4), None);
    assert_eq!(mb.damping(), &vec![100, 100, 100, 100, 100]);
}

#[test]
fn assemble_without_children() {
    let mb = Multibody::assemble(revolute(), &Vec::new()).unwrap();
    assert_eq!(mb.num_links(), 1);
    assert_eq!(mb.link(1), None);
}

#[test]
fn assemble_stops_at_the_first_child_that_does_not_fit() {
    let zero = Joint::Revolute { axis: Axis { x: 0, y: 0, z: 0 }, revo: UnitDof::new(0) };
    let ahead = vec![(0, revolute()), (2, revolute())];
    assert_eq!(Multibody::assemble(revolute(), &ahead).err(), Some(Error::LinkNotFound));
    let broken = vec![(0, zero), (7, revolute())];
    assert_eq!(Multibody::assemble(revolute(), &broken).err(), Some(Error::ZeroAxis));
    let late = vec![(7, revolute()), (0, zero)];
    assert_eq!(Multibody::assemble(revolute(), &late).err(), Some(Error::LinkNotFound));
    assert_eq!(Multibody::assemble(zero, &ahead).err(), Some(Error::ZeroAxis));
}
