//! The demonstration scene: one multibody for each kind of joint, chains
//! of seven links for the simple joints and grids of five by five tiles for
//! the joints with two translations, every link with a collider, and two
//! motors under threshold control.

use vstd::prelude::*;
use crate::arena::Handle;
use crate::control::Hysteresis;
use crate::dof::{DofChange, Motor, UnitDof};
use crate::joint::Joint;
use crate::multibody::{
    default_damping, lemma_default_damping_push, lemma_default_damping_same, Link, Multibody,
    MultibodyView, Placement,
};
use crate::vector::{Axis, Vec3};
use crate::world::{
    Body, BodyPartHandle, BodyView, Collider, ColliderDesc, Controller, Shape,
    World, WorldView,
};

verus! {

/// Half the side of the cube that stands for a link, in thousandths.
pub const RAD: i64 = 200;

/// The number of children below the root of each chain.
pub const CHAIN_CHILDREN: usize = 6;

/// The number of tiles along each side of a grid.
pub const GRID_SIDE: usize = 5;

/// The distance between neighbouring tiles of a grid.
pub const TILE_STEP: i64 = 800;

/// Half the width of a grid.
pub const GRID_HALF_WIDTH: i64 = 2000;

/// The number of bodies of the scene, the ground included.
pub const BODY_COUNT: usize = 57;

/// The number of colliders of the scene.
pub const COLLIDER_COUNT: usize = 75;

/// A vector given by its three components.
pub open spec fn vec3(x: int, y: int, z: int) -> Vec3 {
    Vec3 { x: x as i64, y: y as i64, z: z as i64 }
}

/// The handle of the `index`-th value put into a store from which nothing
/// was ever removed.
pub open spec fn nth_handle(index: int) -> Handle {
    Handle { index: index as usize, generation: 0 }
}

/// The links of a chain: `root`, then `children` copies of `child`, each
/// hung from the link before it.
pub open spec fn chain_links(root: Link, child: Link, children: nat) -> Seq<Link> {
    Seq::new(
        children + 1,
        |k: int|
            if k == 0 {
                root
            } else {
                Link { parent: Some((k - 1) as usize), ..child }
            },
    )
}

/// A multibody of a single link held by `joint`, its joint shifted by
/// `parent_shift` from the origin.
pub open spec fn single(joint: Joint, parent_shift: Vec3) -> MultibodyView {
    let links = seq![Link { parent_shift, ..Link::fresh(None, joint) }];
    MultibodyView { links, damping: default_damping(links) }
}

/// The joint of the chain of revolute joints.
pub open spec fn revolute_joint() -> Joint {
    Joint::Revolute { axis: Axis { x: 1, y: 0, z: 0 }, revo: UnitDof::fresh((-100) as i64) }
}

/// Seven links, each turning about the first axis relative to the one
/// before.
pub open spec fn revolute_chain() -> MultibodyView {
    let root = Link {
        joint: revolute_joint(),
        parent: None,
        parent_shift: vec3(0, 5000, 11000),
        body_shift: Placement::Offset(vec3(0, 0, 640)),
    };
    let child = Link { parent_shift: vec3(0, 0, 0), ..root };
    let links = chain_links(root, child, CHAIN_CHILDREN as nat);
    MultibodyView { links, damping: default_damping(links) }
}

/// The joint of the chain of prismatic joints: it slides along the second
/// axis and cannot drop below two fifths of a unit.
pub open spec fn prismatic_joint() -> Joint {
    Joint::Prismatic {
        axis: Axis { x: 0, y: 1, z: 0 },
        prism: UnitDof { min: Some((-400) as i64), ..UnitDof::fresh(0) },
    }
}

/// Seven links, each sliding along the second axis relative to the one
/// before.
pub open spec fn prismatic_chain() -> MultibodyView {
    let root = Link {
        joint: prismatic_joint(),
        parent: None,
        parent_shift: vec3(0, 5000, 5000),
        body_shift: Placement::Offset(vec3(0, 0, 0)),
    };
    let child = Link { parent_shift: vec3(0, 0, 600), ..root };
    let links = chain_links(root, child, CHAIN_CHILDREN as nat);
    MultibodyView { links, damping: default_damping(links) }
}

/// Seven links joined by ball joints, the six children laid out around a
/// circle.
pub open spec fn ball_chain() -> MultibodyView {
    let joint = Joint::Ball { axisangle: vec3(0, 0, 0) };
    let links = Seq::new(
        CHAIN_CHILDREN as nat + 1,
        |k: int|
            if k == 0 {
                Link { parent_shift: vec3(0, 5000, 0), ..Link::fresh(None, joint) }
            } else {
                Link {
                    body_shift: Placement::Ring {
                        step: (k - 1) as u32,
                        steps: CHAIN_CHILDREN as u32,
                        radius: 1000,
                        height: 300,
                    },
                    ..Link::fresh(Some((k - 1) as usize), joint)
                }
            },
    );
    MultibodyView { links, damping: default_damping(links) }
}

/// The universal joint of the scene: its second rotation is driven at
/// five units of speed.
pub open spec fn universal_joint() -> Joint {
    Joint::Universal {
        axis1: Axis { x: 1, y: 0, z: 0 },
        axis2: Axis { x: 0, y: 0, z: 1 },
        revo1: UnitDof::fresh(0),
        revo2: UnitDof {
            motor: Motor { enabled: true, desired_velocity: 5000, max_force: None },
            ..UnitDof::fresh(0)
        },
    }
}

/// A fixed root with one child on a universal joint, without any damping.
pub open spec fn universal_pair() -> MultibodyView {
    let links = seq![
        Link { parent_shift: vec3(0, 3000, -5000), ..Link::fresh(None, Joint::Fixed) },
        Link {
            body_shift: Placement::Offset(vec3(0, 0, -1000)),
            ..Link::fresh(Some(0usize), universal_joint())
        },
    ];
    MultibodyView { links, damping: seq![0i64, 0i64] }
}

/// The helical joint of the scene: a screw about the second axis whose
/// motor, once switched on, turns it at four units of speed.
pub open spec fn helical_joint() -> Joint {
    Joint::Helical {
        axis: Axis { x: 0, y: 1, z: 0 },
        pitch: 1000,
        revo: UnitDof {
            motor: Motor { enabled: false, desired_velocity: 4000, max_force: None },
            ..UnitDof::fresh(0)
        },
    }
}

/// Where the tile in row `i` and column `j` of a grid starts along the
/// first axis of its joint: every second column is set off by half a step.
pub open spec fn tile_x(i: int, j: int) -> int {
    i * TILE_STEP - GRID_HALF_WIDTH + if j % 2 == 0 {
        2 * RAD
    } else {
        0
    }
}

/// Where the tile in column `j` of a grid starts along the second axis of
/// its joint.
pub open spec fn tile_y(j: int) -> int {
    j * TILE_STEP - GRID_HALF_WIDTH
}

/// The first translation of a tile: kept within the width of the grid.
pub open spec fn tile_prism1(i: int, j: int) -> UnitDof {
    UnitDof {
        min: Some((-GRID_HALF_WIDTH) as i64),
        max: Some(GRID_HALF_WIDTH),
        ..UnitDof::fresh(tile_x(i, j) as i64)
    }
}

/// The second translation of a tile: it cannot drop below five units.
pub open spec fn tile_prism2(j: int) -> UnitDof {
    UnitDof { min: Some((-5000) as i64), ..UnitDof::fresh(tile_y(j) as i64) }
}

/// The planar joint of the tile in row `i` and column `j`.
pub open spec fn planar_joint(i: int, j: int) -> Joint {
    Joint::Planar {
        axis1: Axis { x: 0, y: 0, z: 1 },
        axis2: Axis { x: 0, y: 1, z: 0 },
        prism1: tile_prism1(i, j),
        prism2: tile_prism2(j),
        revo: UnitDof::fresh(0),
    }
}

/// The rectangular joint of the tile in row `i` and column `j`.
pub open spec fn rectangular_joint(i: int, j: int) -> Joint {
    Joint::Rectangular {
        axis1: Axis { x: 0, y: 0, z: 1 },
        axis2: Axis { x: 0, y: 1, z: 0 },
        prism1: tile_prism1(i, j),
        prism2: tile_prism2(j),
    }
}

/// The pin-slot joint of the scene: it starts ten units down its slot, and
/// its linear motor, once switched on, pushes at three units of speed.
pub open spec fn pin_slot_joint() -> Joint {
    Joint::PinSlot {
        axis_v: Axis { x: 0, y: 1, z: 0 },
        axis_w: Axis { x: 1, y: 0, z: 0 },
        prism: UnitDof {
            motor: Motor { enabled: false, desired_velocity: 3000, max_force: None },
            ..UnitDof::fresh((-10000) as i64)
        },
        revo: UnitDof::fresh(0),
    }
}

/// The body with the given number, in the order in which the scene is
/// built: three chains, the universal pair, the screw, twenty-five planar
/// tiles, twenty-five rectangular tiles, the pin-slot slider, the ground.
pub open spec fn demo_body(index: int) -> BodyView {
    if index == 0 {
        BodyView::Multibody(revolute_chain())
    } else if index == 1 {
        BodyView::Multibody(prismatic_chain())
    } else if index == 2 {
        BodyView::Multibody(ball_chain())
    } else if index == 3 {
        BodyView::Multibody(universal_pair())
    } else if index == 4 {
        BodyView::Multibody(single(helical_joint(), vec3(0, -2000, 10000)))
    } else if index < 30 {
        BodyView::Multibody(
            single(planar_joint((index - 5) / 5, (index - 5) % 5), vec3(0, -2000, 5000)),
        )
    } else if index < 55 {
        BodyView::Multibody(
            single(rectangular_joint((index - 30) / 5, (index - 30) % 5), vec3(0, -2000, 0)),
        )
    } else if index == 55 {
        BodyView::Multibody(single(pin_slot_joint(), vec3(0, 0, -1500)))
    } else {
        BodyView::Ground
    }
}

/// The cube that stands for a link.
pub open spec fn link_cube() -> ColliderDesc {
    ColliderDesc {
        shape: Shape::Cuboid { half_extents: vec3(RAD as int, RAD as int, RAD as int) },
        density: 1000,
    }
}

/// The slab that stands for the pin-slot slider.
pub open spec fn slider_slab() -> ColliderDesc {
    ColliderDesc {
        shape: Shape::Cuboid { half_extents: vec3(5 * RAD, RAD as int, 5 * RAD) },
        density: 1000,
    }
}

/// The body part on which the collider with the given number sits: one
/// collider for each link, body after body.
pub open spec fn demo_collider_part(index: int) -> BodyPartHandle {
    if index < 21 {
        BodyPartHandle { body: nth_handle(index / 7), part: (index % 7) as usize }
    } else if index < 23 {
        BodyPartHandle { body: nth_handle(3), part: (index - 21) as usize }
    } else {
        BodyPartHandle { body: nth_handle(index - 19), part: 0 }
    }
}

/// The collider with the given number.
pub open spec fn demo_collider(index: int) -> Collider {
    let desc = if index == COLLIDER_COUNT - 1 {
        slider_slab()
    } else {
        link_cube()
    };
    Collider { shape: desc.shape, density: desc.density, part: demo_collider_part(index) }
}

/// The scene when its first `bodies` bodies and first `colliders` colliders
/// are in place.
pub open spec fn demo_stage(bodies: nat, colliders: nat) -> WorldView {
    WorldView {
        gravity: vec3(0, -9810, 0),
        bodies: Map::new(
            |h: Handle| h.generation == 0 && h.index < bodies,
            |h: Handle| demo_body(h.index as int),
        ),
        colliders: Map::new(
            |h: Handle| h.generation == 0 && h.index < colliders,
            |h: Handle| demo_collider(h.index as int),
        ),
    }
}

/// The whole scene.
pub open spec fn demo_world() -> WorldView {
    demo_stage(BODY_COUNT as nat, COLLIDER_COUNT as nat)
}

/// The two motors under threshold control: the screw is driven while it is
/// more than five units down and until it is back at zero; the slider is
/// driven while it is more than ten units down and until it is above four
/// units down.
pub open spec fn demo_controllers() -> Seq<Controller> {
    seq![
        Controller {
            part: BodyPartHandle { body: nth_handle(4), part: 0 },
            dof: 0,
            rule: Hysteresis { enable_below: (-5000) as i64, disable_above: 0 },
        },
        Controller {
            part: BodyPartHandle { body: nth_handle(55), part: 0 },
            dof: 0,
            rule: Hysteresis { enable_below: (-10000) as i64, disable_above: (-4000) as i64 },
        },
    ]
}

/// The scene, ready to be handed to a simulation: the world, the motors
/// under threshold control, the handle of the ground, and where the camera
/// stands and looks.
#[derive(Debug)]
pub struct Scene {
    pub world: World,
    pub controllers: Vec<Controller>,
    pub ground: Handle,
    pub camera_eye: Vec3,
    pub camera_target: Vec3,
}

/// A chain of `children + 1` links held by copies of `joint`.
fn build_chain(
    joint: Joint,
    root_parent_shift: Vec3,
    child_parent_shift: Vec3,
    body_shift: Vec3,
    children: usize,
) -> (mb: Multibody)
    requires
        joint.wf(),
    ensures
        mb.wf(),
        mb@.links == chain_links(
            Link {
                joint,
                parent: None,
                parent_shift: root_parent_shift,
                body_shift: Placement::Offset(body_shift),
            },
            Link {
                joint,
                parent: None,
                parent_shift: child_parent_shift,
                body_shift: Placement::Offset(body_shift),
            },
            children as nat,
        ),
        mb@.damping == default_damping(mb@.links),
{
    let ghost root = Link {
        joint,
        parent: None,
        parent_shift: root_parent_shift,
        body_shift: Placement::Offset(body_shift),
    };
    let ghost child = Link { parent_shift: child_parent_shift, ..root };
    let mut mb = Multibody::new(joint).unwrap();
    let ghost bare = mb@.links;
    mb.set_parent_shift(0, root_parent_shift).unwrap();
    mb.set_body_shift(0, Placement::Offset(body_shift)).unwrap();
    proof {
        assert(mb@.links =~= chain_links(root, child, 0));
        lemma_default_damping_same(bare, mb@.links);
    }
    let mut k: usize = 0;
    while k < children
        invariant
            k <= children,
            joint.wf(),
            mb.wf(),
            mb@.links == chain_links(root, child, k as nat),
            mb@.damping == default_damping(mb@.links),
            root == (Link {
                joint,
                parent: None,
                parent_shift: root_parent_shift,
                body_shift: Placement::Offset(body_shift),
            }),
            child == (Link { parent_shift: child_parent_shift, ..root }),
        decreases children - k,
    {
        let ghost before = mb@.links;
        mb.add_child(k, joint).unwrap();
        let ghost grown = mb@.links;
        proof {
            lemma_default_damping_push(before, Link::fresh(Some(k), joint));
        }
        mb.set_parent_shift(k + 1, child_parent_shift).unwrap();
        mb.set_body_shift(k + 1, Placement::Offset(body_shift)).unwrap();
        proof {
            assert(mb@.links =~= chain_links(root, child, (k + 1) as nat));
            lemma_default_damping_same(grown, mb@.links);
        }
        k += 1;
    }
    mb
}

/// A multibody of one link held by `joint`.
fn build_single(joint: Joint, parent_shift: Vec3) -> (mb: Multibody)
    requires
        joint.wf(),
    ensures
        mb.wf(),
        mb@ == single(joint, parent_shift),
{
    let mut mb = Multibody::new(joint).unwrap();
    let ghost bare = mb@.links;
    mb.set_parent_shift(0, parent_shift).unwrap();
    proof {
        assert(mb@.links =~= single(joint, parent_shift).links);
        lemma_default_damping_same(bare, mb@.links);
    }
    mb
}

/// The chain of revolute joints.
fn build_revolute_chain() -> (mb: Multibody)
    ensures
        mb.wf(),
        mb@ == revolute_chain(),
{
    let revo = Joint::revolute(Axis::x_axis(), -100).unwrap();
    build_chain(
        revo,
        Vec3::new(0, 5000, 11000),
        Vec3::zeros(),
        Vec3::new(0, 0, 640),
        CHAIN_CHILDREN,
    )
}

/// The chain of prismatic joints.
fn build_prismatic_chain() -> (mb: Multibody)
    ensures
        mb.wf(),
        mb@ == prismatic_chain(),
{
    let mut prism = Joint::prismatic(Axis::y_axis(), 0).unwrap();
    prism.change(0, DofChange::EnableMin(-2 * RAD)).unwrap();
    assert(prism == prismatic_joint());
    build_chain(
        prism,
        Vec3::new(0, 5000, 5000),
        Vec3::new(0, 0, 3 * RAD),
        Vec3::zeros(),
        CHAIN_CHILDREN,
    )
}

/// The chain of ball joints, its children around a circle.
fn build_ball_chain() -> (mb: Multibody)
    ensures
        mb.wf(),
        mb@ == ball_chain(),
{
    let spherical = Joint::ball(Vec3::zeros());
    let mut mb = Multibody::new(spherical).unwrap();
    let ghost bare = mb@.links;
    mb.set_parent_shift(0, Vec3::new(0, 5000, 0)).unwrap();
    proof {
        lemma_default_damping_same(bare, mb@.links);
    }
    let mut k: usize = 0;
    while k < CHAIN_CHILDREN
        invariant
            k <= CHAIN_CHILDREN,
            spherical == (Joint::Ball { axisangle: vec3(0, 0, 0) }),
            mb.wf(),
            mb@.links.len() == k + 1,
            forall|n: int| 0 <= n <= k ==> mb@.links[n] == ball_chain().links[n],
            mb@.damping == default_damping(mb@.links),
        decreases CHAIN_CHILDREN - k,
    {
        let ghost before = mb@.links;
        mb.add_child(k, spherical).unwrap();
        let ghost grown = mb@.links;
        proof {
            lemma_default_damping_push(before, Link::fresh(Some(k), spherical));
        }
        let step: u32 = k as u32;
        mb.set_body_shift(
            k + 1,
            Placement::Ring {
                step,
                steps: CHAIN_CHILDREN as u32,
                radius: 5 * RAD,
                height: 300,
            },
        ).unwrap();
        proof {
            lemma_default_damping_same(grown, mb@.links);
        }
        k += 1;
    }
    proof {
        assert(mb@.links =~= ball_chain().links);
    }
    mb
}

/// The fixed root with its child on the universal joint.
fn build_universal_pair() -> (mb: Multibody)
    ensures
        mb.wf(),
        mb@ == universal_pair(),
{
    let mut uni = Joint::universal(Axis::x_axis(), Axis::z_axis(), 0, 0).unwrap();
    uni.change(1, DofChange::EnableMotor).unwrap();
    uni.change(1, DofChange::SetDesiredVelocity(5000)).unwrap();
    assert(uni == universal_joint());
    let mut mb = Multibody::new(Joint::fixed()).unwrap();
    mb.set_parent_shift(0, Vec3::new(0, 3000, -5000)).unwrap();
    mb.add_child(0, uni).unwrap();
    mb.set_body_shift(1, Placement::Offset(Vec3::new(0, 0, -1000))).unwrap();
    // Without damping the child keeps swinging.
    mb.fill_damping(0);
    proof {
        assert(mb@.links =~= universal_pair().links);
        assert(mb@.damping =~= universal_pair().damping);
    }
    mb
}

/// The screw.
fn build_helical() -> (mb: Multibody)
    ensures
        mb.wf(),
        mb@ == single(helical_joint(), vec3(0, -2000, 10000)),
{
    let mut hel = Joint::helical(Axis::y_axis(), 1000, 0).unwrap();
    hel.change(0, DofChange::SetDesiredVelocity(4000)).unwrap();
    assert(hel == helical_joint());
    build_single(hel, Vec3::new(0, -2000, 10000))
}

/// Where the tile in row `i` and column `j` of a grid starts along the two
/// axes of its joint.
fn tile_origin(i: usize, j: usize) -> (origin: (i64, i64))
    requires
        i < GRID_SIDE,
        j < GRID_SIDE,
    ensures
        origin.0 == tile_x(i as int, j as int),
        origin.1 == tile_y(j as int),
{
    let row: i64 = i as i64;
    let column: i64 = j as i64;
    let mut x: i64 = row * TILE_STEP - GRID_HALF_WIDTH;
    let y: i64 = column * TILE_STEP - GRID_HALF_WIDTH;
    if j % 2 == 0 {
        x += 2 * RAD;
    }
    (x, y)
}

/// The tile of the planar grid in row `i` and column `j`.
fn build_planar_tile(i: usize, j: usize) -> (mb: Multibody)
    requires
        i < GRID_SIDE,
        j < GRID_SIDE,
    ensures
        mb.wf(),
        mb@ == single(planar_joint(i as int, j as int), vec3(0, -2000, 5000)),
{
    let (x, y) = tile_origin(i, j);
    let mut planar = Joint::planar(Axis::z_axis(), Axis::y_axis(), x, y, 0).unwrap();
    planar.change(0, DofChange::EnableMin(-GRID_HALF_WIDTH)).unwrap();
    planar.change(0, DofChange::EnableMax(GRID_HALF_WIDTH)).unwrap();
    planar.change(1, DofChange::EnableMin(-5000)).unwrap();
    assert(planar == planar_joint(i as int, j as int));
    build_single(planar, Vec3::new(0, -2000, 5000))
}

/// The tile of the rectangular grid in row `i` and column `j`.
fn build_rectangular_tile(i: usize, j: usize) -> (mb: Multibody)
    requires
        i < GRID_SIDE,
        j < GRID_SIDE,
    ensures
        mb.wf(),
        mb@ == single(rectangular_joint(i as int, j as int), vec3(0, -2000, 0)),
{
    let (x, y) = tile_origin(i, j);
    let mut rect = Joint::rectangular(Axis::z_axis(), Axis::y_axis(), x, y).unwrap();
    rect.change(0, DofChange::EnableMin(-GRID_HALF_WIDTH)).unwrap();
    rect.change(0, DofChange::EnableMax(GRID_HALF_WIDTH)).unwrap();
    rect.change(1, DofChange::EnableMin(-5000)).unwrap();
    assert(rect == rectangular_joint(i as int, j as int));
    build_single(rect, Vec3::new(0, -2000, 0))
}

/// The slider on its pin-slot joint.
fn build_pin_slot() -> (mb: Multibody)
    ensures
        mb.wf(),
        mb@ == single(pin_slot_joint(), vec3(0, 0, -1500)),
{
    let mut pin_slot = Joint::pin_slot(Axis::y_axis(), Axis::x_axis(), -10000, 0).unwrap();
    pin_slot.change(0, DofChange::SetDesiredVelocity(3000)).unwrap();
    assert(pin_slot == pin_slot_joint());
    build_single(pin_slot, Vec3::new(0, 0, -1500))
}

/// Puts the next body of the scene into the world.
fn put_body(world: &mut World, body: Body) -> (h: Handle)
    requires
        old(world).wf(),
        old(world).dense(),
        body.wf(),
        old(world)@ == demo_stage(old(world).body_places(), old(world).collider_places()),
        body@ == demo_body(old(world).body_places() as int),
    ensures
        final(world).wf(),
        final(world).dense(),
        final(world).body_places() == old(world).body_places() + 1,
        final(world).collider_places() == old(world).collider_places(),
        final(world)@ == demo_stage(final(world).body_places(), final(world).collider_places()),
        h == nth_handle(old(world).body_places() as int),
        h.index == old(world).body_places(),
{
    let h = world.insert_body(body);
    proof {
        let stage = demo_stage(world.body_places(), world.collider_places());
        assert(world@.bodies =~= stage.bodies);
    }
    h
}

/// Puts the next `parts` colliders of the scene into the world: one on each
/// of the first `parts` parts of the body `body`.
fn put_colliders(world: &mut World, body: Handle, parts: usize, desc: ColliderDesc)
    requires
        old(world).wf(),
        old(world).dense(),
        old(world)@ == demo_stage(old(world).body_places(), old(world).collider_places()),
        desc.defect() is None,
        body.generation == 0,
        body.index < old(world).body_places(),
        parts <= demo_body(body.index as int).num_parts(),
        forall|k: int|
            0 <= k < parts ==> #[trigger] demo_collider(old(world).collider_places() + k) == (
            Collider {
                shape: desc.shape,
                density: desc.density,
                part: BodyPartHandle { body, part: k as usize },
            }),
    ensures
        final(world).wf(),
        final(world).dense(),
        final(world).body_places() == old(world).body_places(),
        final(world).collider_places() == old(world).collider_places() + parts,
        final(world)@ == demo_stage(final(world).body_places(), final(world).collider_places()),
{
    let mut k: usize = 0;
    while k < parts
        invariant
            k <= parts,
            world.wf(),
            world.dense(),
            world.body_places() == old(world).body_places(),
            world.collider_places() == old(world).collider_places() + k,
            world@ == demo_stage(world.body_places(), world.collider_places()),
            desc.defect() is None,
            body.generation == 0,
            body.index < world.body_places(),
            parts <= demo_body(body.index as int).num_parts(),
            forall|n: int|
                0 <= n < parts ==> #[trigger] demo_collider(old(world).collider_places() + n) == (
                Collider {
                    shape: desc.shape,
                    density: desc.density,
                    part: BodyPartHandle { body, part: n as usize },
                }),
        decreases parts - k,
    {
        let ghost before = world@;
        let ghost place = world.collider_places();
        let part = BodyPartHandle { body, part: k };
        proof {
            assert(before.bodies.dom().contains(body));
            assert(before.bodies[body] == demo_body(body.index as int));
            assert(before.part_defect(part) is None);
            assert(demo_collider(old(world).collider_places() + k) == (Collider {
                shape: desc.shape,
                density: desc.density,
                part,
            }));
        }
        world.insert_collider(desc, part).unwrap();
        proof {
            let stage = demo_stage(world.body_places(), world.collider_places());
            assert(world@.colliders =~= stage.colliders);
            assert(world@.bodies =~= stage.bodies);
        }
        k += 1;
    }
}

/// Builds the demonstration scene.
pub fn init_world() -> (scene: Scene)
    ensures
        scene.world.wf(),
        scene.world.dense(),
        scene.world.body_places() == BODY_COUNT,
        scene.world.collider_places() == COLLIDER_COUNT,
        scene.world@ == demo_world(),
        scene.controllers@ == demo_controllers(),
        scene.ground == nth_handle(BODY_COUNT - 1),
        scene.camera_eye == vec3(30000, -2000, 0),
        scene.camera_target == vec3(0, -2000, 0),
{
    let mut world = World::new(Vec3::new(0, -9810, 0));
    proof {
        assert(world@.bodies =~= demo_stage(0, 0).bodies);
        assert(world@.colliders =~= demo_stage(0, 0).colliders);
    }
    // The shape that stands for each link.
    let cube = ColliderDesc::new(Shape::Cuboid { half_extents: Vec3::repeat(RAD) }).density(1000);

    let revolute = put_body(&mut world, Body::Multibody(build_revolute_chain()));
    put_colliders(&mut world, revolute, CHAIN_CHILDREN + 1, cube);

    let prismatic = put_body(&mut world, Body::Multibody(build_prismatic_chain()));
    put_colliders(&mut world, prismatic, CHAIN_CHILDREN + 1, cube);

    let ball = put_body(&mut world, Body::Multibody(build_ball_chain()));
    put_colliders(&mut world, ball, CHAIN_CHILDREN + 1, cube);

    let universal = put_body(&mut world, Body::Multibody(build_universal_pair()));
    put_colliders(&mut world, universal, 2, cube);

    let helical = put_body(&mut world, Body::Multibody(build_helical()));
    put_colliders(&mut world, helical, 1, cube);

    let mut i: usize = 0;
    while i < GRID_SIDE
        invariant
            i <= GRID_SIDE,
            world.wf(),
            world.dense(),
            world.body_places() == 5 + 5 * i,
            world.collider_places() == 24 + 5 * i,
            world@ == demo_stage(world.body_places(), world.collider_places()),
            cube == link_cube(),
        decreases GRID_SIDE - i,
    {
        let mut j: usize = 0;
        while j < GRID_SIDE
            invariant
                i < GRID_SIDE,
                j <= GRID_SIDE,
                world.wf(),
                world.dense(),
                world.body_places() == 5 + 5 * i + j,
                world.collider_places() == 24 + 5 * i + j,
                world@ == demo_stage(world.body_places(), world.collider_places()),
                cube == link_cube(),
            decreases GRID_SIDE - j,
        {
            let tile = put_body(&mut world, Body::Multibody(build_planar_tile(i, j)));
            put_colliders(&mut world, tile, 1, cube);
            j += 1;
        }
        i += 1;
    }

    let mut i: usize = 0;
    while i < GRID_SIDE
        invariant
            i <= GRID_SIDE,
            world.wf(),
            world.dense(),
            world.body_places() == 30 + 5 * i,
            world.collider_places() == 49 + 5 * i,
            world@ == demo_stage(world.body_places(), world.collider_places()),
            cube == link_cube(),
        decreases GRID_SIDE - i,
    {
        let mut j: usize = 0;
        while j < GRID_SIDE
            invariant
                i < GRID_SIDE,
                j <= GRID_SIDE,
                world.wf(),
                world.dense(),
                world.body_places() == 30 + 5 * i + j,
                world.collider_places() == 49 + 5 * i + j,
                world@ == demo_stage(world.body_places(), world.collider_places()),
                cube == link_cube(),
            decreases GRID_SIDE - j,
        {
            let tile = put_body(&mut world, Body::Multibody(build_rectangular_tile(i, j)));
            put_colliders(&mut world, tile, 1, cube);
            j += 1;
        }
        i += 1;
    }

    let slab = ColliderDesc::new(
        Shape::Cuboid { half_extents: Vec3::new(5 * RAD, RAD, 5 * RAD) },
    ).density(1000);
    let pin_slot = put_body(&mut world, Body::Multibody(build_pin_slot()));
    put_colliders(&mut world, pin_slot, 1, slab);

    // The screw is driven up again whenever it has sunk too low, and so is
    // the slider.
    let mut controllers: Vec<Controller> = Vec::new();
    controllers.push(
        Controller {
            part: BodyPartHandle { body: helical, part: 0 },
            dof: 0,
            rule: Hysteresis { enable_below: -5000, disable_above: 0 },
        },
    );
    controllers.push(
        Controller {
            part: BodyPartHandle { body: pin_slot, part: 0 },
            dof: 0,
            rule: Hysteresis { enable_below: -10000, disable_above: -4000 },
        },
    );
    proof {
        assert(controllers@ =~= demo_controllers());
    }

    // A body that never moves, for the simulation to anchor what it drags.
    let ground = put_body(&mut world, Body::Ground);

    Scene {
        world,
        controllers,
        ground,
        camera_eye: Vec3::new(30000, -2000, 0),
        camera_target: Vec3::new(0, -2000, 0),
    }
}

} // verus!
