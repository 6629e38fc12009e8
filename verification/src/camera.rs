//! The camera controller: which direction commands are held down, and the
//! motion that they add up to.
//!
//! Keys are named by their USB HID keyboard usage number. The controller keeps
//! no pose. It reports the commanded motion as whole steps along five axes,
//! and whoever owns the pose scales them by the rates per second and by the
//! time that has passed. Directions are never normalised: forward together
//! with right is a diagonal motion that is longer than either alone.

use std::collections::HashMap;
use vstd::prelude::*;
use vstd::std_specs::hash::group_hash_axioms;

verus! {

broadcast use group_hash_axioms;

pub const KEY_A: u32 = 0x04;

pub const KEY_C: u32 = 0x06;

pub const KEY_D: u32 = 0x07;

pub const KEY_E: u32 = 0x08;

pub const KEY_F: u32 = 0x09;

pub const KEY_Q: u32 = 0x14;

pub const KEY_R: u32 = 0x15;

pub const KEY_S: u32 = 0x16;

pub const KEY_W: u32 = 0x1A;

pub const KEY_SPACE: u32 = 0x2C;

/// The direction commands that a key can be bound to.
#[derive(Clone, Copy, Debug, PartialEq, Eq, Structural)]
pub enum CameraDirection {
    Forward,
    Backward,
    Left,
    Right,
    Up,
    Down,
    SpinLeft,
    SpinRight,
    SpinForward,
    SpinBackward,
}

/// A motion in whole steps along the camera's own axes.
pub struct MotionVector {
    pub forward: int,
    pub right: int,
    pub up: int,
    pub spin_right: int,
    pub spin_forward: int,
}

impl MotionVector {
    pub open spec fn zero() -> MotionVector {
        MotionVector { forward: 0, right: 0, up: 0, spin_right: 0, spin_forward: 0 }
    }

    pub open spec fn plus(self, other: MotionVector) -> MotionVector {
        MotionVector {
            forward: self.forward + other.forward,
            right: self.right + other.right,
            up: self.up + other.up,
            spin_right: self.spin_right + other.spin_right,
            spin_forward: self.spin_forward + other.spin_forward,
        }
    }
}

impl CameraDirection {
    /// One step in this direction: translations go along the camera's forward,
    /// right and up axes, spins turn it to the right or forward, and each
    /// direction is the negative of its opposite.
    pub open spec fn unit(self) -> MotionVector {
        let zero = MotionVector::zero();
        match self {
            CameraDirection::Forward => MotionVector { forward: 1, ..zero },
            CameraDirection::Backward => MotionVector { forward: -1, ..zero },
            CameraDirection::Right => MotionVector { right: 1, ..zero },
            CameraDirection::Left => MotionVector { right: -1, ..zero },
            CameraDirection::Up => MotionVector { up: 1, ..zero },
            CameraDirection::Down => MotionVector { up: -1, ..zero },
            CameraDirection::SpinRight => MotionVector { spin_right: 1, ..zero },
            CameraDirection::SpinLeft => MotionVector { spin_right: -1, ..zero },
            CameraDirection::SpinForward => MotionVector { spin_forward: 1, ..zero },
            CameraDirection::SpinBackward => MotionVector { spin_forward: -1, ..zero },
        }
    }
}

/// The set of directions that are held down.
#[derive(Clone, Copy, Debug, PartialEq, Eq, Structural)]
pub struct ActiveDirections {
    pub forward: bool,
    pub backward: bool,
    pub left: bool,
    pub right: bool,
    pub up: bool,
    pub down: bool,
    pub spin_left: bool,
    pub spin_right: bool,
    pub spin_forward: bool,
    pub spin_backward: bool,
}

impl ActiveDirections {
    /// No direction is held down.
    pub open spec fn none() -> ActiveDirections {
        ActiveDirections {
            forward: false,
            backward: false,
            left: false,
            right: false,
            up: false,
            down: false,
            spin_left: false,
            spin_right: false,
            spin_forward: false,
            spin_backward: false,
        }
    }

    /// Whether `direction` is held down.
    pub open spec fn contains(self, direction: CameraDirection) -> bool {
        match direction {
            CameraDirection::Forward => self.forward,
            CameraDirection::Backward => self.backward,
            CameraDirection::Left => self.left,
            CameraDirection::Right => self.right,
            CameraDirection::Up => self.up,
            CameraDirection::Down => self.down,
            CameraDirection::SpinLeft => self.spin_left,
            CameraDirection::SpinRight => self.spin_right,
            CameraDirection::SpinForward => self.spin_forward,
            CameraDirection::SpinBackward => self.spin_backward,
        }
    }

    /// The same set, but with `direction` held down or not as `held` says.
    pub open spec fn with(self, direction: CameraDirection, held: bool) -> ActiveDirections {
        match direction {
            CameraDirection::Forward => ActiveDirections { forward: held, ..self },
            CameraDirection::Backward => ActiveDirections { backward: held, ..self },
            CameraDirection::Left => ActiveDirections { left: held, ..self },
            CameraDirection::Right => ActiveDirections { right: held, ..self },
            CameraDirection::Up => ActiveDirections { up: held, ..self },
            CameraDirection::Down => ActiveDirections { down: held, ..self },
            CameraDirection::SpinLeft => ActiveDirections { spin_left: held, ..self },
            CameraDirection::SpinRight => ActiveDirections { spin_right: held, ..self },
            CameraDirection::SpinForward => ActiveDirections { spin_forward: held, ..self },
            CameraDirection::SpinBackward => ActiveDirections { spin_backward: held, ..self },
        }
    }

    /// What `direction` adds to the motion: its unit step if it is held down.
    pub open spec fn share(self, direction: CameraDirection) -> MotionVector {
        if self.contains(direction) {
            direction.unit()
        } else {
            MotionVector::zero()
        }
    }

    /// The commanded motion: the sum of the unit steps of all directions that
    /// are held down.
    #[verifier::opaque]
    pub open spec fn net_motion(self) -> MotionVector {
        self.share(CameraDirection::Forward).plus(self.share(CameraDirection::Backward)).plus(
            self.share(CameraDirection::Left),
        ).plus(self.share(CameraDirection::Right)).plus(self.share(CameraDirection::Up)).plus(
            self.share(CameraDirection::Down),
        ).plus(self.share(CameraDirection::SpinLeft)).plus(
            self.share(CameraDirection::SpinRight),
        ).plus(self.share(CameraDirection::SpinForward)).plus(
            self.share(CameraDirection::SpinBackward),
        )
    }

    /// The state in which no direction is held down.
    pub fn new() -> (active: ActiveDirections)
        ensures
            active == ActiveDirections::none(),
    {
        ActiveDirections {
            forward: false,
            backward: false,
            left: false,
            right: false,
            up: false,
            down: false,
            spin_left: false,
            spin_right: false,
            spin_forward: false,
            spin_backward: false,
        }
    }

    /// Whether `direction` is held down.
    pub fn is_active(&self, direction: CameraDirection) -> (held: bool)
        ensures
            held == self.contains(direction),
    {
        match direction {
            CameraDirection::Forward => self.forward,
            CameraDirection::Backward => self.backward,
            CameraDirection::Left => self.left,
            CameraDirection::Right => self.right,
            CameraDirection::Up => self.up,
            CameraDirection::Down => self.down,
            CameraDirection::SpinLeft => self.spin_left,
            CameraDirection::SpinRight => self.spin_right,
            CameraDirection::SpinForward => self.spin_forward,
            CameraDirection::SpinBackward => self.spin_backward,
        }
    }

    /// Records that `direction` is held down, or that it no longer is.
    pub fn set(&mut self, direction: CameraDirection, held: bool)
        ensures
            *final(self) == old(self).with(direction, held),
    {
        let current = *self;
        *self = match direction {
            CameraDirection::Forward => ActiveDirections { forward: held, ..current },
            CameraDirection::Backward => ActiveDirections { backward: held, ..current },
            CameraDirection::Left => ActiveDirections { left: held, ..current },
            CameraDirection::Right => ActiveDirections { right: held, ..current },
            CameraDirection::Up => ActiveDirections { up: held, ..current },
            CameraDirection::Down => ActiveDirections { down: held, ..current },
            CameraDirection::SpinLeft => ActiveDirections { spin_left: held, ..current },
            CameraDirection::SpinRight => ActiveDirections { spin_right: held, ..current },
            CameraDirection::SpinForward => ActiveDirections { spin_forward: held, ..current },
            CameraDirection::SpinBackward => ActiveDirections { spin_backward: held, ..current },
        };
    }

    /// The commanded motion in the form that the driver receives.
    pub open spec fn commanded(self) -> Motion {
        let net = self.net_motion();
        Motion {
            forward: net.forward as i8,
            right: net.right as i8,
            up: net.up as i8,
            spin_right: net.spin_right as i8,
            spin_forward: net.spin_forward as i8,
        }
    }

    /// Along each axis the commanded motion is the step of the direction
    /// that is held down minus that of its opposite.
    pub proof fn lemma_net_motion_by_axis(self)
        ensures
            self.net_motion() == (MotionVector {
                forward: axis_step(self.forward, self.backward),
                right: axis_step(self.right, self.left),
                up: axis_step(self.up, self.down),
                spin_right: axis_step(self.spin_right, self.spin_left),
                spin_forward: axis_step(self.spin_forward, self.spin_backward),
            }),
    {
        reveal(ActiveDirections::net_motion);
    }

    /// The commanded motion.
    pub fn motion(&self) -> (motion: Motion)
        ensures
            motion@ == self.net_motion(),
            motion == self.commanded(),
    {
        proof {
            self.lemma_net_motion_by_axis();
        }
        Motion {
            forward: axis(self.forward, self.backward),
            right: axis(self.right, self.left),
            up: axis(self.up, self.down),
            spin_right: axis(self.spin_right, self.spin_left),
            spin_forward: axis(self.spin_forward, self.spin_backward),
        }
    }
}

/// The commanded motion as the driver receives it: for each axis one step
/// forward, one step back, or none.
#[derive(Clone, Copy, Debug, PartialEq, Eq, Structural)]
pub struct Motion {
    pub forward: i8,
    pub right: i8,
    pub up: i8,
    pub spin_right: i8,
    pub spin_forward: i8,
}

impl View for Motion {
    type V = MotionVector;

    open spec fn view(&self) -> MotionVector {
        MotionVector {
            forward: self.forward as int,
            right: self.right as int,
            up: self.up as int,
            spin_right: self.spin_right as int,
            spin_forward: self.spin_forward as int,
        }
    }
}

/// The step along one axis when its two opposite directions are held down as
/// given: they cancel each other.
pub open spec fn axis_step(positive: bool, negative: bool) -> int {
    (if positive {
        1int
    } else {
        0int
    }) - (if negative {
        1int
    } else {
        0int
    })
}

fn axis(positive: bool, negative: bool) -> (step: i8)
    ensures
        step == axis_step(positive, negative),
{
    if positive == negative {
        0
    } else if positive {
        1
    } else {
        -1
    }
}

/// Which key commands which direction. A key commands at most one direction.
pub struct KeyBindingTable {
    directions: HashMap<u32, CameraDirection>,
}

impl View for KeyBindingTable {
    type V = Map<u32, CameraDirection>;

    closed spec fn view(&self) -> Map<u32, CameraDirection> {
        self.directions@
    }
}

impl KeyBindingTable {
    /// A table that binds no key.
    pub fn new() -> (table: KeyBindingTable)
        ensures
            table@ == Map::<u32, CameraDirection>::empty(),
    {
        KeyBindingTable { directions: HashMap::new() }
    }

    /// Binds `key` to `direction`, in place of what it was bound to before.
    pub fn bind(&mut self, key: u32, direction: CameraDirection)
        ensures
            final(self)@ == old(self)@.insert(key, direction),
    {
        self.directions.insert(key, direction);
    }

    /// The direction that `key` commands, if it is bound.
    pub fn direction_of(&self, key: u32) -> (direction: Option<CameraDirection>)
        ensures
            direction == (if self@.contains_key(key) {
                Some(self@[key])
            } else {
                None
            }),
    {
        match self.directions.get(&key) {
            Some(direction) => Some(*direction),
            None => None,
        }
    }
}

/// The customary bindings: W, S, A and D move forward, backward, left and
/// right, Space and C move up and down, Q and E spin left and right, R and F
/// spin forward and backward.
pub open spec fn default_bindings() -> Map<u32, CameraDirection> {
    Map::<u32, CameraDirection>::empty().insert(KEY_W, CameraDirection::Forward).insert(
        KEY_S,
        CameraDirection::Backward,
    ).insert(KEY_A, CameraDirection::Left).insert(KEY_D, CameraDirection::Right).insert(
        KEY_SPACE,
        CameraDirection::Up,
    ).insert(KEY_C, CameraDirection::Down).insert(KEY_Q, CameraDirection::SpinLeft).insert(
        KEY_E,
        CameraDirection::SpinRight,
    ).insert(KEY_R, CameraDirection::SpinForward).insert(KEY_F, CameraDirection::SpinBackward)
}

/// Builds the table of the customary bindings.
pub fn camera_controls() -> (camera_map: KeyBindingTable)
    ensures
        camera_map@ == default_bindings(),
{
    let mut camera_map = KeyBindingTable::new();
    camera_map.bind(KEY_W, CameraDirection::Forward);
    camera_map.bind(KEY_S, CameraDirection::Backward);
    camera_map.bind(KEY_A, CameraDirection::Left);
    camera_map.bind(KEY_D, CameraDirection::Right);
    camera_map.bind(KEY_SPACE, CameraDirection::Up);
    camera_map.bind(KEY_C, CameraDirection::Down);
    camera_map.bind(KEY_Q, CameraDirection::SpinLeft);
    camera_map.bind(KEY_E, CameraDirection::SpinRight);
    camera_map.bind(KEY_R, CameraDirection::SpinForward);
    camera_map.bind(KEY_F, CameraDirection::SpinBackward);
    camera_map
}

/// What a key event does to the set of held directions: a bound key switches
/// its direction on or off, an unbound key changes nothing.
pub open spec fn key_effect(
    bindings: Map<u32, CameraDirection>,
    active: ActiveDirections,
    key: u32,
    pressed: bool,
) -> ActiveDirections {
    if bindings.contains_key(key) {
        active.with(bindings[key], pressed)
    } else {
        active
    }
}

/// Tracks the held directions of one camera under a fixed set of bindings.
pub struct CameraController {
    bindings: KeyBindingTable,
    active: ActiveDirections,
}

impl CameraController {
    /// The bindings, which never change.
    pub closed spec fn bindings(&self) -> Map<u32, CameraDirection> {
        self.bindings@
    }

    /// The directions that are held down.
    pub closed spec fn active(&self) -> ActiveDirections {
        self.active
    }

    /// A controller with the given bindings and no direction held down.
    pub fn new(bindings: KeyBindingTable) -> (controller: CameraController)
        ensures
            controller.bindings() == bindings@,
            controller.active() == ActiveDirections::none(),
    {
        CameraController { bindings, active: ActiveDirections::new() }
    }

    /// Takes a key press or release.
    pub fn on_key(&mut self, key: u32, pressed: bool)
        ensures
            final(self).bindings() == old(self).bindings(),
            final(self).active() == key_effect(
                old(self).bindings(),
                old(self).active(),
                key,
                pressed,
            ),
    {
        match self.bindings.direction_of(key) {
            Some(direction) => self.active.set(direction, pressed),
            None => {},
        }
    }

    /// The directions that are held down.
    pub fn held(&self) -> (active: ActiveDirections)
        ensures
            active == self.active(),
    {
        self.active
    }

    /// The motion that the held directions command.
    pub fn motion(&self) -> (motion: Motion)
        ensures
            motion@ == self.active().net_motion(),
            motion == self.active().commanded(),
    {
        self.active.motion()
    }
}

/// Setting a direction changes that direction and no other.
pub proof fn lemma_with_changes_one_direction(
    active: ActiveDirections,
    direction: CameraDirection,
    held: bool,
    other: CameraDirection,
)
    ensures
        active.with(direction, held).contains(other) == (if other == direction {
            held
        } else {
            active.contains(other)
        }),
{
}

/// Directions compose by addition. Holding down one more direction adds its
/// unit step to the commanded motion, whatever else is held down, and
/// letting it go takes the step away again. Nothing is normalised.
pub proof fn lemma_directions_add_up(active: ActiveDirections, direction: CameraDirection)
    requires
        !active.contains(direction),
    ensures
        active.with(direction, true).net_motion() == active.net_motion().plus(direction.unit()),
        active.with(direction, true).with(direction, false) == active,
{
    active.lemma_net_motion_by_axis();
    active.with(direction, true).lemma_net_motion_by_axis();
}

/// With nothing else held down, a key bound to a direction commands exactly
/// one step of that direction, and releasing it commands rest.
pub proof fn lemma_single_key_commands_its_direction(
    bindings: Map<u32, CameraDirection>,
    key: u32,
)
    requires
        bindings.contains_key(key),
    ensures
        key_effect(bindings, ActiveDirections::none(), key, true).net_motion()
            == bindings[key].unit(),
        key_effect(
            bindings,
            key_effect(bindings, ActiveDirections::none(), key, true),
            key,
            false,
        ) == ActiveDirections::none(),
        ActiveDirections::none().net_motion() == MotionVector::zero(),
{
    let direction = bindings[key];
    ActiveDirections::none().lemma_net_motion_by_axis();
    ActiveDirections::none().with(direction, true).lemma_net_motion_by_axis();
}

/// Forward and right held down together command a diagonal motion: one step
/// on each of the two axes, and none on the others.
pub proof fn lemma_forward_and_right_move_diagonally(
    bindings: Map<u32, CameraDirection>,
    forward_key: u32,
    right_key: u32,
)
    requires
        bindings.contains_key(forward_key),
        bindings[forward_key] == CameraDirection::Forward,
        bindings.contains_key(right_key),
        bindings[right_key] == CameraDirection::Right,
    ensures
        ({
            let forward = key_effect(bindings, ActiveDirections::none(), forward_key, true);
            let both = key_effect(bindings, forward, right_key, true);
            both.net_motion() == (MotionVector {
                forward: 1,
                right: 1,
                up: 0,
                spin_right: 0,
                spin_forward: 0,
            })
        }),
{
    let forward = ActiveDirections::none().with(CameraDirection::Forward, true);
    forward.with(CameraDirection::Right, true).lemma_net_motion_by_axis();
}

/// A key that is not bound leaves the held directions as they are.
pub proof fn lemma_unbound_key_is_ignored(
    bindings: Map<u32, CameraDirection>,
    active: ActiveDirections,
    key: u32,
    pressed: bool,
)
    requires
        !bindings.contains_key(key),
    ensures
        key_effect(bindings, active, key, pressed) == active,
{
}

} // verus!
