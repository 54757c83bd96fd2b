//! The player: ground contact, the hop, lane steps and the score.
//!
//! The player's body belongs to the physics engine. The functions here read
//! what the engine and the keyboard report and answer with the shifts that
//! the caller applies to the player's body and to the camera.

use crate::units::{GROUND_EPSILON, JUMP_NUDGE, LANE_STEP};
use vstd::prelude::*;

verus! {

/// The score: the lane the player is in, counted from the start.
#[derive(Clone, Copy, Debug, PartialEq, Eq, Structural)]
pub struct Score {
    pub current_road: i32,
}

/// The player's state beside the score.
#[derive(Clone, Copy, Debug, PartialEq, Eq, Structural)]
pub struct Player {
    pub is_on_ground: bool,
}

/// One flag for each of the four direction keys.
#[derive(Clone, Copy, Debug, PartialEq, Eq, Structural)]
pub struct Keys {
    pub up: bool,
    pub down: bool,
    pub left: bool,
    pub right: bool,
}

/// The keyboard as one tick sees it.
#[derive(Clone, Copy, Debug, PartialEq, Eq, Structural)]
pub struct Controls {
    /// Keys that are down during this tick.
    pub pressed: Keys,
    /// Keys that went down in this tick.
    pub just_pressed: Keys,
}

/// A shift of a body, in steps along each axis: `x` across the road, `y` up,
/// `z` along the road.
#[derive(Clone, Copy, Debug, PartialEq, Eq, Structural)]
pub struct Shift {
    pub dx: i64,
    pub dy: i64,
    pub dz: i64,
}

impl Keys {
    /// No key.
    pub fn none() -> (keys: Keys)
        ensures
            keys == (Keys { up: false, down: false, left: false, right: false }),
    {
        Keys { up: false, down: false, left: false, right: false }
    }

    pub open spec fn spec_any(self) -> bool {
        self.up || self.down || self.left || self.right
    }

    /// Whether at least one of the four keys is set.
    #[verifier::when_used_as_spec(spec_any)]
    pub fn any(self) -> (any: bool)
        ensures
            any == self.spec_any(),
    {
        self.up || self.down || self.left || self.right
    }
}

impl Score {
    /// The score at the start of a run.
    pub fn new() -> (score: Score)
        ensures
            score.current_road == 0,
    {
        Score { current_road: 0 }
    }
}

impl Player {
    /// The player at the start of a run: not yet known to stand.
    pub fn new() -> (player: Player)
        ensures
            !player.is_on_ground,
    {
        Player { is_on_ground: false }
    }
}

/// One if the key went down, else nothing.
pub open spec fn edge(went_down: bool) -> int {
    if went_down {
        1
    } else {
        0
    }
}

/// How many lanes the keys that went down in a tick move the player: one
/// forward for Up and one back for Down, each counted on its own, so that
/// the two together leave the player in the lane.
pub open spec fn lane_change(just_pressed: Keys) -> int {
    edge(just_pressed.up) - edge(just_pressed.down)
}

/// How far across the road the keys that went down in a tick move the
/// player: one lane step to the left for Left and one to the right for
/// Right, each counted on its own, whatever Up and Down do.
pub open spec fn step_dx(just_pressed: Keys) -> int {
    LANE_STEP * (edge(just_pressed.left) - edge(just_pressed.right))
}

/// How far along the road the keys that went down in a tick move the player:
/// one lane step for each lane of `lane_change`.
pub open spec fn step_dz(just_pressed: Keys) -> int {
    LANE_STEP * lane_change(just_pressed)
}

/// The upward shift of the player in a tick: the nudge while the player
/// stands and a direction key is down, else nothing.
pub open spec fn hop(pressed: Keys, is_on_ground: bool) -> int {
    if pressed.any() && is_on_ground {
        JUMP_NUDGE as int
    } else {
        0
    }
}

/// Whether a body with the given vertical speed, in steps per second, counts
/// as standing on the ground.
pub open spec fn grounded(vertical_velocity: int) -> bool {
    vertical_velocity <= GROUND_EPSILON
}

/// Tells how far to lift the player in this tick. The player is lifted by
/// the nudge in every tick in which a direction key is down while the player
/// stands, so a key that is held lifts the player tick after tick.
pub fn player_jump(controls: &Controls, player: &Player) -> (rise: i64)
    ensures
        rise == hop(controls.pressed, player.is_on_ground),
{
    if controls.pressed.any() && player.is_on_ground {
        JUMP_NUDGE
    } else {
        0
    }
}

/// Steps the player by the keys that went down in this tick and returns the
/// shift to apply to the player's body and, unchanged, to the camera. Each
/// key counts once and on its own: Up and Down move the player one lane
/// forward or back and count into the score; Left and Right move the player
/// one lane step sideways and leave the score alone. Keys that are merely
/// held do nothing here.
pub fn move_tiles(controls: &Controls, score: &mut Score) -> (shift: Shift)
    requires
        i32::MIN <= old(score).current_road + lane_change(controls.just_pressed) <= i32::MAX,
    ensures
        final(score).current_road == old(score).current_road + lane_change(controls.just_pressed),
        shift.dx == step_dx(controls.just_pressed),
        shift.dy == 0,
        shift.dz == step_dz(controls.just_pressed),
{
    let keys = controls.just_pressed;
    let mut lanes: i32 = 0;
    let mut shift = Shift { dx: 0, dy: 0, dz: 0 };
    if keys.up {
        lanes = lanes + 1;
        shift.dz = shift.dz + LANE_STEP;
    }
    if keys.down {
        lanes = lanes - 1;
        shift.dz = shift.dz - LANE_STEP;
    }
    if keys.left {
        shift.dx = shift.dx + LANE_STEP;
    }
    if keys.right {
        shift.dx = shift.dx - LANE_STEP;
    }
    score.current_road = score.current_road + lanes;
    shift
}

/// Sets the player's ground contact from the vertical speed that the physics
/// engine reports for this tick, in steps per second. Nothing of the flag's
/// earlier value is kept.
pub fn check_player_on_ground(vertical_velocity: i64, player: &mut Player)
    ensures
        final(player).is_on_ground == grounded(vertical_velocity as int),
{
    player.is_on_ground = vertical_velocity <= GROUND_EPSILON;
}

} // verus!
